//! Reading the links out of a page: one per anchor element that carries an
//! `href`, in the order the anchors stand in the document.

use vstd::prelude::*;

verus! {

/// What the HTML parser finds in `html` for the CSS selector `selector`: for
/// each selected element, in the order the parser hands them out, the value of
/// its attribute `attr` where it has one. `None` where the selector itself
/// does not parse.
pub uninterp spec fn selected_attrs(html: Seq<char>, selector: Seq<char>, attr: Seq<char>) -> Option<
    Seq<Option<Seq<char>>>,
>;

/// `Html::parse_document`, `Selector::parse`, `Html::select` and
/// `Element::attr` of scraper, in that order. Not proved: that what they find
/// depends on the three texts alone. The parser recovers from malformed markup,
/// so only the selector can be refused.
#[verifier::external_body]
fn select_attrs(html: &str, selector: &str, attr: &str) -> (found: Option<Vec<Option<String>>>)
    ensures
        found is Some <==> selected_attrs(html@, selector@, attr@) is Some,
        found matches Some(values) ==> selected_attrs(html@, selector@, attr@) == Some(
            attr_texts(values@),
        ),
{
    let document = scraper::Html::parse_document(html);
    match scraper::Selector::parse(selector) {
        Ok(chosen) => Some(
            document.select(&chosen).map(
                |element| element.value().attr(attr).map(str::to_owned),
            ).collect(),
        ),
        Err(_) => None,
    }
}

/// Attribute values as texts.
pub open spec fn attr_texts(values: Seq<Option<String>>) -> Seq<Option<Seq<char>>> {
    values.map_values(
        |value: Option<String>|
            match value {
                Some(text) => Some(text@),
                None => None,
            },
    )
}

/// The values that are there, in order; the absent ones leave no trace.
pub open spec fn present(values: Seq<Option<Seq<char>>>) -> Seq<Seq<char>> {
    values.filter(|value: Option<Seq<char>>| value is Some).map_values(
        |value: Option<Seq<char>>| value.unwrap(),
    )
}

/// The links of a page: the `href` of every `a` element that has one.
pub open spec fn page_links(html: Seq<char>) -> Seq<Seq<char>> {
    match selected_attrs(html, "a"@, "href"@) {
        Some(anchors) => present(anchors),
        None => Seq::empty(),
    }
}

/// An anchor with an `href` adds exactly that link behind the earlier ones;
/// an anchor without one adds nothing.
pub proof fn lemma_present_push(values: Seq<Option<Seq<char>>>, value: Option<Seq<char>>)
    ensures
        present(values.push(value)) == match value {
            Some(text) => present(values).push(text),
            None => present(values),
        },
{
    let has = |value: Option<Seq<char>>| value is Some;
    let all = values.push(value);
    assert(all.drop_last() =~= values);
    reveal(Seq::filter);
    match value {
        Some(text) => {
            assert(all.filter(has) =~= values.filter(has).push(value));
            assert(present(all) =~= present(values).push(text));
        },
        None => {
            assert(all.filter(has) =~= values.filter(has));
        },
    }
}

/// One link for each anchor that carries an `href`, verbatim and in order;
/// an anchor without one contributes nothing.
pub fn collect_hrefs(anchors: &Vec<Option<String>>) -> (hrefs: Vec<String>)
    ensures
        hrefs.deep_view() == present(attr_texts(anchors@)),
{
    let mut hrefs: Vec<String> = Vec::new();
    let mut i: usize = 0;
    while i < anchors.len()
        invariant
            i <= anchors.len(),
            hrefs.deep_view() == present(attr_texts(anchors@).take(i as int)),
        decreases anchors.len() - i,
    {
        let ghost before = hrefs.deep_view();
        let ghost seen = attr_texts(anchors@).take(i as int);
        match &anchors[i] {
            Some(href) => {
                hrefs.push(href.clone());
            },
            None => {},
        }
        proof {
            let next = attr_texts(anchors@).take(i + 1);
            let value = attr_texts(anchors@)[i as int];
            assert(next =~= seen.push(value));
            lemma_present_push(seen, value);
            match value {
                Some(text) => {
                    assert(hrefs.deep_view() =~= before.push(text));
                },
                None => {
                    assert(hrefs.deep_view() =~= before);
                },
            }
        }
        i += 1;
    }
    proof {
        assert(attr_texts(anchors@).take(anchors.len() as int) =~= attr_texts(anchors@));
    }
    hrefs
}

/// The links of the page `html`, which need not be well formed: the parser
/// keeps what structure it can recover, so every text has an answer.
pub fn extract_links(html: &str) -> (links: Vec<String>)
    ensures
        links.deep_view() == page_links(html@),
{
    match select_attrs(html, "a", "href") {
        Some(anchors) => collect_hrefs(&anchors),
        None => Vec::new(),
    }
}

} // verus!
