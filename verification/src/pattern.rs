//! The filter pattern: a compiled regular expression, seen in contracts as the
//! text it was compiled from.

use crate::error::ScrapeError;
use regex::Regex;
use vstd::prelude::*;

verus! {

/// The compiled form of a pattern, as the regex engine holds it.
#[verifier::external_type_specification]
#[verifier::external_body]
pub struct ExRegex(regex::Regex);

/// What the regex engine says against `source`: `None` where it compiles the
/// pattern, else its description of the fault.
pub uninterp spec fn regex_refusal(source: Seq<char>) -> Option<Seq<char>>;

/// The pattern text that a compiled regex was built from.
pub uninterp spec fn regex_source(regex: Regex) -> Seq<char>;

/// Whether a compiled regex was built from its pattern text alone, with the
/// engine's default options, so that the text decides what it matches.
pub uninterp spec fn regex_plain(regex: Regex) -> bool;

/// Whether the pattern `source`, compiled with the engine's default options,
/// finds a match anywhere in `text`.
pub uninterp spec fn regex_matches(source: Seq<char>, text: Seq<char>) -> bool;

/// `Regex::new`, with the error rendered as the text it displays. Not proved:
/// that the engine's verdict and its description of a fault depend on the
/// pattern text alone, that the compiled regex reports that text as its
/// source and is built with the default options, and that the empty pattern
/// is valid.
#[verifier::external_body]
fn compile(source: &str) -> (compiled: Result<Regex, String>)
    ensures
        compiled is Ok <==> regex_refusal(source@) is None,
        compiled matches Ok(regex) ==> regex_source(regex) == source@ && regex_plain(regex),
        compiled matches Err(fault) ==> regex_refusal(source@) == Some(fault@),
        source@.len() == 0 ==> compiled is Ok,
{
    match Regex::new(source) {
        Ok(regex) => Ok(regex),
        Err(error) => Err(error.to_string()),
    }
}

/// `Regex::as_str`: the text the regex was compiled from.
#[verifier::external_body]
fn source_of(regex: &Regex) -> (source: &str)
    ensures
        source@ == regex_source(*regex),
{
    regex.as_str()
}

/// `Regex::is_match`, on a regex built with the default options. Not proved:
/// that for such a regex the answer depends only on the pattern text and the
/// searched text, and that the empty pattern matches every text.
#[verifier::external_body]
fn search(regex: &Regex, text: &str) -> (found: bool)
    requires
        regex_plain(*regex),
    ensures
        found == regex_matches(regex_source(*regex), text@),
        regex_source(*regex).len() == 0 ==> found,
{
    regex.is_match(text)
}

/// Whether the regex engine compiles `source`.
pub open spec fn regex_accepts(source: Seq<char>) -> bool {
    regex_refusal(source) is None
}

/// Whether `error` is the refusal of the pattern `source`, carrying the
/// engine's description of the fault.
pub open spec fn pattern_fault(source: Seq<char>, error: ScrapeError) -> bool {
    error matches ScrapeError::InvalidPattern(fault) && regex_refusal(source) == Some(fault@)
}

/// A pattern that compiled, with the engine's default options.
#[derive(Debug)]
pub struct Pattern {
    regex: Regex,
}

impl View for Pattern {
    type V = Seq<char>;

    /// The pattern text.
    closed spec fn view(&self) -> Seq<char> {
        regex_source(self.regex)
    }
}

impl Pattern {
    /// The regex inside was built from the pattern text alone.
    #[verifier::type_invariant]
    closed spec fn built_plain(self) -> bool {
        regex_plain(self.regex)
    }

    /// Compiles `source`, or says why the engine refuses it. The empty
    /// pattern is never refused.
    pub fn new(source: &str) -> (made: Result<Pattern, ScrapeError>)
        ensures
            made is Ok <==> regex_accepts(source@),
            source@.len() == 0 ==> made is Ok,
            made matches Ok(pattern) ==> pattern@ == source@,
            made matches Err(error) ==> pattern_fault(source@, error),
    {
        match compile(source) {
            Ok(regex) => Ok(Pattern { regex }),
            Err(fault) => Err(ScrapeError::InvalidPattern(fault)),
        }
    }

    /// The pattern that matches every text: the empty one.
    pub fn any() -> (pattern: Pattern)
        ensures
            pattern@ == Seq::<char>::empty(),
    {
        proof {
            reveal_strlit("");
        }
        let compiled = compile("");
        let regex = compiled.unwrap();
        assert(regex_source(regex) =~= Seq::<char>::empty());
        Pattern { regex }
    }

    /// The pattern text.
    pub fn as_str(&self) -> (source: &str)
        ensures
            source@ == self@,
    {
        source_of(&self.regex)
    }

    /// Whether the pattern matches anywhere in `text`.
    pub fn is_match(&self, text: &str) -> (found: bool)
        ensures
            found == regex_matches(self@, text@),
            self@.len() == 0 ==> found,
    {
        proof {
            use_type_invariant(self);
        }
        search(&self.regex, text)
    }
}

/// The pattern text that an optional filter stands for: absent means empty.
pub open spec fn pattern_text(reg: Option<String>) -> Seq<char> {
    match reg {
        Some(source) => source@,
        None => Seq::empty(),
    }
}

/// Whether an optional filter can be compiled: an absent one always can.
pub open spec fn filter_compiles(reg: Option<String>) -> bool {
    reg is None || regex_accepts(pattern_text(reg))
}

/// The pattern for an optional filter: the given one compiled, or the one that
/// matches everything where none is given. An empty filter is as good as none.
pub fn get_regex(reg: Option<String>) -> (made: Result<Pattern, ScrapeError>)
    ensures
        made is Ok <==> filter_compiles(reg),
        pattern_text(reg).len() == 0 ==> made is Ok,
        made matches Ok(pattern) ==> pattern@ == pattern_text(reg),
        made matches Err(error) ==> pattern_fault(pattern_text(reg), error),
{
    match reg {
        Some(source) => Pattern::new(source.as_str()),
        None => Ok(Pattern::any()),
    }
}

/// The links that `pattern` matches, in the order they stand in `links`.
pub open spec fn matching(pattern: Seq<char>, links: Seq<Seq<char>>) -> Seq<Seq<char>> {
    links.filter(|link: Seq<char>| regex_matches(pattern, link))
}

/// Where the link at place `k` of `matching(pattern, links)` stands in `links`.
pub open spec fn origin(pattern: Seq<char>, links: Seq<Seq<char>>, k: int) -> int
    decreases links.len(),
{
    if links.len() == 0 {
        0
    } else if k < matching(pattern, links.drop_last()).len() {
        origin(pattern, links.drop_last(), k)
    } else {
        links.len() - 1
    }
}

/// Filtering looks at the links one by one: the last link is kept exactly when
/// the pattern matches it, behind what is kept of the links before it.
pub proof fn lemma_matching_last(pattern: Seq<char>, links: Seq<Seq<char>>)
    requires
        links.len() > 0,
    ensures
        matching(pattern, links) == if regex_matches(pattern, links.last()) {
            matching(pattern, links.drop_last()).push(links.last())
        } else {
            matching(pattern, links.drop_last())
        },
{
    reveal(Seq::filter);
}

/// Every kept link is one of the given links, and the pattern matches it.
pub proof fn lemma_matching_origin(pattern: Seq<char>, links: Seq<Seq<char>>, k: int)
    requires
        0 <= k < matching(pattern, links).len(),
    ensures
        0 <= origin(pattern, links, k) < links.len(),
        links[origin(pattern, links, k)] == matching(pattern, links)[k],
        regex_matches(pattern, matching(pattern, links)[k]),
    decreases links.len(),
{
    if links.len() == 0 {
        reveal(Seq::filter);
    } else {
        lemma_matching_last(pattern, links);
        if k < matching(pattern, links.drop_last()).len() {
            lemma_matching_origin(pattern, links.drop_last(), k);
        }
    }
}

/// Filtering preserves order: of two kept links, the one that comes first in
/// the result also comes first among the given links.
pub proof fn lemma_matching_preserves_order(
    pattern: Seq<char>,
    links: Seq<Seq<char>>,
    i: int,
    j: int,
)
    requires
        0 <= i < j < matching(pattern, links).len(),
    ensures
        origin(pattern, links, i) < origin(pattern, links, j),
    decreases links.len(),
{
    if links.len() == 0 {
        reveal(Seq::filter);
    } else {
        lemma_matching_last(pattern, links);
        let before = matching(pattern, links.drop_last());
        if j < before.len() {
            lemma_matching_preserves_order(pattern, links.drop_last(), i, j);
        } else {
            lemma_matching_origin(pattern, links.drop_last(), i);
        }
    }
}

/// A pattern that matches every one of the links keeps them all.
pub proof fn lemma_matching_keeps_all(pattern: Seq<char>, links: Seq<Seq<char>>)
    requires
        forall|i: int| 0 <= i < links.len() ==> regex_matches(pattern, #[trigger] links[i]),
    ensures
        matching(pattern, links) == links,
    decreases links.len(),
{
    if links.len() == 0 {
        reveal(Seq::filter);
    } else {
        lemma_matching_last(pattern, links);
        lemma_matching_keeps_all(pattern, links.drop_last());
        assert(links.drop_last().push(links.last()) =~= links);
    }
}

/// Filtering is idempotent: a second pass with the same pattern changes nothing.
pub proof fn lemma_matching_idempotent(pattern: Seq<char>, links: Seq<Seq<char>>)
    ensures
        matching(pattern, matching(pattern, links)) == matching(pattern, links),
    decreases links.len(),
{
    if links.len() == 0 {
        reveal(Seq::filter);
    } else {
        lemma_matching_last(pattern, links);
        lemma_matching_idempotent(pattern, links.drop_last());
        if regex_matches(pattern, links.last()) {
            let once = matching(pattern, links);
            lemma_matching_last(pattern, once);
            assert(once.drop_last() =~= matching(pattern, links.drop_last()));
        }
    }
}

/// Keeps the links in which the pattern matches somewhere; the others are
/// dropped, and nothing is reordered. The empty pattern keeps them all.
pub fn filter_links(links: &Vec<String>, pattern: &Pattern) -> (kept: Vec<String>)
    ensures
        kept.deep_view() == matching(pattern@, links.deep_view()),
        pattern@.len() == 0 ==> kept.deep_view() == links.deep_view(),
{
    let mut kept: Vec<String> = Vec::new();
    let mut i: usize = 0;
    while i < links.len()
        invariant
            i <= links.len(),
            kept.deep_view() == matching(pattern@, links.deep_view().take(i as int)),
            pattern@.len() == 0 ==> kept.deep_view() == links.deep_view().take(i as int),
        decreases links.len() - i,
    {
        let ghost before = kept.deep_view();
        let ghost seen = links.deep_view().take(i as int);
        let found = pattern.is_match(links[i].as_str());
        if found {
            kept.push(links[i].clone());
        }
        proof {
            let next = links.deep_view().take(i + 1);
            assert(next.drop_last() =~= seen);
            lemma_matching_last(pattern@, next);
            if found {
                assert(kept.deep_view() =~= before.push(next.last()));
            } else {
                assert(kept.deep_view() =~= before);
            }
        }
        i += 1;
    }
    proof {
        assert(links.deep_view().take(links.len() as int) =~= links.deep_view());
    }
    kept
}

} // verus!
