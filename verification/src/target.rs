//! The page to fetch: an absolute URL, held in the form the URL parser gives it.

use crate::error::ScrapeError;
use vstd::prelude::*;

verus! {

/// What the URL parser makes of `input`: the address in its serialized form,
/// or, where `input` is not an absolute URL, its description of the fault.
pub uninterp spec fn parsed_url(input: Seq<char>) -> Result<Seq<char>, Seq<char>>;

/// `Url::parse`, with the `Url` converted into its serialization and the error
/// rendered as the text it displays. Not proved: that the outcome depends on
/// the input text alone.
#[verifier::external_body]
fn parse_url(input: &str) -> (parsed: Result<String, String>)
    ensures
        match parsed {
            Ok(address) => parsed_url(input@) == Ok::<Seq<char>, Seq<char>>(address@),
            Err(fault) => parsed_url(input@) == Err::<Seq<char>, Seq<char>>(fault@),
        },
{
    match url::Url::parse(input) {
        Ok(url) => Ok(String::from(url)),
        Err(error) => Err(error.to_string()),
    }
}

/// Whether a serialized address is one that can be fetched: its scheme is
/// `http` or `https`.
pub open spec fn recognized_scheme(address: Seq<char>) -> bool {
    "http://"@.is_prefix_of(address) || "https://"@.is_prefix_of(address)
}

/// What is said against an address with any other scheme.
pub open spec fn scheme_fault() -> Seq<char> {
    "scheme is neither http nor https"@
}

/// The address to fetch for `input`, or what is wrong with it: the parser's
/// description where it is no absolute URL, else the scheme if it is not a
/// recognized one.
pub open spec fn target_of(input: Seq<char>) -> Result<Seq<char>, Seq<char>> {
    match parsed_url(input) {
        Ok(address) => if recognized_scheme(address) {
            Ok(address)
        } else {
            Err(scheme_fault())
        },
        Err(fault) => Err(fault),
    }
}

/// Whether `error` is the refusal of the URL text `input`, carrying the
/// description of the fault.
pub open spec fn url_fault(input: Seq<char>, error: ScrapeError) -> bool {
    error matches ScrapeError::InvalidUrl(fault) && target_of(input) == Err::<
        Seq<char>,
        Seq<char>,
    >(fault@)
}

/// Whether `text` begins with `prefix`.
pub fn starts_with(text: &str, prefix: &str) -> (found: bool)
    ensures
        found == prefix@.is_prefix_of(text@),
{
    let n = prefix.unicode_len();
    if text.unicode_len() < n {
        return false;
    }
    let mut i: usize = 0;
    while i < n
        invariant
            i <= n,
            n == prefix@.len(),
            n <= text@.len(),
            forall|k: int| 0 <= k < i ==> text@[k] == prefix@[k],
        decreases n - i,
    {
        if text.get_char(i) != prefix.get_char(i) {
            assert(text@.subrange(0, n as int)[i as int] != prefix@[i as int]);
            return false;
        }
        i += 1;
    }
    assert(prefix@ =~= text@.subrange(0, n as int));
    true
}

/// Whether the scheme of a serialized address is `http` or `https`.
pub fn has_recognized_scheme(address: &str) -> (found: bool)
    ensures
        found == recognized_scheme(address@),
{
    starts_with(address, "http://") || starts_with(address, "https://")
}

/// An absolute URL that parsed and has a recognized scheme.
#[derive(Debug)]
pub struct TargetUrl {
    given: String,
    address: String,
}

impl View for TargetUrl {
    type V = Seq<char>;

    /// The serialized address.
    closed spec fn view(&self) -> Seq<char> {
        self.address@
    }
}

impl TargetUrl {
    /// The text that was parsed.
    pub closed spec fn given(&self) -> Seq<char> {
        self.given@
    }

    /// The address is what the parser reads out of the given text, and its
    /// scheme is a recognized one.
    pub open spec fn wf(&self) -> bool {
        target_of(self.given()) == Ok::<Seq<char>, Seq<char>>(self@)
    }

    /// Parses `input`, or says why it cannot be fetched: it is no absolute
    /// URL, or its scheme is neither `http` nor `https`.
    pub fn parse(input: String) -> (made: Result<TargetUrl, ScrapeError>)
        ensures
            made is Ok <==> target_of(input@) is Ok,
            made matches Ok(target) ==> target.wf() && target.given() == input@,
            made matches Err(error) ==> url_fault(input@, error),
    {
        match parse_url(input.as_str()) {
            Ok(address) => {
                if has_recognized_scheme(address.as_str()) {
                    Ok(TargetUrl { given: input, address })
                } else {
                    Err(ScrapeError::InvalidUrl("scheme is neither http nor https".to_owned()))
                }
            },
            Err(fault) => Err(ScrapeError::InvalidUrl(fault)),
        }
    }

    /// The serialized address, as it is handed to the transport.
    pub fn as_str(&self) -> (address: &str)
        ensures
            address@ == self@,
    {
        self.address.as_str()
    }
}

} // verus!
