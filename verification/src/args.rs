//! A run from its arguments to its lines: validate both inputs, then turn the
//! fetched page into the links that pass the filter.

use crate::error::ScrapeError;
use crate::extract::{extract_links, page_links};
use crate::pattern::{
    filter_compiles, filter_links, get_regex, matching, pattern_fault, pattern_text, Pattern,
};
use crate::target::{target_of, url_fault, TargetUrl};
use vstd::prelude::*;

verus! {

/// The validated inputs of a run.
#[derive(Debug)]
pub struct ParsedArgs {
    pub url: TargetUrl,
    pub regex: Pattern,
}

/// Validates the inputs before anything is fetched. The pattern is looked at
/// first, so where both inputs are invalid the pattern is the one reported.
/// An empty pattern is as good as none: then only the URL decides.
pub fn parse_args(url: String, regex: Option<String>) -> (parsed: Result<ParsedArgs, ScrapeError>)
    ensures
        parsed is Ok <==> filter_compiles(regex) && target_of(url@) is Ok,
        pattern_text(regex).len() == 0 && target_of(url@) is Ok ==> parsed is Ok,
        parsed matches Ok(args) ==> {
            &&& args.url.wf()
            &&& args.url.given() == url@
            &&& args.regex@ == pattern_text(regex)
        },
        parsed matches Err(error) ==> if filter_compiles(regex) {
            url_fault(url@, error)
        } else {
            pattern_fault(pattern_text(regex), error)
        },
{
    let regex = match get_regex(regex) {
        Ok(pattern) => pattern,
        Err(error) => {
            return Err(error);
        },
    };
    match TargetUrl::parse(url) {
        Ok(url) => Ok(ParsedArgs { url, regex }),
        Err(error) => Err(error),
    }
}

/// The links of a fetched page. `fetched` is what the transport handed back:
/// the page text, or its description of the failure, which ends the run.
pub fn get_links(fetched: Result<String, String>) -> (links: Result<Vec<String>, ScrapeError>)
    ensures
        match fetched {
            Ok(body) => links matches Ok(found) && found.deep_view() == page_links(body@),
            Err(reason) => links matches Err(ScrapeError::Transport(told)) && told@ == reason@,
        },
{
    match fetched {
        Ok(body) => Ok(extract_links(body.as_str())),
        Err(reason) => Err(ScrapeError::Transport(reason)),
    }
}

/// The lines of a run, in document order: the links of the fetched page that
/// the pattern matches. A failed fetch gives its error and no line.
pub fn matching_links(args: &ParsedArgs, fetched: Result<String, String>) -> (lines: Result<
    Vec<String>,
    ScrapeError,
>)
    ensures
        match fetched {
            Ok(body) => lines matches Ok(kept) && kept.deep_view() == matching(
                args.regex@,
                page_links(body@),
            ),
            Err(reason) => lines matches Err(ScrapeError::Transport(told)) && told@ == reason@,
        },
{
    match get_links(fetched) {
        Ok(links) => Ok(filter_links(&links, &args.regex)),
        Err(error) => Err(error),
    }
}

} // verus!
