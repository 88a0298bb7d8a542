//! Addresses of the backend: what the URL parser makes of an endpoint, of
//! path segments added to it, and of a query set on it.
//!
//! The parsing and writing of URLs is the work of the `url` crate, which
//! `reqwest` hands on as `reqwest::Url`. Nothing of it is proved here. Each of
//! the three functions below that call it has its result named, as a function of
//! the texts that go in; the rest of the library speaks of addresses through
//! these names only.
//!
//! The `url` crate keeps positions inside a URL in 32 bits and stops the
//! program where a URL that it is changing outgrows them. The library therefore
//! hands it short texts only, and treats longer ones as no address at all.

use vstd::prelude::*;
use vstd::string::*;
use vstd::utf8::encode_utf8;

verus! {

/// The longest text, in bytes, that is handed to the URL parser.
pub const TEXT_LIMIT: usize = 65_536;

/// The largest number of path segments that is added to an address at once.
pub const SEGMENT_LIMIT: usize = 64;

/// `text` is short enough to be handed to the URL parser.
pub open spec fn is_short(text: Seq<char>) -> bool {
    encode_utf8(text).len() <= TEXT_LIMIT
}

/// Every one of `segments` is short, and they are few.
pub open spec fn are_short(segments: Seq<Seq<char>>) -> bool {
    &&& segments.len() <= SEGMENT_LIMIT
    &&& forall|i: int| 0 <= i < segments.len() ==> is_short(#[trigger] segments[i])
}

/// Whether `address` is the text of an absolute URL, and if it is, whether that
/// URL has a host: what `Url::parse` followed by `Url::has_host` gives.
pub uninterp spec fn host_presence(address: Seq<char>) -> Option<bool>;

/// The text of the URL that `address` stands for, with `segments` appended to
/// its path in order: what `PathSegmentsMut::extend` makes of the parsed
/// address. `None` where `address` is no absolute URL, or is one that cannot
/// carry path segments.
pub uninterp spec fn path_extended(address: Seq<char>, segments: Seq<Seq<char>>) -> Option<
    Seq<char>,
>;

/// The text of the URL that `address` stands for, with its query replaced by
/// `query`: what `Url::set_query` makes of the parsed address. `None` where
/// `address` is no absolute URL.
pub uninterp spec fn query_replaced(address: Seq<char>, query: Seq<char>) -> Option<Seq<char>>;

/// Calls `reqwest::Url::parse` and, on the URL that it gives, `Url::has_host`.
///
/// Trusted: the answer depends on the text of `address` alone. `None` stands
/// for an address that does not parse.
#[verifier::external_body]
fn parse_host_presence(address: &str) -> (present: Option<bool>)
    ensures
        present == host_presence(address@),
{
    Some(reqwest::Url::parse(address).ok()?.has_host())
}

/// Calls `PathSegmentsMut::extend` on the URL that `reqwest::Url::parse` makes
/// of `address`, and gives the text of the URL after it.
///
/// Trusted: the answer depends on the texts of `address` and `segments` alone.
/// `None` stands for an address that does not parse, or whose URL
/// `Url::path_segments_mut` refuses.
#[verifier::external_body]
fn extend_path(address: &str, segments: &Vec<String>) -> (extended: Option<String>)
    requires
        is_short(address@),
        are_short(segments.deep_view()),
    ensures
        extended.deep_view() == path_extended(address@, segments.deep_view()),
{
    let mut url = reqwest::Url::parse(address).ok()?;
    url.path_segments_mut().ok()?.extend(segments);
    Some(url.into())
}

/// Calls `Url::set_query` on the URL that `reqwest::Url::parse` makes of
/// `address`, and gives the text of the URL after it.
///
/// Trusted: the answer depends on the texts of `address` and `query` alone.
/// `None` stands for an address that does not parse.
#[verifier::external_body]
fn replace_query(address: &str, query: &str) -> (replaced: Option<String>)
    requires
        is_short(address@),
        is_short(query@),
    ensures
        replaced.deep_view() == query_replaced(address@, query@),
{
    let mut url = reqwest::Url::parse(address).ok()?;
    url.set_query(Some(query));
    Some(url.into())
}

/// Whether requests can be sent to `address`: it is short, it is the text of
/// an absolute URL, and that URL names a host.
pub open spec fn is_reachable(address: Seq<char>) -> bool {
    is_short(address) && host_presence(address) == Some(true)
}

/// What [`is_reachable`] is, given what the parser said of the host.
pub open spec fn reachable_given(address: Seq<char>, present: Option<bool>) -> bool {
    is_short(address) && present == Some(true)
}

/// `address` with `segments` appended to its path; `None` where a text is too
/// long or the address cannot carry them.
pub open spec fn with_path(address: Seq<char>, segments: Seq<Seq<char>>) -> Option<Seq<char>> {
    if is_short(address) && are_short(segments) {
        path_extended(address, segments)
    } else {
        None
    }
}

/// `address` with its query replaced by `query`; `None` where a text is too
/// long or `address` is no URL.
pub open spec fn with_query(address: Seq<char>, query: Seq<char>) -> Option<Seq<char>> {
    if is_short(address) && is_short(query) {
        query_replaced(address, query)
    } else {
        None
    }
}

/// Whether `text` is short enough to be handed to the URL parser.
pub fn fits(text: &str) -> (short: bool)
    ensures
        short == is_short(text@),
{
    text.as_bytes().len() <= TEXT_LIMIT
}

/// Whether every one of `segments` is short and they are few.
pub fn all_fit(segments: &Vec<String>) -> (short: bool)
    ensures
        short == are_short(segments.deep_view()),
{
    if segments.len() > SEGMENT_LIMIT {
        return false;
    }
    for i in 0..segments.len()
        invariant
            segments.len() <= SEGMENT_LIMIT,
            forall|j: int| 0 <= j < i ==> is_short(#[trigger] segments.deep_view()[j]),
    {
        if !fits(segments[i].as_str()) {
            assert(!is_short(segments.deep_view()[i as int]));
            return false;
        }
    }
    true
}

/// Decides whether requests can be sent to `address`, given what the parser
/// said of its host.
pub fn reachable_with(address: &str, present: Option<bool>) -> (reachable: bool)
    ensures
        reachable == reachable_given(address@, present),
{
    if !fits(address) {
        return false;
    }
    match present {
        Some(true) => true,
        _ => false,
    }
}

/// Whether requests can be sent to `address`.
pub fn reachable(address: &str) -> (reachable: bool)
    ensures
        reachable == is_reachable(address@),
{
    let present = parse_host_presence(address);
    reachable_with(address, present)
}

/// `address` with `segments` appended to its path.
pub fn append_path(address: &str, segments: &Vec<String>) -> (extended: Option<String>)
    ensures
        extended.deep_view() == with_path(address@, segments.deep_view()),
{
    if fits(address) && all_fit(segments) {
        extend_path(address, segments)
    } else {
        None
    }
}

/// `address` with its query replaced by `query`.
pub fn set_query(address: &str, query: &str) -> (replaced: Option<String>)
    ensures
        replaced.deep_view() == with_query(address@, query@),
{
    if fits(address) && fits(query) {
        replace_query(address, query)
    } else {
        None
    }
}

} // verus!
