//! The title under which a scan is uploaded: the instant at which it arrived,
//! written so that it can stand in a file name.

use vstd::prelude::*;
use vstd::string::*;

use crate::text::chars_of;

verus! {

/// The instant `seconds` after the Unix epoch, written as RFC 3339 demands, in
/// UTC, to the second, ending in `Z`: what `DateTime::to_rfc3339_opts` writes.
/// `None` where `chrono` cannot hold the instant.
pub uninterp spec fn rfc3339_utc(seconds: i64) -> Option<Seq<char>>;

/// Calls `chrono::DateTime::from_timestamp` and, on the instant that it
/// gives, `DateTime::to_rfc3339_opts` with `SecondsFormat::Secs` and `Z` for
/// UTC.
///
/// Trusted: the answer depends on `seconds` alone. `None` stands for an
/// instant outside the range of `chrono`.
#[verifier::external_body]
fn write_rfc3339(seconds: i64) -> (text: Option<String>)
    ensures
        text.deep_view() == rfc3339_utc(seconds),
{
    let instant = chrono::DateTime::from_timestamp(seconds, 0)?;
    Some(instant.to_rfc3339_opts(chrono::SecondsFormat::Secs, true))
}

/// A character of a title: a colon becomes a dash, every other character
/// stays.
pub open spec fn dashed_char(c: char) -> char {
    if c == ':' {
        '-'
    } else {
        c
    }
}

/// `text` with every colon replaced by a dash.
pub open spec fn dashed(text: Seq<char>) -> Seq<char> {
    text.map_values(|c: char| dashed_char(c))
}

/// The title made of a timestamp as written, if there is one.
pub open spec fn title_of(written: Option<Seq<char>>) -> Option<Seq<char>> {
    match written {
        Some(text) => Some(dashed(text)),
        None => None,
    }
}

/// A title holds no colon, and is as long as the text it was made of.
pub proof fn lemma_title_has_no_colon(text: Seq<char>, at: int)
    requires
        0 <= at < text.len(),
    ensures
        dashed(text).len() == text.len(),
        dashed(text)[at] != ':',
        text[at] != ':' ==> dashed(text)[at] == text[at],
{
}

/// Replaces every colon in `text` by a dash. Meant for short texts: the time
/// taken grows with the square of the length.
pub fn dash_colons(text: &str) -> (title: String)
    ensures
        title@ == dashed(text@),
{
    let chars = chars_of(text);
    let mut title = String::new();
    proof {
        assert(text@.take(0) =~= Seq::<char>::empty());
        assert(title@ =~= dashed(text@.take(0)));
        reveal_strlit("-");
    }
    for i in 0..chars.len()
        invariant
            chars@ == text@,
            title@ == dashed(text@.take(i as int)),
            "-"@ == seq!['-'],
    {
        let ghost before = title@;
        proof {
            text@.lemma_take_succ_push(i as int);
            text@.take(i as int).lemma_push_map_commute(|c: char| dashed_char(c), text@[i as int]);
        }
        if chars[i] == ':' {
            title.append("-");
            assert(title@ =~= before.push('-'));
        } else {
            title.append(text.substring_char(i, i + 1));
            assert(title@ =~= before.push(text@[i as int]));
        }
    }
    proof {
        assert(text@.take(chars.len() as int) =~= text@);
    }
    title
}

/// Makes the title out of a timestamp as written, if there is one.
pub fn title_from(written: Option<String>) -> (title: Option<String>)
    ensures
        title.deep_view() == title_of(written.deep_view()),
{
    match written {
        Some(text) => Some(dash_colons(text.as_str())),
        None => None,
    }
}

/// The title of a scan that arrived `seconds` after the Unix epoch: the
/// instant in UTC, to the second, with dashes where the colons would be.
/// `None` where the instant is outside the range of the calendar.
pub fn scan_title(seconds: i64) -> (title: Option<String>)
    ensures
        title.deep_view() == title_of(rfc3339_utc(seconds)),
{
    title_from(write_rfc3339(seconds))
}

} // verus!
