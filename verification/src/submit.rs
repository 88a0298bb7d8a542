//! Submission bookkeeping: the file name under which a document is uploaded,
//! the prefix by which the jobs of a split are found again, and the job handle
//! in the backend's answer to an upload.

use vstd::prelude::*;
use vstd::string::*;

use crate::error::{TrackError, TrackErrorView};
use crate::job::JobHandle;
use crate::text::has_prefix;

verus! {

/// The tag that marks every uploaded file as coming from this system.
pub open spec fn system_tag() -> Seq<char> {
    "EpicPrinter"@
}

/// The prefix of the file name of the upload titled `title`. The jobs that a
/// split produces carry file names that begin with it.
pub open spec fn prefix_of(title: Seq<char>) -> Seq<char> {
    system_tag() + "-"@ + title
}

/// The file name of the upload titled `title`.
pub open spec fn file_name_of(title: Seq<char>) -> Seq<char> {
    prefix_of(title) + ".pdf"@
}

/// The file name of an upload begins with the prefix made for the same title:
/// the name that is sent and the prefix that is searched for agree.
pub proof fn lemma_file_name_has_prefix(title: Seq<char>)
    ensures
        has_prefix(file_name_of(title), prefix_of(title)),
{
    assert(file_name_of(title).subrange(0, prefix_of(title).len() as int) =~= prefix_of(title));
}

/// The file-name prefix of the upload titled `title`.
pub fn file_name_prefix(title: &str) -> (prefix: String)
    ensures
        prefix@ == prefix_of(title@),
{
    let mut prefix = String::from_str("EpicPrinter");
    prefix.append("-");
    prefix.append(title);
    prefix
}

/// The file name of the upload titled `title`.
pub fn file_name(title: &str) -> (name: String)
    ensures
        name@ == file_name_of(title@),
{
    let mut name = file_name_prefix(title);
    name.append(".pdf");
    name
}

/// The text that `body` holds as a JSON string, `None` where `body` is not one
/// JSON string: what `serde_json::from_str::<String>` reads.
pub uninterp spec fn json_text(body: Seq<char>) -> Option<Seq<char>>;

/// Calls `serde_json::from_str::<String>`.
///
/// Trusted: the answer depends on the text of `body` alone. `None` stands for
/// every error of the parser.
#[verifier::external_body]
fn decode_json_text(body: &str) -> (text: Option<String>)
    ensures
        text.deep_view() == json_text(body@),
{
    serde_json::from_str::<String>(body).ok()
}

/// The handle that an answer to an upload holds, given its body as decoded.
pub open spec fn handle_in(decoded: Option<Seq<char>>) -> Result<Seq<char>, TrackErrorView> {
    match decoded {
        Some(handle) => Ok(handle),
        None => Err(TrackErrorView::MalformedHandle),
    }
}

/// The mathematical value of a handle or the error in its place.
pub open spec fn handle_view(handle: Result<JobHandle, TrackError>) -> Result<
    Seq<char>,
    TrackErrorView,
> {
    match handle {
        Ok(handle) => Ok(handle@),
        Err(error) => Err(error@),
    }
}

/// Takes the job handle out of the decoded answer to an upload.
pub fn handle_from(decoded: Option<String>) -> (handle: Result<JobHandle, TrackError>)
    ensures
        handle_view(handle) == handle_in(decoded.deep_view()),
{
    match decoded {
        Some(handle) => Ok(handle),
        None => Err(TrackError::MalformedHandle),
    }
}

/// Reads the job handle from the body of the backend's answer to an upload: a
/// single JSON string. Anything else is a malformed handle.
pub fn read_handle(body: &str) -> (handle: Result<JobHandle, TrackError>)
    ensures
        handle_view(handle) == handle_in(json_text(body@)),
{
    handle_from(decode_json_text(body))
}

} // verus!
