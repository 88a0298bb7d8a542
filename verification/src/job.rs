//! Job records as the backend reports them, and what a record means for the
//! document that is being tracked.

use vstd::prelude::*;
use vstd::string::*;

use crate::status::{tag_of, StatusTag, StatusTagView};
use crate::text::{contains, has_substring};

verus! {

/// The identifier under which the backend tracks one job. Opaque.
pub type JobHandle = String;

/// The identifier of a document that the backend created. Opaque.
pub type DocumentId = String;

/// The words in a job's message that tell that the upload was split into
/// several jobs.
pub open spec fn split_marker() -> Seq<char> {
    "splitting complete"@
}

/// The failure text for a job that is reported finished without a document.
pub open spec fn missing_document_text() -> Seq<char> {
    "missing document id on completed job"@
}

/// What precedes an unknown status word in the failure text made for it.
pub open spec fn unknown_status_prefix() -> Seq<char> {
    "Unknown processing status: "@
}

/// What the backend last reported of one job. A record is fetched anew on every
/// poll and never changed in place.
#[derive(Debug, PartialEq, Eq)]
pub struct JobRecord {
    pub handle: JobHandle,
    pub file_name: Option<String>,
    pub status: StatusTag,
    pub message: Option<String>,
    pub document: Option<DocumentId>,
}

/// The mathematical value of a [`JobRecord`].
pub struct JobRecordView {
    pub handle: Seq<char>,
    pub file_name: Option<Seq<char>>,
    pub status: StatusTagView,
    pub message: Option<Seq<char>>,
    pub document: Option<Seq<char>>,
}

/// What a finished job means for the upload. Derived from a record, never
/// reported by the backend, never stored.
#[derive(Debug, PartialEq, Eq)]
pub enum Outcome {
    /// Processing finished and created the given document.
    Success(DocumentId),
    /// Processing failed for the given reason.
    Failure(String),
    /// The upload was split into several jobs of their own.
    Split,
}

/// The mathematical value of an [`Outcome`].
pub enum OutcomeView {
    Success(Seq<char>),
    Failure(Seq<char>),
    Split,
}

impl View for Outcome {
    type V = OutcomeView;

    open spec fn view(&self) -> OutcomeView {
        match self {
            Outcome::Success(document) => OutcomeView::Success(document@),
            Outcome::Failure(message) => OutcomeView::Failure(message@),
            Outcome::Split => OutcomeView::Split,
        }
    }
}

impl DeepView for Outcome {
    type V = OutcomeView;

    open spec fn deep_view(&self) -> OutcomeView {
        self@
    }
}

impl Clone for Outcome {
    fn clone(&self) -> (r: Self)
        ensures
            r@ == self@,
    {
        match self {
            Outcome::Success(document) => Outcome::Success(document.clone()),
            Outcome::Failure(message) => Outcome::Failure(message.clone()),
            Outcome::Split => Outcome::Split,
        }
    }
}

impl View for JobRecord {
    type V = JobRecordView;

    open spec fn view(&self) -> JobRecordView {
        JobRecordView {
            handle: self.handle@,
            file_name: self.file_name.deep_view(),
            status: self.status@,
            message: self.message.deep_view(),
            document: self.document.deep_view(),
        }
    }
}

impl DeepView for JobRecord {
    type V = JobRecordView;

    open spec fn deep_view(&self) -> JobRecordView {
        self@
    }
}

impl JobRecordView {
    /// The record's message, empty where the backend sent none.
    pub open spec fn message_text(self) -> Seq<char> {
        match self.message {
            Some(message) => message,
            None => Seq::empty(),
        }
    }

    /// What the record means: `None` while the job is still running, else the
    /// outcome.
    pub open spec fn resolution(self) -> Option<OutcomeView> {
        match self.status {
            StatusTagView::Pending | StatusTagView::Started => None,
            StatusTagView::Success => if has_substring(self.message_text(), split_marker()) {
                Some(OutcomeView::Split)
            } else {
                match self.document {
                    Some(document) => Some(OutcomeView::Success(document)),
                    None => Some(OutcomeView::Failure(missing_document_text())),
                }
            },
            StatusTagView::Failure => Some(OutcomeView::Failure(self.message_text())),
            StatusTagView::Unrecognized(raw) => Some(
                OutcomeView::Failure(unknown_status_prefix() + raw),
            ),
        }
    }
}

/// A record is of a finished job that reports the split of its upload.
pub open spec fn reports_split(record: JobRecordView) -> bool {
    record.status is Success && has_substring(record.message_text(), split_marker())
}

/// A job that is pending or started is still running, whatever else its record
/// holds.
pub proof fn lemma_unfinished_job_is_running(record: JobRecordView)
    requires
        record.status is Pending || record.status is Started,
    ensures
        record.resolution() is None,
{
}

/// A successful job whose message holds the split marker is a split, with or
/// without a document.
pub proof fn lemma_split_marker_decides(record: JobRecordView)
    requires
        reports_split(record),
    ensures
        record.resolution() == Some(OutcomeView::Split),
{
}

/// A successful job without the split marker and with a document is the
/// success of that document.
pub proof fn lemma_document_is_success(record: JobRecordView, document: Seq<char>)
    requires
        record.status is Success,
        !reports_split(record),
        record.document == Some(document),
    ensures
        record.resolution() == Some(OutcomeView::Success(document)),
{
}

/// A successful job without the split marker and without a document is a
/// failure: it is neither taken for running nor for a success.
pub proof fn lemma_missing_document_is_failure(record: JobRecordView)
    requires
        record.status is Success,
        !reports_split(record),
        record.document is None,
    ensures
        record.resolution() == Some(OutcomeView::Failure(missing_document_text())),
{
}

/// A failed job is a failure with the record's message, or with the empty
/// message where the backend sent none.
pub proof fn lemma_failure_carries_message(record: JobRecordView)
    requires
        record.status is Failure,
    ensures
        record.resolution() == Some(OutcomeView::Failure(record.message_text())),
        record.message is None ==> record.resolution() == Some(
            OutcomeView::Failure(Seq::<char>::empty()),
        ),
{
}

/// A job with a status word outside the known vocabulary is a failure whose
/// text ends with that word, letter for letter.
pub proof fn lemma_unknown_status_is_failure(record: JobRecordView, word: Seq<char>)
    requires
        record.status == StatusTagView::Unrecognized(word),
    ensures
        record.resolution() matches Some(OutcomeView::Failure(text)) && text.len()
            == unknown_status_prefix().len() + word.len() && text.subrange(
            unknown_status_prefix().len() as int,
            text.len() as int,
        ) == word,
{
    let text = unknown_status_prefix() + word;
    assert(text.subrange(unknown_status_prefix().len() as int, text.len() as int) =~= word);
}

/// A status word is kept as it came unless it is one of the four known words.
pub proof fn lemma_unknown_word_is_kept(word: Seq<char>)
    ensures
        tag_of(word) is Unrecognized ==> tag_of(word) == StatusTagView::Unrecognized(word),
        tag_of(word) is Unrecognized <==> !(word == "PENDING"@ || word == "STARTED"@ || word
            == "FAILURE"@ || word == "SUCCESS"@),
{
}

/// The record that the fields of one entry of the backend's job list stand for.
/// An entry without a status word is one whose job has not been taken up yet.
pub open spec fn record_of(
    handle: Seq<char>,
    file_name: Option<Seq<char>>,
    status: Option<Seq<char>>,
    message: Option<Seq<char>>,
    document: Option<Seq<char>>,
) -> JobRecordView {
    JobRecordView {
        handle,
        file_name,
        status: match status {
            Some(word) => tag_of(word),
            None => StatusTagView::Pending,
        },
        message,
        document,
    }
}

fn clone_text(text: &Option<String>) -> (r: Option<String>)
    ensures
        r.deep_view() == text.deep_view(),
{
    match text {
        Some(t) => Some(t.clone()),
        None => None,
    }
}

impl Clone for JobRecord {
    fn clone(&self) -> (r: Self)
        ensures
            r@ == self@,
    {
        JobRecord {
            handle: self.handle.clone(),
            file_name: clone_text(&self.file_name),
            status: self.status.clone(),
            message: clone_text(&self.message),
            document: clone_text(&self.document),
        }
    }
}

impl JobRecord {
    /// Builds the typed record from the fields of one entry of the backend's
    /// job list, reading the status word.
    pub fn from_parts(
        handle: JobHandle,
        file_name: Option<String>,
        status: Option<String>,
        message: Option<String>,
        document: Option<DocumentId>,
    ) -> (record: JobRecord)
        ensures
            record@ == record_of(
                handle@,
                file_name.deep_view(),
                status.deep_view(),
                message.deep_view(),
                document.deep_view(),
            ),
    {
        let status = match &status {
            Some(word) => StatusTag::parse(word.as_str()),
            None => StatusTag::Pending,
        };
        JobRecord { handle, file_name, status, message, document }
    }

    /// What the record means for the upload: `None` while the job is still
    /// running, so that the caller polls again; else the outcome.
    ///
    /// A finished job without a document, and a status word outside the known
    /// vocabulary, are failures like any other.
    pub fn result(&self) -> (outcome: Option<Outcome>)
        ensures
            outcome.deep_view() == self@.resolution(),
    {
        let message = match &self.message {
            Some(message) => message.clone(),
            None => String::new(),
        };
        match &self.status {
            StatusTag::Pending => None,
            StatusTag::Started => None,
            StatusTag::Success => {
                if contains(message.as_str(), "splitting complete") {
                    Some(Outcome::Split)
                } else {
                    match &self.document {
                        Some(document) => Some(Outcome::Success(document.clone())),
                        None => Some(
                            Outcome::Failure(
                                String::from_str("missing document id on completed job"),
                            ),
                        ),
                    }
                }
            },
            StatusTag::Failure => Some(Outcome::Failure(message)),
            StatusTag::Unrecognized(raw) => {
                let mut text = String::from_str("Unknown processing status: ");
                text.append(raw.as_str());
                Some(Outcome::Failure(text))
            },
        }
    }
}

} // verus!
