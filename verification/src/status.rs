//! The status vocabulary that the backend reports for a job.

use vstd::prelude::*;
use vstd::string::*;

use crate::text::same_text;

verus! {

/// The state of a job as the backend reports it.
///
/// The backend's vocabulary is open: a word that is not one of the four known
/// ones is kept as it came, in `Unrecognized`.
#[derive(Debug, PartialEq, Eq)]
pub enum StatusTag {
    Pending,
    Started,
    Failure,
    Success,
    Unrecognized(String),
}

/// The mathematical value of a [`StatusTag`].
pub enum StatusTagView {
    Pending,
    Started,
    Failure,
    Success,
    Unrecognized(Seq<char>),
}

impl View for StatusTag {
    type V = StatusTagView;

    open spec fn view(&self) -> StatusTagView {
        match self {
            StatusTag::Pending => StatusTagView::Pending,
            StatusTag::Started => StatusTagView::Started,
            StatusTag::Failure => StatusTagView::Failure,
            StatusTag::Success => StatusTagView::Success,
            StatusTag::Unrecognized(raw) => StatusTagView::Unrecognized(raw@),
        }
    }
}

/// The tag that a word of the backend stands for.
pub open spec fn tag_of(raw: Seq<char>) -> StatusTagView {
    if raw == "PENDING"@ {
        StatusTagView::Pending
    } else if raw == "STARTED"@ {
        StatusTagView::Started
    } else if raw == "FAILURE"@ {
        StatusTagView::Failure
    } else if raw == "SUCCESS"@ {
        StatusTagView::Success
    } else {
        StatusTagView::Unrecognized(raw)
    }
}

impl StatusTag {
    /// Reads a status word of the backend.
    pub fn parse(raw: &str) -> (tag: StatusTag)
        ensures
            tag@ == tag_of(raw@),
    {
        if same_text(raw, "PENDING") {
            StatusTag::Pending
        } else if same_text(raw, "STARTED") {
            StatusTag::Started
        } else if same_text(raw, "FAILURE") {
            StatusTag::Failure
        } else if same_text(raw, "SUCCESS") {
            StatusTag::Success
        } else {
            StatusTag::Unrecognized(String::from_str(raw))
        }
    }
}

impl Clone for StatusTag {
    fn clone(&self) -> (r: Self)
        ensures
            r@ == self@,
    {
        match self {
            StatusTag::Pending => StatusTag::Pending,
            StatusTag::Started => StatusTag::Started,
            StatusTag::Failure => StatusTag::Failure,
            StatusTag::Success => StatusTag::Success,
            StatusTag::Unrecognized(raw) => StatusTag::Unrecognized(raw.clone()),
        }
    }
}

} // verus!
