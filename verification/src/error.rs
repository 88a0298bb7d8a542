//! The one kind of error that tracking reports, and its text for an operator.

use vstd::prelude::*;
use vstd::string::*;

verus! {

/// Why the tracking of a document ended without a document in place.
///
/// Every failure is an ordinary value: nothing that the backend sends makes
/// the service stop.
#[derive(Debug, PartialEq, Eq)]
pub enum TrackError {
    /// The request did not reach the backend, or its answer could not be read.
    Transport(String),
    /// The backend answered with a status outside the success range.
    Status { code: u16, message: String },
    /// The answer to an upload held no job handle.
    MalformedHandle,
    /// The backend knows no job under the handle that was asked for.
    NotFound,
    /// The backend reported that processing failed, or reported a finished job
    /// in a form that its own contract does not allow.
    Failed(String),
    /// A job that came out of a split was itself split.
    NestedSplit,
    /// A job was split, and no job that came out of it could be found.
    NoChildJobs,
    /// The job did not finish within the polling deadline.
    Timeout,
    /// The configured endpoint is no address that a request can be sent to.
    InvalidEndpoint,
}

/// The mathematical value of a [`TrackError`].
pub enum TrackErrorView {
    Transport(Seq<char>),
    Status { code: u16, message: Seq<char> },
    MalformedHandle,
    NotFound,
    Failed(Seq<char>),
    NestedSplit,
    NoChildJobs,
    Timeout,
    InvalidEndpoint,
}

impl TrackErrorView {
    /// The text that describes the error to an operator.
    pub open spec fn message(self) -> Seq<char> {
        match self {
            TrackErrorView::Transport(message) => message,
            TrackErrorView::Status { code, message } => message,
            TrackErrorView::MalformedHandle => "Malformed job handle in upload response"@,
            TrackErrorView::NotFound => "Received empty response to task query"@,
            TrackErrorView::Failed(message) => message,
            TrackErrorView::NestedSplit => "Split of a split should not be possible"@,
            TrackErrorView::NoChildJobs => "No child tasks for split upload"@,
            TrackErrorView::Timeout => "Timeout while waiting for processing."@,
            TrackErrorView::InvalidEndpoint => "Invalid backend endpoint"@,
        }
    }
}

impl View for TrackError {
    type V = TrackErrorView;

    open spec fn view(&self) -> TrackErrorView {
        match self {
            TrackError::Transport(message) => TrackErrorView::Transport(message@),
            TrackError::Status { code, message } => TrackErrorView::Status {
                code: *code,
                message: message@,
            },
            TrackError::MalformedHandle => TrackErrorView::MalformedHandle,
            TrackError::NotFound => TrackErrorView::NotFound,
            TrackError::Failed(message) => TrackErrorView::Failed(message@),
            TrackError::NestedSplit => TrackErrorView::NestedSplit,
            TrackError::NoChildJobs => TrackErrorView::NoChildJobs,
            TrackError::Timeout => TrackErrorView::Timeout,
            TrackError::InvalidEndpoint => TrackErrorView::InvalidEndpoint,
        }
    }
}

impl Clone for TrackError {
    fn clone(&self) -> (r: Self)
        ensures
            r@ == self@,
    {
        match self {
            TrackError::Transport(message) => TrackError::Transport(message.clone()),
            TrackError::Status { code, message } => TrackError::Status {
                code: *code,
                message: message.clone(),
            },
            TrackError::MalformedHandle => TrackError::MalformedHandle,
            TrackError::NotFound => TrackError::NotFound,
            TrackError::Failed(message) => TrackError::Failed(message.clone()),
            TrackError::NestedSplit => TrackError::NestedSplit,
            TrackError::NoChildJobs => TrackError::NoChildJobs,
            TrackError::Timeout => TrackError::Timeout,
            TrackError::InvalidEndpoint => TrackError::InvalidEndpoint,
        }
    }
}

impl TrackError {
    /// The text that describes the error to an operator.
    pub fn message(&self) -> (text: String)
        ensures
            text@ == self@.message(),
    {
        match self {
            TrackError::Transport(message) => message.clone(),
            TrackError::Status { code, message } => message.clone(),
            TrackError::MalformedHandle => String::from_str(
                "Malformed job handle in upload response",
            ),
            TrackError::NotFound => String::from_str("Received empty response to task query"),
            TrackError::Failed(message) => message.clone(),
            TrackError::NestedSplit => String::from_str("Split of a split should not be possible"),
            TrackError::NoChildJobs => String::from_str("No child tasks for split upload"),
            TrackError::Timeout => String::from_str("Timeout while waiting for processing."),
            TrackError::InvalidEndpoint => String::from_str("Invalid backend endpoint"),
        }
    }

    /// The error in the form in which it leaves the service.
    pub fn report(&self) -> (error: InternalError)
        ensures
            error.message@ == self@.message(),
    {
        InternalError { message: self.message() }
    }
}

/// A failure inside the service, as text for an operator.
#[derive(Debug, PartialEq, Eq)]
pub struct InternalError {
    pub message: String,
}

impl Clone for InternalError {
    fn clone(&self) -> (r: Self)
        ensures
            r.message@ == self.message@,
    {
        InternalError { message: self.message.clone() }
    }
}

} // verus!
