//! What the answer to a status request means for the polling of a job.

use vstd::prelude::*;

use crate::error::{TrackError, TrackErrorView};
use crate::job::{JobRecord, JobRecordView};
use crate::poller::{PollEvent, PollEventView};

verus! {

/// The mathematical value of a fetched list of records, or of the error in its
/// place.
pub open spec fn answer_view(answer: Result<Vec<JobRecord>, TrackError>) -> Result<
    Seq<JobRecordView>,
    TrackErrorView,
> {
    match answer {
        Ok(records) => Ok(records.deep_view()),
        Err(error) => Err(error@),
    }
}

/// The mathematical value of a record or the error in its place.
pub open spec fn record_view(record: Result<JobRecord, TrackError>) -> Result<
    JobRecordView,
    TrackErrorView,
> {
    match record {
        Ok(record) => Ok(record@),
        Err(error) => Err(error@),
    }
}

/// The record of the job that was asked for, in the list that the backend
/// answered with: the last one. An empty list means that the backend does not
/// know the job.
pub open spec fn selected(records: Seq<JobRecordView>) -> Result<JobRecordView, TrackErrorView> {
    if records.len() == 0 {
        Err(TrackErrorView::NotFound)
    } else {
        Ok(records.last())
    }
}

/// The event that the answer to a status request is for the poller.
pub open spec fn event_of(answer: Result<Seq<JobRecordView>, TrackErrorView>) -> PollEventView {
    match answer {
        Ok(records) => match selected(records) {
            Ok(record) => PollEventView::Record(record),
            Err(error) => PollEventView::FetchFailed(error),
        },
        Err(error) => PollEventView::FetchFailed(error),
    }
}

/// Picks the record of the job that was asked for out of the backend's answer.
/// A job without a record is an error, not a job that is still pending.
pub fn select_record(records: Vec<JobRecord>) -> (record: Result<JobRecord, TrackError>)
    ensures
        record_view(record) == selected(records.deep_view()),
{
    let mut records = records;
    let ghost all = records.deep_view();
    match records.pop() {
        Some(record) => {
            assert(record@ == all.last());
            Ok(record)
        },
        None => Err(TrackError::NotFound),
    }
}

/// Turns the answer to a status request, or the error that came in its place,
/// into the event that the poller takes.
pub fn fetched(answer: Result<Vec<JobRecord>, TrackError>) -> (event: PollEvent)
    ensures
        event@ == event_of(answer_view(answer)),
{
    match answer {
        Ok(records) => match select_record(records) {
            Ok(record) => PollEvent::Record(record),
            Err(error) => PollEvent::FetchFailed(error),
        },
        Err(error) => PollEvent::FetchFailed(error),
    }
}

} // verus!
