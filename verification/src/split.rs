//! What follows the polling of a job: the decision on the root job, the
//! discovery of the jobs that a split produced, the decision on each of them,
//! and the reduction of their results into one.

use vstd::prelude::*;
use vstd::string::*;

use crate::error::{TrackError, TrackErrorView};
use crate::job::{DocumentId, JobHandle, JobRecord, JobRecordView, Outcome, OutcomeView};
use crate::text::{has_prefix, starts_with};

verus! {

/// What to do once the polling of the root job has ended.
#[derive(Debug, PartialEq, Eq)]
pub enum RootStep {
    /// The upload became this document: apply the configured metadata to it.
    ApplyMetadata(DocumentId),
    /// The upload was split: find the jobs that came out of it.
    DiscoverSiblings,
    /// Tracking ends with this error.
    Fail(TrackError),
}

/// The mathematical value of a [`RootStep`].
pub enum RootStepView {
    ApplyMetadata(Seq<char>),
    DiscoverSiblings,
    Fail(TrackErrorView),
}

impl View for RootStep {
    type V = RootStepView;

    open spec fn view(&self) -> RootStepView {
        match self {
            RootStep::ApplyMetadata(document) => RootStepView::ApplyMetadata(document@),
            RootStep::DiscoverSiblings => RootStepView::DiscoverSiblings,
            RootStep::Fail(error) => RootStepView::Fail(error@),
        }
    }
}

/// The mathematical value of what the polling of a job ended with.
pub open spec fn ended_view(ended: Result<Outcome, TrackError>) -> Result<
    OutcomeView,
    TrackErrorView,
> {
    match ended {
        Ok(outcome) => Ok(outcome@),
        Err(error) => Err(error@),
    }
}

/// The step that the end of the root job's polling calls for.
pub open spec fn root_step(ended: Result<OutcomeView, TrackErrorView>) -> RootStepView {
    match ended {
        Ok(OutcomeView::Success(document)) => RootStepView::ApplyMetadata(document),
        Ok(OutcomeView::Failure(message)) => RootStepView::Fail(TrackErrorView::Failed(message)),
        Ok(OutcomeView::Split) => RootStepView::DiscoverSiblings,
        Err(error) => RootStepView::Fail(error),
    }
}

/// What the end of a sibling job's polling calls for: the document to apply
/// the metadata to, or the error that the sibling ends with. A sibling that is
/// split again is an error.
pub open spec fn sibling_step(ended: Result<OutcomeView, TrackErrorView>) -> Result<
    Seq<char>,
    TrackErrorView,
> {
    match ended {
        Ok(OutcomeView::Success(document)) => Ok(document),
        Ok(OutcomeView::Failure(message)) => Err(TrackErrorView::Failed(message)),
        Ok(OutcomeView::Split) => Err(TrackErrorView::NestedSplit),
        Err(error) => Err(error),
    }
}

/// The mathematical value of a sibling's step.
pub open spec fn sibling_step_view(step: Result<DocumentId, TrackError>) -> Result<
    Seq<char>,
    TrackErrorView,
> {
    match step {
        Ok(document) => Ok(document@),
        Err(error) => Err(error@),
    }
}

/// Decides what follows the polling of the root job.
pub fn after_root(ended: Result<Outcome, TrackError>) -> (step: RootStep)
    ensures
        step@ == root_step(ended_view(ended)),
{
    match ended {
        Ok(Outcome::Success(document)) => RootStep::ApplyMetadata(document),
        Ok(Outcome::Failure(message)) => RootStep::Fail(TrackError::Failed(message)),
        Ok(Outcome::Split) => RootStep::DiscoverSiblings,
        Err(error) => RootStep::Fail(error),
    }
}

/// Decides what follows the polling of a job that came out of a split.
pub fn after_sibling(ended: Result<Outcome, TrackError>) -> (step: Result<DocumentId, TrackError>)
    ensures
        sibling_step_view(step) == sibling_step(ended_view(ended)),
{
    match ended {
        Ok(Outcome::Success(document)) => Ok(document),
        Ok(Outcome::Failure(message)) => Err(TrackError::Failed(message)),
        Ok(Outcome::Split) => Err(TrackError::NestedSplit),
        Err(error) => Err(error),
    }
}

/// A record of a job that came out of the split of `root`: its file name
/// begins with the upload's file-name prefix, and it is not the root itself.
pub open spec fn is_sibling(record: JobRecordView, prefix: Seq<char>, root: Seq<char>) -> bool {
    &&& record.handle != root
    &&& record.file_name matches Some(name) && has_prefix(name, prefix)
}

/// The handles of the siblings among `records`, in the order of the records.
pub open spec fn sibling_handles(
    records: Seq<JobRecordView>,
    prefix: Seq<char>,
    root: Seq<char>,
) -> Seq<Seq<char>> {
    records.filter(|record: JobRecordView| is_sibling(record, prefix, root)).map_values(
        |record: JobRecordView| record.handle,
    )
}

/// The mathematical value of the result of sibling discovery.
pub open spec fn handles_view(found: Result<Vec<JobHandle>, TrackError>) -> Result<
    Seq<Seq<char>>,
    TrackErrorView,
> {
    match found {
        Ok(handles) => Ok(handles.deep_view()),
        Err(error) => Err(error@),
    }
}

/// What sibling discovery yields on a list of records: the siblings' handles,
/// or an error where there is none.
pub open spec fn discovered(
    records: Seq<JobRecordView>,
    prefix: Seq<char>,
    root: Seq<char>,
) -> Result<Seq<Seq<char>>, TrackErrorView> {
    let handles = sibling_handles(records, prefix, root);
    if handles.len() == 0 {
        Err(TrackErrorView::NoChildJobs)
    } else {
        Ok(handles)
    }
}

fn record_is_sibling(record: &JobRecord, prefix: &str, root: &JobHandle) -> (r: bool)
    ensures
        r == is_sibling(record@, prefix@, root@),
{
    if record.handle == *root {
        return false;
    }
    match &record.file_name {
        Some(name) => starts_with(name.as_str(), prefix),
        None => false,
    }
}

/// Finds, among all the jobs that the backend knows, those that came out of the
/// split of `root`. Correlation is by file-name prefix only: an unrelated
/// upload whose file name begins alike is taken for a sibling.
pub fn siblings(records: &Vec<JobRecord>, prefix: &str, root: &JobHandle) -> (found: Result<
    Vec<JobHandle>,
    TrackError,
>)
    ensures
        handles_view(found) == discovered(records.deep_view(), prefix@, root@),
{
    let mut handles: Vec<JobHandle> = Vec::new();
    let ghost all = records.deep_view();
    proof {
        assert(all.take(0) =~= Seq::<JobRecordView>::empty());
        assert(handles.deep_view() =~= sibling_handles(all.take(0), prefix@, root@));
    }
    for i in 0..records.len()
        invariant
            all == records.deep_view(),
            handles.deep_view() == sibling_handles(all.take(i as int), prefix@, root@),
    {
        let record = &records[i];
        let ghost before = handles.deep_view();
        let ghost keep = |record: JobRecordView| is_sibling(record, prefix@, root@);
        let ghost name = |record: JobRecordView| record.handle;
        proof {
            all.lemma_take_succ_push(i as int);
            all.take(i as int).lemma_filter_push(all[i as int], keep);
            all.take(i as int).filter(keep).lemma_push_map_commute(name, all[i as int]);
        }
        if record_is_sibling(record, prefix, root) {
            handles.push(record.handle.clone());
            assert(handles.deep_view() =~= before.push(record.handle@));
        }
    }
    proof {
        assert(all.take(records.len() as int) =~= all);
    }
    if handles.len() == 0 {
        Err(TrackError::NoChildJobs)
    } else {
        Ok(handles)
    }
}

/// The mathematical value of the results of the siblings.
pub open spec fn results_view(results: Seq<Result<(), TrackError>>) -> Seq<
    Result<(), TrackErrorView>,
> {
    results.map_values(
        |result: Result<(), TrackError>|
            match result {
                Ok(_) => Ok(()),
                Err(error) => Err(error@),
            },
    )
}

/// `at` is the place of the first failure among `results`.
pub open spec fn first_failure_at(results: Seq<Result<(), TrackErrorView>>, at: int) -> bool {
    &&& 0 <= at < results.len()
    &&& results[at] is Err
    &&& forall|j: int| 0 <= j < at ==> results[j] is Ok
}

/// `total` is the one result that the results of the siblings reduce to.
///
/// The split succeeded where there is a sibling and every sibling succeeded.
/// Where siblings failed, the failure of the first of them in the order given
/// stands for all. A split without siblings is an error.
pub open spec fn reduces_to(
    results: Seq<Result<(), TrackErrorView>>,
    total: Result<(), TrackErrorView>,
) -> bool {
    match total {
        Ok(_) => results.len() > 0 && forall|i: int| 0 <= i < results.len() ==> results[i] is Ok,
        Err(error) => if results.len() == 0 {
            error == TrackErrorView::NoChildJobs
        } else {
            exists|at: int| first_failure_at(results, at) && results[at] == Err::<(), _>(error)
        },
    }
}

/// The results of the siblings reduce to one result only.
pub proof fn lemma_reduction_is_determined(
    results: Seq<Result<(), TrackErrorView>>,
    one: Result<(), TrackErrorView>,
    other: Result<(), TrackErrorView>,
)
    requires
        reduces_to(results, one),
        reduces_to(results, other),
    ensures
        one == other,
{
    if results.len() > 0 {
        match (one, other) {
            (Err(a), Err(b)) => {
                let i = choose|at: int|
                    first_failure_at(results, at) && results[at] == Err::<(), _>(a);
                let j = choose|at: int|
                    first_failure_at(results, at) && results[at] == Err::<(), _>(b);
                if i < j {
                    assert(results[i] is Ok);
                } else if j < i {
                    assert(results[j] is Ok);
                }
            },
            (Err(a), Ok(_)) => {
                let i = choose|at: int|
                    first_failure_at(results, at) && results[at] == Err::<(), _>(a);
                assert(results[i] is Ok);
            },
            (Ok(_), Err(b)) => {
                let j = choose|at: int|
                    first_failure_at(results, at) && results[at] == Err::<(), _>(b);
                assert(results[j] is Ok);
            },
            (Ok(x), Ok(y)) => {
                assert(x == y);
            },
        }
    }
}

/// A split succeeds only if every sibling succeeded: one failure among the
/// siblings makes the whole a failure, and a failure of the whole is the
/// failure of one of the siblings, unless there is none.
pub proof fn lemma_one_failure_fails_all(
    results: Seq<Result<(), TrackErrorView>>,
    total: Result<(), TrackErrorView>,
    at: int,
)
    requires
        reduces_to(results, total),
        0 <= at < results.len(),
        results[at] is Err,
    ensures
        total is Err,
        exists|first: int| 0 <= first <= at && results[first] == total,
{
    if total is Ok {
        assert(results[at] is Ok);
    } else {
        let error = total->Err_0;
        let first = choose|first: int|
            first_failure_at(results, first) && results[first] == Err::<(), _>(error);
        if first > at {
            assert(results[at] is Ok);
        }
        assert(results[first] == total);
    }
}

/// The metadata is applied for a sibling exactly if the sibling ended in the
/// success of a document, and then to that document.
pub proof fn lemma_metadata_follows_success(ended: Result<OutcomeView, TrackErrorView>)
    ensures
        sibling_step(ended) is Ok <==> ended matches Ok(OutcomeView::Success(_)),
        ended matches Ok(OutcomeView::Success(document)) ==> sibling_step(ended) == Ok::<
            _,
            TrackErrorView,
        >(document),
        root_step(ended) is ApplyMetadata <==> ended matches Ok(OutcomeView::Success(_)),
{
}

/// The root job is never among its own siblings, and every sibling is the job
/// of a record whose file name begins with the prefix.
pub proof fn lemma_siblings_are_related(
    records: Seq<JobRecordView>,
    prefix: Seq<char>,
    root: Seq<char>,
    at: int,
)
    requires
        0 <= at < sibling_handles(records, prefix, root).len(),
    ensures
        sibling_handles(records, prefix, root)[at] != root,
        exists|k: int|
            0 <= k < records.len() && is_sibling(#[trigger] records[k], prefix, root) && records[k].handle
                == sibling_handles(records, prefix, root)[at],
{
    let keep = |record: JobRecordView| is_sibling(record, prefix, root);
    let kept = records.filter(keep);
    records.lemma_filter_pred(keep, at);
    assert(keep(kept[at]));
    assert(kept.contains(kept[at]));
    records.lemma_filter_contains_rev(keep, kept[at]);
    let k = choose|k: int| 0 <= k < records.len() && records[k] == kept[at];
    assert(is_sibling(records[k], prefix, root));
}

/// The mathematical value of a reduced result.
pub open spec fn total_view(total: Result<(), TrackError>) -> Result<(), TrackErrorView> {
    match total {
        Ok(_) => Ok(()),
        Err(error) => Err(error@),
    }
}

/// Reduces the results of all the siblings of a split to one. To be called
/// once every sibling has ended.
pub fn aggregate(results: &Vec<Result<(), TrackError>>) -> (total: Result<(), TrackError>)
    ensures
        reduces_to(results_view(results@), total_view(total)),
{
    let ghost all = results_view(results@);
    if results.len() == 0 {
        return Err(TrackError::NoChildJobs);
    }
    for i in 0..results.len()
        invariant
            all == results_view(results@),
            all.len() == results.len(),
            forall|j: int| 0 <= j < i ==> all[j] is Ok,
    {
        match &results[i] {
            Ok(_) => {},
            Err(error) => {
                let first = error.clone();
                assert(first_failure_at(all, i as int));
                assert(all[i as int] == Err::<(), _>(first@));
                return Err(first);
            },
        }
    }
    Ok(())
}

} // verus!
