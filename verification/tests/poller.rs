use scan2webdav::error::TrackError;
use scan2webdav::fetch::{fetched, select_record};
use scan2webdav::job::{JobRecord, Outcome};
use scan2webdav::poller::{PollAction, PollEvent, PollPolicy, Poller, PollerState};
use scan2webdav::status::StatusTag;

fn job(status: StatusTag, message: Option<&str>, document: Option<&str>) -> JobRecord {
    JobRecord {
        handle: "H1".to_string(),
        file_name: None,
        status,
        message: message.map(str::to_string),
        document: document.map(str::to_string),
    }
}

#[test]
fn standard_policy_polls_every_five_seconds_for_five_minutes() {
    let policy = PollPolicy::standard();
    assert_eq!(policy.interval_ms, 5_000);
    assert_eq!(policy.timeout_ms, 300_000);
}

#[test]
fn new_poller_is_running() {
    let poller = Poller::new(PollPolicy::standard());
    assert!(poller.is_running());
    assert_eq!(poller.state(), &PollerState::Running);
    assert_eq!(poller.verdict(), None);
    assert_eq!(poller.policy(), PollPolicy::standard());
}

#[test]
fn clock_before_deadline_asks_for_a_fetch() {
    let mut poller = Poller::new(PollPolicy::standard());
    assert_eq!(poller.step(PollEvent::Clock { elapsed_ms: 0 }), PollAction::Fetch);
    assert_eq!(poller.step(PollEvent::Clock { elapsed_ms: 299_999 }), PollAction::Fetch);
    assert!(poller.is_running());
}

#[test]
fn clock_at_deadline_times_out() {
    let mut poller = Poller::new(PollPolicy::standard());
    assert_eq!(poller.step(PollEvent::Clock { elapsed_ms: 300_000 }), PollAction::Stop);
    assert_eq!(poller.state(), &PollerState::TimedOut);
    assert_eq!(poller.verdict(), Some(Err(TrackError::Timeout)));
}

#[test]
fn running_record_asks_for_a_sleep_of_one_interval() {
    let mut poller = Poller::new(PollPolicy { interval_ms: 7, timeout_ms: 100 });
    let action = poller.step(PollEvent::Record(job(StatusTag::Started, None, None)));
    assert_eq!(action, PollAction::Sleep { ms: 7 });
    assert!(poller.is_running());
}

#[test]
fn success_record_ends_polling_with_the_document() {
    let mut poller = Poller::new(PollPolicy::standard());
    let action = poller.step(PollEvent::Record(job(StatusTag::Success, None, Some("D1"))));
    assert_eq!(action, PollAction::Stop);
    assert_eq!(poller.state(), &PollerState::Succeeded(Outcome::Success("D1".to_string())));
    assert_eq!(poller.verdict(), Some(Ok(Outcome::Success("D1".to_string()))));
}

#[test]
fn split_record_ends_polling_with_split() {
    let mut poller = Poller::new(PollPolicy::standard());
    let action =
        poller.step(PollEvent::Record(job(StatusTag::Success, Some("splitting complete"), None)));
    assert_eq!(action, PollAction::Stop);
    assert_eq!(poller.verdict(), Some(Ok(Outcome::Split)));
}

#[test]
fn failure_record_ends_polling_with_the_failure() {
    let mut poller = Poller::new(PollPolicy::standard());
    let action = poller.step(PollEvent::Record(job(StatusTag::Failure, Some("ocr error"), None)));
    assert_eq!(action, PollAction::Stop);
    assert_eq!(poller.state(), &PollerState::Failed(TrackError::Failed("ocr error".to_string())));
    assert_eq!(poller.verdict(), Some(Err(TrackError::Failed("ocr error".to_string()))));
}

#[test]
fn failed_fetch_ends_polling_with_its_error() {
    let mut poller = Poller::new(PollPolicy::standard());
    let action = poller.step(PollEvent::FetchFailed(TrackError::Transport("reset".to_string())));
    assert_eq!(action, PollAction::Stop);
    assert_eq!(poller.verdict(), Some(Err(TrackError::Transport("reset".to_string()))));
}

#[test]
fn terminal_poller_ignores_every_event() {
    let mut poller = Poller::new(PollPolicy::standard());
    poller.step(PollEvent::Clock { elapsed_ms: 400_000 });
    assert_eq!(poller.step(PollEvent::Clock { elapsed_ms: 0 }), PollAction::Stop);
    assert_eq!(
        poller.step(PollEvent::Record(job(StatusTag::Success, None, Some("D1")))),
        PollAction::Stop
    );
    assert_eq!(poller.step(PollEvent::FetchFailed(TrackError::NotFound)), PollAction::Stop);
    assert_eq!(poller.state(), &PollerState::TimedOut);
}

#[test]
fn poller_times_out_on_a_job_that_never_finishes() {
    let policy = PollPolicy::standard();
    let mut poller = Poller::new(policy);
    let mut clock: u64 = 0;
    let mut fetches: u64 = 0;
    let mut action = poller.step(PollEvent::Clock { elapsed_ms: clock });
    while action != PollAction::Stop {
        action = match action {
            PollAction::Fetch => {
                fetches += 1;
                poller.step(PollEvent::Record(job(StatusTag::Started, None, None)))
            }
            PollAction::Sleep { ms } => {
                clock += ms;
                poller.step(PollEvent::Clock { elapsed_ms: clock })
            }
            PollAction::Stop => unreachable!(),
        };
        assert!(fetches <= 61);
    }
    assert_eq!(poller.state(), &PollerState::TimedOut);
    assert_eq!(fetches, 60);
    assert_eq!(clock, 300_000);
}

#[test]
fn empty_answer_means_the_job_is_not_found() {
    assert_eq!(select_record(Vec::new()), Err(TrackError::NotFound));
    assert_eq!(fetched(Ok(Vec::new())), PollEvent::FetchFailed(TrackError::NotFound));
}

#[test]
fn answer_with_records_yields_the_last_one() {
    let first = job(StatusTag::Pending, None, None);
    let last = job(StatusTag::Success, None, Some("D1"));
    assert_eq!(select_record(vec![first.clone(), last.clone()]), Ok(last.clone()));
    assert_eq!(fetched(Ok(vec![first, last.clone()])), PollEvent::Record(last));
}

#[test]
fn failed_request_becomes_a_failed_fetch() {
    let error = TrackError::Status { code: 503, message: "503 Service Unavailable".to_string() };
    assert_eq!(fetched(Err(error.clone())), PollEvent::FetchFailed(error));
}

#[test]
fn not_found_is_fatal_for_the_poller() {
    let mut poller = Poller::new(PollPolicy::standard());
    assert_eq!(poller.step(fetched(Ok(Vec::new()))), PollAction::Stop);
    assert_eq!(poller.verdict(), Some(Err(TrackError::NotFound)));
}
