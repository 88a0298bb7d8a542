use std::collections::HashMap;

use scan2webdav::client::{Body, CustomField, Method, PaperlessClient, Request};
use scan2webdav::error::TrackError;
use scan2webdav::fetch::fetched;
use scan2webdav::job::{JobRecord, Outcome};
use scan2webdav::notify::notification;
use scan2webdav::poller::{PollAction, PollEvent, PollPolicy, Poller};
use scan2webdav::split::{after_root, after_sibling, aggregate, siblings, RootStep};
use scan2webdav::submit::{file_name_prefix, read_handle};

/// A backend that answers from a script and records what it was asked.
struct Backend {
    upload_answer: String,
    /// Per job handle, the answers to successive status requests; the last one
    /// is repeated.
    status: HashMap<String, Vec<Vec<JobRecord>>>,
    all_jobs: Vec<JobRecord>,
    asked: HashMap<String, usize>,
    sent: Vec<Request>,
}

impl Backend {
    fn new(upload_answer: &str) -> Backend {
        Backend {
            upload_answer: upload_answer.to_string(),
            status: HashMap::new(),
            all_jobs: Vec::new(),
            asked: HashMap::new(),
            sent: Vec::new(),
        }
    }

    fn answer_status(&mut self, handle: &str) -> Result<Vec<JobRecord>, TrackError> {
        let script = match self.status.get(handle) {
            Some(script) => script,
            None => return Ok(Vec::new()),
        };
        let turn = self.asked.entry(handle.to_string()).or_insert(0);
        let answer = script[(*turn).min(script.len() - 1)].clone();
        *turn += 1;
        Ok(answer)
    }

    fn patches(&self) -> Vec<String> {
        self.sent
            .iter()
            .filter(|request| request.method == Method::Patch)
            .map(|request| request.url.clone())
            .collect()
    }
}

fn job(handle: &str, title: &str, status: &str, message: Option<&str>, document: Option<&str>) -> JobRecord {
    JobRecord::from_parts(
        handle.to_string(),
        Some(format!("{}.pdf", file_name_prefix(title))),
        Some(status.to_string()),
        message.map(str::to_string),
        document.map(str::to_string),
    )
}

fn submit(client: &PaperlessClient, backend: &mut Backend, title: &str) -> Result<String, TrackError> {
    backend.sent.push(client.upload_request(title)?);
    read_handle(&backend.upload_answer)
}

fn poll(client: &PaperlessClient, backend: &mut Backend, handle: &String) -> Result<Outcome, TrackError> {
    let mut poller = Poller::new(PollPolicy::standard());
    let mut clock: u64 = 0;
    let mut action = poller.step(PollEvent::Clock { elapsed_ms: clock });
    loop {
        action = match action {
            PollAction::Fetch => {
                let answer = match client.job_request(handle) {
                    Ok(request) => {
                        backend.sent.push(request);
                        backend.answer_status(handle)
                    }
                    Err(error) => Err(error),
                };
                poller.step(fetched(answer))
            }
            PollAction::Sleep { ms } => {
                clock += ms;
                poller.step(PollEvent::Clock { elapsed_ms: clock })
            }
            PollAction::Stop => return poller.verdict().unwrap(),
        };
    }
}

fn apply_metadata(client: &PaperlessClient, backend: &mut Backend, document: &String) -> Result<(), TrackError> {
    if let Some(request) = client.metadata_request(document)? {
        assert_eq!(request.body, Body::CustomFields);
        backend.sent.push(request);
    }
    Ok(())
}

fn track(client: &PaperlessClient, backend: &mut Backend, title: &str, root: &String) -> Result<(), TrackError> {
    match after_root(poll(client, backend, root)) {
        RootStep::ApplyMetadata(document) => apply_metadata(client, backend, &document),
        RootStep::Fail(error) => Err(error),
        RootStep::DiscoverSiblings => {
            backend.sent.push(client.jobs_request()?);
            let listed = backend.all_jobs.clone();
            let handles = siblings(&listed, &file_name_prefix(title), root)?;
            let mut results = Vec::new();
            for handle in handles.iter() {
                results.push(match after_sibling(poll(client, backend, handle)) {
                    Ok(document) => apply_metadata(client, backend, &document),
                    Err(error) => Err(error),
                });
            }
            aggregate(&results)
        }
    }
}

fn client_with_fields() -> PaperlessClient {
    let field = CustomField { field: 4, value: serde_json::Value::from("scanner") };
    PaperlessClient::new("https://paperless.example/", "SECRET-REDACTED", vec![field]).unwrap()
}

#[test]
fn single_document_is_patched_and_nobody_is_notified() {
    let client = client_with_fields();
    let mut backend = Backend::new("\"H1\"");
    backend.status.insert(
        "H1".to_string(),
        vec![
            vec![job("H1", "scan-1", "PENDING", None, None)],
            vec![job("H1", "scan-1", "STARTED", None, None)],
            vec![job("H1", "scan-1", "SUCCESS", Some("Success. New document id 1 created"), Some("D1"))],
        ],
    );

    let handle = submit(&client, &mut backend, "scan-1").unwrap();
    assert_eq!(handle, "H1");
    let result = track(&client, &mut backend, "scan-1", &handle);

    assert_eq!(result, Ok(()));
    assert_eq!(backend.patches(), vec!["https://paperless.example/api/documents/D1/".to_string()]);
    assert_eq!(backend.asked["H1"], 3);
    assert_eq!(notification("scan-1", &result), None);
}

#[test]
fn split_with_a_failing_sibling_fails_and_notifies_once() {
    let client = client_with_fields();
    let mut backend = Backend::new("\"H2\"");
    let root = job("H2", "scan-2", "SUCCESS", Some("Barcode splitting complete!"), None);
    let first = job("H3", "scan-2", "SUCCESS", None, Some("D3"));
    let second = job("H4", "scan-2", "FAILURE", Some("ocr error"), None);
    let stranger = job("H5", "scan-7", "SUCCESS", None, Some("D5"));
    backend.status.insert("H2".to_string(), vec![vec![root.clone()]]);
    backend.status.insert("H3".to_string(), vec![vec![job("H3", "scan-2", "STARTED", None, None)], vec![first.clone()]]);
    backend.status.insert("H4".to_string(), vec![vec![second.clone()]]);
    backend.all_jobs = vec![stranger, root, first, second];

    let handle = submit(&client, &mut backend, "scan-2").unwrap();
    assert_eq!(handle, "H2");
    let result = track(&client, &mut backend, "scan-2", &handle);

    assert_eq!(result, Err(TrackError::Failed("ocr error".to_string())));
    assert_eq!(backend.patches(), vec!["https://paperless.example/api/documents/D3/".to_string()]);
    let notices: Vec<String> = notification("scan-2", &result).into_iter().collect();
    assert_eq!(notices.len(), 1);
    assert!(notices[0].contains("scan-2"));
    assert!(notices[0].contains("ocr error"));
}

#[test]
fn split_with_three_good_siblings_patches_each() {
    let client = client_with_fields();
    let mut backend = Backend::new("\"H2\"");
    let root = job("H2", "scan-2", "SUCCESS", Some("splitting complete"), Some("D0"));
    backend.status.insert("H2".to_string(), vec![vec![root.clone()]]);
    backend.all_jobs = vec![root];
    for (handle, document) in [("H3", "D3"), ("H4", "D4"), ("H5", "D5")] {
        let done = job(handle, "scan-2", "SUCCESS", None, Some(document));
        backend.status.insert(handle.to_string(), vec![vec![done.clone()]]);
        backend.all_jobs.push(done);
    }

    let result = track(&client, &mut backend, "scan-2", &"H2".to_string());

    assert_eq!(result, Ok(()));
    assert_eq!(
        backend.patches(),
        vec![
            "https://paperless.example/api/documents/D3/".to_string(),
            "https://paperless.example/api/documents/D4/".to_string(),
            "https://paperless.example/api/documents/D5/".to_string(),
        ]
    );
}

#[test]
fn split_of_a_sibling_is_an_error() {
    let client = client_with_fields();
    let mut backend = Backend::new("\"H2\"");
    let root = job("H2", "scan-2", "SUCCESS", Some("splitting complete"), None);
    let again = job("H3", "scan-2", "SUCCESS", Some("splitting complete"), None);
    backend.status.insert("H2".to_string(), vec![vec![root.clone()]]);
    backend.status.insert("H3".to_string(), vec![vec![again.clone()]]);
    backend.all_jobs = vec![root, again];

    let result = track(&client, &mut backend, "scan-2", &"H2".to_string());

    assert_eq!(result, Err(TrackError::NestedSplit));
    assert_eq!(backend.patches(), Vec::<String>::new());
}

#[test]
fn split_without_children_is_an_error() {
    let client = client_with_fields();
    let mut backend = Backend::new("\"H2\"");
    let root = job("H2", "scan-2", "SUCCESS", Some("splitting complete"), None);
    backend.status.insert("H2".to_string(), vec![vec![root.clone()]]);
    backend.all_jobs = vec![root];

    let result = track(&client, &mut backend, "scan-2", &"H2".to_string());

    assert_eq!(result, Err(TrackError::NoChildJobs));
}

#[test]
fn job_that_the_backend_does_not_know_is_fatal() {
    let client = client_with_fields();
    let mut backend = Backend::new("\"H1\"");

    let result = track(&client, &mut backend, "scan-1", &"H1".to_string());

    assert_eq!(result, Err(TrackError::NotFound));
    assert_eq!(backend.sent.len(), 1);
}

#[test]
fn job_that_never_finishes_times_out_after_sixty_polls() {
    let client = client_with_fields();
    let mut backend = Backend::new("\"H1\"");
    backend.status.insert("H1".to_string(), vec![vec![job("H1", "scan-1", "STARTED", None, None)]]);

    let result = track(&client, &mut backend, "scan-1", &"H1".to_string());

    assert_eq!(result, Err(TrackError::Timeout));
    assert_eq!(backend.asked["H1"], 60);
    assert!(notification("scan-1", &result).unwrap().contains("Timeout while waiting for processing."));
}

#[test]
fn malformed_upload_answer_fails_the_submission() {
    let client = client_with_fields();
    let mut backend = Backend::new("<html>502 Bad Gateway</html>");

    assert_eq!(submit(&client, &mut backend, "scan-1"), Err(TrackError::MalformedHandle));
    assert_eq!(backend.sent.len(), 1);
    assert_eq!(backend.sent[0].method, Method::Post);
}

#[test]
fn unknown_status_word_fails_the_tracking() {
    let client = client_with_fields();
    let mut backend = Backend::new("\"H1\"");
    backend.status.insert("H1".to_string(), vec![vec![job("H1", "scan-1", "REVOKED", None, None)]]);

    let result = track(&client, &mut backend, "scan-1", &"H1".to_string());

    assert_eq!(result, Err(TrackError::Failed("Unknown processing status: REVOKED".to_string())));
}

#[test]
fn client_without_fields_patches_nothing() {
    let client = PaperlessClient::new("https://paperless.example/", "SECRET-REDACTED", Vec::new()).unwrap();
    let mut backend = Backend::new("\"H1\"");
    backend.status.insert(
        "H1".to_string(),
        vec![vec![job("H1", "scan-1", "SUCCESS", None, Some("D1"))]],
    );

    let result = track(&client, &mut backend, "scan-1", &"H1".to_string());

    assert_eq!(result, Ok(()));
    assert_eq!(backend.patches(), Vec::<String>::new());
}
