use scan2webdav::error::TrackError;
use scan2webdav::job::{JobRecord, Outcome};
use scan2webdav::split::{after_root, after_sibling, aggregate, siblings, RootStep};
use scan2webdav::status::StatusTag;

fn listed(handle: &str, file_name: Option<&str>) -> JobRecord {
    JobRecord {
        handle: handle.to_string(),
        file_name: file_name.map(str::to_string),
        status: StatusTag::Started,
        message: None,
        document: None,
    }
}

#[test]
fn root_success_calls_for_metadata() {
    assert_eq!(
        after_root(Ok(Outcome::Success("D1".to_string()))),
        RootStep::ApplyMetadata("D1".to_string())
    );
}

#[test]
fn root_split_calls_for_sibling_discovery() {
    assert_eq!(after_root(Ok(Outcome::Split)), RootStep::DiscoverSiblings);
}

#[test]
fn root_failure_ends_tracking() {
    assert_eq!(
        after_root(Ok(Outcome::Failure("ocr error".to_string()))),
        RootStep::Fail(TrackError::Failed("ocr error".to_string()))
    );
    assert_eq!(after_root(Err(TrackError::Timeout)), RootStep::Fail(TrackError::Timeout));
}

#[test]
fn sibling_success_yields_its_document() {
    assert_eq!(after_sibling(Ok(Outcome::Success("D3".to_string()))), Ok("D3".to_string()));
}

#[test]
fn sibling_split_is_a_nested_split_error() {
    assert_eq!(after_sibling(Ok(Outcome::Split)), Err(TrackError::NestedSplit));
}

#[test]
fn sibling_failure_and_timeout_are_errors() {
    assert_eq!(
        after_sibling(Ok(Outcome::Failure("ocr error".to_string()))),
        Err(TrackError::Failed("ocr error".to_string()))
    );
    assert_eq!(after_sibling(Err(TrackError::Timeout)), Err(TrackError::Timeout));
    assert_eq!(after_sibling(Err(TrackError::NotFound)), Err(TrackError::NotFound));
}

#[test]
fn siblings_are_found_by_prefix_without_the_root() {
    let records = vec![
        listed("H0", Some("Other-scan-2.pdf")),
        listed("H2", Some("EpicPrinter-scan-2.pdf")),
        listed("H3", Some("EpicPrinter-scan-2_document_0.pdf")),
        listed("H9", None),
        listed("H4", Some("EpicPrinter-scan-2_document_1.pdf")),
        listed("H5", Some("xEpicPrinter-scan-2.pdf")),
    ];
    assert_eq!(
        siblings(&records, "EpicPrinter-scan-2", &"H2".to_string()),
        Ok(vec!["H3".to_string(), "H4".to_string()])
    );
}

#[test]
fn longer_title_with_the_same_beginning_is_taken_for_a_sibling() {
    let records = vec![listed("H7", Some("EpicPrinter-scan-22.pdf"))];
    assert_eq!(
        siblings(&records, "EpicPrinter-scan-2", &"H2".to_string()),
        Ok(vec!["H7".to_string()])
    );
}

#[test]
fn split_without_siblings_is_an_error() {
    let records = vec![listed("H2", Some("EpicPrinter-scan-2.pdf")), listed("H8", None)];
    assert_eq!(
        siblings(&records, "EpicPrinter-scan-2", &"H2".to_string()),
        Err(TrackError::NoChildJobs)
    );
    assert_eq!(siblings(&Vec::new(), "EpicPrinter-scan-2", &"H2".to_string()), Err(TrackError::NoChildJobs));
}

#[test]
fn aggregate_of_all_successes_is_success() {
    assert_eq!(aggregate(&vec![Ok(()), Ok(()), Ok(())]), Ok(()));
    assert_eq!(aggregate(&vec![Ok(())]), Ok(()));
}

#[test]
fn aggregate_with_one_failure_is_that_failure() {
    let failure = TrackError::Failed("ocr error".to_string());
    assert_eq!(aggregate(&vec![Ok(()), Ok(()), Err(failure.clone())]), Err(failure.clone()));
    assert_eq!(aggregate(&vec![Err(failure.clone()), Ok(()), Ok(())]), Err(failure));
}

#[test]
fn aggregate_reports_the_first_of_several_failures() {
    let results = vec![Ok(()), Err(TrackError::Timeout), Err(TrackError::NestedSplit)];
    assert_eq!(aggregate(&results), Err(TrackError::Timeout));
}

#[test]
fn aggregate_of_nothing_is_an_error() {
    assert_eq!(aggregate(&Vec::new()), Err(TrackError::NoChildJobs));
}

#[test]
fn three_siblings_with_one_failure_fail_after_two_metadata_calls() {
    let ended = vec![
        Ok(Outcome::Success("D1".to_string())),
        Ok(Outcome::Success("D2".to_string())),
        Ok(Outcome::Failure("ocr error".to_string())),
    ];
    let mut patched: Vec<String> = Vec::new();
    let mut results: Vec<Result<(), TrackError>> = Vec::new();
    for verdict in ended {
        results.push(match after_sibling(verdict) {
            Ok(document) => {
                patched.push(document);
                Ok(())
            }
            Err(error) => Err(error),
        });
    }
    assert_eq!(aggregate(&results), Err(TrackError::Failed("ocr error".to_string())));
    assert_eq!(patched, vec!["D1".to_string(), "D2".to_string()]);
}

#[test]
fn three_successful_siblings_succeed_after_three_metadata_calls() {
    let ended = vec![
        Ok(Outcome::Success("D1".to_string())),
        Ok(Outcome::Success("D2".to_string())),
        Ok(Outcome::Success("D3".to_string())),
    ];
    let mut patched: Vec<String> = Vec::new();
    let mut results: Vec<Result<(), TrackError>> = Vec::new();
    for verdict in ended {
        results.push(match after_sibling(verdict) {
            Ok(document) => {
                patched.push(document);
                Ok(())
            }
            Err(error) => Err(error),
        });
    }
    assert_eq!(aggregate(&results), Ok(()));
    assert_eq!(patched.len(), 3);
}
