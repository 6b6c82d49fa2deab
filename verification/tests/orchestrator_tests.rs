use textractor_updater::errors::{ErrorKind, UpdateError};
use textractor_updater::orchestrator::{Action, Event, Outcome, Phase, Run};
use textractor_updater::version_state::{load_tag, marker_contents};

const BASE: &str = "https://github.com/Artikash/Textractor/releases";
const URL501: &str = "https://github.com/Artikash/Textractor/releases/download/v5.0.1/Textractor-5.0.1-Zip-Version-English-Only.zip";

#[test]
fn first_run_downloads_persists_and_hands_off() {
    // simulated environment: no persisted marker, no transient archive
    let mut marker: Option<String> = None;
    let mut archive_present = false;

    let run = Run::new(BASE.to_string());
    let (run, action) = run.advance(Event::Start);
    assert_eq!(action, Action::LoadState);

    let (run, action) = run.advance(Event::StateLoaded(Ok(marker.clone())));
    assert_eq!(run.current_tag, "v0.0.0");
    assert_eq!(
        action,
        Action::ResolveLatest(format!("{}/latest", BASE))
    );

    let (run, action) = run.advance(Event::LatestResolved(Ok("v5.0.1".to_string())));
    assert_eq!(action, Action::FetchArchive(URL501.to_string()));

    archive_present = true;
    let (run, action) = run.advance(Event::ArchiveFetched(Ok(())));
    assert_eq!(action, Action::ExtractArchive);

    let (run, action) = run.advance(Event::ArchiveExtracted(Ok(3)));
    assert_eq!(action, Action::DeleteArchive);

    archive_present = false;
    let (run, action) = run.advance(Event::ArchiveDeleted(true));
    assert_eq!(action, Action::PersistTag("v5.0.1".to_string()));
    if let Action::PersistTag(tag) = &action {
        marker = Some(marker_contents(tag));
    }

    let (run, action) = run.advance(Event::TagPersisted(Ok(())));
    assert_eq!(action, Action::Launch);
    assert_eq!(run.phase, Phase::Handoff);
    assert!(matches!(run.outcome, Outcome::Updated));
    assert_eq!(run.current_tag, "v5.0.1");
    // the marker file ends containing the new tag, the archive is gone
    assert_eq!(marker.as_deref(), Some("v5.0.1"));
    assert!(!archive_present);
    // loading the persisted marker on the next run yields the same tag
    assert_eq!(load_tag(marker).unwrap(), "v5.0.1");
}

#[test]
fn up_to_date_run_hands_off_without_side_effects() {
    let run = Run::new(BASE.to_string());
    let (run, _) = run.advance(Event::Start);
    let (run, _) = run.advance(Event::StateLoaded(Ok(Some("v5.0.1".to_string()))));
    let (run, action) = run.advance(Event::LatestResolved(Ok("v5.0.1".to_string())));
    assert_eq!(action, Action::Launch);
    assert_eq!(run.phase, Phase::Handoff);
    assert!(matches!(run.outcome, Outcome::UpToDate));
    assert_eq!(run.current_tag, "v5.0.1");
}

#[test]
fn differing_tags_take_the_download_branch() {
    let run = Run::new(BASE.to_string());
    let (run, _) = run.advance(Event::Start);
    let (run, _) = run.advance(Event::StateLoaded(Ok(Some("v0.0.1".to_string()))));
    let (run, action) = run.advance(Event::LatestResolved(Ok("v5.0.1".to_string())));
    assert_eq!(run.phase, Phase::Fetching);
    assert_eq!(action, Action::FetchArchive(URL501.to_string()));
}

#[test]
fn fetch_failure_aborts_without_persisting_and_still_launches() {
    let run = Run::new(BASE.to_string());
    let (run, _) = run.advance(Event::Start);
    let (run, _) = run.advance(Event::StateLoaded(Ok(Some("v0.0.1".to_string()))));
    let (run, _) = run.advance(Event::LatestResolved(Ok("v5.0.1".to_string())));
    let (run, action) = run.advance(Event::ArchiveFetched(Err(UpdateError::new(
        ErrorKind::Network,
        "host unreachable".to_string(),
    ))));
    assert_eq!(action, Action::Launch);
    assert_eq!(run.phase, Phase::Handoff);
    // the previously installed tag is untouched
    assert_eq!(run.current_tag, "v0.0.1");
    match run.outcome {
        Outcome::Failed(e) => assert_eq!(e.kind, ErrorKind::Network),
        other => panic!("expected a failed outcome, got {:?}", other),
    }
}

#[test]
fn extract_failure_aborts_before_persisting() {
    let run = Run::new(BASE.to_string());
    let (run, _) = run.advance(Event::Start);
    let (run, _) = run.advance(Event::StateLoaded(Ok(Some("v0.0.1".to_string()))));
    let (run, _) = run.advance(Event::LatestResolved(Ok("v5.0.1".to_string())));
    let (run, _) = run.advance(Event::ArchiveFetched(Ok(())));
    let (run, action) = run.advance(Event::ArchiveExtracted(Err(UpdateError::new(
        ErrorKind::Archive,
        "corrupt container".to_string(),
    ))));
    assert_eq!(action, Action::Launch);
    assert_eq!(run.current_tag, "v0.0.1");
    match run.outcome {
        Outcome::Failed(e) => assert_eq!(e.kind, ErrorKind::Archive),
        other => panic!("expected a failed outcome, got {:?}", other),
    }
}

#[test]
fn unreadable_marker_aborts_with_io_error() {
    let run = Run::new(BASE.to_string());
    let (run, _) = run.advance(Event::Start);
    let (run, action) = run.advance(Event::StateLoaded(Err(UpdateError::new(
        ErrorKind::Io,
        "permission denied".to_string(),
    ))));
    assert_eq!(action, Action::Launch);
    assert_eq!(run.phase, Phase::Handoff);
    match run.outcome {
        Outcome::Failed(e) => assert_eq!(e.kind, ErrorKind::Io),
        other => panic!("expected a failed outcome, got {:?}", other),
    }
}

#[test]
fn empty_marker_file_is_corruption() {
    let run = Run::new(BASE.to_string());
    let (run, _) = run.advance(Event::Start);
    let (run, action) = run.advance(Event::StateLoaded(Ok(Some(String::new()))));
    assert_eq!(action, Action::Launch);
    match run.outcome {
        Outcome::Failed(e) => assert_eq!(e.kind, ErrorKind::Io),
        other => panic!("expected a failed outcome, got {:?}", other),
    }
}

#[test]
fn delete_failure_is_best_effort_and_still_persists() {
    let run = Run::new(BASE.to_string());
    let (run, _) = run.advance(Event::Start);
    let (run, _) = run.advance(Event::StateLoaded(Ok(Some("v0.0.1".to_string()))));
    let (run, _) = run.advance(Event::LatestResolved(Ok("v5.0.1".to_string())));
    let (run, _) = run.advance(Event::ArchiveFetched(Ok(())));
    let (run, _) = run.advance(Event::ArchiveExtracted(Ok(2)));
    let (run, action) = run.advance(Event::ArchiveDeleted(false));
    assert_eq!(run.phase, Phase::Persisting);
    assert_eq!(action, Action::PersistTag("v5.0.1".to_string()));
}
