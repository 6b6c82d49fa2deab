use textractor_updater::errors::ErrorKind;
use textractor_updater::version_state::{default_tag, load_tag, marker_contents};

#[test]
fn load_tag_absent_marker_yields_sentinel() {
    assert_eq!(load_tag(None).unwrap(), "v0.0.0");
    assert_eq!(default_tag(), "v0.0.0");
}

#[test]
fn load_tag_reads_existing_marker() {
    assert_eq!(load_tag(Some("v5.0.1".to_string())).unwrap(), "v5.0.1");
}

#[test]
fn load_tag_rejects_empty_marker() {
    let err = load_tag(Some(String::new())).unwrap_err();
    assert_eq!(err.kind, ErrorKind::Io);
}

#[test]
fn marker_round_trips_through_load() {
    let tag = "v0.5.1".to_string();
    let written = marker_contents(&tag);
    assert_eq!(load_tag(Some(written)).unwrap(), tag);
}
