use textractor_updater::errors::ErrorKind;
use textractor_updater::resolver::parse_latest_tag;

#[test]
fn parse_latest_tag_extracts_tag_name() {
    let body = "{\"tag_name\":\"v5.0.1\",\"name\":\"some release\"}";
    assert_eq!(parse_latest_tag(body).unwrap(), "v5.0.1");
}

#[test]
fn parse_latest_tag_rejects_invalid_json() {
    let err = parse_latest_tag("this is not json").unwrap_err();
    assert_eq!(err.kind, ErrorKind::Parse);
}

#[test]
fn parse_latest_tag_rejects_missing_member() {
    let err = parse_latest_tag("{\"name\":\"v5.0.1\"}").unwrap_err();
    assert_eq!(err.kind, ErrorKind::Parse);
}

#[test]
fn parse_latest_tag_rejects_non_string_member() {
    let err = parse_latest_tag("{\"tag_name\":501}").unwrap_err();
    assert_eq!(err.kind, ErrorKind::Parse);
}

#[test]
fn parse_latest_tag_rejects_empty_tag() {
    let err = parse_latest_tag("{\"tag_name\":\"\"}").unwrap_err();
    assert_eq!(err.kind, ErrorKind::Parse);
}

#[test]
fn parse_latest_tag_rejects_non_object_body() {
    let err = parse_latest_tag("[1, 2, 3]").unwrap_err();
    assert_eq!(err.kind, ErrorKind::Parse);
}
