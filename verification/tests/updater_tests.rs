use textractor_updater::updater::{parse_variant, LaunchVariant, Updater, Version};

const URL501: &str = "https://github.com/Artikash/Textractor/releases/download/v5.0.1/Textractor-5.0.1-Zip-Version-English-Only.zip";

#[test]
fn test_get_dl_url() {
    let mut updater = Updater::new();
    updater.latest_tag = String::from("v5.0.1");
    assert_eq!(updater.get_download_url(), URL501);
}

#[test]
fn test_download_latest_up_to_date() {
    let mut updater = Updater::new();
    updater.current_tag = String::from("v5.0.1");
    updater.latest_tag = String::from("v5.0.1");
    assert_eq!(updater.download_latest(), Version::UpToDate());
}

#[test]
fn test_download_latest_not_up_to_date() {
    let mut updater = Updater::new();
    updater.current_tag = String::from("v0.0.1");
    assert_eq!(updater.download_latest(), Version::Downloaded());
}

#[test]
fn test_set_version_file_exists() {}

#[test]
fn test_set_version_file_does_not_exist() {
    let mut updater = Updater::new();
    updater.set_current_tag(None).unwrap();
    assert_eq!(updater.current_tag, "v0.0.0");
}

#[test]
fn get_dl_url_ends_with_expected_suffix() {
    let mut updater = Updater::new();
    updater.latest_tag = String::from("v5.0.1");
    let url = updater.get_download_url();
    assert!(url.ends_with("/download/v5.0.1/Textractor-5.0.1-Zip-Version-English-Only.zip"));
}

#[test]
fn latest_url_appends_latest() {
    let updater = Updater::new();
    assert_eq!(
        updater.latest_url(),
        "https://github.com/Artikash/Textractor/releases/latest"
    );
}

#[test]
fn variant_64_maps_to_x64() {
    assert_eq!(parse_variant("64"), LaunchVariant::X64);
    assert_eq!(parse_variant("x64"), LaunchVariant::X64);
}

#[test]
fn variant_unknown_falls_back_to_x86() {
    assert_eq!(parse_variant("zzz"), LaunchVariant::X86);
    assert_eq!(parse_variant(""), LaunchVariant::X86);
}

#[test]
fn variant_x86_forms_map_to_x86() {
    assert_eq!(parse_variant("x86"), LaunchVariant::X86);
    assert_eq!(parse_variant("86"), LaunchVariant::X86);
}

#[test]
fn set_current_tag_keeps_existing_marker() {
    let mut updater = Updater::new();
    updater
        .set_current_tag(Some(String::from("v4.2.0")))
        .unwrap();
    assert_eq!(updater.current_tag, "v4.2.0");
}

#[test]
fn set_current_tag_rejects_empty_marker() {
    let mut updater = Updater::new();
    let err = updater.set_current_tag(Some(String::new())).unwrap_err();
    assert_eq!(err.kind, textractor_updater::errors::ErrorKind::Io);
    assert_eq!(updater.current_tag, "v0.0.0");
}
