use openuo_launcher::version_marker::{
    detect_open_uo_version, read_open_uo_version_file, write_open_uo_version, UNKNOWN_VERSION,
    VERSION_MARKER_FILE,
};

#[test]
fn marker_round_trip() {
    let (file, contents) = write_open_uo_version("2024.03.01");
    assert_eq!(file, ".version-marker");
    assert_eq!(file, VERSION_MARKER_FILE);
    assert_eq!(contents, "2024.03.01");
    assert_eq!(read_open_uo_version_file(Some(&contents)), Some("2024.03.01".to_string()));
}

#[test]
fn marker_round_trip_of_other_versions() {
    for version in ["v1.0.0", "1", "nightly build 7", "版本 2"] {
        let (_, contents) = write_open_uo_version(version);
        assert_eq!(contents, version);
        assert_eq!(read_open_uo_version_file(Some(&contents)), Some(version.to_string()));
    }
}

#[test]
fn marker_is_trimmed_when_read() {
    assert_eq!(read_open_uo_version_file(Some(" 1.0\r\n")), Some("1.0".to_string()));
    assert_eq!(read_open_uo_version_file(Some("\u{3000}1.0\u{a0}")), Some("1.0".to_string()));
    assert_eq!(read_open_uo_version_file(Some("1 0")), Some("1 0".to_string()));
    assert_eq!(read_open_uo_version_file(Some("")), Some(String::new()));
    assert_eq!(read_open_uo_version_file(Some(" \n ")), Some(String::new()));
    assert_eq!(read_open_uo_version_file(None), None);
}

#[test]
fn nothing_is_installed_without_the_binary() {
    assert_eq!(detect_open_uo_version(false, None), None);
    assert_eq!(detect_open_uo_version(false, Some("2024.03.01")), None);
}

#[test]
fn installed_version_is_the_recorded_one() {
    assert_eq!(detect_open_uo_version(true, Some("2024.03.01")), Some("2024.03.01".to_string()));
    assert_eq!(detect_open_uo_version(true, Some("2024.03.01\n")), Some("2024.03.01".to_string()));
}

#[test]
fn installed_without_a_record_is_of_unknown_version() {
    assert_eq!(detect_open_uo_version(true, None), Some("已安装 (版本未知)".to_string()));
    assert_eq!(detect_open_uo_version(true, None), Some(UNKNOWN_VERSION.to_string()));
    assert_ne!(detect_open_uo_version(true, None), detect_open_uo_version(false, None));
}
