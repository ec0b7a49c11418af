use openuo_launcher::github::{
    fetch_latest_release, select_asset, DownloadUrls, FetchError, GithubAsset, GithubRelease,
    HttpOutcome, ReleaseBody, SimpleRelease,
};
use openuo_launcher::system_info::{Arch, Os, Platform};
use serde_json::Value;

fn text(value: &Value, key: &str) -> Option<String> {
    value.get(key).and_then(|v| v.as_str()).map(|s| s.to_string())
}

/// Reads a body in the structured format.
fn structured(body: &str) -> ReleaseBody {
    let value: Value = match serde_json::from_str(body) {
        Ok(value) => value,
        Err(e) => return ReleaseBody::Malformed(e.to_string()),
    };
    let assets = match value.get("assets").and_then(|a| a.as_array()) {
        Some(list) => list
            .iter()
            .map(|a| GithubAsset {
                name: text(a, "name").expect("an asset has a name"),
                browser_download_url: text(a, "browser_download_url").expect("an asset has a url"),
                size: a.get("size").and_then(|s| s.as_u64()).expect("an asset has a size"),
            })
            .collect(),
        None => return ReleaseBody::Malformed("missing field `assets`".to_string()),
    };
    match (text(&value, "tag_name"), text(&value, "name")) {
        (Some(tag_name), Some(name)) => ReleaseBody::Structured(GithubRelease {
            tag_name,
            name,
            assets,
            body: text(&value, "body"),
            published_at: text(&value, "published_at"),
            target_commitish: text(&value, "target_commitish"),
        }),
        _ => ReleaseBody::Malformed("missing field `name`".to_string()),
    }
}

/// Reads a body in the simplified format.
fn simplified(body: &str) -> ReleaseBody {
    let value: Value = match serde_json::from_str(body) {
        Ok(value) => value,
        Err(e) => return ReleaseBody::Malformed(e.to_string()),
    };
    let urls = match value.get("download_url") {
        Some(Value::String(url)) => DownloadUrls::Single(url.clone()),
        Some(map @ Value::Object(_)) => DownloadUrls::Multiple {
            osx_arm64: text(map, "osx-arm64"),
            osx_x64: text(map, "osx-x64"),
            linux_x64: text(map, "linux-x64"),
            win_x64: text(map, "win-x64"),
        },
        _ => return ReleaseBody::Malformed("missing field `download_url`".to_string()),
    };
    match text(&value, "version") {
        Some(version) => ReleaseBody::Simplified(SimpleRelease { version, download_url: urls }),
        None => ReleaseBody::Malformed("missing field `version`".to_string()),
    }
}

const LINUX: Platform = Platform { os: Os::Linux, arch: Arch::X86_64 };
const WINDOWS: Platform = Platform { os: Os::Windows, arch: Arch::X86_64 };
const MAC_ARM: Platform = Platform { os: Os::Macos, arch: Arch::Aarch64 };

#[test]
fn structured_body_offers_the_windows_asset() {
    let body = r#"{
        "tag_name": "v1.0", "name": "1.0",
        "assets": [{"name": "win-x64.zip", "browser_download_url": "https://h/w.zip", "size": 1000}]
    }"#;
    let outcome = HttpOutcome::Response { status: 200, body: structured(body) };
    let release = fetch_latest_release(outcome, WINDOWS).expect("the body is a release");
    let asset = select_asset(&release, "win-x64.zip").expect("the asset is there");
    assert_eq!(asset.name, "win-x64.zip");
    assert_eq!(asset.browser_download_url, "https://h/w.zip");
    assert_eq!(asset.size, 1000);
    assert!(select_asset(&release, "linux-x64.zip").is_none());
    assert!(select_asset(&release, "osx-arm64.zip").is_none());
}

#[test]
fn simplified_body_with_a_map_serves_the_platforms_in_it() {
    let body = r#"{"version":"1.2.3","download_url":{"linux-x64":"http://x/y.zip"}}"#;
    let outcome = HttpOutcome::Response { status: 200, body: simplified(body) };
    let release = fetch_latest_release(outcome, LINUX).expect("linux is in the map");
    assert_eq!(release.name, "1.2.3");
    assert_eq!(release.tag_name, "1.2.3");
    assert_eq!(release.assets.len(), 1);
    assert_eq!(release.assets[0].name, "linux-x64.zip");
    assert_eq!(release.assets[0].browser_download_url, "http://x/y.zip");
    assert_eq!(release.assets[0].size, 0);

    for platform in [WINDOWS, MAC_ARM] {
        let outcome = HttpOutcome::Response { status: 200, body: simplified(body) };
        assert!(matches!(
            fetch_latest_release(outcome, platform),
            Err(FetchError::NoAssetForPlatform)
        ));
    }
}

#[test]
fn simplified_body_with_one_url_serves_every_platform() {
    let body = r#"{"version":"2.0","download_url":"http://x/all.zip"}"#;
    for (platform, name) in
        [(LINUX, "linux-x64.zip"), (WINDOWS, "win-x64.zip"), (MAC_ARM, "osx-arm64.zip")]
    {
        let outcome = HttpOutcome::Response { status: 200, body: simplified(body) };
        let release = fetch_latest_release(outcome, platform).expect("one url serves all");
        assert_eq!(release.name, "2.0");
        assert_eq!(release.assets.len(), 1);
        assert_eq!(release.assets[0].name, name);
        assert_eq!(release.assets[0].browser_download_url, "http://x/all.zip");
    }
}

#[test]
fn body_that_is_no_release_is_a_parse_error() {
    for body in ["", "not json", "{\"version\": 3}", "[]"] {
        let outcome = HttpOutcome::Response { status: 200, body: simplified(body) };
        assert!(matches!(fetch_latest_release(outcome, LINUX), Err(FetchError::Parse(_))));
        let outcome = HttpOutcome::Response { status: 200, body: structured(body) };
        assert!(matches!(fetch_latest_release(outcome, LINUX), Err(FetchError::Parse(_))));
    }
}

#[test]
fn failed_status_counts_before_the_body() {
    let body = r#"{"version":"1.2.3","download_url":"http://x/all.zip"}"#;
    let outcome = HttpOutcome::Response { status: 404, body: simplified(body) };
    assert!(matches!(fetch_latest_release(outcome, LINUX), Err(FetchError::Http(404))));
    let outcome = HttpOutcome::Response { status: 503, body: simplified("") };
    assert!(matches!(fetch_latest_release(outcome, LINUX), Err(FetchError::Http(503))));
}
