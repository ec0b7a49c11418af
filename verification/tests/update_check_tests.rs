use openuo_launcher::github::{
    FetchError, GithubRelease, UpdateEvent, UpdateSourceConfig,
};
use openuo_launcher::update::Product;
use openuo_launcher::update_check::{check_result, trigger_update_check_impl, CheckStep};

fn release(name: &str) -> GithubRelease {
    GithubRelease {
        tag_name: format!("tag-{}", name),
        name: name.to_string(),
        assets: Vec::new(),
        body: None,
        published_at: None,
        target_commitish: None,
    }
}

fn run(open_uo: bool, launcher: bool, config: Option<&UpdateSourceConfig>) -> Vec<String> {
    let mut check = trigger_update_check_impl(open_uo, launcher);
    let mut seen = Vec::new();
    assert!(!check.is_finished());
    while let Some(step) = check.next_step(config) {
        match step {
            CheckStep::Fetch { product, request } => {
                assert!(!check.is_finished());
                seen.push(format!("{:?} {} {}", product, request.url, request.structured))
            }
            CheckStep::Done => {
                assert!(check.is_finished());
                seen.push("done".to_string())
            }
        }
        assert!(seen.len() <= 3);
    }
    assert!(check.is_finished());
    assert!(check.next_step(config).is_none());
    seen
}

const OPEN_UO: &str = "https://api.github.com/repos/openuo-online/OpenUO/releases/latest";
const LAUNCHER: &str =
    "https://api.github.com/repos/openuo-online/Another-OpenUO-Launcher/releases/latest";

#[test]
fn both_products_are_checked_and_done_comes_last() {
    assert_eq!(
        run(true, true, None),
        vec![format!("OpenUo {} true", OPEN_UO), format!("Launcher {} true", LAUNCHER), "done".to_string()]
    );
}

#[test]
fn one_product_is_checked() {
    assert_eq!(run(true, false, None), vec![format!("OpenUo {} true", OPEN_UO), "done".to_string()]);
    assert_eq!(
        run(false, true, None),
        vec![format!("Launcher {} true", LAUNCHER), "done".to_string()]
    );
}

#[test]
fn check_of_nothing_is_done_at_once() {
    assert_eq!(run(false, false, None), vec!["done".to_string()]);
}

#[test]
fn configuration_is_read_at_every_step() {
    let first = UpdateSourceConfig {
        openuo_url: Some("https://a.example/o".to_string()),
        launcher_url: Some("https://a.example/l".to_string()),
        use_github_format: false,
    };
    let second = UpdateSourceConfig {
        openuo_url: Some("https://b.example/o".to_string()),
        launcher_url: Some("https://b.example/l".to_string()),
        use_github_format: true,
    };
    let mut check = trigger_update_check_impl(true, true);
    match check.next_step(Some(&first)) {
        Some(CheckStep::Fetch { product, request }) => {
            assert_eq!(product, Product::OpenUo);
            assert_eq!(request.url, "https://a.example/o");
            assert!(!request.structured);
        }
        _ => panic!("the managed product is asked about first"),
    }
    match check.next_step(Some(&second)) {
        Some(CheckStep::Fetch { product, request }) => {
            assert_eq!(product, Product::Launcher);
            assert_eq!(request.url, "https://b.example/l");
            assert!(request.structured);
        }
        _ => panic!("the launcher is asked about second"),
    }
    assert!(matches!(check.next_step(None), Some(CheckStep::Done)));
    assert!(check.next_step(None).is_none());
}

#[test]
fn answers_are_reported_per_product() {
    match check_result(Product::OpenUo, Ok(release("1.2.3"))) {
        UpdateEvent::OpenUO(Ok(version)) => assert_eq!(version, "1.2.3"),
        _ => panic!("the managed product's version is reported"),
    }
    match check_result(Product::Launcher, Ok(release("v2"))) {
        UpdateEvent::Launcher(Ok(version)) => assert_eq!(version, "v2"),
        _ => panic!("the launcher's version is reported"),
    }
}

#[test]
fn failures_are_reported_as_messages() {
    match check_result(Product::OpenUo, Err(FetchError::Http(403))) {
        UpdateEvent::OpenUO(Err(message)) => assert_eq!(message, "HTTP status 403"),
        _ => panic!("the failure is reported"),
    }
    match check_result(Product::Launcher, Err(FetchError::Network("timed out".to_string()))) {
        UpdateEvent::Launcher(Err(message)) => assert_eq!(message, "timed out"),
        _ => panic!("the failure is reported"),
    }
    match check_result(Product::Launcher, Err(FetchError::NoAssetForPlatform)) {
        UpdateEvent::Launcher(Err(message)) => assert_eq!(message, "当前平台没有可用的下载链接"),
        _ => panic!("the failure is reported"),
    }
}

#[test]
fn release_without_a_version_is_reported_as_a_failure() {
    match check_result(Product::OpenUo, Ok(release(""))) {
        UpdateEvent::OpenUO(Err(message)) => assert_eq!(message, "release without a version"),
        _ => panic!("the failure is reported"),
    }
    match check_result(Product::Launcher, Ok(release(""))) {
        UpdateEvent::Launcher(Err(message)) => assert_eq!(message, "release without a version"),
        _ => panic!("the failure is reported"),
    }
}
