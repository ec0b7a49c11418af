use openuo_launcher::github::{
    DownloadEvent, FetchError, GithubAsset, GithubRelease, UpdateSourceConfig,
};
use openuo_launcher::system_info::{Arch, Os, Platform};
use openuo_launcher::update::{
    download_and_unpack_open_uo_with_progress, download_launcher_update, relaunch_command,
    step_at, Action, EventGate, Operation, Product, Stage, StepKind, StepResult, UpdateError,
    RESTART_PREFIX,
};

const LINUX: Platform = Platform { os: Os::Linux, arch: Arch::X86_64 };
const WINDOWS: Platform = Platform { os: Os::Windows, arch: Arch::X86_64 };
const MAC_ARM: Platform = Platform { os: Os::Macos, arch: Arch::Aarch64 };

fn release(name: &str, assets: &[(&str, &str)]) -> GithubRelease {
    GithubRelease {
        tag_name: name.to_string(),
        name: name.to_string(),
        assets: assets
            .iter()
            .map(|(n, u)| GithubAsset {
                name: n.to_string(),
                browser_download_url: u.to_string(),
                size: 1000,
            })
            .collect(),
        body: None,
        published_at: None,
        target_commitish: None,
    }
}

fn name_of(action: &Action) -> String {
    match action {
        Action::FetchRelease(request) => format!("fetch {}", request.url),
        Action::DownloadAsset { url, file_name } => format!("download {} {}", url, file_name),
        Action::MakeExecutable => "chmod".to_string(),
        Action::LocateExecutable => "locate".to_string(),
        Action::ReplaceExecutable => "replace".to_string(),
        Action::CreateTargetDir => "mkdir".to_string(),
        Action::ExtractArchive => "extract".to_string(),
        Action::WriteVersionMarker { file_name, contents } => {
            format!("mark {} {}", file_name, contents)
        }
        Action::RemoveDownload => "remove".to_string(),
        Action::Relaunch(command) => {
            format!("relaunch {} [{}]", command.program, command.args.join("|"))
        }
        Action::Finish(Ok(text)) => format!("ok {}", text),
        Action::Finish(Err(e)) => format!("error {}", e.message()),
    }
}

fn step(op: &mut Operation, result: StepResult) -> String {
    assert!(op.expects(&result));
    name_of(&op.advance(result))
}

fn launcher_release() -> GithubRelease {
    release(
        "v2.0.0",
        &[
            ("OpenUO-Launcher-linux-x64", "https://example.org/linux"),
            ("OpenUO-Launcher-windows-x64.exe", "https://example.org/windows"),
            ("OpenUO-Launcher-macos-arm64", "https://example.org/mac"),
        ],
    )
}

#[test]
fn installation_takes_its_steps_in_order() {
    let (mut op, first) = download_and_unpack_open_uo_with_progress(LINUX, None);
    assert_eq!(op.product(), Product::OpenUo);
    assert_eq!(op.stage(), Stage::Fetching);
    assert_eq!(
        name_of(&first),
        "fetch https://api.github.com/repos/openuo-online/OpenUO/releases/latest"
    );
    let found = release("2024.03.01", &[("linux-x64.zip", "https://example.org/l.zip")]);
    assert_eq!(
        step(&mut op, StepResult::Release(Ok(found))),
        "download https://example.org/l.zip linux-x64.zip"
    );
    assert_eq!(op.stage(), Stage::Downloading);
    assert_eq!(step(&mut op, StepResult::Done), "mkdir");
    assert_eq!(op.stage(), Stage::Running(0));
    assert_eq!(step(&mut op, StepResult::Done), "extract");
    assert_eq!(step(&mut op, StepResult::Done), "remove");
    assert_eq!(step(&mut op, StepResult::Done), "mark .version-marker 2024.03.01");
    assert_eq!(op.stage(), Stage::Running(3));
    assert_eq!(step(&mut op, StepResult::Done), "ok 2024.03.01");
    assert_eq!(op.stage(), Stage::Finished);
    assert!(!op.expects(&StepResult::Done));
}

#[test]
fn launcher_update_takes_its_steps_in_order_on_linux() {
    let (mut op, first) = download_launcher_update(LINUX, None);
    assert_eq!(op.product(), Product::Launcher);
    assert_eq!(
        name_of(&first),
        "fetch https://api.github.com/repos/openuo-online/Another-OpenUO-Launcher/releases/latest"
    );
    assert_eq!(
        step(&mut op, StepResult::Release(Ok(launcher_release()))),
        "download https://example.org/linux OpenUO-Launcher-linux-x64"
    );
    assert_eq!(step(&mut op, StepResult::Done), "chmod");
    assert_eq!(step(&mut op, StepResult::Done), "locate");
    assert_eq!(step(&mut op, StepResult::Located("/opt/launcher".to_string())), "replace");
    assert_eq!(step(&mut op, StepResult::Done), "remove");
    assert_eq!(step(&mut op, StepResult::Done), "relaunch /opt/launcher []");
    assert_eq!(step(&mut op, StepResult::Done), "ok UPDATE_AND_RESTART:v2.0.0");
    assert_eq!(op.stage(), Stage::Finished);
}

#[test]
fn launcher_update_on_windows_sets_no_permissions() {
    let (mut op, _) = download_launcher_update(WINDOWS, None);
    assert_eq!(
        step(&mut op, StepResult::Release(Ok(launcher_release()))),
        "download https://example.org/windows OpenUO-Launcher-windows-x64.exe"
    );
    assert_eq!(step(&mut op, StepResult::Done), "locate");
    assert_eq!(step(&mut op, StepResult::Located("C:\\l.exe".to_string())), "replace");
    assert_eq!(step(&mut op, StepResult::Done), "remove");
    assert_eq!(step(&mut op, StepResult::Done), "relaunch cmd [/C|start||C:\\l.exe]");
    assert_eq!(step(&mut op, StepResult::Done), "ok UPDATE_AND_RESTART:v2.0.0");
}

#[test]
fn launcher_update_on_macos_relaunches_through_open() {
    let (mut op, _) = download_launcher_update(MAC_ARM, None);
    assert_eq!(
        step(&mut op, StepResult::Release(Ok(launcher_release()))),
        "download https://example.org/mac OpenUO-Launcher-macos-arm64"
    );
    assert_eq!(step(&mut op, StepResult::Done), "chmod");
    assert_eq!(step(&mut op, StepResult::Done), "locate");
    assert_eq!(step(&mut op, StepResult::Located("/Applications/l".to_string())), "replace");
    assert_eq!(step(&mut op, StepResult::Done), "remove");
    assert_eq!(step(&mut op, StepResult::Done), "relaunch open [/Applications/l]");
    assert_eq!(step(&mut op, StepResult::Done), "ok UPDATE_AND_RESTART:v2.0.0");
}

#[test]
fn configured_source_is_asked() {
    let config = UpdateSourceConfig {
        openuo_url: Some("https://cdn.example/o.json".to_string()),
        launcher_url: Some("https://cdn.example/l.json".to_string()),
        use_github_format: false,
    };
    let (_, first) = download_and_unpack_open_uo_with_progress(LINUX, Some(&config));
    match &first {
        Action::FetchRelease(request) => {
            assert_eq!(request.url, "https://cdn.example/o.json");
            assert!(!request.structured);
            assert_eq!(request.accept, None);
            assert_eq!(request.user_agent, "Another-OpenUO-Launcher");
            assert_eq!(request.timeout_secs, 8);
        }
        _ => panic!("the release is asked for first"),
    }
    let (_, first) = download_launcher_update(LINUX, Some(&config));
    assert_eq!(name_of(&first), "fetch https://cdn.example/l.json");
}

#[test]
fn release_without_the_platform_asset_ends_the_operation() {
    let (mut op, _) = download_and_unpack_open_uo_with_progress(LINUX, None);
    let found = release("1.0", &[("win-x64.zip", "https://example.org/w.zip")]);
    let action = op.advance(StepResult::Release(Ok(found)));
    match action {
        Action::Finish(Err(UpdateError::AssetNotFoundForPlatform(name))) => {
            assert_eq!(name, "linux-x64.zip")
        }
        other => panic!("unexpected action: {:?}", other),
    }
    assert_eq!(op.stage(), Stage::Finished);

    let (mut op, _) = download_launcher_update(LINUX, None);
    let found = release("1.0", &[("linux-x64.zip", "https://example.org/l.zip")]);
    match op.advance(StepResult::Release(Ok(found))) {
        Action::Finish(Err(UpdateError::AssetNotFoundForPlatform(name))) => {
            assert_eq!(name, "OpenUO-Launcher-linux-x64")
        }
        other => panic!("unexpected action: {:?}", other),
    }
}

#[test]
fn release_with_the_platform_asset_is_downloaded() {
    let (mut op, _) = download_and_unpack_open_uo_with_progress(WINDOWS, None);
    let found = release("1.0", &[("win-x64.zip", "https://example.org/w.zip")]);
    match op.advance(StepResult::Release(Ok(found))) {
        Action::DownloadAsset { url, file_name } => {
            assert_eq!(url, "https://example.org/w.zip");
            assert_eq!(file_name, "win-x64.zip");
        }
        other => panic!("unexpected action: {:?}", other),
    }
}

#[test]
fn failed_fetch_ends_the_operation() {
    let cases: Vec<(FetchError, &str)> = vec![
        (FetchError::Network("no route".to_string()), "error no route"),
        (FetchError::Http(503), "error HTTP status 503"),
        (FetchError::Parse("bad json".to_string()), "error bad json"),
        (FetchError::NoAssetForPlatform, "error 未找到平台资产: OpenUO-Launcher-linux-x64"),
    ];
    for (error, expected) in cases {
        let (mut op, _) = download_launcher_update(LINUX, None);
        assert_eq!(step(&mut op, StepResult::Release(Err(error))), expected);
        assert_eq!(op.stage(), Stage::Finished);
    }
}

#[test]
fn failure_before_the_replacement_leaves_the_executable_alone() {
    for failing in 0..4 {
        let (mut op, _) = download_launcher_update(LINUX, None);
        let mut actions = vec![step(&mut op, StepResult::Release(Ok(launcher_release())))];
        let answers = [
            StepResult::Done,
            StepResult::Done,
            StepResult::Located("/opt/launcher".to_string()),
        ];
        let mut answers = answers.into_iter();
        for i in 0..4 {
            if i == failing {
                let error = UpdateError::FileSystem(format!("step {} failed", i));
                actions.push(step(&mut op, StepResult::Failed(error)));
                break;
            }
            actions.push(step(&mut op, answers.next().expect("an answer for every step")));
        }
        if failing < 3 {
            assert!(!actions.contains(&"replace".to_string()));
            assert_eq!(actions.last().unwrap(), &format!("error step {} failed", failing));
        } else {
            assert_eq!(actions[3], "replace");
            assert_eq!(actions.last().unwrap(), "error step 3 failed");
        }
        assert_eq!(op.stage(), Stage::Finished);
        assert!(!actions.iter().any(|a| a.starts_with("relaunch")));
    }
}

#[test]
fn failed_replacement_is_reported_and_nothing_is_relaunched() {
    let (mut op, _) = download_launcher_update(LINUX, None);
    step(&mut op, StepResult::Release(Ok(launcher_release())));
    step(&mut op, StepResult::Done);
    step(&mut op, StepResult::Done);
    assert_eq!(step(&mut op, StepResult::Located("/opt/launcher".to_string())), "replace");
    let action = op.advance(StepResult::Failed(UpdateError::SelfReplace("denied".to_string())));
    match action {
        Action::Finish(Err(UpdateError::SelfReplace(message))) => assert_eq!(message, "denied"),
        other => panic!("unexpected action: {:?}", other),
    }
    assert_eq!(op.stage(), Stage::Finished);
}

#[test]
fn failure_to_clean_up_or_relaunch_is_passed_over() {
    let (mut op, _) = download_launcher_update(LINUX, None);
    step(&mut op, StepResult::Release(Ok(launcher_release())));
    step(&mut op, StepResult::Done);
    step(&mut op, StepResult::Done);
    step(&mut op, StepResult::Located("/opt/launcher".to_string()));
    assert_eq!(step(&mut op, StepResult::Done), "remove");
    let busy = UpdateError::FileSystem("busy".to_string());
    assert_eq!(step(&mut op, StepResult::Failed(busy)), "relaunch /opt/launcher []");
    let missing = UpdateError::FileSystem("not found".to_string());
    assert_eq!(step(&mut op, StepResult::Failed(missing)), "ok UPDATE_AND_RESTART:v2.0.0");

    let (mut op, _) = download_and_unpack_open_uo_with_progress(LINUX, None);
    step(&mut op, StepResult::Release(Ok(release("7", &[("linux-x64.zip", "u")]))));
    step(&mut op, StepResult::Done);
    step(&mut op, StepResult::Done);
    assert_eq!(step(&mut op, StepResult::Done), "remove");
    let busy = UpdateError::FileSystem("busy".to_string());
    assert_eq!(step(&mut op, StepResult::Failed(busy)), "mark .version-marker 7");
}

#[test]
fn failed_installation_steps_end_the_installation() {
    let failures = [
        (0, UpdateError::Network("reset".to_string()), "error reset"),
        (1, UpdateError::FileSystem("read-only".to_string()), "error read-only"),
        (2, UpdateError::Archive("bad crc".to_string()), "error bad crc"),
        (4, UpdateError::FileSystem("disk full".to_string()), "error disk full"),
    ];
    for (failing, error, expected) in failures {
        let (mut op, _) = download_and_unpack_open_uo_with_progress(LINUX, None);
        step(&mut op, StepResult::Release(Ok(release("7", &[("linux-x64.zip", "u")]))));
        for _ in 0..failing {
            step(&mut op, StepResult::Done);
        }
        assert_eq!(step(&mut op, StepResult::Failed(error)), expected);
        assert_eq!(op.stage(), Stage::Finished);
    }
}

#[test]
fn answers_must_fit_the_step() {
    let (mut op, _) = download_launcher_update(LINUX, None);
    assert!(op.expects(&StepResult::Release(Err(FetchError::NoAssetForPlatform))));
    assert!(!op.expects(&StepResult::Done));
    assert!(!op.expects(&StepResult::Located("x".to_string())));
    assert!(!op.expects(&StepResult::Failed(UpdateError::Network("x".to_string()))));
    step(&mut op, StepResult::Release(Ok(launcher_release())));
    assert!(op.expects(&StepResult::Done));
    assert!(op.expects(&StepResult::Failed(UpdateError::Network("x".to_string()))));
    assert!(!op.expects(&StepResult::Located("x".to_string())));
    assert!(!op.expects(&StepResult::Release(Err(FetchError::NoAssetForPlatform))));
    step(&mut op, StepResult::Done);
    step(&mut op, StepResult::Done);
    assert!(op.expects(&StepResult::Located("x".to_string())));
    assert!(op.expects(&StepResult::Failed(UpdateError::FileSystem("x".to_string()))));
    assert!(!op.expects(&StepResult::Done));
}

#[test]
fn steps_of_each_operation() {
    let list = |product, os| {
        (0..8).map_while(|i| step_at(product, os, i)).collect::<Vec<StepKind>>()
    };
    let install = vec![
        StepKind::CreateTargetDir,
        StepKind::ExtractArchive,
        StepKind::RemoveDownload,
        StepKind::WriteVersionMarker,
    ];
    for os in [Os::Linux, Os::Macos, Os::Windows] {
        assert_eq!(list(Product::OpenUo, os), install);
    }
    let unix = vec![
        StepKind::MakeExecutable,
        StepKind::LocateExecutable,
        StepKind::ReplaceExecutable,
        StepKind::RemoveDownload,
        StepKind::Relaunch,
    ];
    assert_eq!(list(Product::Launcher, Os::Linux), unix);
    assert_eq!(list(Product::Launcher, Os::Macos), unix);
    assert_eq!(
        list(Product::Launcher, Os::Windows),
        vec![
            StepKind::LocateExecutable,
            StepKind::ReplaceExecutable,
            StepKind::RemoveDownload,
            StepKind::Relaunch,
        ]
    );
    assert_eq!(step_at(Product::OpenUo, Os::Linux, 4), None);
    assert_eq!(step_at(Product::Launcher, Os::Linux, 5), None);
    assert_eq!(step_at(Product::Launcher, Os::Windows, 4), None);
}

#[test]
fn relaunch_commands() {
    let command = relaunch_command(Os::Macos, "/Applications/Launcher");
    assert_eq!(command.program, "open");
    assert_eq!(command.args, vec!["/Applications/Launcher".to_string()]);
    let command = relaunch_command(Os::Windows, "C:\\Launcher.exe");
    assert_eq!(command.program, "cmd");
    assert_eq!(
        command.args,
        vec!["/C".to_string(), "start".to_string(), String::new(), "C:\\Launcher.exe".to_string()]
    );
    let command = relaunch_command(Os::Linux, "/opt/launcher");
    assert_eq!(command.program, "/opt/launcher");
    assert!(command.args.is_empty());
}

#[test]
fn error_messages() {
    assert_eq!(UpdateError::Network("a".to_string()).message(), "a");
    assert_eq!(UpdateError::HttpStatus(404).message(), "HTTP status 404");
    assert_eq!(UpdateError::HttpStatus(0).message(), "HTTP status 0");
    assert_eq!(UpdateError::HttpStatus(65535).message(), "HTTP status 65535");
    assert_eq!(UpdateError::Parse("b".to_string()).message(), "b");
    assert_eq!(
        UpdateError::AssetNotFoundForPlatform("win-x64.zip".to_string()).message(),
        "未找到平台资产: win-x64.zip"
    );
    assert_eq!(UpdateError::FileSystem("c".to_string()).message(), "c");
    assert_eq!(UpdateError::Archive("d".to_string()).message(), "d");
    assert_eq!(UpdateError::SelfReplace("e".to_string()).message(), "e");
    assert_eq!(FetchError::Network("f".to_string()).message(), "f");
    assert_eq!(FetchError::Http(500).message(), "HTTP status 500");
    assert_eq!(FetchError::Parse("g".to_string()).message(), "g");
    assert_eq!(FetchError::NoAssetForPlatform.message(), "当前平台没有可用的下载链接");
}

#[test]
fn fetch_failures_become_operation_failures() {
    match UpdateError::from_fetch(FetchError::Network("n".to_string()), "w".to_string()) {
        UpdateError::Network(m) => assert_eq!(m, "n"),
        other => panic!("unexpected error: {:?}", other),
    }
    match UpdateError::from_fetch(FetchError::Http(418), "w".to_string()) {
        UpdateError::HttpStatus(code) => assert_eq!(code, 418),
        other => panic!("unexpected error: {:?}", other),
    }
    match UpdateError::from_fetch(FetchError::Parse("p".to_string()), "w".to_string()) {
        UpdateError::Parse(m) => assert_eq!(m, "p"),
        other => panic!("unexpected error: {:?}", other),
    }
    match UpdateError::from_fetch(FetchError::NoAssetForPlatform, "w".to_string()) {
        UpdateError::AssetNotFoundForPlatform(name) => assert_eq!(name, "w"),
        other => panic!("unexpected error: {:?}", other),
    }
}

#[test]
fn restart_mark() {
    assert_eq!(RESTART_PREFIX, "UPDATE_AND_RESTART:");
}

#[test]
fn release_without_a_version_ends_the_operation() {
    let (mut op, _) = download_and_unpack_open_uo_with_progress(LINUX, None);
    let found = release("", &[("linux-x64.zip", "https://example.org/l.zip")]);
    match op.advance(StepResult::Release(Ok(found))) {
        Action::Finish(Err(UpdateError::Parse(message))) => {
            assert_eq!(message, "release without a version")
        }
        other => panic!("unexpected action: {:?}", other),
    }
    assert_eq!(op.stage(), Stage::Finished);

    let (mut op, _) = download_launcher_update(LINUX, None);
    let found = release("", &[("OpenUO-Launcher-linux-x64", "https://example.org/l")]);
    assert!(matches!(
        op.advance(StepResult::Release(Ok(found))),
        Action::Finish(Err(UpdateError::Parse(_)))
    ));
}

fn kind_of(event: &Option<DownloadEvent>) -> String {
    match event {
        Some(DownloadEvent::Progress { received, total }) => format!("{}/{}", received, total),
        Some(DownloadEvent::Finished(Ok(text))) => format!("ok {}", text),
        Some(DownloadEvent::Finished(Err(text))) => format!("error {}", text),
        None => "held back".to_string(),
    }
}

#[test]
fn progress_passes_until_the_operation_has_finished() {
    let mut gate = EventGate::new();
    assert!(!gate.is_finished());
    let first = gate.pass(DownloadEvent::Progress { received: 16, total: 100 });
    assert_eq!(kind_of(&first), "16/100");
    let second = gate.pass(DownloadEvent::Progress { received: 100, total: 100 });
    assert_eq!(kind_of(&second), "100/100");
    assert!(!gate.is_finished());
    let end = gate.pass(DownloadEvent::Finished(Ok("1.0".to_string())));
    assert_eq!(kind_of(&end), "ok 1.0");
    assert!(gate.is_finished());
    let late = gate.pass(DownloadEvent::Progress { received: 116, total: 100 });
    assert_eq!(kind_of(&late), "held back");
    let again = gate.pass(DownloadEvent::Finished(Err("late".to_string())));
    assert_eq!(kind_of(&again), "held back");
    assert!(gate.is_finished());
}

#[test]
fn operation_may_finish_without_progress() {
    let mut gate = EventGate::new();
    let end = gate.pass(DownloadEvent::Finished(Err("no route".to_string())));
    assert_eq!(kind_of(&end), "error no route");
    assert!(gate.is_finished());
    let late = gate.pass(DownloadEvent::Finished(Ok("1.0".to_string())));
    assert_eq!(kind_of(&late), "held back");
}
