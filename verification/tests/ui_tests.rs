use openuo_launcher::github::{DownloadEvent, UpdateEvent};
use openuo_launcher::ui::{
    LauncherUi, LogAction, LogEntryType, LogMessage, EXIT_DELAY_SECS, MAX_LOG_ENTRIES,
    UPDATE_INTERVAL_SECS,
};
use openuo_launcher::update::Product;

fn window() -> LauncherUi {
    LauncherUi::new(Some("1.0".to_string()), "0.3.1")
}

fn last_message(ui: &LauncherUi) -> String {
    let entry = ui.log_entry(ui.log_len() - 1).expect("the log is not empty");
    format!("{:?} {:?} {:?}", entry.entry_type, entry.message, entry.action)
}

#[test]
fn new_window_is_idle() {
    let ui = window();
    assert_eq!(ui.open_uo_version(), Some("1.0".to_string()));
    assert_eq!(ui.launcher_version(), "v0.3.1");
    assert_eq!(ui.remote_open_uo(), None);
    assert_eq!(ui.remote_launcher(), None);
    assert!(!ui.is_downloading());
    assert!(!ui.is_downloading_launcher());
    assert!(!ui.is_restarting());
    assert!(!ui.has_download_failed());
    assert!(!ui.is_checking_open_uo());
    assert!(!ui.is_checking_launcher());
    assert_eq!(ui.download_progress(), None);
    assert_eq!(ui.log_len(), 0);
}

#[test]
fn constants_of_the_window() {
    assert_eq!(MAX_LOG_ENTRIES, 50);
    assert_eq!(UPDATE_INTERVAL_SECS, 600);
    assert_eq!(EXIT_DELAY_SECS, 2);
}

#[test]
fn second_request_for_an_outstanding_check_does_nothing() {
    let mut ui = window();
    assert_eq!(ui.trigger_update_checks(true, false, 10), (true, false));
    assert!(ui.is_checking_open_uo());
    assert_eq!(ui.log_len(), 1);
    assert_eq!(ui.trigger_update_checks(true, false, 20), (false, false));
    assert!(ui.is_checking_open_uo());
    assert!(!ui.is_checking_launcher());
    assert_eq!(ui.log_len(), 1);
    assert_eq!(ui.log_entry(0).unwrap().timestamp, 10);
}

#[test]
fn only_the_check_that_is_not_outstanding_is_sent_off() {
    let mut ui = window();
    assert_eq!(ui.trigger_update_checks(false, true, 1), (false, true));
    assert_eq!(ui.trigger_update_checks(true, true, 2), (true, false));
    assert!(ui.is_checking_open_uo());
    assert!(ui.is_checking_launcher());
    assert_eq!(ui.log_len(), 2);
    assert_eq!(last_message(&ui), "Checking CheckingOpenUo None");
    assert_eq!(ui.trigger_update_checks(true, true, 3), (false, false));
    assert_eq!(ui.log_len(), 2);
}

#[test]
fn request_for_no_check_does_nothing() {
    let mut ui = window();
    assert_eq!(ui.trigger_update_checks(false, false, 1), (false, false));
    assert_eq!(ui.log_len(), 0);
    assert_eq!(ui.maybe_schedule_updates(2), (true, true));
}

#[test]
fn check_is_sent_off_again_after_its_answer() {
    let mut ui = window();
    assert_eq!(ui.trigger_update_checks(true, false, 1), (true, false));
    ui.handle_update_event(UpdateEvent::OpenUO(Ok("1.0".to_string())), 2);
    assert!(!ui.is_checking_open_uo());
    assert_eq!(ui.trigger_update_checks(true, false, 3), (true, false));
}

#[test]
fn updates_are_scheduled_at_the_start_and_after_the_interval() {
    let mut ui = window();
    assert_eq!(ui.maybe_schedule_updates(1000), (true, true));
    assert!(ui.is_checking_open_uo());
    assert!(ui.is_checking_launcher());
    assert_eq!(ui.log_len(), 2);
    assert_eq!(ui.maybe_schedule_updates(5000), (false, false));
    ui.handle_update_event(UpdateEvent::OpenUO(Ok("1.0".to_string())), 1001);
    assert_eq!(ui.maybe_schedule_updates(5000), (false, false));
    ui.handle_update_event(UpdateEvent::Launcher(Ok("v0.3.1".to_string())), 1002);
    ui.handle_update_event(UpdateEvent::Done, 1002);
    assert_eq!(ui.maybe_schedule_updates(1003), (false, false));
    assert_eq!(ui.maybe_schedule_updates(1600), (false, false));
    assert_eq!(ui.maybe_schedule_updates(999), (false, false));
    assert_eq!(ui.maybe_schedule_updates(1601), (true, true));
    assert_eq!(ui.maybe_schedule_updates(1602), (false, false));
}

#[test]
fn answers_of_a_check_are_noted_and_logged() {
    let mut ui = window();
    ui.trigger_update_checks(true, true, 1);
    ui.handle_update_event(UpdateEvent::OpenUO(Ok("1.1".to_string())), 2);
    assert_eq!(ui.remote_open_uo(), Some("1.1".to_string()));
    assert!(!ui.is_checking_open_uo());
    assert!(ui.is_checking_launcher());
    assert_eq!(last_message(&ui), "Info OpenUoNewVersion(\"1.1\") Some(UpdateOpenUO)");
    ui.handle_update_event(UpdateEvent::Launcher(Ok("v0.3.1".to_string())), 3);
    assert_eq!(ui.remote_launcher(), Some("v0.3.1".to_string()));
    assert!(!ui.is_checking_launcher());
    assert_eq!(last_message(&ui), "Success LauncherLatest(\"v0.3.1\") None");
    let entries = ui.log_len();
    ui.handle_update_event(UpdateEvent::Done, 4);
    assert_eq!(ui.log_len(), entries);

    ui.handle_update_event(UpdateEvent::OpenUO(Ok("1.0".to_string())), 5);
    assert_eq!(last_message(&ui), "Success OpenUoLatest(\"1.0\") None");
    ui.handle_update_event(UpdateEvent::Launcher(Ok("v0.4.0".to_string())), 6);
    assert_eq!(last_message(&ui), "Info LauncherNewVersion(\"v0.4.0\") Some(UpdateLauncher)");
}

#[test]
fn failed_checks_are_logged() {
    let mut ui = window();
    ui.trigger_update_checks(true, true, 1);
    ui.handle_update_event(UpdateEvent::OpenUO(Err("timed out".to_string())), 2);
    assert!(!ui.is_checking_open_uo());
    assert_eq!(ui.remote_open_uo(), None);
    assert_eq!(last_message(&ui), "Error OpenUoCheckError(\"timed out\") None");
    ui.handle_update_event(UpdateEvent::Launcher(Err("HTTP status 500".to_string())), 3);
    assert!(!ui.is_checking_launcher());
    assert_eq!(ui.remote_launcher(), None);
    assert_eq!(last_message(&ui), "Error LauncherCheckError(\"HTTP status 500\") None");
}

#[test]
fn product_that_is_not_installed_is_offered() {
    let mut ui = LauncherUi::new(None, "0.3.1");
    ui.handle_update_event(UpdateEvent::OpenUO(Ok("1.1".to_string())), 2);
    assert_eq!(last_message(&ui), "Info OpenUoNotInstalled(\"1.1\") Some(UpdateOpenUO)");
}

#[test]
fn one_operation_at_a_time() {
    let mut ui = window();
    assert!(ui.start_download(1));
    assert!(ui.is_downloading());
    assert!(!ui.is_downloading_launcher());
    assert_eq!(last_message(&ui), "Info DownloadingOpenUo None");
    assert!(!ui.start_download(2));
    assert!(!ui.start_launcher_update(3));
    assert!(!ui.is_downloading_launcher());
    assert_eq!(ui.log_len(), 1);

    let mut ui = window();
    assert!(ui.start_launcher_update(1));
    assert!(ui.is_downloading());
    assert!(ui.is_downloading_launcher());
    assert_eq!(last_message(&ui), "Info DownloadingLauncher None");
    assert!(!ui.start_download(2));
    assert!(ui.is_downloading_launcher());
}

#[test]
fn progress_and_end_of_an_installation() {
    let mut ui = window();
    ui.start_download(1);
    assert!(!ui.handle_download_event(DownloadEvent::Progress { received: 16, total: 100 }, 2));
    assert_eq!(ui.download_progress(), Some((16, 100)));
    assert!(!ui.handle_download_event(DownloadEvent::Progress { received: 100, total: 100 }, 3));
    assert_eq!(ui.download_progress(), Some((100, 100)));
    assert!(!ui.handle_download_event(DownloadEvent::Finished(Ok("2.0".to_string())), 4));
    assert_eq!(ui.download_progress(), None);
    assert!(!ui.is_downloading());
    assert!(!ui.has_download_failed());
    assert!(!ui.is_restarting());
    assert_eq!(ui.open_uo_version(), Some("2.0".to_string()));
    assert_eq!(last_message(&ui), "Success OpenUoDownloadComplete(\"2.0\") None");
    assert!(ui.start_download(5));
}

#[test]
fn end_of_a_launcher_update_asks_for_the_exit() {
    let mut ui = window();
    ui.start_launcher_update(1);
    let done = DownloadEvent::Finished(Ok("UPDATE_AND_RESTART:v0.4.0".to_string()));
    assert!(ui.handle_download_event(done, 2));
    assert!(ui.is_restarting());
    assert!(!ui.is_downloading());
    assert!(!ui.is_downloading_launcher());
    assert_eq!(ui.open_uo_version(), Some("1.0".to_string()));
    assert_eq!(last_message(&ui), "Success LauncherUpdateComplete(\"v0.4.0\") None");

    let mut ui = window();
    let bare = DownloadEvent::Finished(Ok("UPDATE_AND_RESTART:".to_string()));
    assert!(ui.handle_download_event(bare, 2));
    assert_eq!(last_message(&ui), "Success LauncherUpdateComplete(\"\") None");

    let mut ui = window();
    let other = DownloadEvent::Finished(Ok("update_and_restart:v1".to_string()));
    assert!(!ui.handle_download_event(other, 2));
    assert_eq!(ui.open_uo_version(), Some("update_and_restart:v1".to_string()));
}

#[test]
fn failed_operation_offers_to_try_again() {
    let mut ui = window();
    ui.start_launcher_update(1);
    assert!(!ui.handle_download_event(DownloadEvent::Finished(Err("no route".to_string())), 2));
    assert!(ui.has_download_failed());
    assert!(!ui.is_downloading());
    assert!(!ui.is_downloading_launcher());
    assert_eq!(last_message(&ui), "Error DownloadError(\"no route\") Some(RetryDownload)");
    assert_eq!(ui.choose_action(LogAction::RetryDownload, 3), Some(Product::OpenUo));
    assert!(!ui.has_download_failed());
    assert!(ui.is_downloading());
    assert_eq!(ui.choose_action(LogAction::RetryDownload, 4), None);
}

#[test]
fn offered_actions_start_operations() {
    let mut ui = window();
    assert_eq!(ui.choose_action(LogAction::UpdateOpenUO, 1), Some(Product::OpenUo));
    assert!(ui.is_downloading());
    assert_eq!(ui.choose_action(LogAction::UpdateOpenUO, 2), None);
    assert_eq!(ui.choose_action(LogAction::UpdateLauncher, 3), None);

    let mut ui = window();
    assert_eq!(ui.choose_action(LogAction::UpdateLauncher, 1), Some(Product::Launcher));
    assert!(ui.is_downloading_launcher());
    assert_eq!(ui.choose_action(LogAction::UpdateLauncher, 2), None);
    ui.handle_download_event(DownloadEvent::Finished(Ok("UPDATE_AND_RESTART:v9".to_string())), 3);
    assert_eq!(ui.choose_action(LogAction::UpdateLauncher, 4), None);
}

#[test]
fn log_keeps_the_latest_entries() {
    let mut ui = window();
    for i in 0..50u64 {
        ui.set_status(&format!("line {}", i), i);
    }
    assert_eq!(ui.log_len(), 50);
    assert_eq!(ui.log_entry(0).unwrap().timestamp, 0);
    ui.set_status("line 50", 50);
    assert_eq!(ui.log_len(), 50);
    assert_eq!(ui.log_entry(0).unwrap().timestamp, 1);
    assert_eq!(ui.log_entry(49).unwrap().timestamp, 50);
    assert_eq!(last_message(&ui), "Info Status(\"line 50\") None");
    for i in 51..200u64 {
        ui.add_log(LogEntryType::Warning, LogMessage::Status("w".to_string()), None, i);
        assert_eq!(ui.log_len(), 50);
    }
    assert_eq!(ui.log_entry(0).unwrap().timestamp, 150);
    assert_eq!(ui.log_entry(49).unwrap().timestamp, 199);
}

#[test]
fn log_entries_carry_what_was_logged() {
    let mut ui = window();
    ui.add_log(
        LogEntryType::Error,
        LogMessage::DownloadError("x".to_string()),
        Some(LogAction::RetryDownload),
        7,
    );
    let entry = ui.log_entry(0).expect("the log is not empty");
    assert!(ui.log_entry(1).is_none());
    assert_eq!(entry.timestamp, 7);
    assert_eq!(entry.entry_type, LogEntryType::Error);
    assert_eq!(entry.action, Some(LogAction::RetryDownload));
    assert!(matches!(&entry.message, LogMessage::DownloadError(m) if m == "x"));
}

#[test]
fn known_updates() {
    let mut ui = window();
    assert!(!ui.has_launcher_update());
    assert!(!ui.has_open_uo_update());
    ui.handle_update_event(UpdateEvent::OpenUO(Ok("1.1".to_string())), 1);
    ui.handle_update_event(UpdateEvent::Launcher(Ok("v0.4.0".to_string())), 1);
    assert!(ui.has_open_uo_update());
    assert!(ui.has_launcher_update());
    ui.trigger_update_checks(false, true, 2);
    assert!(!ui.has_launcher_update());
    ui.handle_update_event(UpdateEvent::Launcher(Ok("v0.3.1".to_string())), 3);
    assert!(!ui.has_launcher_update());
    ui.handle_update_event(UpdateEvent::OpenUO(Ok("1.0".to_string())), 3);
    assert!(!ui.has_open_uo_update());

    let mut ui = LauncherUi::new(None, "0.3.1");
    ui.handle_update_event(UpdateEvent::OpenUO(Ok("1.1".to_string())), 1);
    assert!(!ui.has_open_uo_update());
}

#[test]
fn actions_that_are_offered() {
    let mut ui = window();
    for action in [LogAction::UpdateLauncher, LogAction::UpdateOpenUO, LogAction::RetryDownload] {
        assert!(ui.offers(action));
    }
    ui.start_download(1);
    assert!(ui.offers(LogAction::UpdateLauncher));
    assert!(!ui.offers(LogAction::UpdateOpenUO));
    assert!(!ui.offers(LogAction::RetryDownload));
    assert_eq!(ui.choose_action(LogAction::UpdateLauncher, 2), None);

    let mut ui = window();
    ui.start_launcher_update(1);
    for action in [LogAction::UpdateLauncher, LogAction::UpdateOpenUO, LogAction::RetryDownload] {
        assert!(!ui.offers(action));
    }
    ui.handle_download_event(DownloadEvent::Finished(Ok("UPDATE_AND_RESTART:v1".to_string())), 2);
    assert!(!ui.offers(LogAction::UpdateLauncher));
    assert!(ui.offers(LogAction::UpdateOpenUO));
}
