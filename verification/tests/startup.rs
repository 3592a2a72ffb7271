use zed_core::ids::KvRead;
use zed_core::startup::{
    initial_open, launch_exit, single_instance_check_needed, ChannelPlan, ChannelStage,
    InitialWorkspace, LaunchCheck, LaunchExit, LaunchSequence, LaunchStage, LocationKind,
    RestoreAction, RestoreRun, theme_file_to_load, reload_after_theme_load,
    after_credentials_check, authenticate, embedded_font_paths, extension_theme_to_load,
    handle_open_request, has_language_file, parse_url_arg, proceed_after_authentication,
    restore_behavior, restore_or_create_workspace, reverse_vec, session_locations,
    themes_dir_creation_error, themes_dir_step, AuthOutcome, AuthStep, OpenRequest,
    OpenRequestPlan, RestoreOnStartup, StartupWorkspace, ThemesDirStep,
};

fn request() -> OpenRequest {
    OpenRequest {
        has_cli_connection: false,
        open_paths: vec![],
        open_channel_notes: vec![],
        join_channel: None,
        has_ssh_connection: false,
        dock_menu_action: None,
    }
}

#[test]
fn cli_connection_comes_first() {
    let r = OpenRequest { has_cli_connection: true, dock_menu_action: Some(1), has_ssh_connection: true, ..request() };
    assert!(matches!(handle_open_request(r), OpenRequestPlan::CliConnection));
}

#[test]
fn dock_menu_action_then_ssh() {
    let r = OpenRequest { dock_menu_action: Some(4), has_ssh_connection: true, ..request() };
    assert!(matches!(handle_open_request(r), OpenRequestPlan::DockMenuAction(4)));
    let r = OpenRequest { has_ssh_connection: true, open_paths: vec!["a".to_string()], ..request() };
    assert!(matches!(handle_open_request(r), OpenRequestPlan::SshProject));
}

#[test]
fn paths_and_channel_work() {
    let r = OpenRequest { open_paths: vec!["/tmp/a".to_string()], ..request() };
    assert!(matches!(handle_open_request(r), OpenRequestPlan::Open { open_paths: true, channel: None }));
    let r = OpenRequest { join_channel: Some(7), open_channel_notes: vec![(3, Some("h".to_string()))], ..request() };
    match handle_open_request(r) {
        OpenRequestPlan::Open { open_paths, channel: Some(c) } => {
            assert!(!open_paths);
            assert_eq!(c.join_channel, Some(7));
            assert_eq!(c.open_notes, vec![(3, Some("h".to_string()))]);
        }
        _ => panic!("expected channel work"),
    }
    assert!(matches!(handle_open_request(request()), OpenRequestPlan::Open { open_paths: false, channel: None }));
}

#[test]
fn authentication_steps() {
    assert!(matches!(authenticate(true, true), AuthStep::Connect { try_keychain: false }));
    assert!(matches!(authenticate(true, false), AuthStep::CheckCredentials));
    assert!(matches!(authenticate(false, true), AuthStep::CheckCredentials));
    assert!(matches!(after_credentials_check(true), AuthStep::Connect { try_keychain: true }));
    assert!(matches!(after_credentials_check(false), AuthStep::Done));
    assert!(proceed_after_authentication(&AuthOutcome::Timeout));
    assert!(proceed_after_authentication(&AuthOutcome::ConnectionReset));
    assert!(proceed_after_authentication(&AuthOutcome::Connected));
    assert!(!proceed_after_authentication(&AuthOutcome::Failed));
}

#[test]
fn restore_choices() {
    assert_eq!(restore_behavior(RestoreOnStartup::LastSession, false), RestoreOnStartup::LastWorkspace);
    assert_eq!(restore_behavior(RestoreOnStartup::LastSession, true), RestoreOnStartup::LastSession);
    assert_eq!(restore_behavior(RestoreOnStartup::Nothing, false), RestoreOnStartup::Nothing);
    assert_eq!(session_locations::<u8>(None, true), None);
    assert_eq!(session_locations::<u8>(Some(vec![]), false), None);
    assert_eq!(session_locations(Some(vec![1, 2, 3]), false), Some(vec![1, 2, 3]));
    assert_eq!(session_locations(Some(vec![1, 2, 3]), true), Some(vec![3, 2, 1]));
    assert_eq!(reverse_vec(vec!["a", "b"]), vec!["b", "a"]);
}

#[test]
fn startup_workspace_choice() {
    assert!(matches!(restore_or_create_workspace(true, &KvRead::Missing), StartupWorkspace::Restore));
    assert!(matches!(restore_or_create_workspace(false, &KvRead::Missing), StartupWorkspace::ShowWelcome));
    assert!(matches!(
        restore_or_create_workspace(false, &KvRead::Value("1".to_string())),
        StartupWorkspace::OpenNewFile
    ));
    assert!(matches!(restore_or_create_workspace(false, &KvRead::Failed), StartupWorkspace::OpenNewFile));
}

#[test]
fn url_arguments() {
    assert_eq!(parse_url_arg("a.txt", Some("/home/u/a.txt".to_string()), "/home/u/a.txt", false), "file:///home/u/a.txt");
    assert_eq!(parse_url_arg("ssh://host/p", None, "/w/ssh:/host/p", false), "ssh://host/p");
    assert_eq!(parse_url_arg("zed-cli://x", None, "/w/zed-cli:/x", false), "zed-cli://x");
    assert_eq!(parse_url_arg("file:///x", None, "/w/file:/x", false), "file:///x");
    assert_eq!(
        parse_url_arg("https://zed.dev/channel/x", None, "/w/https:/zed.dev/channel/x", true),
        "https://zed.dev/channel/x"
    );
}

#[test]
fn path_with_line_and_row_opens_as_a_file() {
    assert_eq!(parse_url_arg("/n/main.rs:3:1", None, "/n/main.rs:3:1", false), "file:///n/main.rs:3:1");
    assert_eq!(parse_url_arg("missing", None, "/home/u/missing", false), "file:///home/u/missing");
}

#[test]
fn fonts_and_language_files() {
    let paths = vec!["fonts/a.ttf".to_string(), "fonts/readme.md".to_string(), "fonts/b.ttf".to_string(), "ttf".to_string()];
    assert_eq!(embedded_font_paths(&paths), vec!["fonts/a.ttf".to_string(), "fonts/b.ttf".to_string()]);
    assert!(has_language_file(&vec![None, Some("rs".to_string()), Some("scm".to_string())]));
    assert!(!has_language_file(&vec![None, Some("scmx".to_string())]));
    assert!(!has_language_file(&vec![]));
}

#[test]
fn themes_directory() {
    assert!(matches!(themes_dir_step(Some(true), "\"/t\""), Ok(ThemesDirStep::LoadThemes)));
    assert!(matches!(themes_dir_step(None, "\"/t\""), Ok(ThemesDirStep::CreateThenLoad)));
    match themes_dir_step(Some(false), "\"/t\"") {
        Err(e) => assert_eq!(e, "Themes dir path \"/t\" is not a directory"),
        Ok(_) => panic!("expected an error"),
    }
    assert_eq!(themes_dir_creation_error("\"/t\""), "Failed to create themes dir at path \"/t\"");
    assert_eq!(extension_theme_to_load(true, Some(1)), None);
    assert_eq!(extension_theme_to_load(false, Some(1)), Some(1));
    assert_eq!(extension_theme_to_load::<u8>(false, None), None);
}

#[test]
fn launch_exits() {
    assert_eq!(launch_exit(LaunchCheck::Askpass { requested: true }), Some(LaunchExit::RunAskpass));
    assert_eq!(launch_exit(LaunchCheck::Askpass { requested: false }), None);
    assert_eq!(launch_exit(LaunchCheck::Directories { failures: 2 }), Some(LaunchExit::ReportDirectoryErrors));
    assert_eq!(launch_exit(LaunchCheck::Directories { failures: 0 }), None);
    assert_eq!(launch_exit(LaunchCheck::SystemSpecs { requested: true }), Some(LaunchExit::PrintSystemSpecs));
    assert_eq!(launch_exit(LaunchCheck::SingleInstance { failed: true }), Some(LaunchExit::AlreadyRunning));
    assert_eq!(launch_exit(LaunchCheck::SingleInstance { failed: false }), None);
    assert!(single_instance_check_needed(false, false));
    assert!(!single_instance_check_needed(true, false));
    assert!(!single_instance_check_needed(false, true));
}

#[test]
fn first_things_opened() {
    let open = initial_open(2, false);
    assert!(open.open_argument_urls);
    assert!(matches!(open.workspace, InitialWorkspace::RestoreOrCreate));
    let open = initial_open(0, true);
    assert!(!open.open_argument_urls);
    assert!(matches!(open.workspace, InitialWorkspace::HandleRequest));
}

#[test]
fn channel_work_stages() {
    let plan = ChannelPlan { join_channel: Some(5), open_notes: vec![(1, None)] };
    let mut stage = plan.first_stage(true);
    let mut seen = vec![stage];
    while stage != ChannelStage::Done {
        stage = plan.after(stage, true).unwrap();
        seen.push(stage);
    }
    assert_eq!(
        seen,
        vec![
            ChannelStage::AwaitPaths,
            ChannelStage::Authenticate,
            ChannelStage::JoinChannel(5),
            ChannelStage::OpenNotes,
            ChannelStage::Done,
        ]
    );
    let plan = ChannelPlan { join_channel: None, open_notes: vec![] };
    assert_eq!(plan.first_stage(false), ChannelStage::Authenticate);
    assert_eq!(plan.after(ChannelStage::Authenticate, true), Some(ChannelStage::OpenNotes));
    assert_eq!(plan.after(ChannelStage::Authenticate, false), None);
}

#[test]
fn launch_checks_pass_in_order() {
    let mut launch = LaunchSequence::new();
    assert_eq!(launch.stage(), LaunchStage::Askpass);
    assert_eq!(launch.record(LaunchCheck::Askpass { requested: false }), None);
    assert_eq!(launch.stage(), LaunchStage::Directories);
    assert_eq!(launch.record(LaunchCheck::Directories { failures: 0 }), None);
    assert_eq!(launch.stage(), LaunchStage::SystemSpecs);
    assert_eq!(launch.record(LaunchCheck::SystemSpecs { requested: false }), None);
    assert_eq!(launch.stage(), LaunchStage::SingleInstance);
    assert_eq!(launch.record(LaunchCheck::SingleInstance { failed: false }), None);
    assert_eq!(launch.stage(), LaunchStage::Started);
}

#[test]
fn launch_check_out_of_turn_is_ignored() {
    let mut launch = LaunchSequence::new();
    assert_eq!(launch.record(LaunchCheck::SingleInstance { failed: true }), None);
    assert_eq!(launch.stage(), LaunchStage::Askpass);
    assert_eq!(launch.record(LaunchCheck::Askpass { requested: false }), None);
    assert_eq!(launch.record(LaunchCheck::Askpass { requested: true }), None);
    assert_eq!(launch.stage(), LaunchStage::Directories);
}

#[test]
fn first_failing_launch_check_stops_the_launch() {
    let mut launch = LaunchSequence::new();
    assert_eq!(launch.record(LaunchCheck::Askpass { requested: false }), None);
    assert_eq!(
        launch.record(LaunchCheck::Directories { failures: 1 }),
        Some(LaunchExit::ReportDirectoryErrors)
    );
    assert_eq!(launch.stage(), LaunchStage::Stopped);
    assert_eq!(launch.record(LaunchCheck::SystemSpecs { requested: true }), None);
    assert_eq!(launch.stage(), LaunchStage::Stopped);
    let mut launch = LaunchSequence::new();
    assert_eq!(launch.record(LaunchCheck::Askpass { requested: true }), Some(LaunchExit::RunAskpass));
    assert_eq!(launch.stage(), LaunchStage::Stopped);
}

#[test]
fn restoring_locations_in_order() {
    let mut run = RestoreRun::new(vec![LocationKind::Ssh, LocationKind::Local, LocationKind::Ssh]);
    assert_eq!(run.step(), RestoreAction::OpenInBackground(0));
    assert_eq!(run.step(), RestoreAction::OpenAndWait(1));
    assert_eq!(run.step(), RestoreAction::OpenInBackground(2));
    assert_eq!(run.step(), RestoreAction::Finished);
    assert_eq!(run.step(), RestoreAction::Finished);
}

#[test]
fn failed_local_open_stops_restoring() {
    let mut run = RestoreRun::new(vec![LocationKind::Local, LocationKind::Local]);
    assert_eq!(run.step(), RestoreAction::OpenAndWait(0));
    run.local_open_failed();
    assert_eq!(run.step(), RestoreAction::Stopped);
    assert_eq!(run.step(), RestoreAction::Stopped);
    let mut run = RestoreRun::new(vec![]);
    assert_eq!(run.step(), RestoreAction::Finished);
}

#[test]
fn theme_watch_steps() {
    assert!(theme_file_to_load(true));
    assert!(!theme_file_to_load(false));
    assert!(reload_after_theme_load(true));
    assert!(!reload_after_theme_load(false));
}
