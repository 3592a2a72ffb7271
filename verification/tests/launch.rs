use zed_core::launch_errors::{
    describe_errors, files_not_created_on_launch, group_creation_errors, join_strings,
    CreateDirErrors, CreateDirFailure,
};
use zed_core::plugin::{fail_to_open_window, FailToOpenWindowPlugin, FailureWindowRequest, Plugin};

fn failure(path: &str, kind: &str, permission_denied: bool) -> CreateDirFailure {
    CreateDirFailure {
        path: format!("{path:?}"),
        kind: kind.to_string(),
        permission_denied,
    }
}

const HINT: &str = "\n\nConsider using chown and chmod tools for altering the directories permissions if your user has corresponding rights.\nFor example, `sudo chown $(whoami):staff ~/.config` and `chmod +uwrx ~/.config`";

#[test]
fn failures_are_grouped_by_kind_in_order() {
    let groups = group_creation_errors(vec![
        failure("/a", "permission denied", true),
        failure("/b", "read-only filesystem or storage medium", false),
        failure("/c", "permission denied", true),
    ]);
    assert_eq!(groups.len(), 2);
    assert_eq!(groups[0].kind, "permission denied");
    assert!(groups[0].permission_denied);
    assert_eq!(groups[0].paths, vec!["\"/a\"".to_string(), "\"/c\"".to_string()]);
    assert_eq!(groups[1].paths, vec!["\"/b\"".to_string()]);
}

#[test]
fn no_failures_no_groups() {
    assert!(group_creation_errors(vec![]).is_empty());
}

#[test]
fn joining() {
    assert_eq!(join_strings(&vec![], ", "), "");
    assert_eq!(join_strings(&vec!["a".to_string()], ", "), "a");
    assert_eq!(join_strings(&vec!["a".to_string(), "b".to_string(), "c".to_string()], ", "), "a, b, c");
}

#[test]
fn one_directory_and_several_directories() {
    let one = CreateDirErrors {
        kind: "not found".to_string(),
        permission_denied: false,
        paths: vec!["\"/x\"".to_string()],
    };
    assert_eq!(
        describe_errors(&one, true).unwrap(),
        "not found when creating directory \"/x\""
    );
    let many = CreateDirErrors {
        kind: "not found".to_string(),
        permission_denied: false,
        paths: vec!["\"/x\"".to_string(), "\"/y\"".to_string()],
    };
    let paths: Vec<&str> = vec!["/x", "/y"];
    assert_eq!(
        describe_errors(&many, true).unwrap(),
        format!("not found when creating directories {paths:?}")
    );
    let none = CreateDirErrors { kind: "x".to_string(), permission_denied: false, paths: vec![] };
    assert_eq!(describe_errors(&none, true), None);
}

#[test]
fn permission_hint_only_on_unix() {
    let denied = CreateDirErrors {
        kind: "permission denied".to_string(),
        permission_denied: true,
        paths: vec!["\"/etc/zed\"".to_string()],
    };
    let base = "permission denied when creating directory \"/etc/zed\"";
    assert_eq!(describe_errors(&denied, true).unwrap(), format!("{base}{HINT}"));
    assert_eq!(describe_errors(&denied, false).unwrap(), base);
}

#[test]
fn launch_failure_message() {
    let groups = group_creation_errors(vec![
        failure("/a", "not found", false),
        failure("/b", "already exists", false),
    ]);
    let failure = files_not_created_on_launch(&groups, true);
    assert_eq!(
        failure.stderr_line,
        "Zed failed to launch: not found when creating directory \"/a\"\n\nalready exists when creating directory \"/b\""
    );
    assert_eq!(
        failure.plugin.fallback_error(),
        failure.stderr_line
    );
}

#[test]
fn failure_plugin_asks_for_a_prompt_and_a_fallback() {
    let plugin = FailToOpenWindowPlugin::new("Zed failed to launch".to_string(), "details".to_string());
    let mut requests: Vec<FailureWindowRequest> = Vec::new();
    plugin.build(&mut requests);
    assert_eq!(requests.len(), 1);
    assert_eq!(requests[0].message, "Zed failed to launch");
    assert_eq!(requests[0].detail, "details");
    assert_eq!(requests[0].answers, vec!["Exit".to_string()]);
    assert_eq!(requests[0].fallback_error, "Zed failed to launch: details");
    plugin.build(&mut requests);
    assert_eq!(requests.len(), 2);
    assert_eq!(requests[1].fallback_error, "Zed failed to launch: details");
}

#[test]
fn window_failure_report() {
    let report = fail_to_open_window("NoDisplay");
    assert_eq!(
        report.stderr_line,
        "Zed failed to open a window: NoDisplay. See https://zed.dev/docs/linux for troubleshooting steps."
    );
    assert_eq!(report.notification_id, "dev.zed.Oops");
    assert_eq!(report.notification_title, "Zed failed to launch");
    assert_eq!(
        report.notification_body,
        "NoDisplay. See https://zed.dev/docs/linux for troubleshooting steps."
    );
}

#[test]
fn a_function_is_a_plugin() {
    let count = |n: &mut Vec<u32>| n.push(7);
    let mut app: Vec<u32> = Vec::new();
    Plugin::build(&count, &mut app);
    Plugin::build(&count, &mut app);
    assert_eq!(app, vec![7, 7]);
}
