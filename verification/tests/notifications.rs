use zed_core::notifications::{
    init, CallResponse, IncomingCall, IncomingCallNotification, IncomingCallNotificationState,
    ListenerNext, ProjectJoin,
};

fn call(project: Option<u64>) -> IncomingCall {
    IncomingCall {
        calling_user_id: 42,
        calling_user_login: "octocat".to_string(),
        calling_user_avatar_uri: "https://avatars/42".to_string(),
        initial_project_id: project,
    }
}

#[test]
fn accepting_joins_the_shared_project() {
    let state = IncomingCallNotificationState::new(call(Some(9)));
    assert!(state.respond(true) == CallResponse::Accept { join_project: Some(ProjectJoin { project_id: 9, caller_user_id: 42 }) });
    let state = IncomingCallNotificationState::new(call(None));
    assert!(state.respond(true) == CallResponse::Accept { join_project: None });
    assert!(state.respond(false) == CallResponse::Decline);
}

#[test]
fn notification_content() {
    let notification = IncomingCallNotification::new(call(None));
    let content = notification.render();
    assert_eq!(content.message, "octocat is sharing a project in Zed");
    assert_eq!(content.avatar_uri, "https://avatars/42");
    assert_eq!(content.accept_button.id, "accept");
    assert_eq!(content.accept_button.label, "Accept");
    assert!(content.accept_button.accept);
    assert_eq!(content.decline_button.id, "decline");
    assert_eq!(content.decline_button.label, "Decline");
    assert!(!content.decline_button.accept);
    assert!(notification.state().respond(false) == CallResponse::Decline);
}

#[test]
fn each_update_closes_the_previous_windows() {
    let mut windows = init();
    assert!(windows.windows().is_empty());
    let step = windows.on_incoming_call(Some(call(None)));
    assert!(step.close.is_empty());
    assert!(matches!(step.next, ListenerNext::Show(ref c) if c.calling_user_id == 42));
    windows.opened(1);
    windows.opened(2);
    assert_eq!(windows.windows(), &vec![1, 2]);
    let step = windows.on_incoming_call(Some(call(Some(3))));
    assert_eq!(step.close, vec![1, 2]);
    assert!(windows.windows().is_empty());
    windows.opened(5);
    let step = windows.on_incoming_call(None);
    assert_eq!(step.close, vec![5]);
    assert!(matches!(step.next, ListenerNext::Stop));
    assert!(windows.windows().is_empty());
}
