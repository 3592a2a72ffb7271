//! Incoming-call notifications: the text and buttons of a notification, what answering
//! it does, and which notification windows are open while calls come and go.

use vstd::prelude::*;

verus! {

/// An incoming call, as much of it as the notification shows and acts on.
pub struct IncomingCall {
    pub calling_user_id: u64,
    pub calling_user_login: String,
    pub calling_user_avatar_uri: String,
    pub initial_project_id: Option<u64>,
}

/// A project to join once the call is accepted: the caller's initial project.
#[derive(PartialEq, Eq, Structural)]
pub struct ProjectJoin {
    pub project_id: u64,
    pub caller_user_id: u64,
}

/// What answering a call does.
#[derive(PartialEq, Eq, Structural)]
pub enum CallResponse {
    /// Accept the call, then join the caller's project if the call shares one.
    Accept { join_project: Option<ProjectJoin> },
    Decline,
}

/// The response to `call`: accepting it, with its initial project to join if any, or
/// declining it.
pub open spec fn answer(call: IncomingCall, accept: bool) -> CallResponse {
    if accept {
        CallResponse::Accept {
            join_project: match call.initial_project_id {
                Some(project_id) => Some(
                    ProjectJoin { project_id, caller_user_id: call.calling_user_id },
                ),
                None => None,
            },
        }
    } else {
        CallResponse::Decline
    }
}

/// The state a notification's buttons share: the call it is about.
pub struct IncomingCallNotificationState {
    call: IncomingCall,
}

impl IncomingCallNotificationState {
    pub closed spec fn call(&self) -> IncomingCall {
        self.call
    }

    pub fn new(call: IncomingCall) -> (state: Self)
        ensures
            state.call() == call,
    {
        IncomingCallNotificationState { call }
    }

    /// Accepting joins the call and then, if the caller shares an initial project, that
    /// project as the caller's guest; declining declines the call.
    pub fn respond(&self, accept: bool) -> (response: CallResponse)
        ensures
            response == answer(self.call(), accept),
    {
        if accept {
            let join_project = match self.call.initial_project_id {
                Some(project_id) => Some(
                    ProjectJoin { project_id, caller_user_id: self.call.calling_user_id },
                ),
                None => None,
            };
            CallResponse::Accept { join_project }
        } else {
            CallResponse::Decline
        }
    }
}

/// A button of a notification: its element id, its label and whether it accepts the call.
pub struct NotificationButton {
    pub id: String,
    pub label: String,
    pub accept: bool,
}

/// What a notification shows: the caller's avatar, a line of text, and two buttons.
pub struct NotificationContent {
    pub avatar_uri: String,
    pub message: String,
    pub accept_button: NotificationButton,
    pub decline_button: NotificationButton,
}

/// The notification of one incoming call.
pub struct IncomingCallNotification {
    state: IncomingCallNotificationState,
}

impl IncomingCallNotification {
    pub closed spec fn call(&self) -> IncomingCall {
        self.state.call()
    }

    pub fn new(call: IncomingCall) -> (notification: Self)
        ensures
            notification.call() == call,
    {
        IncomingCallNotification { state: IncomingCallNotificationState::new(call) }
    }

    /// The state the notification's buttons answer the call with.
    pub fn state(&self) -> (state: &IncomingCallNotificationState)
        ensures
            state.call() == self.call(),
    {
        &self.state
    }

    /// The caller's avatar, `"{login} is sharing a project in Zed"`, an `Accept` button
    /// (id `accept`) and a `Decline` button (id `decline`).
    pub fn render(&self) -> (content: NotificationContent)
        ensures
            content.avatar_uri@ == self.call().calling_user_avatar_uri@,
            content.message@ == self.call().calling_user_login@ + " is sharing a project in Zed"@,
            content.accept_button.id@ == "accept"@,
            content.accept_button.label@ == "Accept"@,
            content.accept_button.accept,
            content.decline_button.id@ == "decline"@,
            content.decline_button.label@ == "Decline"@,
            !content.decline_button.accept,
    {
        let mut message = self.state.call.calling_user_login.clone();
        message.append(" is sharing a project in Zed");
        NotificationContent {
            avatar_uri: self.state.call.calling_user_avatar_uri.clone(),
            message,
            accept_button: NotificationButton {
                id: String::from_str("accept"),
                label: String::from_str("Accept"),
                accept: true,
            },
            decline_button: NotificationButton {
                id: String::from_str("decline"),
                label: String::from_str("Decline"),
                accept: false,
            },
        }
    }
}

/// What the listener does next after an update of the incoming call.
pub enum ListenerNext {
    /// Show this call on every screen that can take a notification window.
    Show(IncomingCall),
    /// The call is gone: stop listening.
    Stop,
}

/// The answer to an update: the windows to close, then what to do next.
pub struct NotificationStep {
    pub close: Vec<u64>,
    pub next: ListenerNext,
}

/// The notification windows the incoming-call listener has open, by window id.
pub struct NotificationWindows {
    open: Vec<u64>,
}

impl NotificationWindows {
    pub closed spec fn open_windows(&self) -> Seq<u64> {
        self.open@
    }

    /// The ids of the open notification windows, in the order they opened.
    pub fn windows(&self) -> (windows: &Vec<u64>)
        ensures
            windows@ == self.open_windows(),
    {
        &self.open
    }

    /// Every update of the incoming call closes all windows opened for the previous one;
    /// a new call is then shown, while the end of the call stops the listener.
    pub fn on_incoming_call(&mut self, call: Option<IncomingCall>) -> (step: NotificationStep)
        ensures
            step.close@ == old(self).open_windows(),
            final(self).open_windows() == Seq::<u64>::empty(),
            call is None ==> step.next is Stop,
            call matches Some(c) ==> step.next matches ListenerNext::Show(shown) && shown == c,
    {
        let mut close: Vec<u64> = Vec::new();
        std::mem::swap(&mut close, &mut self.open);
        let next = match call {
            Some(c) => ListenerNext::Show(c),
            None => ListenerNext::Stop,
        };
        NotificationStep { close, next }
    }

    /// Records a notification window opened for the current call.
    pub fn opened(&mut self, window: u64)
        ensures
            final(self).open_windows() == old(self).open_windows().push(window),
    {
        self.open.push(window);
    }
}

/// Starts the incoming-call notifications: no window is open yet.
pub fn init() -> (windows: NotificationWindows)
    ensures
        windows.open_windows() == Seq::<u64>::empty(),
{
    NotificationWindows { open: Vec::new() }
}

} // verus!
