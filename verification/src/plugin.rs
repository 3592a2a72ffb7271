//! Plugins that contribute to the application at startup, and the one that reports a
//! failed launch in a window.

use vstd::prelude::*;

verus! {

/// Something that contributes state or behavior to the application `Cx` it is built into.
pub trait Plugin<Cx> {
    /// Whether this plugin can be built into the application `cx`.
    spec fn build_requires(&self, cx: &mut Cx) -> bool;

    /// Builds this plugin into the application.
    fn build(&self, cx: &mut Cx)
        requires
            self.build_requires(old(cx)),
    ;
}

/// A function of the application is a plugin: building it calls it, where its own
/// precondition allows.
impl<Cx, F: Fn(&mut Cx)> Plugin<Cx> for F {
    open spec fn build_requires(&self, cx: &mut Cx) -> bool {
        forall|r: &mut Cx| *r == *cx ==> call_requires(*self, (r,))
    }

    /// Calls the function on the application: the application ends as a call of it leaves it.
    fn build(&self, cx: &mut Cx)
        ensures
            exists|r: &mut Cx| *r == *old(cx) && *final(r) == *final(cx) && call_ensures(*self, (r,), ()),
    {
        (self)(cx)
    }
}

/// Reports a failed launch: a critical prompt in a new window, or, where no window opens,
/// the failure path of the platform.
pub struct FailToOpenWindowPlugin {
    message: String,
    error_details: String,
}

impl FailToOpenWindowPlugin {
    pub closed spec fn message(&self) -> Seq<char> {
        self.message@
    }

    pub closed spec fn error_details(&self) -> Seq<char> {
        self.error_details@
    }

    pub fn new(message: String, error_details: String) -> (plugin: Self)
        ensures
            plugin.message() == message@,
            plugin.error_details() == error_details@,
    {
        FailToOpenWindowPlugin { message, error_details }
    }
}

impl FailToOpenWindowPlugin {
    /// The error reported when not even a window can be opened: `"{message}: {details}"`.
    pub fn fallback_error(&self) -> (error: String)
        ensures
            error@ == self.message() + ": "@ + self.error_details(),
    {
        let mut error = self.message.clone();
        error.append(": ");
        error.append(self.error_details.as_str());
        error
    }
}

/// What building the failure plugin asks of the application: open an empty window; once
/// it is open, show a critical prompt with `message`, `detail` and `answers` in it, and
/// quit when it is answered; if no window opens, report `fallback_error` as the failure
/// to open one.
pub struct FailureWindowRequest {
    pub message: String,
    pub detail: String,
    pub answers: Vec<String>,
    pub fallback_error: String,
}

/// Whether `request` shows the failure `plugin` reports: its message and details in the
/// prompt, whose only answer is `Exit`, and `"{message}: {details}"` when no window opens.
pub open spec fn shows_failure(request: FailureWindowRequest, plugin: FailToOpenWindowPlugin) -> bool {
    &&& request.message@ == plugin.message()
    &&& request.detail@ == plugin.error_details()
    &&& request.answers@.len() == 1
    &&& request.answers@[0]@ == "Exit"@
    &&& request.fallback_error@ == plugin.message() + ": "@ + plugin.error_details()
}

impl Plugin<Vec<FailureWindowRequest>> for FailToOpenWindowPlugin {
    open spec fn build_requires(&self, cx: &mut Vec<FailureWindowRequest>) -> bool {
        true
    }

    /// Adds one request to the application's requests: the one that shows this failure.
    fn build(&self, cx: &mut Vec<FailureWindowRequest>)
        ensures
            final(cx)@.len() == old(cx)@.len() + 1,
            final(cx)@.drop_last() == old(cx)@,
            shows_failure(final(cx)@.last(), *self),
    {
        let mut answers: Vec<String> = Vec::new();
        answers.push(String::from_str("Exit"));
        let request = FailureWindowRequest {
            message: self.message.clone(),
            detail: self.error_details.clone(),
            answers,
            fallback_error: self.fallback_error(),
        };
        cx.push(request);
        assert(cx@.drop_last() =~= old(cx)@);
    }
}

/// What the editor reports when it cannot open a window: a line on standard error and,
/// on Linux and FreeBSD, a desktop notification.
pub struct WindowFailureReport {
    pub stderr_line: String,
    pub notification_id: String,
    pub notification_title: String,
    pub notification_body: String,
}

/// The advice every report of a window that could not open ends with.
pub open spec fn troubleshooting() -> Seq<char> {
    ". See https://zed.dev/docs/linux for troubleshooting steps."@
}

/// The report of a window that could not open, from the error as `{:?}` writes it.
pub fn fail_to_open_window(error: &str) -> (report: WindowFailureReport)
    ensures
        report.stderr_line@ == "Zed failed to open a window: "@ + error@ + troubleshooting(),
        report.notification_id@ == "dev.zed.Oops"@,
        report.notification_title@ == "Zed failed to launch"@,
        report.notification_body@ == error@ + troubleshooting(),
{
    let mut stderr_line = String::from_str("Zed failed to open a window: ");
    stderr_line.append(error);
    stderr_line.append(". See https://zed.dev/docs/linux for troubleshooting steps.");
    let mut notification_body = String::from_str(error);
    notification_body.append(". See https://zed.dev/docs/linux for troubleshooting steps.");
    WindowFailureReport {
        stderr_line,
        notification_id: String::from_str("dev.zed.Oops"),
        notification_title: String::from_str("Zed failed to launch"),
        notification_body,
    }
}

} // verus!
