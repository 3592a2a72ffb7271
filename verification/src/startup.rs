//! Decisions the editor takes while it starts and while it serves requests to open
//! things: which request branch runs, whether to sign in, which workspaces to restore,
//! which arguments name something it can open, which files are fonts, themes or
//! language queries.

use vstd::prelude::*;

use crate::ids::KvRead;
use crate::text::{has_prefix, has_suffix};

verus! {

/// The plain part of a request to open something: whether it came over a CLI connection,
/// the paths to open, the channel notes to open and the channel to join, whether it names
/// an SSH connection, and the dock menu action it asks for.
pub struct OpenRequest {
    pub has_cli_connection: bool,
    pub open_paths: Vec<String>,
    pub open_channel_notes: Vec<(u64, Option<String>)>,
    pub join_channel: Option<u64>,
    pub has_ssh_connection: bool,
    pub dock_menu_action: Option<usize>,
}

/// The channel work of an open request, done after its paths are open and the client has
/// tried to sign in: join the channel, if any, then open the notes.
pub struct ChannelPlan {
    pub join_channel: Option<u64>,
    pub open_notes: Vec<(u64, Option<String>)>,
}

/// Which branch of an open request runs.
pub enum OpenRequestPlan {
    /// Serve the CLI connection; nothing else of the request is looked at.
    CliConnection,
    /// Perform the dock menu action.
    DockMenuAction(usize),
    /// Open the request's paths on the SSH host.
    SshProject,
    /// Open the local paths (if `open_paths`), then do the channel work, if any.
    Open { open_paths: bool, channel: Option<ChannelPlan> },
}

/// The CLI connection comes first, then a dock menu action, then an SSH connection; any
/// other request opens its paths and then does its channel work, which it has when it
/// names notes to open or a channel to join.
pub fn handle_open_request(request: OpenRequest) -> (plan: OpenRequestPlan)
    ensures
        request.has_cli_connection ==> plan is CliConnection,
        !request.has_cli_connection && request.dock_menu_action is Some ==> (plan matches OpenRequestPlan::DockMenuAction(i) && Some(i) == request.dock_menu_action),
        !request.has_cli_connection && request.dock_menu_action is None && request.has_ssh_connection
            ==> plan is SshProject,
        !request.has_cli_connection && request.dock_menu_action is None && !request.has_ssh_connection
            ==> (plan matches OpenRequestPlan::Open { open_paths, channel } && {
            &&& open_paths == (request.open_paths.len() > 0)
            &&& (request.open_channel_notes.len() > 0 || request.join_channel is Some) <==> channel is Some
            &&& channel matches Some(c) ==> c.join_channel == request.join_channel
                && c.open_notes@ == request.open_channel_notes@
        }),
{
    if request.has_cli_connection {
        return OpenRequestPlan::CliConnection;
    }
    if let Some(action_index) = request.dock_menu_action {
        return OpenRequestPlan::DockMenuAction(action_index);
    }
    if request.has_ssh_connection {
        return OpenRequestPlan::SshProject;
    }
    let open_paths = request.open_paths.len() > 0;
    let channel = if request.open_channel_notes.len() > 0 || request.join_channel.is_some() {
        Some(ChannelPlan { join_channel: request.join_channel, open_notes: request.open_channel_notes })
    } else {
        None
    };
    OpenRequestPlan::Open { open_paths, channel }
}

/// How an attempt to sign in and connect ended.
pub enum AuthOutcome {
    Timeout,
    ConnectionReset,
    Connected,
    Failed,
}

/// The channel work of an open request goes on after a timeout or a reset connection,
/// which are only logged, and stops when signing in failed.
pub fn proceed_after_authentication(outcome: &AuthOutcome) -> (proceed: bool)
    ensures
        proceed == !(outcome is Failed),
{
    match outcome {
        AuthOutcome::Failed => false,
        _ => true,
    }
}

/// A stage of the channel work of an open request, in the order they run: wait for the
/// paths to open (when the request opens paths), sign in, join the channel (when the
/// request names one), open the notes in the active workspace, done.
#[derive(Clone, Copy, Debug, PartialEq, Eq, Structural)]
pub enum ChannelStage {
    AwaitPaths,
    Authenticate,
    JoinChannel(u64),
    OpenNotes,
    Done,
}

/// The stage after `stage` once it went well.
pub open spec fn next_channel_stage(stage: ChannelStage, join_channel: Option<u64>) -> ChannelStage {
    match stage {
        ChannelStage::AwaitPaths => ChannelStage::Authenticate,
        ChannelStage::Authenticate => match join_channel {
            Some(id) => ChannelStage::JoinChannel(id),
            None => ChannelStage::OpenNotes,
        },
        ChannelStage::JoinChannel(_) => ChannelStage::OpenNotes,
        ChannelStage::OpenNotes => ChannelStage::Done,
        ChannelStage::Done => ChannelStage::Done,
    }
}

impl ChannelPlan {
    /// The channel work starts by waiting for the paths when the request opens any, and
    /// otherwise by signing in.
    pub fn first_stage(&self, has_paths_task: bool) -> (stage: ChannelStage)
        ensures
            stage == if has_paths_task { ChannelStage::AwaitPaths } else { ChannelStage::Authenticate },
    {
        if has_paths_task {
            ChannelStage::AwaitPaths
        } else {
            ChannelStage::Authenticate
        }
    }

    /// The stage after `stage`: the next one when `stage` went well, none (the work stops
    /// and reports the error) when it failed. Signing in went well when
    /// `proceed_after_authentication` says so; opening the notes failed only when there is
    /// no active workspace (a note that does not open is logged).
    pub fn after(&self, stage: ChannelStage, succeeded: bool) -> (next: Option<ChannelStage>)
        ensures
            !succeeded ==> next is None,
            succeeded ==> next == Some(next_channel_stage(stage, self.join_channel)),
    {
        if !succeeded {
            return None;
        }
        let next = match stage {
            ChannelStage::AwaitPaths => ChannelStage::Authenticate,
            ChannelStage::Authenticate => match self.join_channel {
                Some(id) => ChannelStage::JoinChannel(id),
                None => ChannelStage::OpenNotes,
            },
            ChannelStage::JoinChannel(_) => ChannelStage::OpenNotes,
            ChannelStage::OpenNotes => ChannelStage::Done,
            ChannelStage::Done => ChannelStage::Done,
        };
        Some(next)
    }
}

/// Why a launch stops before the editor starts.
#[derive(Clone, Copy, Debug, PartialEq, Eq, Structural)]
pub enum LaunchExit {
    /// Act as the askpass helper for the socket the arguments name.
    RunAskpass,
    /// Show that the data directories could not be created.
    ReportDirectoryErrors,
    /// Print the system specs.
    PrintSystemSpecs,
    /// Say that the editor is already running.
    AlreadyRunning,
}

/// A check a launch makes, with what it found. `LaunchSequence` keeps them in order.
#[derive(Clone, Copy, Debug, PartialEq, Eq, Structural)]
pub enum LaunchCheck {
    /// Whether the arguments name an askpass socket.
    Askpass { requested: bool },
    /// How many data directories could not be created.
    Directories { failures: usize },
    /// Whether the arguments ask for the system specs.
    SystemSpecs { requested: bool },
    /// Whether the single-instance check found another instance.
    SingleInstance { failed: bool },
}

/// The exit a check's finding calls for: the askpass helper for an askpass socket, the
/// directory report when a data directory could not be created, the system specs when
/// asked for, and the notice that the editor is already running when another instance
/// is; none otherwise.
pub open spec fn check_exit(check: LaunchCheck) -> Option<LaunchExit> {
    match check {
        LaunchCheck::Askpass { requested } => if requested { Some(LaunchExit::RunAskpass) } else { None },
        LaunchCheck::Directories { failures } => if failures > 0 {
            Some(LaunchExit::ReportDirectoryErrors)
        } else {
            None
        },
        LaunchCheck::SystemSpecs { requested } => if requested {
            Some(LaunchExit::PrintSystemSpecs)
        } else {
            None
        },
        LaunchCheck::SingleInstance { failed } => if failed { Some(LaunchExit::AlreadyRunning) } else { None },
    }
}

/// Each check stops the launch exactly when it finds something: the askpass helper runs
/// when an askpass socket is named; the directory report shows when at least one data
/// directory could not be created, however many failed; the system specs print when asked
/// for; the launch ends as already running when another instance answered. A check that
/// finds nothing lets the launch go on.
pub proof fn lemma_checks_stop_exactly_on_a_finding(requested: bool, failures: usize, failed: bool)
    ensures
        check_exit(LaunchCheck::Askpass { requested }) is Some <==> requested,
        check_exit(LaunchCheck::Askpass { requested }) is Some
            ==> check_exit(LaunchCheck::Askpass { requested }) == Some(LaunchExit::RunAskpass),
        check_exit(LaunchCheck::Directories { failures }) == Some(LaunchExit::ReportDirectoryErrors)
            <==> failures >= 1,
        check_exit(LaunchCheck::Directories { failures }) is None <==> failures == 0,
        check_exit(LaunchCheck::SystemSpecs { requested }) is Some <==> requested,
        check_exit(LaunchCheck::SystemSpecs { requested }) is Some
            ==> check_exit(LaunchCheck::SystemSpecs { requested }) == Some(LaunchExit::PrintSystemSpecs),
        check_exit(LaunchCheck::SingleInstance { failed }) is Some <==> failed,
        check_exit(LaunchCheck::SingleInstance { failed }) is Some
            ==> check_exit(LaunchCheck::SingleInstance { failed }) == Some(LaunchExit::AlreadyRunning),
{
}

/// More failed data directories never let a launch go on that fewer stopped: once one
/// directory failed, every larger count stops the launch with the same report.
pub proof fn lemma_more_directory_failures_still_stop(fewer: usize, more: usize)
    requires
        1 <= fewer <= more,
    ensures
        check_exit(LaunchCheck::Directories { failures: more })
            == check_exit(LaunchCheck::Directories { failures: fewer }),
        check_exit(LaunchCheck::Directories { failures: more }) is Some,
{
}

/// The exit a check's finding calls for.
pub fn launch_exit(check: LaunchCheck) -> (exit: Option<LaunchExit>)
    ensures
        exit == check_exit(check),
{
    match check {
        LaunchCheck::Askpass { requested } => if requested { Some(LaunchExit::RunAskpass) } else { None },
        LaunchCheck::Directories { failures } => if failures > 0 {
            Some(LaunchExit::ReportDirectoryErrors)
        } else {
            None
        },
        LaunchCheck::SystemSpecs { requested } => if requested {
            Some(LaunchExit::PrintSystemSpecs)
        } else {
            None
        },
        LaunchCheck::SingleInstance { failed } => if failed { Some(LaunchExit::AlreadyRunning) } else { None },
    }
}

/// Where a launch stands: at one of its checks, in the order askpass, data directories,
/// system specs, single instance; started once all passed; stopped at an exit.
#[derive(Clone, Copy, Debug, PartialEq, Eq, Structural)]
pub enum LaunchStage {
    Askpass,
    Directories,
    SystemSpecs,
    SingleInstance,
    Started,
    Stopped,
}

/// The stage a check belongs to.
pub open spec fn check_stage(check: LaunchCheck) -> LaunchStage {
    match check {
        LaunchCheck::Askpass { .. } => LaunchStage::Askpass,
        LaunchCheck::Directories { .. } => LaunchStage::Directories,
        LaunchCheck::SystemSpecs { .. } => LaunchStage::SystemSpecs,
        LaunchCheck::SingleInstance { .. } => LaunchStage::SingleInstance,
    }
}

/// The stage after a check that passed.
pub open spec fn stage_after(stage: LaunchStage) -> LaunchStage {
    match stage {
        LaunchStage::Askpass => LaunchStage::Directories,
        LaunchStage::Directories => LaunchStage::SystemSpecs,
        LaunchStage::SystemSpecs => LaunchStage::SingleInstance,
        LaunchStage::SingleInstance => LaunchStage::Started,
        LaunchStage::Started => LaunchStage::Started,
        LaunchStage::Stopped => LaunchStage::Stopped,
    }
}

/// The checks of a launch, made in order.
pub struct LaunchSequence {
    stage: LaunchStage,
}

impl LaunchSequence {
    pub closed spec fn current(&self) -> LaunchStage {
        self.stage
    }

    /// A launch starts at the askpass check.
    pub fn new() -> (launch: Self)
        ensures
            launch.current() == LaunchStage::Askpass,
    {
        LaunchSequence { stage: LaunchStage::Askpass }
    }

    /// The stage the launch is at.
    pub fn stage(&self) -> (stage: LaunchStage)
        ensures
            stage == self.current(),
    {
        self.stage
    }

    /// Records the finding of the check the launch is at: an exit stops the launch,
    /// otherwise it moves on to the next check (or starts after the last). A check that is
    /// not the one the launch is at is out of turn: it changes nothing and calls for no
    /// exit.
    pub fn record(&mut self, check: LaunchCheck) -> (exit: Option<LaunchExit>)
        ensures
            check_stage(check) == old(self).current() ==> {
                &&& exit == check_exit(check)
                &&& final(self).current() == if exit is Some {
                    LaunchStage::Stopped
                } else {
                    stage_after(old(self).current())
                }
            },
            check_stage(check) != old(self).current() ==> exit is None && final(self).current()
                == old(self).current(),
    {
        let stage = match check {
            LaunchCheck::Askpass { .. } => LaunchStage::Askpass,
            LaunchCheck::Directories { .. } => LaunchStage::Directories,
            LaunchCheck::SystemSpecs { .. } => LaunchStage::SystemSpecs,
            LaunchCheck::SingleInstance { .. } => LaunchStage::SingleInstance,
        };
        if stage != self.stage {
            return None;
        }
        let exit = launch_exit(check);
        self.stage = match exit {
            Some(_) => LaunchStage::Stopped,
            None => match stage {
                LaunchStage::Askpass => LaunchStage::Directories,
                LaunchStage::Directories => LaunchStage::SystemSpecs,
                LaunchStage::SystemSpecs => LaunchStage::SingleInstance,
                _ => LaunchStage::Started,
            },
        };
        exit
    }
}

/// A launch whose four checks all pass, made in order, has started.
pub proof fn lemma_passing_checks_start_the_launch()
    ensures
        stage_after(stage_after(stage_after(stage_after(LaunchStage::Askpass)))) == LaunchStage::Started,
{
}

/// Every check belongs to one of the four check stages, never to a started or stopped
/// launch: once a launch has started or stopped, each further finding is out of turn and
/// changes nothing.
pub proof fn lemma_no_check_after_the_launch_ends(check: LaunchCheck)
    ensures
        check_stage(check) != LaunchStage::Started,
        check_stage(check) != LaunchStage::Stopped,
{
}

/// What kind of workspace location is restored.
#[derive(Clone, Copy, Debug, PartialEq, Eq, Structural)]
pub enum LocationKind {
    /// Local paths: opened and waited for.
    Local,
    /// An SSH project: opened in the background, where a failure is only logged.
    Ssh,
}

/// The next step of restoring the workspace locations.
#[derive(Clone, Copy, Debug, PartialEq, Eq, Structural)]
pub enum RestoreAction {
    /// Open the local location at this index and wait for it.
    OpenAndWait(usize),
    /// Open the SSH location at this index in the background.
    OpenInBackground(usize),
    /// Every location has been opened.
    Finished,
    /// A local location failed to open: restoring stops with its error.
    Stopped,
}

/// Restoring a list of workspace locations, one after the other.
pub struct RestoreRun {
    kinds: Vec<LocationKind>,
    next: usize,
    stopped: bool,
}

impl RestoreRun {
    pub closed spec fn kinds(&self) -> Seq<LocationKind> {
        self.kinds@
    }

    pub closed spec fn next_index(&self) -> nat {
        self.next as nat
    }

    pub closed spec fn is_stopped(&self) -> bool {
        self.stopped
    }

    /// A restore starts at the first location.
    pub fn new(kinds: Vec<LocationKind>) -> (run: Self)
        ensures
            run.kinds() == kinds@,
            run.next_index() == 0,
            !run.is_stopped(),
    {
        RestoreRun { kinds, next: 0, stopped: false }
    }

    /// The next location, in order: a local one is opened and waited for, an SSH one is
    /// opened in the background; after the last there is nothing more, and after a local
    /// open failed restoring has stopped.
    pub fn step(&mut self) -> (action: RestoreAction)
        ensures
            final(self).kinds() == old(self).kinds(),
            final(self).is_stopped() == old(self).is_stopped(),
            old(self).is_stopped() ==> action is Stopped && final(self).next_index() == old(self).next_index(),
            !old(self).is_stopped() && old(self).next_index() >= old(self).kinds().len() ==> action is Finished
                && final(self).next_index() == old(self).next_index(),
            !old(self).is_stopped() && old(self).next_index() < old(self).kinds().len() ==> {
                &&& action == if old(self).kinds()[old(self).next_index() as int] == LocationKind::Local {
                    RestoreAction::OpenAndWait(old(self).next_index() as usize)
                } else {
                    RestoreAction::OpenInBackground(old(self).next_index() as usize)
                }
                &&& final(self).next_index() == old(self).next_index() + 1
            },
    {
        if self.stopped {
            return RestoreAction::Stopped;
        }
        if self.next >= self.kinds.len() {
            return RestoreAction::Finished;
        }
        let index = self.next;
        self.next = self.next + 1;
        match self.kinds[index] {
            LocationKind::Local => RestoreAction::OpenAndWait(index),
            LocationKind::Ssh => RestoreAction::OpenInBackground(index),
        }
    }

    /// A local location that was waited for failed to open: restoring stops.
    pub fn local_open_failed(&mut self)
        ensures
            final(self).is_stopped(),
            final(self).kinds() == old(self).kinds(),
            final(self).next_index() == old(self).next_index(),
    {
        self.stopped = true;
    }
}

/// A changed file in the themes directory is loaded as a theme if it still exists; a
/// removed one is skipped.
pub fn theme_file_to_load(still_exists: bool) -> (load: bool)
    ensures
        load == still_exists,
{
    still_exists
}

/// After a theme file loaded, the current theme is reloaded; after a failed load, it is
/// not.
pub fn reload_after_theme_load(loaded: bool) -> (reload: bool)
    ensures
        reload == loaded,
{
    loaded
}

/// A stateless launch and a launch of the development channel skip the single-instance
/// check; every other launch makes it.
pub fn single_instance_check_needed(stateless: bool, dev_channel: bool) -> (needed: bool)
    ensures
        needed == !(stateless || dev_channel),
{
    !(stateless || dev_channel)
}

/// What the editor opens first once it has started.
pub enum InitialWorkspace {
    /// Serve the open request that arrived before startup.
    HandleRequest,
    /// Restore the last workspaces, or create one.
    RestoreOrCreate,
}

/// The first things a started editor opens.
pub struct InitialOpen {
    /// Whether to send the URLs the arguments name to the open listener.
    pub open_argument_urls: bool,
    pub workspace: InitialWorkspace,
}

/// The URLs of the arguments go to the open listener when there are any; then a pending
/// open request is served, and without one the last workspaces are restored (or one is
/// created).
pub fn initial_open(argument_urls: usize, has_open_request: bool) -> (open: InitialOpen)
    ensures
        open.open_argument_urls == (argument_urls > 0),
        has_open_request ==> open.workspace is HandleRequest,
        !has_open_request ==> open.workspace is RestoreOrCreate,
{
    InitialOpen {
        open_argument_urls: argument_urls > 0,
        workspace: if has_open_request { InitialWorkspace::HandleRequest } else { InitialWorkspace::RestoreOrCreate },
    }
}

/// A step of signing in at startup.
pub enum AuthStep {
    /// Sign in and connect; `try_keychain` says whether stored credentials may be used.
    Connect { try_keychain: bool },
    /// Ask whether credentials are stored, and go on with `after_credentials_check`.
    CheckCredentials,
    /// Nothing to do.
    Done,
}

/// Someone impersonating a user at a terminal signs in without the keychain; anyone else
/// first asks whether credentials are stored.
pub fn authenticate(stdout_is_a_pty: bool, impersonating: bool) -> (step: AuthStep)
    ensures
        stdout_is_a_pty && impersonating ==> (step matches AuthStep::Connect { try_keychain } && !try_keychain),
        !(stdout_is_a_pty && impersonating) ==> step is CheckCredentials,
{
    if stdout_is_a_pty && impersonating {
        AuthStep::Connect { try_keychain: false }
    } else {
        AuthStep::CheckCredentials
    }
}

/// With stored credentials, sign in with them; without, there is nothing to do.
pub fn after_credentials_check(has_credentials: bool) -> (step: AuthStep)
    ensures
        has_credentials ==> (step matches AuthStep::Connect { try_keychain } && try_keychain),
        !has_credentials ==> step is Done,
{
    if has_credentials {
        AuthStep::Connect { try_keychain: true }
    } else {
        AuthStep::Done
    }
}

/// What the settings ask to restore at startup (`Nothing` stands for the setting `none`).
#[derive(Clone, Copy, Debug, PartialEq, Eq, Structural)]
pub enum RestoreOnStartup {
    Nothing,
    LastWorkspace,
    LastSession,
}

/// Restoring the last session falls back to the last workspace when there is no last
/// session; any other choice stands.
pub fn restore_behavior(configured: RestoreOnStartup, has_last_session: bool) -> (behavior: RestoreOnStartup)
    ensures
        behavior == if configured == RestoreOnStartup::LastSession && !has_last_session {
            RestoreOnStartup::LastWorkspace
        } else {
            configured
        },
{
    if configured == RestoreOnStartup::LastSession && !has_last_session {
        RestoreOnStartup::LastWorkspace
    } else {
        configured
    }
}

/// The items of `v` in reverse order.
pub fn reverse_vec<T>(v: Vec<T>) -> (r: Vec<T>)
    ensures
        r@ == v@.reverse(),
{
    let mut rest = v;
    let mut r: Vec<T> = Vec::new();
    let ghost original = rest@;
    while rest.len() > 0
        invariant
            rest@ == original.take(rest@.len() as int),
            rest@.len() <= original.len(),
            r@ == original.skip(rest@.len() as int).reverse(),
        decreases rest@.len(),
    {
        let ghost before = rest@.len();
        let x = rest.pop().unwrap();
        proof {
            assert(original.skip(rest@.len() as int) =~= seq![x] + original.skip(before as int));
            assert(original.skip(rest@.len() as int).reverse() =~= original.skip(before as int).reverse().push(x));
            assert(rest@ =~= original.take(rest@.len() as int));
        }
        r.push(x);
    }
    assert(original.skip(0) =~= original);
    r
}

/// The workspace locations of the last session to restore: none when the session left
/// none; front-most window last (the reverse of the stored order) when the session stored
/// its window order, so that it ends up in front.
pub fn session_locations<T>(locations: Option<Vec<T>>, ordered: bool) -> (restore: Option<Vec<T>>)
    ensures
        match locations {
            None => restore is None,
            Some(l) => if l@.len() == 0 {
                restore is None
            } else {
                (restore matches Some(r) && r@ == if ordered { l@.reverse() } else { l@ })
            },
        },
{
    match locations {
        None => None,
        Some(l) => {
            if l.len() == 0 {
                None
            } else if ordered {
                Some(reverse_vec(l))
            } else {
                Some(l)
            }
        },
    }
}

/// The last session stores its windows front-most first; reversed, the front-most window is
/// opened last and so ends up in front.
pub proof fn lemma_frontmost_window_opens_last<T>(stored: Seq<T>)
    requires
        stored.len() > 0,
    ensures
        stored.reverse().last() == stored[0],
{
}

/// What the editor opens when it starts without a request.
pub enum StartupWorkspace {
    /// Reopen the workspaces found to restore.
    Restore,
    /// Show the welcome page: the editor has never been opened.
    ShowWelcome,
    /// Open an empty editor in a new workspace.
    OpenNewFile,
}

/// Workspaces to restore win; else the welcome page when the first-open flag was read and
/// is not set; else a new file (also when reading the flag failed).
pub fn restore_or_create_workspace(has_locations_to_restore: bool, first_open: &KvRead) -> (choice: StartupWorkspace)
    ensures
        has_locations_to_restore ==> choice is Restore,
        !has_locations_to_restore && first_open is Missing ==> choice is ShowWelcome,
        !has_locations_to_restore && !(first_open is Missing) ==> choice is OpenNewFile,
{
    if has_locations_to_restore {
        StartupWorkspace::Restore
    } else if let KvRead::Missing = first_open {
        StartupWorkspace::ShowWelcome
    } else {
        StartupWorkspace::OpenNewFile
    }
}

/// Whether `arg` names a URL the editor opens as it is: a `file://`, `zed-cli://` or
/// `ssh://` URL, or a link into Zed.
pub open spec fn is_openable_url(arg: Seq<char>, is_zed_link: bool) -> bool {
    "file://"@.is_prefix_of(arg) || "zed-cli://"@.is_prefix_of(arg) || "ssh://"@.is_prefix_of(arg)
        || is_zed_link
}

/// Turns a command-line argument into a URL to open. `canonical_path` is the argument
/// resolved as an existing path (the path's display text), none when it does not
/// resolve; `absolute_path` is the argument made absolute against the working directory;
/// `is_zed_link` says whether the argument is a link into Zed.
///
/// An existing path opens as a `file://` URL of its canonical form; a `file://`,
/// `zed-cli://` or `ssh://` URL, or a link into Zed, opens as it is; anything else is a
/// path that does not exist as written, such as `path:line:row`, and opens as a `file://`
/// URL of its absolute form, whose `:line:row` suffix the open request reads (and
/// ignores for a path that does not exist).
pub fn parse_url_arg(arg: &str, canonical_path: Option<String>, absolute_path: &str, is_zed_link: bool) -> (url: String)
    ensures
        canonical_path matches Some(path) ==> url@ == "file://"@ + path@,
        canonical_path is None && is_openable_url(arg@, is_zed_link) ==> url@ == arg@,
        canonical_path is None && !is_openable_url(arg@, is_zed_link) ==> url@ == "file://"@ + absolute_path@,
{
    match canonical_path {
        Some(path) => {
            let mut url = String::from_str("file://");
            url.append(path.as_str());
            url
        },
        None => {
            if has_prefix(arg, "file://") || has_prefix(arg, "zed-cli://") || has_prefix(arg, "ssh://")
                || is_zed_link {
                String::from_str(arg)
            } else {
                let mut url = String::from_str("file://");
                url.append(absolute_path);
                url
            }
        },
    }
}

/// The bundled files to load as fonts: those whose path ends with `.ttf`, in order.
pub fn embedded_font_paths(paths: &Vec<String>) -> (fonts: Vec<String>)
    ensures
        fonts@.map_values(|p: String| p@) == paths@.map_values(|p: String| p@).filter(
            |p: Seq<char>| ".ttf"@.is_suffix_of(p),
        ),
{
    let ghost keep = |p: Seq<char>| ".ttf"@.is_suffix_of(p);
    let ghost all = paths@.map_values(|p: String| p@);
    let mut fonts: Vec<String> = Vec::new();
    let n = paths.len();
    for i in 0..n
        invariant
            n == paths.len(),
            all == paths@.map_values(|p: String| p@),
            keep == (|p: Seq<char>| ".ttf"@.is_suffix_of(p)),
            fonts@.map_values(|p: String| p@) == all.take(i as int).filter(keep),
    {
        let ghost before = fonts@.map_values(|p: String| p@);
        proof {
            assert(all.take(i + 1).drop_last() =~= all.take(i as int));
            assert(all.take(i + 1).last() == paths@[i as int]@);
            reveal_with_fuel(Seq::filter, 1);
            assert(all.take(i + 1).filter(keep) == if keep(paths@[i as int]@) {
                all.take(i as int).filter(keep).push(paths@[i as int]@)
            } else {
                all.take(i as int).filter(keep)
            });
        }
        if has_suffix(paths[i].as_str(), ".ttf") {
            fonts.push(paths[i].clone());
            assert(fonts@.map_values(|p: String| p@) =~= before.push(paths@[i as int]@));
        }
    }
    assert(all.take(n as int) =~= all);
    fonts
}

/// Whether any changed file has the extension `scm` of the language queries, which makes
/// the language registry reload.
pub fn has_language_file(extensions: &Vec<Option<String>>) -> (found: bool)
    ensures
        found == exists|i: int| 0 <= i < extensions@.len() && (#[trigger] extensions@[i] matches Some(e) && e@ == "scm"@),
{
    let n = extensions.len();
    let scm = String::from_str("scm");
    for i in 0..n
        invariant
            n == extensions.len(),
            scm@ == "scm"@,
            forall|k: int| 0 <= k < i ==> !(#[trigger] extensions@[k] matches Some(e) && e@ == "scm"@),
    {
        match &extensions[i] {
            Some(e) => {
                if *e == scm {
                    return true;
                }
            },
            None => {},
        }
    }
    false
}

/// What to do with the user's themes directory before loading the themes in it.
pub enum ThemesDirStep {
    /// It is a directory: load the themes in it.
    LoadThemes,
    /// It does not exist: create it, then load the themes in it.
    CreateThenLoad,
}

/// From whether the themes path is a directory (none when nothing is there), what to do
/// with it; a path that is not a directory is an error. `dir` is the path as `{:?}`
/// writes it.
pub fn themes_dir_step(is_dir: Option<bool>, dir: &str) -> (step: Result<ThemesDirStep, String>)
    ensures
        is_dir == Some(true) ==> step matches Ok(ThemesDirStep::LoadThemes),
        is_dir is None ==> step matches Ok(ThemesDirStep::CreateThenLoad),
        is_dir == Some(false) ==> (step matches Err(e) && e@ == "Themes dir path "@ + dir@ + " is not a directory"@),
{
    match is_dir {
        Some(true) => Ok(ThemesDirStep::LoadThemes),
        Some(false) => {
            let mut e = String::from_str("Themes dir path ");
            e.append(dir);
            e.append(" is not a directory");
            Err(e)
        },
        None => Ok(ThemesDirStep::CreateThenLoad),
    }
}

/// The error reported when the themes directory could not be created.
pub fn themes_dir_creation_error(dir: &str) -> (e: String)
    ensures
        e@ == "Failed to create themes dir at path "@ + dir@,
{
    let mut e = String::from_str("Failed to create themes dir at path ");
    e.append(dir);
    e
}

/// A theme that the settings select but the registry lacks is loaded from the extension
/// that provides it, if one does.
pub fn extension_theme_to_load<T>(registry_has_theme: bool, extension_path: Option<T>) -> (load: Option<T>)
    ensures
        registry_has_theme ==> load is None,
        !registry_has_theme ==> load == extension_path,
{
    if registry_has_theme {
        None
    } else {
        extension_path
    }
}

} // verus!
