use vstd::prelude::*;

use crate::error::InstallError;
use crate::package::{
    PackageKind, download_path, download_path_of, install_argv, install_command, kind_of_name,
    next_tool, package_kind, probe_argv, probe_command, removal_argv, removal_command,
    self_uninstall_argv, self_uninstall_command, tool_after,
};
use crate::platform::{linux_arch_tag, platform_of, resolve_platform};
use crate::release::{Release, chosen_asset, chosen_release, select_asset, select_release};

verus! {

/// What the outside world reports back to a flow.
#[derive(Debug)]
pub enum Event {
    /// The host's operating system, CPU architecture and home directory.
    Host { os: String, arch: String, home: Option<String> },
    /// The decoded release feed.
    Releases { releases: Vec<Release> },
    /// The removal flow is asked to start.
    Begin,
    /// The last requested action is done (a file written or deleted, a notice shown).
    Completed,
    /// Whether a lookup command could be launched at all.
    Launched { ok: bool },
    /// Whether a command exited with a success status.
    Exited { success: bool },
}

/// What a flow asks the outside world to do next.
#[derive(Debug)]
pub enum Action {
    /// Fetch and decode the release feed.
    FetchReleases,
    /// Download `url` and write the body to `path`.
    Download { url: String, path: String },
    /// Run a command and report how it exited.
    Run { argv: Vec<String> },
    /// Delete the file at `path`, ignoring a failure.
    RemoveFile { path: String },
    /// Launch a lookup command and report whether it could be launched.
    Probe { argv: Vec<String> },
    /// Show how to remove the application by hand.
    ShowManualRemoval,
    /// Stop the run with an error.
    Fail { error: InstallError },
    /// The application was installed; the installer then tried to remove itself.
    Installed { installer_removed: bool },
    /// The removal attempts are over; the installer then tried to remove itself.
    RemovalDone { removed: bool, installer_removed: bool },
    /// The event does not fit the flow's state: nothing to do.
    Idle,
}

/// Where the install flow stands.
#[derive(Debug)]
pub enum InstallState {
    Start,
    AwaitingReleases { platform: String, home: Option<String> },
    AwaitingDownload { name: String, path: String },
    AwaitingInstall { kind: PackageKind, path: String },
    AwaitingCleanup,
    AwaitingSelfUninstall,
    Finished,
}

/// Where the removal flow stands.
#[derive(Debug)]
pub enum RemovalState {
    Start,
    Probing { tool: PackageKind },
    Removing { tool: PackageKind },
    AwaitingNotice,
    AwaitingSelfUninstall { removed: bool },
    Finished,
}

/// An optional string seen through the characters it holds.
pub open spec fn opt_text(o: Option<String>) -> Option<Seq<char>> {
    match o {
        Some(s) => Some(s@),
        None => None,
    }
}

/// The install flow in state `s`, on event `e`, moves to state `t` and asks for `a`.
pub open spec fn install_transition(s: InstallState, e: Event, t: InstallState, a: Action) -> bool {
    match s {
        InstallState::Start => match e {
            Event::Host { os, arch, home } => match platform_of(os@, arch@) {
                Err(err) => t is Finished && a == Action::Fail { error: err },
                Ok(tag) => {
                    &&& t matches InstallState::AwaitingReleases { platform, home: h }
                        && platform@ == tag && opt_text(h) == opt_text(home)
                    &&& a is FetchReleases
                },
            },
            _ => t == s && a is Idle,
        },
        InstallState::AwaitingReleases { platform, home } => match e {
            Event::Releases { releases } => match chosen_release(releases@) {
                Err(err) => t is Finished && a == Action::Fail { error: err },
                Ok(i) => match chosen_asset(releases@[i].assets@, platform@) {
                    Err(err) => t is Finished && a == Action::Fail { error: err },
                    Ok(j) => {
                        let asset = releases@[i].assets@[j];
                        let dest = download_path_of(opt_text(home), asset.name@);
                        &&& t matches InstallState::AwaitingDownload { name, path }
                            && name@ == asset.name@ && path@ == dest
                        &&& a matches Action::Download { url, path }
                            && url@ == asset.browser_download_url@ && path@ == dest
                    },
                },
            },
            _ => t == s && a is Idle,
        },
        InstallState::AwaitingDownload { name, path } => match e {
            Event::Completed => match kind_of_name(name@) {
                None => t is Finished && a == Action::Fail {
                    error: InstallError::UnsupportedPackageFormat,
                },
                Some(k) => {
                    &&& t matches InstallState::AwaitingInstall { kind, path: p }
                        && kind == k && p@ == path@
                    &&& a matches Action::Run { argv } && argv.deep_view() == install_argv(
                        k,
                        path@,
                    )
                },
            },
            _ => t == s && a is Idle,
        },
        InstallState::AwaitingInstall { kind, path } => match e {
            Event::Exited { success } => if success {
                &&& t is AwaitingCleanup
                &&& a matches Action::RemoveFile { path: p } && p@ == path@
            } else {
                t is Finished && a == Action::Fail { error: InstallError::InstallFailed { kind } }
            },
            _ => t == s && a is Idle,
        },
        InstallState::AwaitingCleanup => match e {
            Event::Completed => {
                &&& t is AwaitingSelfUninstall
                &&& a matches Action::Run { argv } && argv.deep_view() == self_uninstall_argv()
            },
            _ => t == s && a is Idle,
        },
        InstallState::AwaitingSelfUninstall => match e {
            Event::Exited { success } => t is Finished && a == Action::Installed {
                installer_removed: success,
            },
            _ => t == s && a is Idle,
        },
        InstallState::Finished => t is Finished && a is Idle,
    }
}

/// The removal flow's move when the package manager `tool` is ruled out:
/// look the next one up, or show the manual steps after the last.
pub open spec fn give_up_on(tool: PackageKind, t: RemovalState, a: Action) -> bool {
    match tool_after(tool) {
        Some(n) => {
            &&& t == RemovalState::Probing { tool: n }
            &&& a matches Action::Probe { argv } && argv.deep_view() == probe_argv(n)
        },
        None => t is AwaitingNotice && a is ShowManualRemoval,
    }
}

/// The removal flow in state `s`, on event `e`, moves to state `t` and asks for `a`.
pub open spec fn removal_transition(s: RemovalState, e: Event, t: RemovalState, a: Action) -> bool {
    match s {
        RemovalState::Start => match e {
            Event::Begin => {
                &&& t == RemovalState::Probing { tool: PackageKind::Deb }
                &&& a matches Action::Probe { argv } && argv.deep_view() == probe_argv(
                    PackageKind::Deb,
                )
            },
            _ => t == s && a is Idle,
        },
        RemovalState::Probing { tool } => match e {
            Event::Launched { ok } => if ok {
                &&& t == RemovalState::Removing { tool }
                &&& a matches Action::Run { argv } && argv.deep_view() == removal_argv(tool)
            } else {
                give_up_on(tool, t, a)
            },
            _ => t == s && a is Idle,
        },
        RemovalState::Removing { tool } => match e {
            Event::Exited { success } => if success {
                &&& t == RemovalState::AwaitingSelfUninstall { removed: true }
                &&& a matches Action::Run { argv } && argv.deep_view() == self_uninstall_argv()
            } else {
                give_up_on(tool, t, a)
            },
            _ => t == s && a is Idle,
        },
        RemovalState::AwaitingNotice => match e {
            Event::Completed => {
                &&& t == RemovalState::AwaitingSelfUninstall { removed: false }
                &&& a matches Action::Run { argv } && argv.deep_view() == self_uninstall_argv()
            },
            _ => t == s && a is Idle,
        },
        RemovalState::AwaitingSelfUninstall { removed } => match e {
            Event::Exited { success } => t is Finished && a == Action::RemovalDone {
                removed,
                installer_removed: success,
            },
            _ => t == s && a is Idle,
        },
        RemovalState::Finished => t is Finished && a is Idle,
    }
}

impl InstallState {
    /// A flow that has not started.
    pub fn new() -> (r: InstallState)
        ensures
            r is Start,
    {
        InstallState::Start
    }

    /// Moves the install flow on by one event and says what to do next.
    pub fn step(&mut self, event: Event) -> (a: Action)
        ensures
            install_transition(*old(self), event, *final(self), a),
    {
        match self {
            InstallState::Start => match event {
                Event::Host { os, arch, home } => match resolve_platform(
                    os.as_str(),
                    arch.as_str(),
                ) {
                    Err(error) => {
                        *self = InstallState::Finished;
                        Action::Fail { error }
                    },
                    Ok(platform) => {
                        *self = InstallState::AwaitingReleases { platform, home };
                        Action::FetchReleases
                    },
                },
                _ => Action::Idle,
            },
            InstallState::AwaitingReleases { platform, home } => match event {
                Event::Releases { releases } => match select_release(&releases) {
                    Err(error) => {
                        *self = InstallState::Finished;
                        Action::Fail { error }
                    },
                    Ok(i) => match select_asset(&releases[i].assets, platform.as_str()) {
                        Err(error) => {
                            *self = InstallState::Finished;
                            Action::Fail { error }
                        },
                        Ok(j) => {
                            let asset = &releases[i].assets[j];
                            let home_dir: Option<&str> = match home {
                                Some(h) => Some(h.as_str()),
                                None => None,
                            };
                            let path = download_path(home_dir, asset.name.as_str());
                            let url = asset.browser_download_url.clone();
                            let name = asset.name.clone();
                            *self = InstallState::AwaitingDownload { name, path: path.clone() };
                            Action::Download { url, path }
                        },
                    },
                },
                _ => Action::Idle,
            },
            InstallState::AwaitingDownload { name, path } => match event {
                Event::Completed => match package_kind(name.as_str()) {
                    None => {
                        *self = InstallState::Finished;
                        Action::Fail { error: InstallError::UnsupportedPackageFormat }
                    },
                    Some(kind) => {
                        let argv = install_command(kind, path.as_str());
                        let path = path.clone();
                        *self = InstallState::AwaitingInstall { kind, path };
                        Action::Run { argv }
                    },
                },
                _ => Action::Idle,
            },
            InstallState::AwaitingInstall { kind, path } => match event {
                Event::Exited { success } => {
                    if success {
                        let path = path.clone();
                        *self = InstallState::AwaitingCleanup;
                        Action::RemoveFile { path }
                    } else {
                        let kind = *kind;
                        *self = InstallState::Finished;
                        Action::Fail { error: InstallError::InstallFailed { kind } }
                    }
                },
                _ => Action::Idle,
            },
            InstallState::AwaitingCleanup => match event {
                Event::Completed => {
                    *self = InstallState::AwaitingSelfUninstall;
                    Action::Run { argv: self_uninstall_command() }
                },
                _ => Action::Idle,
            },
            InstallState::AwaitingSelfUninstall => match event {
                Event::Exited { success } => {
                    *self = InstallState::Finished;
                    Action::Installed { installer_removed: success }
                },
                _ => Action::Idle,
            },
            InstallState::Finished => Action::Idle,
        }
    }
}

/// The move of the removal flow once `tool` is ruled out.
fn give_up(tool: PackageKind) -> (r: (RemovalState, Action))
    ensures
        give_up_on(tool, r.0, r.1),
{
    match next_tool(tool) {
        Some(n) => (RemovalState::Probing { tool: n }, Action::Probe { argv: probe_command(n) }),
        None => (RemovalState::AwaitingNotice, Action::ShowManualRemoval),
    }
}

impl RemovalState {
    /// A flow that has not started.
    pub fn new() -> (r: RemovalState)
        ensures
            r is Start,
    {
        RemovalState::Start
    }

    /// Moves the removal flow on by one event and says what to do next.
    pub fn step(&mut self, event: Event) -> (a: Action)
        ensures
            removal_transition(*old(self), event, *final(self), a),
    {
        match self {
            RemovalState::Start => match event {
                Event::Begin => {
                    *self = RemovalState::Probing { tool: PackageKind::Deb };
                    Action::Probe { argv: probe_command(PackageKind::Deb) }
                },
                _ => Action::Idle,
            },
            RemovalState::Probing { tool } => match event {
                Event::Launched { ok } => {
                    let tool = *tool;
                    if ok {
                        *self = RemovalState::Removing { tool };
                        Action::Run { argv: removal_command(tool) }
                    } else {
                        let (next, action) = give_up(tool);
                        *self = next;
                        action
                    }
                },
                _ => Action::Idle,
            },
            RemovalState::Removing { tool } => match event {
                Event::Exited { success } => {
                    let tool = *tool;
                    if success {
                        *self = RemovalState::AwaitingSelfUninstall { removed: true };
                        Action::Run { argv: self_uninstall_command() }
                    } else {
                        let (next, action) = give_up(tool);
                        *self = next;
                        action
                    }
                },
                _ => Action::Idle,
            },
            RemovalState::AwaitingNotice => match event {
                Event::Completed => {
                    *self = RemovalState::AwaitingSelfUninstall { removed: false };
                    Action::Run { argv: self_uninstall_command() }
                },
                _ => Action::Idle,
            },
            RemovalState::AwaitingSelfUninstall { removed } => match event {
                Event::Exited { success } => {
                    let removed = *removed;
                    *self = RemovalState::Finished;
                    Action::RemovalDone { removed, installer_removed: success }
                },
                _ => Action::Idle,
            },
            RemovalState::Finished => Action::Idle,
        }
    }
}

/// `states` and `actions` are what the install flow goes through on `events`.
pub open spec fn install_trace(events: Seq<Event>, states: Seq<InstallState>, actions: Seq<Action>) -> bool {
    &&& states.len() == events.len() + 1
    &&& actions.len() == events.len()
    &&& forall|i: int|
        0 <= i < events.len() ==> install_transition(
            states[i],
            #[trigger] events[i],
            states[i + 1],
            actions[i],
        )
}

/// Once finished, the install flow stays finished and asks for nothing more.
pub proof fn lemma_finished_install_is_idle(
    events: Seq<Event>,
    states: Seq<InstallState>,
    actions: Seq<Action>,
    from: int,
)
    requires
        install_trace(events, states, actions),
        0 <= from <= events.len(),
        states[from] is Finished,
    ensures
        forall|j: int| from <= j <= events.len() ==> #[trigger] states[j] is Finished,
        forall|j: int| from <= j < events.len() ==> #[trigger] actions[j] is Idle,
    decreases events.len() - from,
{
    if from < events.len() {
        assert(install_transition(states[from], events[from], states[from + 1], actions[from]));
        lemma_finished_install_is_idle(events, states, actions, from + 1);
    }
}

/// A host outside the platform table stops the install flow at once with an
/// unsupported-platform error: no release fetch, no download, no file and no
/// command follow, whatever is reported afterwards.
pub proof fn lemma_unsupported_host_stops(
    os: String,
    arch: String,
    home: Option<String>,
    events: Seq<Event>,
    states: Seq<InstallState>,
    actions: Seq<Action>,
)
    requires
        os@ != "linux"@ || linux_arch_tag(arch@) is None,
        install_trace(events, states, actions),
        events.len() >= 1,
        states[0] is Start,
        events[0] == (Event::Host { os, arch, home }),
    ensures
        actions[0] == (Action::Fail {
            error: if os@ != "linux"@ {
                InstallError::UnsupportedOs
            } else {
                InstallError::UnsupportedArchitecture
            },
        }),
        forall|j: int| 1 <= j < actions.len() ==> #[trigger] actions[j] is Idle,
{
    assert(install_transition(states[0], events[0], states[1], actions[0]));
    lemma_finished_install_is_idle(events, states, actions, 1);
}

/// A failed install command ends the install flow with that package
/// manager's error: the downloaded file is not deleted and the installer
/// does not remove itself, whatever is reported afterwards.
pub proof fn lemma_failed_install_stops(
    kind: PackageKind,
    path: String,
    events: Seq<Event>,
    states: Seq<InstallState>,
    actions: Seq<Action>,
)
    requires
        install_trace(events, states, actions),
        events.len() >= 1,
        states[0] == (InstallState::AwaitingInstall { kind, path }),
        events[0] == (Event::Exited { success: false }),
    ensures
        actions[0] == (Action::Fail { error: InstallError::InstallFailed { kind } }),
        forall|j: int| 1 <= j < actions.len() ==> #[trigger] actions[j] is Idle,
        forall|j: int|
            0 <= j < actions.len() ==> !(#[trigger] actions[j] is RemoveFile) && !(
            actions[j] is Run),
{
    assert(install_transition(states[0], events[0], states[1], actions[0]));
    lemma_finished_install_is_idle(events, states, actions, 1);
}

/// A package manager that was found but failed to remove the application
/// does not end the removal flow: the next package manager is looked up,
/// so a failed `dpkg` removal leads to the `rpm` lookup.
pub proof fn lemma_failed_removal_tries_next(tool: PackageKind, t: RemovalState, a: Action)
    requires
        removal_transition(
            (RemovalState::Removing { tool }),
            (Event::Exited { success: false }),
            t,
            a,
        ),
    ensures
        tool_after(tool) matches Some(n) ==> (t == (RemovalState::Probing { tool: n }) && (
        a matches Action::Probe { argv } && argv.deep_view() == probe_argv(n))),
        tool_after(tool) is None ==> (t is AwaitingNotice && (a is ShowManualRemoval)),
        tool == PackageKind::Deb ==> (t == (RemovalState::Probing { tool: PackageKind::Rpm })
            && (a matches Action::Probe { argv } && argv.deep_view() == seq!["which"@, "rpm"@])),
{
}

} // verus!
