//! The order in which operations make their requests, whatever the host
//! replies: nothing is downloaded for a version that was found installed,
//! nothing is deleted or linked that was not found installed, and the
//! launchers are switched only after the activation record was saved.

use crate::commands::activate::UsePhase;
use crate::commands::install::{InstallPhase, SwitchPhase};
use crate::commands::remove::RemovePhase;
use crate::commands::{activate, install, list, remove};
use crate::lifecycle::{after, confirms_presence, LifecycleView, ReplyView, RequestView, StepView};
use crate::utils::Platform;
use vstd::prelude::*;

verus! {

/// What an operation has learnt and done so far.
pub struct Seen {
    /// The version last found installed.
    pub present: Option<Seq<char>>,
    /// The version last found not installed.
    pub absent: Option<Seq<char>>,
    /// The version last saved as the active one.
    pub recorded: Option<Seq<char>>,
}

/// What an operation has seen before its first request.
pub open spec fn nothing_seen() -> Seen {
    Seen { present: None, absent: None, recorded: None }
}

/// What has been seen after `reply` to `request`.
pub open spec fn noted(seen: Seen, request: RequestView, reply: ReplyView) -> Seen {
    match request {
        RequestView::CheckInstalled(version) => if confirms_presence(reply) {
            Seen { present: Some(version), ..seen }
        } else {
            Seen { absent: Some(version), ..seen }
        },
        RequestView::WriteConfig(Some(version)) => if reply is Done {
            Seen { recorded: Some(version), ..seen }
        } else {
            seen
        },
        _ => seen,
    }
}

/// Whether the operation saves the activation record before it switches
/// the launchers.
pub open spec fn records_first(state: LifecycleView) -> bool {
    state is Install || state is Use
}

/// Whether `request` comes at its time, after what was seen:
/// an archive is downloaded and unpacked only for the version that was
/// found not installed; a version is deleted, and a launcher removed or
/// linked to it, only after it was found installed; and where the operation
/// activates a version, a launcher is touched only after that version was
/// saved as the active one.
pub open spec fn timely(state: LifecycleView, request: RequestView, seen: Seen) -> bool {
    match request {
        RequestView::Download { url, archive } => seen.absent is Some,
        RequestView::Extract { archive, version, format } => seen.absent == Some(version),
        RequestView::RemoveVersion(version) => seen.present == Some(version),
        RequestView::RemoveLauncher(_) => seen.present is Some && (records_first(state)
            ==> seen.recorded == seen.present),
        RequestView::LinkLauncher { launcher, version } => seen.present == Some(version) && (
        records_first(state) ==> seen.recorded == Some(version)),
        _ => true,
    }
}

/// Whether every request that the operation makes from `step` on comes at
/// its time, when the host answers with `replies`, one after the other.
pub open spec fn orderly(step: StepView, replies: Seq<ReplyView>, seen: Seen) -> bool
    decreases replies.len(),
{
    match step {
        StepView::Continue(state, request) => timely(state, request, seen) && (replies.len() == 0
            || orderly(
            after(state, replies[0]),
            replies.drop_first(),
            noted(seen, request, replies[0]),
        )),
        _ => true,
    }
}

/// What holds of a request while the launchers are switched to `version`.
pub open spec fn switch_fits(
    phase: SwitchPhase,
    version: Seq<char>,
    request: RequestView,
    seen: Seen,
    records: bool,
) -> bool {
    &&& records ==> seen.recorded == Some(version)
    &&& match phase {
        SwitchPhase::Target => request == RequestView::CheckInstalled(version),
        SwitchPhase::Unlink(launcher) => seen.present == Some(version) && request
            == RequestView::RemoveLauncher(launcher),
        SwitchPhase::Link(launcher) => seen.present == Some(version) && request == (
        RequestView::LinkLauncher { launcher, version }),
    }
}

/// What holds of the request that a state waits on, after what was seen.
pub open spec fn fits(state: LifecycleView, request: RequestView, seen: Seen) -> bool {
    match state {
        LifecycleView::Install(s) => match s.phase {
            InstallPhase::Catalog => request is FetchCatalog,
            InstallPhase::Presence => request == RequestView::CheckInstalled(s.version),
            InstallPhase::Fetch => seen.absent == Some(s.version) && request is Download,
            InstallPhase::Unpack => seen.absent == Some(s.version) && request is Extract
                && request->Extract_version == s.version,
            InstallPhase::Record => request is ReadConfig,
            InstallPhase::Materialize => request == RequestView::WriteConfig(None),
            InstallPhase::Persist => request == RequestView::WriteConfig(Some(s.version)),
            InstallPhase::Switch(phase) => switch_fits(phase, s.version, request, seen, true),
        },
        LifecycleView::Use(s) => match s.phase {
            UsePhase::Catalog => request is FetchCatalog,
            UsePhase::Presence => request == RequestView::CheckInstalled(s.version),
            UsePhase::Record => request is ReadConfig,
            UsePhase::Materialize => request == RequestView::WriteConfig(None),
            UsePhase::Persist => request == RequestView::WriteConfig(Some(s.version)),
            UsePhase::Switch(phase) => switch_fits(phase, s.version, request, seen, true),
        },
        LifecycleView::Remove(s) => match s.phase {
            RemovePhase::Record => request is ReadConfig,
            RemovePhase::Materialize => request == RequestView::WriteConfig(None),
            RemovePhase::Catalog => request is FetchCatalog,
            RemovePhase::Presence => request == RequestView::CheckInstalled(s.version),
            RemovePhase::Delete => seen.present == Some(s.version) && request
                == RequestView::RemoveVersion(s.version),
        },
        LifecycleView::Link(s) => switch_fits(s.phase, s.version, request, seen, false),
        LifecycleView::List(s) => !(request is Download) && !(request is Extract) && !(request
            is RemoveVersion) && !(request is RemoveLauncher) && !(request is LinkLauncher),
    }
}

/// A request that fits its state comes at its time.
pub proof fn fitting_is_timely(state: LifecycleView, request: RequestView, seen: Seen)
    requires
        fits(state, request, seen),
    ensures
        timely(state, request, seen),
{
}

/// Each step keeps the requests fitting their states.
pub proof fn steps_keep_fitting(
    state: LifecycleView,
    request: RequestView,
    seen: Seen,
    reply: ReplyView,
)
    requires
        fits(state, request, seen),
    ensures
        after(state, reply) matches StepView::Continue(next, asked) ==> fits(
            next,
            asked,
            noted(seen, request, reply),
        ),
{
}

/// From a fitting request on, every request comes at its time.
pub proof fn fitting_is_orderly(
    state: LifecycleView,
    request: RequestView,
    replies: Seq<ReplyView>,
    seen: Seen,
)
    requires
        fits(state, request, seen),
    ensures
        orderly(StepView::Continue(state, request), replies, seen),
    decreases replies.len(),
{
    fitting_is_timely(state, request, seen);
    if replies.len() > 0 {
        steps_keep_fitting(state, request, seen, replies[0]);
        let reached = after(state, replies[0]);
        let known = noted(seen, request, replies[0]);
        match reached {
            StepView::Continue(next, asked) => {
                fitting_is_orderly(next, asked, replies.drop_first(), known);
            },
            _ => {},
        }
        assert(orderly(reached, replies.drop_first(), known));
    }
}

/// The first step of an operation fits.
pub proof fn starts_fit(specifier: Seq<char>, platform: Platform, remote: bool)
    ensures
        install::begun(specifier, platform) matches StepView::Continue(state, request) ==> fits(
            state,
            request,
            nothing_seen(),
        ),
        activate::begun(specifier) matches StepView::Continue(state, request) ==> fits(
            state,
            request,
            nothing_seen(),
        ),
        remove::begun(specifier) matches StepView::Continue(state, request) ==> fits(
            state,
            request,
            nothing_seen(),
        ),
        install::begun_link(specifier) matches StepView::Continue(state, request) ==> fits(
            state,
            request,
            nothing_seen(),
        ),
        list::begun(remote) matches StepView::Continue(state, request) ==> fits(
            state,
            request,
            nothing_seen(),
        ),
{
}

/// Whatever the host replies, every operation makes its requests in order:
/// it downloads and unpacks only a version that it found not installed,
/// deletes only a version that it found installed, touches a launcher only
/// after it found the version installed that the launcher is to point
/// into, and, where it activates a version, only after it saved that
/// version as the active one.
pub proof fn operations_are_orderly(
    specifier: Seq<char>,
    platform: Platform,
    remote: bool,
    replies: Seq<ReplyView>,
)
    ensures
        orderly(install::begun(specifier, platform), replies, nothing_seen()),
        orderly(activate::begun(specifier), replies, nothing_seen()),
        orderly(remove::begun(specifier), replies, nothing_seen()),
        orderly(install::begun_link(specifier), replies, nothing_seen()),
        orderly(list::begun(remote), replies, nothing_seen()),
{
    starts_fit(specifier, platform, remote);
    match install::begun(specifier, platform) {
        StepView::Continue(state, request) => {
            fitting_is_orderly(state, request, replies, nothing_seen());
        },
        _ => {},
    }
    match activate::begun(specifier) {
        StepView::Continue(state, request) => {
            fitting_is_orderly(state, request, replies, nothing_seen());
        },
        _ => {},
    }
    match remove::begun(specifier) {
        StepView::Continue(state, request) => {
            fitting_is_orderly(state, request, replies, nothing_seen());
        },
        _ => {},
    }
    match install::begun_link(specifier) {
        StepView::Continue(state, request) => {
            fitting_is_orderly(state, request, replies, nothing_seen());
        },
        _ => {},
    }
    match list::begun(remote) {
        StepView::Continue(state, request) => {
            fitting_is_orderly(state, request, replies, nothing_seen());
        },
        _ => {},
    }
}

} // verus!
