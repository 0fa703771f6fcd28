//! A model of the host, and what the operations achieve on it. The model
//! holds what the operations can observe of the machine they run on, and
//! carries out every request as the request is documented. The laws below
//! run the machines of the commands against it.

use crate::commands::activate::{UsePhase, UseView};
use crate::commands::install::{InstallPhase, InstallView, SwitchPhase};
use crate::commands::list::{local_listing, remote_listing, ListPhase};
use crate::commands::remove::RemovePhase;
use crate::commands::{activate, install, list, remove};
use crate::config::{loaded, ConfigReadView, LoadedView};
use crate::error::ErrorView;
use crate::lifecycle::{
    after, newest_of, resolution, Launcher, LifecycleView, OutcomeView, ReplyView, RequestView,
    ResolutionView, StepView,
};
use crate::utils::extract::archive_format;
use crate::utils::{archive_name, Os, Platform};
use vstd::prelude::*;

verus! {

/// What is kept in place of the activation record.
pub enum Slot {
    /// No file.
    Missing,
    /// A file that holds this record.
    Holds(Option<Seq<char>>),
    /// A file that holds no record.
    Corrupt,
}

/// What the operations can observe of the machine they run on.
pub struct Host {
    /// The published versions, newest first; `None` while they cannot be had.
    pub catalog: Option<Seq<Seq<char>>>,
    /// The versions that have a directory under the versions root.
    pub installed: Set<Seq<char>>,
    /// What is kept in place of the activation record.
    pub record: Slot,
    /// The version that each launcher in the stable directory points into.
    pub launchers: Map<Launcher, Seq<char>>,
    /// How many archives were downloaded or unpacked.
    pub transfers: nat,
}

/// The active version according to what is kept in place of the record.
pub open spec fn active(slot: Slot) -> Option<Seq<char>> {
    match slot {
        Slot::Holds(record) => record,
        _ => None,
    }
}

/// The host after it has carried out `request`, and its reply. Every
/// request is carried out as documented; the catalog alone may be out of
/// reach.
pub open spec fn serve(host: Host, request: RequestView) -> (Host, ReplyView) {
    match request {
        RequestView::FetchCatalog => match host.catalog {
            Some(catalog) => (host, ReplyView::Catalog(catalog)),
            None => (host, ReplyView::Failed),
        },
        RequestView::CheckInstalled(version) => (
            host,
            ReplyView::Installed(host.installed.contains(version)),
        ),
        RequestView::ReadConfig => (
            host,
            ReplyView::Config(
                match host.record {
                    Slot::Missing => ConfigReadView::Missing,
                    Slot::Holds(record) => ConfigReadView::Found(record),
                    Slot::Corrupt => ConfigReadView::Corrupt,
                },
            ),
        ),
        RequestView::WriteConfig(record) => (
            Host { record: Slot::Holds(record), ..host },
            ReplyView::Done,
        ),
        RequestView::Download { url, archive } => (
            Host { transfers: host.transfers + 1, ..host },
            ReplyView::Done,
        ),
        RequestView::Extract { archive, version, format } => (
            Host {
                installed: host.installed.insert(version),
                transfers: host.transfers + 1,
                ..host
            },
            ReplyView::Done,
        ),
        RequestView::RemoveLauncher(launcher) => (
            Host { launchers: host.launchers.remove(launcher), ..host },
            ReplyView::Done,
        ),
        RequestView::LinkLauncher { launcher, version } => (
            Host { launchers: host.launchers.insert(launcher, version), ..host },
            ReplyView::Done,
        ),
        RequestView::RemoveVersion(version) => (
            Host { installed: host.installed.remove(version), ..host },
            ReplyView::Done,
        ),
        RequestView::ListInstalled => (host, ReplyView::Names(host.installed.to_seq())),
    }
}

/// The host and the step that an operation has reached from `step` after
/// at most `budget` requests.
pub open spec fn run(step: StepView, host: Host, budget: nat) -> (Host, StepView)
    decreases budget,
{
    match step {
        StepView::Continue(state, request) => if budget == 0 {
            (host, step)
        } else {
            let (served, reply) = serve(host, request);
            run(after(state, reply), served, (budget - 1) as nat)
        },
        _ => (host, step),
    }
}

/// More requests than any operation makes.
pub open spec fn enough() -> nat {
    16
}

/// The version that `specifier` stands for on `host`.
pub open spec fn resolved(specifier: Seq<char>, host: Host) -> Option<Seq<char>> {
    match resolution(specifier) {
        ResolutionView::Newest => match host.catalog {
            Some(catalog) => newest_of(catalog),
            None => None,
        },
        ResolutionView::Version(id) => Some(id),
        ResolutionView::Invalid(_) => None,
    }
}

/// The launcher of `host` points into `version`.
pub open spec fn points_to(host: Host, launcher: Launcher, version: Seq<char>) -> bool {
    host.launchers.dom().contains(launcher) && host.launchers[launcher] == version
}

/// Every launcher of `host` points into `version`.
pub open spec fn launchers_point_to(host: Host, version: Seq<char>) -> bool {
    &&& points_to(host, Launcher::Node, version)
    &&& points_to(host, Launcher::Npm, version)
    &&& points_to(host, Launcher::Npx, version)
}

/// Loading the activation record on `host`: the host afterwards, and the
/// record or the failure.
pub open spec fn load(host: Host) -> (Host, LoadedView) {
    let (read, reply) = serve(host, RequestView::ReadConfig);
    match reply {
        ReplyView::Config(found) => match loaded(found) {
            LoadedView::Materialize(record) => (
                serve(read, RequestView::WriteConfig(record)).0,
                LoadedView::Ready(record),
            ),
            other => (read, other),
        },
        _ => (read, LoadedView::Failed(ErrorView::ConfigIoError)),
    }
}

/// Both aliases stand for the newest published version: the first entry of
/// the catalog.
pub proof fn aliases_stand_for_newest(host: Host)
    ensures
        resolved("latest"@, host) == resolved("lts"@, host),
        host.catalog matches Some(catalog) ==> resolved("latest"@, host) == newest_of(catalog),
        host.catalog is None ==> resolved("latest"@, host) is None,
{
}

/// The name of every archive announces a format that can be unpacked.
pub proof fn archive_format_known(version: Seq<char>, platform: Platform)
    ensures
        archive_format(archive_name(version, platform)) is Some,
{
    reveal_strlit(".tar.gz");
    reveal_strlit(".zip");
    reveal_strlit("tar.gz");
    reveal_strlit("zip");
    reveal_strlit(".");
    let name = archive_name(version, platform);
    match platform.os {
        Os::Windows => {
            assert(name.subrange(name.len() - 4, name.len() as int) =~= ".zip"@);
        },
        _ => {
            assert(name.subrange(name.len() - 7, name.len() as int) =~= ".tar.gz"@);
        },
    }
}

/// The launchers after each of them was removed and made anew for `version`.
pub open spec fn switched(launchers: Map<Launcher, Seq<char>>, version: Seq<char>) -> Map<
    Launcher,
    Seq<char>,
> {
    launchers.remove(Launcher::Node).insert(Launcher::Node, version).remove(
        Launcher::Npm,
    ).insert(Launcher::Npm, version).remove(Launcher::Npx).insert(Launcher::Npx, version)
}

/// After the switch every launcher points into the version.
pub proof fn switched_points(host: Host, version: Seq<char>)
    ensures
        launchers_point_to(Host { launchers: switched(host.launchers, version), ..host }, version),
{
}

/// The switch of the launchers at the end of an installation, on a host
/// that holds the version: every launcher is switched and the installation
/// is complete.
pub proof fn install_switch_runs(state: InstallView, host: Host, budget: nat)
    requires
        budget >= 7,
        host.installed.contains(state.version),
    ensures
        run(
            StepView::Continue(
                LifecycleView::Install(
                    InstallView { phase: InstallPhase::Switch(SwitchPhase::Target), ..state },
                ),
                RequestView::CheckInstalled(state.version),
            ),
            host,
            budget,
        ) == (
            Host { launchers: switched(host.launchers, state.version), ..host },
            StepView::Finished(
                OutcomeView::Installed { version: state.version, activated: true },
            ),
        ),
{
    reveal_with_fuel(run, 8);
}

/// The switch of the launchers at the end of an activation, on a host that
/// holds the version.
pub proof fn use_switch_runs(state: UseView, host: Host, budget: nat)
    requires
        budget >= 7,
        host.installed.contains(state.version),
    ensures
        run(
            StepView::Continue(
                LifecycleView::Use(
                    UseView { phase: UsePhase::Switch(SwitchPhase::Target), ..state },
                ),
                RequestView::CheckInstalled(state.version),
            ),
            host,
            budget,
        ) == (
            Host { launchers: switched(host.launchers, state.version), ..host },
            StepView::Finished(OutcomeView::Activated(state.version)),
        ),
{
    reveal_with_fuel(run, 8);
}

/// An installation from the point where the version is unpacked and the
/// activation record is asked for.
pub proof fn install_settles(state: InstallView, host: Host, budget: nat)
    requires
        budget >= 10,
        host.installed.contains(state.version),
    ensures
        ({
            let end = run(
                StepView::Continue(
                    LifecycleView::Install(InstallView { phase: InstallPhase::Record, ..state }),
                    RequestView::ReadConfig,
                ),
                host,
                budget,
            );
            match host.record {
                Slot::Corrupt => end == (host, StepView::Failed(ErrorView::ConfigCorrupt)),
                Slot::Holds(Some(other)) => end == (
                    host,
                    StepView::Finished(
                        OutcomeView::Installed { version: state.version, activated: false },
                    ),
                ),
                _ => end == (
                    Host {
                        record: Slot::Holds(Some(state.version)),
                        launchers: switched(host.launchers, state.version),
                        ..host
                    },
                    StepView::Finished(
                        OutcomeView::Installed { version: state.version, activated: true },
                    ),
                ),
            }
        }),
{
    reveal_with_fuel(run, 4);
    let recorded = Host { record: Slot::Holds(Some(state.version)), ..host };
    match host.record {
        Slot::Missing => {
            install_switch_runs(state, recorded, (budget - 3) as nat);
        },
        Slot::Holds(None) => {
            install_switch_runs(state, recorded, (budget - 2) as nat);
        },
        _ => {},
    }
}

/// Installing a version that is installed changes nothing and transfers
/// nothing.
pub proof fn install_of_installed_is_noop(
    specifier: Seq<char>,
    platform: Platform,
    host: Host,
    version: Seq<char>,
)
    ensures
        resolved(specifier, host) == Some(version) && host.installed.contains(version) ==> run(
            install::begun(specifier, platform),
            host,
            enough(),
        ) == (host, StepView::Finished(OutcomeView::AlreadyInstalled(version))),
{
    reveal_with_fuel(run, 3);
}

/// An installation that succeeds leaves the version installed, so that a
/// second installation of the same specifier succeeds as well, finds the
/// version, leaves the host as it is and downloads and unpacks nothing.
pub proof fn second_install_is_noop(specifier: Seq<char>, platform: Platform, host: Host)
    ensures
        ({
            let first = run(install::begun(specifier, platform), host, enough());
            let second = run(install::begun(specifier, platform), first.0, enough());
            first.1 is Finished ==> {
                &&& resolved(specifier, host) matches Some(version)
                &&& first.0.installed.contains(version)
                &&& second.0 == first.0
                &&& second.1 == StepView::Finished(OutcomeView::AlreadyInstalled(version))
            }
        }),
{
    let first = run(install::begun(specifier, platform), host, enough());
    if first.1 is Finished {
        install_reaches(specifier, platform, host);
        install_of_installed_is_noop(
            specifier,
            platform,
            first.0,
            resolved(specifier, host).unwrap(),
        );
    }
}

/// What an installation comes to on a host, by the state of the host.
pub proof fn install_reaches(specifier: Seq<char>, platform: Platform, host: Host)
    ensures
        ({
            let end = run(install::begun(specifier, platform), host, enough());
            match resolved(specifier, host) {
                None => end.1 is Failed && end.0 == host,
                Some(version) => {
                    &&& end.0.catalog == host.catalog
                    &&& end.0.installed == host.installed.insert(version)
                    &&& if host.installed.contains(version) {
                        end == (host, StepView::Finished(OutcomeView::AlreadyInstalled(version)))
                    } else {
                        match host.record {
                            Slot::Corrupt => end.1 == StepView::Failed(ErrorView::ConfigCorrupt)
                                && end.0.record == host.record && end.0.launchers
                                == host.launchers,
                            Slot::Holds(Some(other)) => end.1 == StepView::Finished(
                                OutcomeView::Installed { version, activated: false },
                            ) && end.0.record == host.record && end.0.launchers == host.launchers,
                            _ => end.1 == StepView::Finished(
                                OutcomeView::Installed { version, activated: true },
                            ) && end.0.record == Slot::Holds(Some(version)) && launchers_point_to(
                                end.0,
                                version,
                            ),
                        }
                    }
                },
            }
        }),
{
    reveal_with_fuel(run, 5);
    match resolved(specifier, host) {
        None => {},
        Some(version) => {
            archive_format_known(version, platform);
            if host.installed.contains(version) {
                assert(host.installed.insert(version) =~= host.installed);
            } else {
                let state = InstallView {
                    phase: InstallPhase::Unpack,
                    specifier,
                    platform,
                    version,
                };
                let unpacked = Host {
                    installed: host.installed.insert(version),
                    transfers: host.transfers + 2,
                    ..host
                };
                if resolution(specifier) is Newest {
                    install_settles(state, unpacked, (enough() - 4) as nat);
                } else {
                    install_settles(state, unpacked, (enough() - 3) as nat);
                }
                switched_points(
                    Host { record: Slot::Holds(Some(version)), ..unpacked },
                    version,
                );
            }
        },
    }
}

/// The first installation activates: on a host where the version is not
/// installed and no version is active, installing it makes it the active
/// version and points every launcher into it.
pub proof fn first_install_activates(
    specifier: Seq<char>,
    platform: Platform,
    host: Host,
    version: Seq<char>,
)
    requires
        active(host.record) is None,
        !(host.record is Corrupt),
    ensures
        resolved(specifier, host) == Some(version) && !host.installed.contains(version) ==> {
            let end = run(install::begun(specifier, platform), host, enough());
            &&& end.1 == StepView::Finished(OutcomeView::Installed { version, activated: true })
            &&& end.0.installed.contains(version)
            &&& active(end.0.record) == Some(version)
            &&& launchers_point_to(end.0, version)
        },
{
    install_reaches(specifier, platform, host);
}

/// Activating a version that is not installed fails with `NotInstalled`
/// and leaves the host, and with it the activation record, as it is.
pub proof fn use_of_missing_fails(specifier: Seq<char>, host: Host, version: Seq<char>)
    ensures
        resolved(specifier, host) == Some(version) && !host.installed.contains(version) ==> run(
            activate::begun(specifier),
            host,
            enough(),
        ) == (host, StepView::Failed(ErrorView::NotInstalled(version))),
{
    reveal_with_fuel(run, 3);
}

/// Removing the active version fails with `CannotRemoveActive` and leaves
/// the host as it is.
pub proof fn remove_of_active_fails(specifier: Seq<char>, host: Host, version: Seq<char>)
    ensures
        resolved(specifier, host) == Some(version) && host.installed.contains(version)
            && host.record == Slot::Holds(Some(version)) ==> run(
            remove::begun(specifier),
            host,
            enough(),
        ) == (host, StepView::Failed(ErrorView::CannotRemoveActive(version))),
{
    reveal_with_fuel(run, 5);
}

/// Removing an installed version that is not the active one deletes its
/// directory and leaves the active version, the launchers and every other
/// installed version as they are.
pub proof fn remove_of_inactive_deletes(specifier: Seq<char>, host: Host, version: Seq<char>)
    requires
        !(host.record is Corrupt),
    ensures
        resolved(specifier, host) == Some(version) && host.installed.contains(version)
            && active(host.record) != Some(version) ==> {
            let end = run(remove::begun(specifier), host, enough());
            &&& end.1 == StepView::Finished(OutcomeView::Removed(version))
            &&& end.0.installed == host.installed.remove(version)
            &&& active(end.0.record) == active(host.record)
            &&& end.0.launchers == host.launchers
            &&& end.0.catalog == host.catalog
            &&& end.0.transfers == host.transfers
        },
{
    reveal_with_fuel(run, 6);
}

/// A record that was saved is the record that is loaded, whatever was kept
/// before, and loading it changes nothing.
pub proof fn saved_record_is_loaded(host: Host, record: Option<Seq<char>>)
    ensures
        ({
            let saved = serve(host, RequestView::WriteConfig(record)).0;
            load(saved) == (saved, LoadedView::Ready(record))
        }),
{
}

/// Loading where no record is kept yet gives the default record, with no
/// active version, and keeps it; loading again gives the same and changes
/// nothing more.
pub proof fn first_load_materializes(host: Host)
    requires
        host.record is Missing,
    ensures
        load(host) == (Host { record: Slot::Holds(None), ..host }, LoadedView::Ready(None)),
        load(load(host).0) == (load(host).0, LoadedView::Ready(None)),
{
}

/// Content that is no record is never replaced by loading.
pub proof fn corrupt_record_is_kept(host: Host)
    requires
        host.record is Corrupt,
    ensures
        load(host) == (host, LoadedView::Failed(ErrorView::ConfigCorrupt)),
{
}

/// What an activation comes to on a host, by the state of the host.
pub proof fn use_reaches(specifier: Seq<char>, host: Host)
    ensures
        ({
            let end = run(activate::begun(specifier), host, enough());
            match resolved(specifier, host) {
                None => end.1 is Failed && end.0 == host,
                Some(version) => if !host.installed.contains(version) {
                    end == (host, StepView::Failed(ErrorView::NotInstalled(version)))
                } else if host.record is Corrupt {
                    end == (host, StepView::Failed(ErrorView::ConfigCorrupt))
                } else {
                    end == (
                        Host {
                            record: Slot::Holds(Some(version)),
                            launchers: switched(host.launchers, version),
                            ..host
                        },
                        StepView::Finished(OutcomeView::Activated(version)),
                    )
                },
            }
        }),
{
    reveal_with_fuel(run, 6);
    match resolved(specifier, host) {
        Some(version) => {
            if host.installed.contains(version) && !(host.record is Corrupt) {
                let state = UseView { phase: UsePhase::Persist, specifier, version };
                let recorded = Host { record: Slot::Holds(Some(version)), ..host };
                let steps: nat = (if resolution(specifier) is Newest {
                    1nat
                } else {
                    0nat
                }) + (if host.record is Missing {
                    1nat
                } else {
                    0nat
                });
                use_switch_runs(state, recorded, (enough() - 3 - steps) as nat);
            }
        },
        None => {},
    }
}

/// Activating an installed version records it as active and points every
/// launcher into it.
pub proof fn use_activates(specifier: Seq<char>, host: Host, version: Seq<char>)
    requires
        !(host.record is Corrupt),
    ensures
        resolved(specifier, host) == Some(version) && host.installed.contains(version) ==> {
            let end = run(activate::begun(specifier), host, enough());
            &&& end.1 == StepView::Finished(OutcomeView::Activated(version))
            &&& end.0.record == Slot::Holds(Some(version))
            &&& end.0.installed == host.installed
            &&& launchers_point_to(end.0, version)
        },
{
    use_reaches(specifier, host);
    switched_points(Host { record: Slot::Holds(Some(version)), ..host }, version);
}

/// What a removal comes to on a host, by the state of the host. The
/// activation record is loaded first, which keeps the default record where
/// none was kept.
pub proof fn remove_reaches(specifier: Seq<char>, host: Host)
    ensures
        ({
            let end = run(remove::begun(specifier), host, enough());
            let loaded_host = load(host).0;
            if host.record is Corrupt {
                end == (host, StepView::Failed(ErrorView::ConfigCorrupt))
            } else {
                match resolved(specifier, host) {
                    None => end.1 is Failed && end.0 == loaded_host,
                    Some(version) => if !host.installed.contains(version) {
                        end == (loaded_host, StepView::Failed(ErrorView::NotInstalled(version)))
                    } else if active(host.record) == Some(version) {
                        end == (
                            loaded_host,
                            StepView::Failed(ErrorView::CannotRemoveActive(version)),
                        )
                    } else {
                        end == (
                            Host { installed: host.installed.remove(version), ..loaded_host },
                            StepView::Finished(OutcomeView::Removed(version)),
                        )
                    },
                }
            }
        }),
{
    reveal_with_fuel(run, 6);
}

/// A local listing shows the versions that the host holds, in presentation
/// order, and marks the one that the activation record names.
pub proof fn local_listing_shows_the_host(host: Host)
    requires
        !(host.record is Corrupt),
    ensures
        run(list::begun(false), host, enough()) == (
            load(host).0,
            StepView::Finished(
                OutcomeView::Local(local_listing(host.installed.to_seq(), active(host.record))),
            ),
        ),
{
    reveal_with_fuel(run, 4);
}

/// A remote listing shows the catalog of the host, marked by what the host
/// holds and by its activation record. An empty catalog is listed as such,
/// and nothing else is read for it.
pub proof fn remote_listing_shows_the_catalog(host: Host, catalog: Seq<Seq<char>>)
    requires
        !(host.record is Corrupt),
        host.catalog == Some(catalog),
    ensures
        catalog.len() > 0 ==> run(list::begun(true), host, enough()) == (
            load(host).0,
            StepView::Finished(
                OutcomeView::Remote(
                    remote_listing(catalog, host.installed.to_seq(), active(host.record)),
                ),
            ),
        ),
        catalog.len() == 0 ==> run(list::begun(true), host, enough()) == (
            host,
            StepView::Finished(OutcomeView::Remote(remote_listing(catalog, Seq::empty(), None))),
        ),
{
    reveal_with_fuel(run, 5);
    if catalog.len() == 0 {
        assert(remote_listing(catalog, Seq::empty(), None).entries =~= Seq::empty());
    }
}

/// No activation record names a version that is not installed, and the
/// launchers point into the version that the record names.
pub open spec fn sound(host: Host) -> bool {
    active(host.record) matches Some(version) ==> host.installed.contains(version)
        && launchers_point_to(host, version)
}

/// Installing, activating and removing keep a sound host sound: whenever
/// the activation record names a version, that version is installed and
/// every launcher points into it.
pub proof fn operations_keep_hosts_sound(specifier: Seq<char>, platform: Platform, host: Host)
    requires
        sound(host),
    ensures
        sound(run(install::begun(specifier, platform), host, enough()).0),
        sound(run(activate::begun(specifier), host, enough()).0),
        sound(run(remove::begun(specifier), host, enough()).0),
{
    install_reaches(specifier, platform, host);
    use_reaches(specifier, host);
    remove_reaches(specifier, host);
    match resolved(specifier, host) {
        Some(version) => {
            switched_points(Host { record: Slot::Holds(Some(version)), ..host }, version);
        },
        None => {},
    }
}

/// How many requests an operation can still make after the one it waits on.
pub open spec fn switch_steps_left(phase: SwitchPhase) -> nat {
    match phase {
        SwitchPhase::Target => 6,
        SwitchPhase::Unlink(Launcher::Node) => 5,
        SwitchPhase::Link(Launcher::Node) => 4,
        SwitchPhase::Unlink(Launcher::Npm) => 3,
        SwitchPhase::Link(Launcher::Npm) => 2,
        SwitchPhase::Unlink(Launcher::Npx) => 1,
        SwitchPhase::Link(Launcher::Npx) => 0,
    }
}

/// How many requests an operation can still make after the one it waits on.
pub open spec fn steps_left(state: LifecycleView) -> nat {
    match state {
        LifecycleView::Install(s) => match s.phase {
            InstallPhase::Catalog => 13,
            InstallPhase::Presence => 12,
            InstallPhase::Fetch => 11,
            InstallPhase::Unpack => 10,
            InstallPhase::Record => 9,
            InstallPhase::Materialize => 8,
            InstallPhase::Persist => 7,
            InstallPhase::Switch(phase) => switch_steps_left(phase),
        },
        LifecycleView::Use(s) => match s.phase {
            UsePhase::Catalog => 11,
            UsePhase::Presence => 10,
            UsePhase::Record => 9,
            UsePhase::Materialize => 8,
            UsePhase::Persist => 7,
            UsePhase::Switch(phase) => switch_steps_left(phase),
        },
        LifecycleView::Remove(s) => match s.phase {
            RemovePhase::Record => 4,
            RemovePhase::Materialize => 3,
            RemovePhase::Catalog => 2,
            RemovePhase::Presence => 1,
            RemovePhase::Delete => 0,
        },
        LifecycleView::Link(s) => switch_steps_left(s.phase),
        LifecycleView::List(s) => match s.phase {
            ListPhase::Catalog => 3,
            ListPhase::Record => 2,
            ListPhase::Materialize => 1,
            ListPhase::Names => 0,
        },
    }
}

/// Whatever the host replies, each step brings an operation nearer to its
/// end: an operation that goes on has fewer requests left than before.
pub proof fn every_step_makes_progress(state: LifecycleView, reply: ReplyView)
    ensures
        after(state, reply) matches StepView::Continue(next, _) ==> steps_left(next) < steps_left(
            state,
        ),
{
}

/// An operation makes at most fourteen requests, whatever the host replies.
pub proof fn operations_start_within_bounds(
    specifier: Seq<char>,
    platform: Platform,
    remote: bool,
)
    ensures
        install::begun(specifier, platform) matches StepView::Continue(state, _) ==> steps_left(
            state,
        ) <= 13,
        activate::begun(specifier) matches StepView::Continue(state, _) ==> steps_left(state)
            <= 13,
        remove::begun(specifier) matches StepView::Continue(state, _) ==> steps_left(state) <= 13,
        install::begun_link(specifier) matches StepView::Continue(state, _) ==> steps_left(state)
            <= 13,
        list::begun(remote) matches StepView::Continue(state, _) ==> steps_left(state) <= 13,
{
}

/// On the model host an operation that has fewer requests left than its
/// budget runs to its end.
pub proof fn run_ends(step: StepView, host: Host, budget: nat)
    requires
        step matches StepView::Continue(state, _) ==> steps_left(state) < budget,
    ensures
        !(run(step, host, budget).1 is Continue),
    decreases budget,
{
    match step {
        StepView::Continue(state, request) => {
            let (served, reply) = serve(host, request);
            every_step_makes_progress(state, reply);
            run_ends(after(state, reply), served, (budget - 1) as nat);
        },
        _ => {},
    }
}

} // verus!
