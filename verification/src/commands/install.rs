//! Installing a version, and switching the launchers to a version.

use crate::config::{load_config, loaded, save_config, Config, Loaded, LoadedView};
use crate::error::{ErrorView, LifecycleError};
use crate::lifecycle::{
    confirms_done, confirms_presence, newest, newest_of, resolution, resolve, Launcher,
    Lifecycle, LifecycleView, Outcome, OutcomeView, Reply, ReplyView, Request, RequestView,
    Resolution, ResolutionView, Step, StepView,
};
use crate::utils::extract::{archive_format, extract_archive};
use crate::utils::{archive_file_name, archive_name, download_url, get_download_url, Platform};
use vstd::prelude::*;

verus! {

/// Where the switch of the launchers stands.
#[derive(Debug, Clone, Copy, PartialEq, Eq, Structural)]
pub enum SwitchPhase {
    /// It was asked whether the version to switch to is installed.
    Target,
    /// The old launcher of this name is being removed.
    Unlink(Launcher),
    /// The new launcher of this name is being made.
    Link(Launcher),
}

/// What one step of the switch comes to.
#[derive(Debug, Clone, PartialEq, Eq)]
pub enum Switched {
    /// The switch goes on with this request.
    Next(SwitchPhase, Request),
    /// Every launcher points to the version.
    Complete,
    /// The switch has stopped.
    Failed(LifecycleError),
}

/// Mathematical view of [`Switched`].
pub enum SwitchedView {
    Next(SwitchPhase, RequestView),
    Complete,
    Failed(ErrorView),
}

impl View for Switched {
    type V = SwitchedView;

    open spec fn view(&self) -> SwitchedView {
        match self {
            Switched::Next(phase, request) => SwitchedView::Next(*phase, request@),
            Switched::Complete => SwitchedView::Complete,
            Switched::Failed(error) => SwitchedView::Failed(error@),
        }
    }
}

/// One step of switching the launchers to `version`. No launcher is touched
/// before the version is known to be installed. Then the launchers are
/// switched one after the other, each by removing the old one and making
/// the new one. A launcher that cannot be switched stops the switch with
/// `ActivationIncomplete`, which names the launchers switched before it;
/// these stay switched.
pub open spec fn switching(version: Seq<char>, phase: SwitchPhase, reply: ReplyView)
    -> SwitchedView {
    match phase {
        SwitchPhase::Target => if confirms_presence(reply) {
            SwitchedView::Next(
                SwitchPhase::Unlink(Launcher::Node),
                RequestView::RemoveLauncher(Launcher::Node),
            )
        } else {
            SwitchedView::Failed(ErrorView::NotInstalled(version))
        },
        SwitchPhase::Unlink(launcher) => if confirms_done(reply) {
            SwitchedView::Next(
                SwitchPhase::Link(launcher),
                RequestView::LinkLauncher { launcher, version },
            )
        } else {
            SwitchedView::Failed(ErrorView::ActivationIncomplete(launcher.preceding()))
        },
        SwitchPhase::Link(launcher) => if confirms_done(reply) {
            match launcher.following() {
                Some(next) => SwitchedView::Next(
                    SwitchPhase::Unlink(next),
                    RequestView::RemoveLauncher(next),
                ),
                None => SwitchedView::Complete,
            }
        } else {
            SwitchedView::Failed(ErrorView::ActivationIncomplete(launcher.preceding()))
        },
    }
}

/// Advances the switch of the launchers to `version` by one reply.
pub fn switch(version: &str, phase: SwitchPhase, reply: &Reply) -> (r: Switched)
    ensures
        r@ == switching(version@, phase, reply@),
{
    match phase {
        SwitchPhase::Target => match reply {
            Reply::Installed(true) => Switched::Next(
                SwitchPhase::Unlink(Launcher::Node),
                Request::RemoveLauncher(Launcher::Node),
            ),
            _ => Switched::Failed(LifecycleError::NotInstalled(version.to_owned())),
        },
        SwitchPhase::Unlink(launcher) => match reply {
            Reply::Done => Switched::Next(
                SwitchPhase::Link(launcher),
                Request::LinkLauncher { launcher, version: version.to_owned() },
            ),
            _ => Switched::Failed(
                LifecycleError::ActivationIncomplete(launcher.switched_before()),
            ),
        },
        SwitchPhase::Link(launcher) => match reply {
            Reply::Done => match launcher.next() {
                Some(next) => Switched::Next(
                    SwitchPhase::Unlink(next),
                    Request::RemoveLauncher(next),
                ),
                None => Switched::Complete,
            },
            _ => Switched::Failed(
                LifecycleError::ActivationIncomplete(launcher.switched_before()),
            ),
        },
    }
}

/// The state of a switch of the launchers that runs on its own.
#[derive(Debug, Clone, PartialEq, Eq)]
pub struct LinkState {
    pub phase: SwitchPhase,
    pub version: String,
}

/// Mathematical view of [`LinkState`].
pub struct LinkView {
    pub phase: SwitchPhase,
    pub version: Seq<char>,
}

impl View for LinkState {
    type V = LinkView;

    open spec fn view(&self) -> LinkView {
        LinkView { phase: self.phase, version: self.version@ }
    }
}

/// The first step of a switch of the launchers: is the version installed?
pub open spec fn begun_link(version: Seq<char>) -> StepView {
    StepView::Continue(
        LifecycleView::Link(LinkView { phase: SwitchPhase::Target, version }),
        RequestView::CheckInstalled(version),
    )
}

/// The step after `reply` in a switch of the launchers.
pub open spec fn after_link(state: LinkView, reply: ReplyView) -> StepView {
    match switching(state.version, state.phase, reply) {
        SwitchedView::Next(phase, request) => StepView::Continue(
            LifecycleView::Link(LinkView { phase, ..state }),
            request,
        ),
        SwitchedView::Complete => StepView::Finished(OutcomeView::Linked(state.version)),
        SwitchedView::Failed(error) => StepView::Failed(error),
    }
}

/// Starts switching the launchers `node`, `npm` and `npx` to `version`.
pub fn create_node_symlinks(version: &str) -> (step: Step)
    ensures
        step@ == begun_link(version@),
{
    Step::Continue(
        Lifecycle::Link(LinkState { phase: SwitchPhase::Target, version: version.to_owned() }),
        Request::CheckInstalled(version.to_owned()),
    )
}

/// Advances a switch of the launchers by the reply to its last request.
pub fn proceed_link(state: LinkState, reply: Reply) -> (step: Step)
    ensures
        step@ == after_link(state@, reply@),
{
    let LinkState { phase, version } = state;
    match switch(version.as_str(), phase, &reply) {
        Switched::Next(next, request) => Step::Continue(
            Lifecycle::Link(LinkState { phase: next, version }),
            request,
        ),
        Switched::Complete => Step::Finished(Outcome::Linked(version)),
        Switched::Failed(error) => Step::Failed(error),
    }
}

/// Where an installation stands.
#[derive(Debug, Clone, Copy, PartialEq, Eq, Structural)]
pub enum InstallPhase {
    /// The catalog was asked for, to resolve an alias.
    Catalog,
    /// It was asked whether the version is installed.
    Presence,
    /// The archive is being downloaded.
    Fetch,
    /// The archive is being unpacked.
    Unpack,
    /// The activation record was asked for.
    Record,
    /// The default activation record is being saved.
    Materialize,
    /// The record that names the version as active is being saved.
    Persist,
    /// The launchers are being switched.
    Switch(SwitchPhase),
}

/// The state of an installation under way.
#[derive(Debug, Clone, PartialEq, Eq)]
pub struct InstallState {
    pub phase: InstallPhase,
    pub specifier: String,
    pub platform: Platform,
    /// The version to install, once the specifier is resolved.
    pub version: String,
}

/// Mathematical view of [`InstallState`].
pub struct InstallView {
    pub phase: InstallPhase,
    pub specifier: Seq<char>,
    pub platform: Platform,
    pub version: Seq<char>,
}

impl View for InstallState {
    type V = InstallView;

    open spec fn view(&self) -> InstallView {
        InstallView {
            phase: self.phase,
            specifier: self.specifier@,
            platform: self.platform,
            version: self.version@,
        }
    }
}

/// The step that asks whether the resolved version `id` is installed.
pub open spec fn probing(state: InstallView, id: Seq<char>) -> StepView {
    StepView::Continue(
        LifecycleView::Install(InstallView { phase: InstallPhase::Presence, version: id, ..state }),
        RequestView::CheckInstalled(id),
    )
}

/// The first step of an installation: the specifier is resolved, by the
/// catalog where it is an alias.
pub open spec fn begun(specifier: Seq<char>, platform: Platform) -> StepView {
    let state = InstallView {
        phase: InstallPhase::Catalog,
        specifier,
        platform,
        version: Seq::empty(),
    };
    match resolution(specifier) {
        ResolutionView::Newest => StepView::Continue(
            LifecycleView::Install(state),
            RequestView::FetchCatalog,
        ),
        ResolutionView::Version(id) => probing(state, id),
        ResolutionView::Invalid(error) => StepView::Failed(error),
    }
}

/// The step once the activation record is known, after the version was
/// installed: a first installation makes the version the active one.
pub open spec fn settling(state: InstallView, record: Option<Seq<char>>) -> StepView {
    if record is None {
        StepView::Continue(
            LifecycleView::Install(InstallView { phase: InstallPhase::Persist, ..state }),
            RequestView::WriteConfig(Some(state.version)),
        )
    } else {
        StepView::Finished(OutcomeView::Installed { version: state.version, activated: false })
    }
}

/// The step after `reply` in an installation.
pub open spec fn after(state: InstallView, reply: ReplyView) -> StepView {
    let archive = archive_name(state.version, state.platform);
    match state.phase {
        InstallPhase::Catalog => match reply {
            ReplyView::Catalog(catalog) => match newest_of(catalog) {
                Some(id) => probing(state, id),
                None => StepView::Failed(ErrorView::NoVersionsPublished),
            },
            _ => StepView::Failed(ErrorView::CatalogUnavailable),
        },
        InstallPhase::Presence => if confirms_presence(reply) {
            StepView::Finished(OutcomeView::AlreadyInstalled(state.version))
        } else {
            StepView::Continue(
                LifecycleView::Install(InstallView { phase: InstallPhase::Fetch, ..state }),
                RequestView::Download {
                    url: download_url(state.version, state.platform),
                    archive,
                },
            )
        },
        InstallPhase::Fetch => if confirms_done(reply) {
            match archive_format(archive) {
                Some(format) => StepView::Continue(
                    LifecycleView::Install(InstallView { phase: InstallPhase::Unpack, ..state }),
                    RequestView::Extract { archive, version: state.version, format },
                ),
                None => StepView::Failed(ErrorView::ExtractFailed(archive)),
            }
        } else {
            StepView::Failed(ErrorView::FetchFailed(state.version))
        },
        InstallPhase::Unpack => if confirms_done(reply) {
            StepView::Continue(
                LifecycleView::Install(InstallView { phase: InstallPhase::Record, ..state }),
                RequestView::ReadConfig,
            )
        } else {
            StepView::Failed(ErrorView::ExtractFailed(archive))
        },
        InstallPhase::Record => match reply {
            ReplyView::Config(found) => match loaded(found) {
                LoadedView::Ready(record) => settling(state, record),
                LoadedView::Materialize(record) => StepView::Continue(
                    LifecycleView::Install(
                        InstallView { phase: InstallPhase::Materialize, ..state },
                    ),
                    RequestView::WriteConfig(record),
                ),
                LoadedView::Failed(error) => StepView::Failed(error),
            },
            _ => StepView::Failed(ErrorView::ConfigIoError),
        },
        InstallPhase::Materialize => if confirms_done(reply) {
            settling(state, None)
        } else {
            StepView::Failed(ErrorView::ConfigIoError)
        },
        InstallPhase::Persist => if confirms_done(reply) {
            StepView::Continue(
                LifecycleView::Install(
                    InstallView { phase: InstallPhase::Switch(SwitchPhase::Target), ..state },
                ),
                RequestView::CheckInstalled(state.version),
            )
        } else {
            StepView::Failed(ErrorView::ConfigIoError)
        },
        InstallPhase::Switch(phase) => match switching(state.version, phase, reply) {
            SwitchedView::Next(next, request) => StepView::Continue(
                LifecycleView::Install(InstallView { phase: InstallPhase::Switch(next), ..state }),
                request,
            ),
            SwitchedView::Complete => StepView::Finished(
                OutcomeView::Installed { version: state.version, activated: true },
            ),
            SwitchedView::Failed(error) => StepView::Failed(error),
        },
    }
}

/// Starts the installation of the version that `version` specifies, for
/// `platform`. A version that is installed already is left as it is and
/// nothing is fetched. Otherwise its archive is downloaded and unpacked,
/// and where no version is active yet, the new one becomes the active one.
pub fn execute(version: &str, platform: Platform) -> (step: Step)
    ensures
        step@ == begun(version@, platform),
{
    match resolve(version) {
        Resolution::Newest => {
            let unresolved = String::new();
            Step::Continue(
                Lifecycle::Install(
                    InstallState {
                        phase: InstallPhase::Catalog,
                        specifier: version.to_owned(),
                        platform,
                        version: unresolved,
                    },
                ),
                Request::FetchCatalog,
            )
        },
        Resolution::Version(id) => {
            let request = Request::CheckInstalled(id.clone());
            Step::Continue(
                Lifecycle::Install(
                    InstallState {
                        phase: InstallPhase::Presence,
                        specifier: version.to_owned(),
                        platform,
                        version: id,
                    },
                ),
                request,
            )
        },
        Resolution::Invalid(error) => Step::Failed(error),
    }
}

/// The step once the activation record is known.
fn settle(specifier: String, platform: Platform, version: String, record: &Config) -> (step: Step)
    ensures
        forall|phase: InstallPhase|
            step@ == #[trigger] settling(
                InstallView { phase, specifier: specifier@, platform, version: version@ },
                record@,
            ),
{
    if record.active_version.is_none() {
        let request = save_config(&Config::activating(version.as_str()));
        Step::Continue(
            Lifecycle::Install(
                InstallState { phase: InstallPhase::Persist, specifier, platform, version },
            ),
            request,
        )
    } else {
        Step::Finished(Outcome::Installed { version, activated: false })
    }
}

/// Advances an installation by the reply to its last request.
pub fn proceed(state: InstallState, reply: Reply) -> (step: Step)
    ensures
        step@ == after(state@, reply@),
{
    let InstallState { phase, specifier, platform, version } = state;
    match phase {
        InstallPhase::Catalog => match reply {
            Reply::Catalog(catalog) => match newest(&catalog) {
                Ok(id) => {
                    let request = Request::CheckInstalled(id.clone());
                    Step::Continue(
                        Lifecycle::Install(
                            InstallState {
                                phase: InstallPhase::Presence,
                                specifier,
                                platform,
                                version: id,
                            },
                        ),
                        request,
                    )
                },
                Err(error) => Step::Failed(error),
            },
            _ => Step::Failed(LifecycleError::CatalogUnavailable),
        },
        InstallPhase::Presence => match reply {
            Reply::Installed(true) => Step::Finished(Outcome::AlreadyInstalled(version)),
            _ => {
                let request = Request::Download {
                    url: get_download_url(version.as_str(), platform),
                    archive: archive_file_name(version.as_str(), platform),
                };
                Step::Continue(
                    Lifecycle::Install(
                        InstallState { phase: InstallPhase::Fetch, specifier, platform, version },
                    ),
                    request,
                )
            },
        },
        InstallPhase::Fetch => match reply {
            Reply::Done => {
                let archive = archive_file_name(version.as_str(), platform);
                match extract_archive(archive.as_str()) {
                    Ok(format) => {
                        let request = Request::Extract {
                            archive,
                            version: version.clone(),
                            format,
                        };
                        Step::Continue(
                            Lifecycle::Install(
                                InstallState {
                                    phase: InstallPhase::Unpack,
                                    specifier,
                                    platform,
                                    version,
                                },
                            ),
                            request,
                        )
                    },
                    Err(error) => Step::Failed(error),
                }
            },
            _ => Step::Failed(LifecycleError::FetchFailed(version)),
        },
        InstallPhase::Unpack => match reply {
            Reply::Done => Step::Continue(
                Lifecycle::Install(
                    InstallState { phase: InstallPhase::Record, specifier, platform, version },
                ),
                Request::ReadConfig,
            ),
            _ => Step::Failed(
                LifecycleError::ExtractFailed(archive_file_name(version.as_str(), platform)),
            ),
        },
        InstallPhase::Record => match reply {
            Reply::Config(found) => match load_config(found) {
                Loaded::Ready(record) => settle(specifier, platform, version, &record),
                Loaded::Materialize(record) => Step::Continue(
                    Lifecycle::Install(
                        InstallState {
                            phase: InstallPhase::Materialize,
                            specifier,
                            platform,
                            version,
                        },
                    ),
                    save_config(&record),
                ),
                Loaded::Failed(error) => Step::Failed(error),
            },
            _ => Step::Failed(LifecycleError::ConfigIoError),
        },
        InstallPhase::Materialize => match reply {
            Reply::Done => settle(specifier, platform, version, &Config::default()),
            _ => Step::Failed(LifecycleError::ConfigIoError),
        },
        InstallPhase::Persist => match reply {
            Reply::Done => {
                let request = Request::CheckInstalled(version.clone());
                Step::Continue(
                    Lifecycle::Install(
                        InstallState {
                            phase: InstallPhase::Switch(SwitchPhase::Target),
                            specifier,
                            platform,
                            version,
                        },
                    ),
                    request,
                )
            },
            _ => Step::Failed(LifecycleError::ConfigIoError),
        },
        InstallPhase::Switch(at) => match switch(version.as_str(), at, &reply) {
            Switched::Next(next, request) => Step::Continue(
                Lifecycle::Install(
                    InstallState { phase: InstallPhase::Switch(next), specifier, platform, version },
                ),
                request,
            ),
            Switched::Complete => Step::Finished(Outcome::Installed { version, activated: true }),
            Switched::Failed(error) => Step::Failed(error),
        },
    }
}

} // verus!
