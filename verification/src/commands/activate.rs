//! Making an installed version the active one.

use crate::commands::install::{switch, switching, SwitchPhase, Switched, SwitchedView};
use crate::config::{load_config, loaded, save_config, Config, Loaded, LoadedView};
use crate::error::{ErrorView, LifecycleError};
use crate::lifecycle::{
    confirms_done, confirms_presence, newest, newest_of, resolution, resolve, Lifecycle,
    LifecycleView, Outcome, OutcomeView, Reply, ReplyView, Request, RequestView, Resolution,
    ResolutionView, Step, StepView,
};
use vstd::prelude::*;

verus! {

/// Where an activation stands.
#[derive(Debug, Clone, Copy, PartialEq, Eq, Structural)]
pub enum UsePhase {
    /// The catalog was asked for, to resolve an alias.
    Catalog,
    /// It was asked whether the version is installed.
    Presence,
    /// The activation record was asked for.
    Record,
    /// The default activation record is being saved.
    Materialize,
    /// The record that names the version as active is being saved.
    Persist,
    /// The launchers are being switched.
    Switch(SwitchPhase),
}

/// The state of an activation under way.
#[derive(Debug, Clone, PartialEq, Eq)]
pub struct UseState {
    pub phase: UsePhase,
    pub specifier: String,
    /// The version to activate, once the specifier is resolved.
    pub version: String,
}

/// Mathematical view of [`UseState`].
pub struct UseView {
    pub phase: UsePhase,
    pub specifier: Seq<char>,
    pub version: Seq<char>,
}

impl View for UseState {
    type V = UseView;

    open spec fn view(&self) -> UseView {
        UseView { phase: self.phase, specifier: self.specifier@, version: self.version@ }
    }
}

/// The step that asks whether the resolved version `id` is installed.
pub open spec fn probing(state: UseView, id: Seq<char>) -> StepView {
    StepView::Continue(
        LifecycleView::Use(UseView { phase: UsePhase::Presence, version: id, ..state }),
        RequestView::CheckInstalled(id),
    )
}

/// The step that saves the record naming the version as active.
pub open spec fn persisting(state: UseView) -> StepView {
    StepView::Continue(
        LifecycleView::Use(UseView { phase: UsePhase::Persist, ..state }),
        RequestView::WriteConfig(Some(state.version)),
    )
}

/// The first step of an activation: the specifier is resolved, by the
/// catalog where it is an alias.
pub open spec fn begun(specifier: Seq<char>) -> StepView {
    let state = UseView { phase: UsePhase::Catalog, specifier, version: Seq::empty() };
    match resolution(specifier) {
        ResolutionView::Newest => StepView::Continue(
            LifecycleView::Use(state),
            RequestView::FetchCatalog,
        ),
        ResolutionView::Version(id) => probing(state, id),
        ResolutionView::Invalid(error) => StepView::Failed(error),
    }
}

/// The step after `reply` in an activation. A version that is not installed
/// is refused with `NotInstalled` before anything is written. The
/// activation record is saved before the launchers are switched.
pub open spec fn after(state: UseView, reply: ReplyView) -> StepView {
    match state.phase {
        UsePhase::Catalog => match reply {
            ReplyView::Catalog(catalog) => match newest_of(catalog) {
                Some(id) => probing(state, id),
                None => StepView::Failed(ErrorView::NoVersionsPublished),
            },
            _ => StepView::Failed(ErrorView::CatalogUnavailable),
        },
        UsePhase::Presence => if confirms_presence(reply) {
            StepView::Continue(
                LifecycleView::Use(UseView { phase: UsePhase::Record, ..state }),
                RequestView::ReadConfig,
            )
        } else {
            StepView::Failed(ErrorView::NotInstalled(state.version))
        },
        UsePhase::Record => match reply {
            ReplyView::Config(found) => match loaded(found) {
                LoadedView::Ready(_) => persisting(state),
                LoadedView::Materialize(record) => StepView::Continue(
                    LifecycleView::Use(UseView { phase: UsePhase::Materialize, ..state }),
                    RequestView::WriteConfig(record),
                ),
                LoadedView::Failed(error) => StepView::Failed(error),
            },
            _ => StepView::Failed(ErrorView::ConfigIoError),
        },
        UsePhase::Materialize => if confirms_done(reply) {
            persisting(state)
        } else {
            StepView::Failed(ErrorView::ConfigIoError)
        },
        UsePhase::Persist => if confirms_done(reply) {
            StepView::Continue(
                LifecycleView::Use(UseView { phase: UsePhase::Switch(SwitchPhase::Target), ..state }),
                RequestView::CheckInstalled(state.version),
            )
        } else {
            StepView::Failed(ErrorView::ConfigIoError)
        },
        UsePhase::Switch(phase) => match switching(state.version, phase, reply) {
            SwitchedView::Next(next, request) => StepView::Continue(
                LifecycleView::Use(UseView { phase: UsePhase::Switch(next), ..state }),
                request,
            ),
            SwitchedView::Complete => StepView::Finished(OutcomeView::Activated(state.version)),
            SwitchedView::Failed(error) => StepView::Failed(error),
        },
    }
}

/// Starts making the version that `version` specifies the active one.
pub fn execute(version: &str) -> (step: Step)
    ensures
        step@ == begun(version@),
{
    match resolve(version) {
        Resolution::Newest => Step::Continue(
            Lifecycle::Use(
                UseState {
                    phase: UsePhase::Catalog,
                    specifier: version.to_owned(),
                    version: String::new(),
                },
            ),
            Request::FetchCatalog,
        ),
        Resolution::Version(id) => probe(version.to_owned(), id),
        Resolution::Invalid(error) => Step::Failed(error),
    }
}

/// The step that asks whether the resolved version is installed.
fn probe(specifier: String, id: String) -> (step: Step)
    ensures
        forall|phase: UsePhase, version: Seq<char>|
            step@ == #[trigger] probing(UseView { phase, specifier: specifier@, version }, id@),
{
    let request = Request::CheckInstalled(id.clone());
    Step::Continue(
        Lifecycle::Use(UseState { phase: UsePhase::Presence, specifier, version: id }),
        request,
    )
}

/// The step that saves the record naming the version as active.
fn persist(specifier: String, version: String) -> (step: Step)
    ensures
        forall|phase: UsePhase|
            step@ == #[trigger] persisting(
                UseView { phase, specifier: specifier@, version: version@ },
            ),
{
    let request = save_config(&Config::activating(version.as_str()));
    Step::Continue(
        Lifecycle::Use(UseState { phase: UsePhase::Persist, specifier, version }),
        request,
    )
}

/// Advances an activation by the reply to its last request.
pub fn proceed(state: UseState, reply: Reply) -> (step: Step)
    ensures
        step@ == after(state@, reply@),
{
    let ghost old_state = state@;
    let UseState { phase, specifier, version } = state;
    match phase {
        UsePhase::Catalog => match reply {
            Reply::Catalog(catalog) => match newest(&catalog) {
                Ok(id) => {
                    let step = probe(specifier, id);
                    assert(step@ == probing(old_state, id@));
                    step
                },
                Err(error) => Step::Failed(error),
            },
            _ => Step::Failed(LifecycleError::CatalogUnavailable),
        },
        UsePhase::Presence => match reply {
            Reply::Installed(true) => Step::Continue(
                Lifecycle::Use(UseState { phase: UsePhase::Record, specifier, version }),
                Request::ReadConfig,
            ),
            _ => Step::Failed(LifecycleError::NotInstalled(version)),
        },
        UsePhase::Record => match reply {
            Reply::Config(found) => match load_config(found) {
                Loaded::Ready(_) => {
                    let step = persist(specifier, version);
                    assert(step@ == persisting(old_state));
                    step
                },
                Loaded::Materialize(record) => Step::Continue(
                    Lifecycle::Use(UseState { phase: UsePhase::Materialize, specifier, version }),
                    save_config(&record),
                ),
                Loaded::Failed(error) => Step::Failed(error),
            },
            _ => Step::Failed(LifecycleError::ConfigIoError),
        },
        UsePhase::Materialize => match reply {
            Reply::Done => {
                let step = persist(specifier, version);
                assert(step@ == persisting(old_state));
                step
            },
            _ => Step::Failed(LifecycleError::ConfigIoError),
        },
        UsePhase::Persist => match reply {
            Reply::Done => {
                let request = Request::CheckInstalled(version.clone());
                Step::Continue(
                    Lifecycle::Use(
                        UseState {
                            phase: UsePhase::Switch(SwitchPhase::Target),
                            specifier,
                            version,
                        },
                    ),
                    request,
                )
            },
            _ => Step::Failed(LifecycleError::ConfigIoError),
        },
        UsePhase::Switch(at) => match switch(version.as_str(), at, &reply) {
            Switched::Next(next, request) => Step::Continue(
                Lifecycle::Use(UseState { phase: UsePhase::Switch(next), specifier, version }),
                request,
            ),
            Switched::Complete => Step::Finished(Outcome::Activated(version)),
            Switched::Failed(error) => Step::Failed(error),
        },
    }
}

} // verus!
