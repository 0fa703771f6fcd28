//! Removing an installed version.

use crate::config::{load_config, loaded, save_config, Config, Loaded, LoadedView};
use crate::error::{ErrorView, LifecycleError};
use crate::lifecycle::{
    confirms_done, confirms_presence, newest, newest_of, resolution, resolve, Lifecycle,
    LifecycleView, Outcome, OutcomeView, Reply, ReplyView, Request, RequestView, Resolution,
    ResolutionView, Step, StepView,
};
use vstd::prelude::*;

verus! {

/// Where a removal stands.
#[derive(Debug, Clone, Copy, PartialEq, Eq, Structural)]
pub enum RemovePhase {
    /// The activation record was asked for.
    Record,
    /// The default activation record is being saved.
    Materialize,
    /// The catalog was asked for, to resolve an alias.
    Catalog,
    /// It was asked whether the version is installed.
    Presence,
    /// The directory of the version is being deleted.
    Delete,
}

/// The state of a removal under way.
#[derive(Debug, Clone, PartialEq, Eq)]
pub struct RemoveState {
    pub phase: RemovePhase,
    pub specifier: String,
    /// The version to remove, once the specifier is resolved.
    pub version: String,
    /// The activation record, once loaded.
    pub record: Config,
}

/// Mathematical view of [`RemoveState`].
pub struct RemoveView {
    pub phase: RemovePhase,
    pub specifier: Seq<char>,
    pub version: Seq<char>,
    pub record: Option<Seq<char>>,
}

impl View for RemoveState {
    type V = RemoveView;

    open spec fn view(&self) -> RemoveView {
        RemoveView {
            phase: self.phase,
            specifier: self.specifier@,
            version: self.version@,
            record: self.record@,
        }
    }
}

/// The first step of a removal: the activation record is read.
pub open spec fn begun(specifier: Seq<char>) -> StepView {
    StepView::Continue(
        LifecycleView::Remove(
            RemoveView {
                phase: RemovePhase::Record,
                specifier,
                version: Seq::empty(),
                record: None,
            },
        ),
        RequestView::ReadConfig,
    )
}

/// The step that asks whether the resolved version `id` is installed.
pub open spec fn probing(state: RemoveView, id: Seq<char>) -> StepView {
    StepView::Continue(
        LifecycleView::Remove(RemoveView { phase: RemovePhase::Presence, version: id, ..state }),
        RequestView::CheckInstalled(id),
    )
}

/// The step once the activation record `record` is known: the specifier is
/// resolved, by the catalog where it is an alias.
pub open spec fn resolving(state: RemoveView, record: Option<Seq<char>>) -> StepView {
    let state = RemoveView { record, ..state };
    match resolution(state.specifier) {
        ResolutionView::Newest => StepView::Continue(
            LifecycleView::Remove(RemoveView { phase: RemovePhase::Catalog, ..state }),
            RequestView::FetchCatalog,
        ),
        ResolutionView::Version(id) => probing(state, id),
        ResolutionView::Invalid(error) => StepView::Failed(error),
    }
}

/// The step after `reply` in a removal. A version that is not installed is
/// refused with `NotInstalled`, the active version with
/// `CannotRemoveActive`; in both cases nothing is deleted. The activation
/// record and the launchers are never written.
pub open spec fn after(state: RemoveView, reply: ReplyView) -> StepView {
    match state.phase {
        RemovePhase::Record => match reply {
            ReplyView::Config(found) => match loaded(found) {
                LoadedView::Ready(record) => resolving(state, record),
                LoadedView::Materialize(record) => StepView::Continue(
                    LifecycleView::Remove(
                        RemoveView { phase: RemovePhase::Materialize, record, ..state },
                    ),
                    RequestView::WriteConfig(record),
                ),
                LoadedView::Failed(error) => StepView::Failed(error),
            },
            _ => StepView::Failed(ErrorView::ConfigIoError),
        },
        RemovePhase::Materialize => if confirms_done(reply) {
            resolving(state, state.record)
        } else {
            StepView::Failed(ErrorView::ConfigIoError)
        },
        RemovePhase::Catalog => match reply {
            ReplyView::Catalog(catalog) => match newest_of(catalog) {
                Some(id) => probing(state, id),
                None => StepView::Failed(ErrorView::NoVersionsPublished),
            },
            _ => StepView::Failed(ErrorView::CatalogUnavailable),
        },
        RemovePhase::Presence => if !confirms_presence(reply) {
            StepView::Failed(ErrorView::NotInstalled(state.version))
        } else if state.record == Some(state.version) {
            StepView::Failed(ErrorView::CannotRemoveActive(state.version))
        } else {
            StepView::Continue(
                LifecycleView::Remove(RemoveView { phase: RemovePhase::Delete, ..state }),
                RequestView::RemoveVersion(state.version),
            )
        },
        RemovePhase::Delete => if confirms_done(reply) {
            StepView::Finished(OutcomeView::Removed(state.version))
        } else {
            StepView::Failed(ErrorView::RemovalIoError(state.version))
        },
    }
}

/// Starts the removal of the version that `version` specifies.
pub fn execute(version: &str) -> (step: Step)
    ensures
        step@ == begun(version@),
{
    Step::Continue(
        Lifecycle::Remove(
            RemoveState {
                phase: RemovePhase::Record,
                specifier: version.to_owned(),
                version: String::new(),
                record: Config::default(),
            },
        ),
        Request::ReadConfig,
    )
}

/// The step that asks whether the resolved version is installed.
fn probe(specifier: String, id: String, record: Config) -> (step: Step)
    ensures
        forall|phase: RemovePhase, version: Seq<char>|
            step@ == #[trigger] probing(
                RemoveView { phase, specifier: specifier@, version, record: record@ },
                id@,
            ),
{
    let request = Request::CheckInstalled(id.clone());
    Step::Continue(
        Lifecycle::Remove(
            RemoveState { phase: RemovePhase::Presence, specifier, version: id, record },
        ),
        request,
    )
}

/// The step once the activation record is known.
fn resolve_next(specifier: String, version: String, record: Config) -> (step: Step)
    ensures
        forall|phase: RemovePhase, old_record: Option<Seq<char>>|
            step@ == #[trigger] resolving(
                RemoveView { phase, specifier: specifier@, version: version@, record: old_record },
                record@,
            ),
{
    match resolve(specifier.as_str()) {
        Resolution::Newest => Step::Continue(
            Lifecycle::Remove(
                RemoveState { phase: RemovePhase::Catalog, specifier, version, record },
            ),
            Request::FetchCatalog,
        ),
        Resolution::Version(id) => {
            let ghost given = version@;
            let step = probe(specifier, id, record);
            assert forall|phase: RemovePhase, old_record: Option<Seq<char>>|
                step@ == #[trigger] resolving(
                    RemoveView { phase, specifier: specifier@, version: given, record: old_record },
                    record@,
                ) by {
                assert(step@ == probing(
                    RemoveView { phase, specifier: specifier@, version: given, record: record@ },
                    id@,
                ));
            }
            step
        },
        Resolution::Invalid(error) => Step::Failed(error),
    }
}

/// Advances a removal by the reply to its last request.
pub fn proceed(state: RemoveState, reply: Reply) -> (step: Step)
    ensures
        step@ == after(state@, reply@),
{
    let ghost old_state = state@;
    let RemoveState { phase, specifier, version, record } = state;
    match phase {
        RemovePhase::Record => match reply {
            Reply::Config(found) => match load_config(found) {
                Loaded::Ready(loaded_record) => {
                    let step = resolve_next(specifier, version, loaded_record);
                    assert(step@ == resolving(old_state, loaded_record@));
                    step
                },
                Loaded::Materialize(fresh) => {
                    let request = save_config(&fresh);
                    Step::Continue(
                        Lifecycle::Remove(
                            RemoveState {
                                phase: RemovePhase::Materialize,
                                specifier,
                                version,
                                record: fresh,
                            },
                        ),
                        request,
                    )
                },
                Loaded::Failed(error) => Step::Failed(error),
            },
            _ => Step::Failed(LifecycleError::ConfigIoError),
        },
        RemovePhase::Materialize => match reply {
            Reply::Done => {
                let step = resolve_next(specifier, version, record);
                assert(step@ == resolving(old_state, old_state.record));
                step
            },
            _ => Step::Failed(LifecycleError::ConfigIoError),
        },
        RemovePhase::Catalog => match reply {
            Reply::Catalog(catalog) => match newest(&catalog) {
                Ok(id) => {
                    let step = probe(specifier, id, record);
                    assert(step@ == probing(old_state, id@));
                    step
                },
                Err(error) => Step::Failed(error),
            },
            _ => Step::Failed(LifecycleError::CatalogUnavailable),
        },
        RemovePhase::Presence => match reply {
            Reply::Installed(true) => {
                if record.is_active(version.as_str()) {
                    Step::Failed(LifecycleError::CannotRemoveActive(version))
                } else {
                    let request = Request::RemoveVersion(version.clone());
                    Step::Continue(
                        Lifecycle::Remove(
                            RemoveState { phase: RemovePhase::Delete, specifier, version, record },
                        ),
                        request,
                    )
                }
            },
            _ => Step::Failed(LifecycleError::NotInstalled(version)),
        },
        RemovePhase::Delete => match reply {
            Reply::Done => Step::Finished(Outcome::Removed(version)),
            _ => Step::Failed(LifecycleError::RemovalIoError(version)),
        },
    }
}

} // verus!
