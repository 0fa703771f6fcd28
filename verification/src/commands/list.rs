//! Listing the installed and the published versions.

use crate::config::{load_config, loaded, save_config, Config, Loaded, LoadedView};
use crate::error::{ErrorView, LifecycleError};
use crate::lifecycle::{
    confirms_done, Lifecycle, LifecycleView, Outcome, OutcomeView, Reply, ReplyView, Request,
    RequestView, Step, StepView,
};
use crate::ranking::{in_rank_order, keeps_ties, rank, ranking};
use crate::text::same_text;
use vstd::prelude::*;

verus! {

/// How many published versions a remote listing shows at most.
pub const REMOTE_LIMIT: usize = 30;

/// An installed version in a listing.
#[derive(Debug, Clone, PartialEq, Eq)]
pub struct LocalEntry {
    pub version: String,
    /// Whether this is the active version.
    pub current: bool,
}

/// Mathematical view of [`LocalEntry`].
pub struct LocalEntryView {
    pub version: Seq<char>,
    pub current: bool,
}

impl DeepView for LocalEntry {
    type V = LocalEntryView;

    open spec fn deep_view(&self) -> LocalEntryView {
        LocalEntryView { version: self.version@, current: self.current }
    }
}

/// A published version in a listing.
#[derive(Debug, Clone, PartialEq, Eq)]
pub struct RemoteEntry {
    pub version: String,
    /// Whether the version is installed.
    pub installed: bool,
    /// Whether the version is the active one.
    pub current: bool,
}

/// Mathematical view of [`RemoteEntry`].
pub struct RemoteEntryView {
    pub version: Seq<char>,
    pub installed: bool,
    pub current: bool,
}

impl DeepView for RemoteEntry {
    type V = RemoteEntryView;

    open spec fn deep_view(&self) -> RemoteEntryView {
        RemoteEntryView {
            version: self.version@,
            installed: self.installed,
            current: self.current,
        }
    }
}

/// The published versions as they are shown: the newest ones, up to the
/// limit, and whether the catalog holds more than are shown.
#[derive(Debug, Clone, PartialEq, Eq)]
pub struct RemoteListing {
    pub entries: Vec<RemoteEntry>,
    pub more: bool,
}

/// Mathematical view of [`RemoteListing`].
pub struct RemoteListingView {
    pub entries: Seq<RemoteEntryView>,
    pub more: bool,
}

impl View for RemoteListing {
    type V = RemoteListingView;

    open spec fn view(&self) -> RemoteListingView {
        RemoteListingView { entries: self.entries.deep_view(), more: self.more }
    }
}

/// The listing of the installed versions `names`: in presentation order,
/// each marked as current where the activation record names it.
pub open spec fn local_listing(names: Seq<Seq<char>>, record: Option<Seq<char>>) -> Seq<
    LocalEntryView,
> {
    let ranked = ranking(names);
    Seq::new(
        ranked.len(),
        |i: int| LocalEntryView { version: ranked[i], current: record == Some(ranked[i]) },
    )
}

/// The names of a listing, in the listing's order.
pub open spec fn versions_of(entries: Seq<LocalEntryView>) -> Seq<Seq<char>> {
    Seq::new(entries.len(), |i: int| entries[i].version)
}

/// How many of `total` published versions are shown.
pub open spec fn shown(total: nat) -> nat {
    if total <= REMOTE_LIMIT {
        total
    } else {
        REMOTE_LIMIT as nat
    }
}

/// The listing of the published versions `available`, newest first: the
/// first ones up to the limit, each marked as installed where `installed`
/// names it and as current where the activation record names it. The
/// catalog itself is not cut.
pub open spec fn remote_listing(
    available: Seq<Seq<char>>,
    installed: Seq<Seq<char>>,
    record: Option<Seq<char>>,
) -> RemoteListingView {
    RemoteListingView {
        entries: Seq::new(
            shown(available.len()),
            |i: int|
                RemoteEntryView {
                    version: available[i],
                    installed: installed.contains(available[i]),
                    current: record == Some(available[i]),
                },
        ),
        more: available.len() > REMOTE_LIMIT,
    }
}

/// Whether `names` holds `name`.
pub fn holds(names: &Vec<String>, name: &str) -> (yes: bool)
    ensures
        yes == names.deep_view().contains(name@),
{
    let mut i: usize = 0;
    while i < names.len()
        invariant
            i <= names.len(),
            forall|k: int| 0 <= k < i ==> names.deep_view()[k] != name@,
        decreases names.len() - i,
    {
        if same_text(names[i].as_str(), name) {
            assert(names.deep_view()[i as int] == name@);
            return true;
        }
        i += 1;
    }
    false
}

/// Lists the installed versions `names` in presentation order: semantic
/// versions first, in descending order of precedence as the `semver` crate
/// orders versions, whatever order they were given in; any other name
/// after them, in descending lexicographic order; none dropped. The entry
/// that the activation record names is marked as current.
pub fn list_local_versions(names: &Vec<String>, config: &Config) -> (entries: Vec<LocalEntry>)
    ensures
        entries.deep_view() == local_listing(names.deep_view(), config@),
        entries.len() == names.len(),
        in_rank_order(versions_of(entries.deep_view())),
        versions_of(entries.deep_view()).to_multiset() == names.deep_view().to_multiset(),
        keeps_ties(names.deep_view(), versions_of(entries.deep_view())),
{
    let ghost all = names.deep_view();
    let mut copies: Vec<String> = Vec::new();
    let mut i: usize = 0;
    while i < names.len()
        invariant
            i <= names.len(),
            all == names.deep_view(),
            copies.len() == i,
            forall|k: int| 0 <= k < i ==> copies.deep_view()[k] == all[k],
        decreases names.len() - i,
    {
        copies.push(names[i].clone());
        i += 1;
    }
    assert(copies.deep_view() =~= all);
    let ranked = rank(copies);
    let ghost target = local_listing(all, config@);
    let mut entries: Vec<LocalEntry> = Vec::new();
    let mut j: usize = 0;
    while j < ranked.len()
        invariant
            j <= ranked.len(),
            ranked.deep_view() == ranking(all),
            target == local_listing(all, config@),
            entries.len() == j,
            forall|k: int| 0 <= k < j ==> entries.deep_view()[k] == target[k],
        decreases ranked.len() - j,
    {
        let current = config.is_active(ranked[j].as_str());
        assert(ranked.deep_view()[j as int] == ranked[j as int]@);
        entries.push(LocalEntry { version: ranked[j].clone(), current });
        j += 1;
    }
    assert(entries.deep_view() =~= target);
    assert(versions_of(entries.deep_view()) =~= ranked.deep_view());
    entries
}

/// Lists the published versions `available`, newest first, for showing: at
/// most the first [`REMOTE_LIMIT`] of them, each marked as installed where
/// `installed` names it and as current where the activation record does,
/// and says whether the catalog holds more than are shown.
pub fn list_remote_versions(
    available: &Vec<String>,
    installed: &Vec<String>,
    config: &Config,
) -> (listing: RemoteListing)
    ensures
        listing@ == remote_listing(available.deep_view(), installed.deep_view(), config@),
{
    let ghost target = remote_listing(available.deep_view(), installed.deep_view(), config@);
    let count: usize = if available.len() <= REMOTE_LIMIT {
        available.len()
    } else {
        REMOTE_LIMIT
    };
    let mut entries: Vec<RemoteEntry> = Vec::new();
    let mut i: usize = 0;
    while i < count
        invariant
            i <= count,
            count <= available.len(),
            count == shown(available.deep_view().len()),
            target == remote_listing(available.deep_view(), installed.deep_view(), config@),
            entries.len() == i,
            forall|k: int| 0 <= k < i ==> entries.deep_view()[k] == target.entries[k],
        decreases count - i,
    {
        let version = available[i].as_str();
        assert(available.deep_view()[i as int] == version@);
        let entry = RemoteEntry {
            version: available[i].clone(),
            installed: holds(installed, version),
            current: config.is_active(version),
        };
        entries.push(entry);
        i += 1;
    }
    assert(entries.deep_view() =~= target.entries);
    RemoteListing { entries, more: available.len() > REMOTE_LIMIT }
}

/// Where a listing stands.
#[derive(Debug, Clone, Copy, PartialEq, Eq, Structural)]
pub enum ListPhase {
    /// The catalog was asked for.
    Catalog,
    /// The activation record was asked for.
    Record,
    /// The default activation record is being saved.
    Materialize,
    /// The installed versions were asked for.
    Names,
}

/// The state of a listing under way.
#[derive(Debug, Clone, PartialEq, Eq)]
pub struct ListState {
    /// Whether the published versions are listed, not the installed ones.
    pub remote: bool,
    pub phase: ListPhase,
    /// The catalog, once fetched.
    pub available: Vec<String>,
    /// The activation record, once loaded.
    pub record: Config,
}

/// Mathematical view of [`ListState`].
pub struct ListView {
    pub remote: bool,
    pub phase: ListPhase,
    pub available: Seq<Seq<char>>,
    pub record: Option<Seq<char>>,
}

impl View for ListState {
    type V = ListView;

    open spec fn view(&self) -> ListView {
        ListView {
            remote: self.remote,
            phase: self.phase,
            available: self.available.deep_view(),
            record: self.record@,
        }
    }
}

/// The first step of a listing: the catalog is fetched for a remote
/// listing, the activation record is read for a local one.
pub open spec fn begun(remote: bool) -> StepView {
    let state = ListView {
        remote,
        phase: if remote {
            ListPhase::Catalog
        } else {
            ListPhase::Record
        },
        available: Seq::empty(),
        record: None,
    };
    StepView::Continue(
        LifecycleView::List(state),
        if remote {
            RequestView::FetchCatalog
        } else {
            RequestView::ReadConfig
        },
    )
}

/// The names that a reply to `ListInstalled` gives. Where the versions root
/// cannot be read, nothing is installed.
pub open spec fn names_of(reply: ReplyView) -> Seq<Seq<char>> {
    match reply {
        ReplyView::Names(names) => names,
        _ => Seq::empty(),
    }
}

/// The step after `reply` in a listing.
pub open spec fn after(state: ListView, reply: ReplyView) -> StepView {
    match state.phase {
        ListPhase::Catalog => match reply {
            ReplyView::Catalog(available) => if available.len() == 0 {
                StepView::Finished(
                    OutcomeView::Remote(
                        RemoteListingView { entries: Seq::empty(), more: false },
                    ),
                )
            } else {
                StepView::Continue(
                    LifecycleView::List(
                        ListView { phase: ListPhase::Record, available, ..state },
                    ),
                    RequestView::ReadConfig,
                )
            },
            _ => StepView::Failed(ErrorView::CatalogUnavailable),
        },
        ListPhase::Record => match reply {
            ReplyView::Config(found) => match loaded(found) {
                LoadedView::Ready(record) => StepView::Continue(
                    LifecycleView::List(ListView { phase: ListPhase::Names, record, ..state }),
                    RequestView::ListInstalled,
                ),
                LoadedView::Materialize(record) => StepView::Continue(
                    LifecycleView::List(
                        ListView { phase: ListPhase::Materialize, record, ..state },
                    ),
                    RequestView::WriteConfig(record),
                ),
                LoadedView::Failed(error) => StepView::Failed(error),
            },
            _ => StepView::Failed(ErrorView::ConfigIoError),
        },
        ListPhase::Materialize => if confirms_done(reply) {
            StepView::Continue(
                LifecycleView::List(ListView { phase: ListPhase::Names, ..state }),
                RequestView::ListInstalled,
            )
        } else {
            StepView::Failed(ErrorView::ConfigIoError)
        },
        ListPhase::Names => if state.remote {
            StepView::Finished(
                OutcomeView::Remote(
                    remote_listing(state.available, names_of(reply), state.record),
                ),
            )
        } else {
            StepView::Finished(OutcomeView::Local(local_listing(names_of(reply), state.record)))
        },
    }
}

/// Starts a listing: of the published versions where `remote` is set, of
/// the installed versions otherwise.
pub fn execute(remote: bool) -> (step: Step)
    ensures
        step@ == begun(remote),
{
    let state = ListState {
        remote,
        phase: if remote {
            ListPhase::Catalog
        } else {
            ListPhase::Record
        },
        available: Vec::new(),
        record: Config::default(),
    };
    assert(state.available.deep_view() =~= Seq::<Seq<char>>::empty());
    if remote {
        Step::Continue(Lifecycle::List(state), Request::FetchCatalog)
    } else {
        Step::Continue(Lifecycle::List(state), Request::ReadConfig)
    }
}

/// Advances a listing by the reply to its last request.
pub fn proceed(state: ListState, reply: Reply) -> (step: Step)
    ensures
        step@ == after(state@, reply@),
{
    let ListState { remote, phase, available, record } = state;
    match phase {
        ListPhase::Catalog => match reply {
            Reply::Catalog(catalog) => {
                if catalog.len() == 0 {
                    let entries: Vec<RemoteEntry> = Vec::new();
                    assert(entries.deep_view() =~= Seq::<RemoteEntryView>::empty());
                    Step::Finished(Outcome::Remote(RemoteListing { entries, more: false }))
                } else {
                    Step::Continue(
                        Lifecycle::List(
                            ListState {
                                remote,
                                phase: ListPhase::Record,
                                available: catalog,
                                record,
                            },
                        ),
                        Request::ReadConfig,
                    )
                }
            },
            _ => Step::Failed(LifecycleError::CatalogUnavailable),
        },
        ListPhase::Record => match reply {
            Reply::Config(found) => match load_config(found) {
                Loaded::Ready(config) => Step::Continue(
                    Lifecycle::List(
                        ListState { remote, phase: ListPhase::Names, available, record: config },
                    ),
                    Request::ListInstalled,
                ),
                Loaded::Materialize(config) => {
                    let request = save_config(&config);
                    Step::Continue(
                        Lifecycle::List(
                            ListState {
                                remote,
                                phase: ListPhase::Materialize,
                                available,
                                record: config,
                            },
                        ),
                        request,
                    )
                },
                Loaded::Failed(error) => Step::Failed(error),
            },
            _ => Step::Failed(LifecycleError::ConfigIoError),
        },
        ListPhase::Materialize => match reply {
            Reply::Done => Step::Continue(
                Lifecycle::List(ListState { remote, phase: ListPhase::Names, available, record }),
                Request::ListInstalled,
            ),
            _ => Step::Failed(LifecycleError::ConfigIoError),
        },
        ListPhase::Names => {
            let names = match reply {
                Reply::Names(names) => names,
                _ => {
                    let none: Vec<String> = Vec::new();
                    assert(none.deep_view() =~= Seq::<Seq<char>>::empty());
                    none
                },
            };
            if remote {
                Step::Finished(Outcome::Remote(list_remote_versions(&available, &names, &record)))
            } else {
                Step::Finished(Outcome::Local(list_local_versions(&names, &record)))
            }
        },
    }
}

} // verus!
