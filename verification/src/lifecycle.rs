//! The version lifecycle as state machines. An operation is started by the
//! `execute` function of its command and then advanced reply by reply: each
//! step either asks the host for one piece of work or ends the operation.
//! The host does the work and reports what came of it; the machine decides.

use crate::commands::activate::{UseState, UseView};
use crate::commands::install::{InstallState, InstallView, LinkState, LinkView};
use crate::commands::list::{
    ListState, ListView, LocalEntry, LocalEntryView, RemoteListing, RemoteListingView,
};
use crate::commands::remove::{RemoveState, RemoveView};
use crate::config::{Config, ConfigRead, ConfigReadView};
use crate::error::{ErrorView, LifecycleError};
use crate::text::same_text;
use crate::utils::extract::ArchiveFormat;
use crate::utils::{concrete_version, is_version_id, normalize, parse_version};
use vstd::prelude::*;

verus! {

/// The executables that are reachable from the stable directory.
#[derive(Debug, Clone, Copy, PartialEq, Eq, Structural)]
pub enum Launcher {
    Node,
    Npm,
    Npx,
}

impl Launcher {
    /// The file name of the launcher.
    pub open spec fn name(self) -> Seq<char> {
        match self {
            Launcher::Node => "node"@,
            Launcher::Npm => "npm"@,
            Launcher::Npx => "npx"@,
        }
    }

    /// The launcher that is switched after this one.
    pub open spec fn following(self) -> Option<Launcher> {
        match self {
            Launcher::Node => Some(Launcher::Npm),
            Launcher::Npm => Some(Launcher::Npx),
            Launcher::Npx => None,
        }
    }

    /// The names of the launchers that are switched before this one.
    pub open spec fn preceding(self) -> Seq<Seq<char>> {
        match self {
            Launcher::Node => Seq::empty(),
            Launcher::Npm => seq![Launcher::Node.name()],
            Launcher::Npx => seq![Launcher::Node.name(), Launcher::Npm.name()],
        }
    }

    /// The file name of the launcher.
    pub fn file_name(self) -> (name: &'static str)
        ensures
            name@ == self.name(),
    {
        match self {
            Launcher::Node => "node",
            Launcher::Npm => "npm",
            Launcher::Npx => "npx",
        }
    }

    /// The launcher that is switched after this one.
    pub fn next(self) -> (next: Option<Launcher>)
        ensures
            next == self.following(),
    {
        match self {
            Launcher::Node => Some(Launcher::Npm),
            Launcher::Npm => Some(Launcher::Npx),
            Launcher::Npx => None,
        }
    }

    /// The names of the launchers that are switched before this one.
    pub fn switched_before(self) -> (names: Vec<String>)
        ensures
            names.deep_view() == self.preceding(),
    {
        let mut names: Vec<String> = Vec::new();
        match self {
            Launcher::Node => {},
            Launcher::Npm => {
                names.push(Launcher::Node.file_name().to_owned());
            },
            Launcher::Npx => {
                names.push(Launcher::Node.file_name().to_owned());
                names.push(Launcher::Npm.file_name().to_owned());
            },
        }
        assert(names.deep_view() =~= self.preceding());
        names
    }
}

/// One piece of work that the host is asked to do.
#[derive(Debug, Clone, PartialEq, Eq)]
pub enum Request {
    /// Fetch the catalog of published versions, newest first.
    FetchCatalog,
    /// Say whether the directory of this version exists.
    CheckInstalled(String),
    /// Read the activation record.
    ReadConfig,
    /// Replace the activation record by this one.
    WriteConfig(Config),
    /// Download `url` to the archive file `archive`, whole or not at all.
    Download { url: String, archive: String },
    /// Unpack the archive file `archive` into the directory of `version`,
    /// whole or not at all, and discard the archive.
    Extract { archive: String, version: String, format: ArchiveFormat },
    /// Remove the launcher from the stable directory; its absence is no failure.
    RemoveLauncher(Launcher),
    /// Make the launcher point into the directory of `version`.
    LinkLauncher { launcher: Launcher, version: String },
    /// Delete the directory of this version.
    RemoveVersion(String),
    /// Name the directories under the versions root.
    ListInstalled,
}

/// Mathematical view of [`Request`].
pub enum RequestView {
    FetchCatalog,
    CheckInstalled(Seq<char>),
    ReadConfig,
    WriteConfig(Option<Seq<char>>),
    Download { url: Seq<char>, archive: Seq<char> },
    Extract { archive: Seq<char>, version: Seq<char>, format: ArchiveFormat },
    RemoveLauncher(Launcher),
    LinkLauncher { launcher: Launcher, version: Seq<char> },
    RemoveVersion(Seq<char>),
    ListInstalled,
}

impl View for Request {
    type V = RequestView;

    open spec fn view(&self) -> RequestView {
        match self {
            Request::FetchCatalog => RequestView::FetchCatalog,
            Request::CheckInstalled(version) => RequestView::CheckInstalled(version@),
            Request::ReadConfig => RequestView::ReadConfig,
            Request::WriteConfig(config) => RequestView::WriteConfig(config@),
            Request::Download { url, archive } => RequestView::Download {
                url: url@,
                archive: archive@,
            },
            Request::Extract { archive, version, format } => RequestView::Extract {
                archive: archive@,
                version: version@,
                format: *format,
            },
            Request::RemoveLauncher(launcher) => RequestView::RemoveLauncher(*launcher),
            Request::LinkLauncher { launcher, version } => RequestView::LinkLauncher {
                launcher: *launcher,
                version: version@,
            },
            Request::RemoveVersion(version) => RequestView::RemoveVersion(version@),
            Request::ListInstalled => RequestView::ListInstalled,
        }
    }
}

/// What came of a request.
#[derive(Debug, Clone, PartialEq, Eq)]
pub enum Reply {
    /// The published versions, newest first.
    Catalog(Vec<String>),
    /// Whether the directory of the version exists.
    Installed(bool),
    /// What was found in place of the activation record.
    Config(ConfigRead),
    /// The names of the directories under the versions root, in any order.
    Names(Vec<String>),
    /// The work was done.
    Done,
    /// The work could not be done.
    Failed,
}

/// Mathematical view of [`Reply`].
pub enum ReplyView {
    Catalog(Seq<Seq<char>>),
    Installed(bool),
    Config(ConfigReadView),
    Names(Seq<Seq<char>>),
    Done,
    Failed,
}

impl View for Reply {
    type V = ReplyView;

    open spec fn view(&self) -> ReplyView {
        match self {
            Reply::Catalog(versions) => ReplyView::Catalog(versions.deep_view()),
            Reply::Installed(present) => ReplyView::Installed(*present),
            Reply::Config(found) => ReplyView::Config(found@),
            Reply::Names(names) => ReplyView::Names(names.deep_view()),
            Reply::Done => ReplyView::Done,
            Reply::Failed => ReplyView::Failed,
        }
    }
}

/// What a completed operation has achieved.
#[derive(Debug, Clone, PartialEq, Eq)]
pub enum Outcome {
    /// The version was installed before; nothing was fetched or changed.
    AlreadyInstalled(String),
    /// The version was installed; `activated` where it became the active one.
    Installed { version: String, activated: bool },
    /// The version is now the active one.
    Activated(String),
    /// The version was removed.
    Removed(String),
    /// The launchers point to the version.
    Linked(String),
    /// The installed versions, in presentation order.
    Local(Vec<LocalEntry>),
    /// The published versions, newest first.
    Remote(RemoteListing),
}

/// Mathematical view of [`Outcome`].
pub enum OutcomeView {
    AlreadyInstalled(Seq<char>),
    Installed { version: Seq<char>, activated: bool },
    Activated(Seq<char>),
    Removed(Seq<char>),
    Linked(Seq<char>),
    Local(Seq<LocalEntryView>),
    Remote(RemoteListingView),
}

impl View for Outcome {
    type V = OutcomeView;

    open spec fn view(&self) -> OutcomeView {
        match self {
            Outcome::AlreadyInstalled(version) => OutcomeView::AlreadyInstalled(version@),
            Outcome::Installed { version, activated } => OutcomeView::Installed {
                version: version@,
                activated: *activated,
            },
            Outcome::Activated(version) => OutcomeView::Activated(version@),
            Outcome::Removed(version) => OutcomeView::Removed(version@),
            Outcome::Linked(version) => OutcomeView::Linked(version@),
            Outcome::Local(entries) => OutcomeView::Local(entries.deep_view()),
            Outcome::Remote(listing) => OutcomeView::Remote(listing@),
        }
    }
}

/// An operation under way: the state of the machine of its command.
#[derive(Debug, Clone, PartialEq, Eq)]
pub enum Lifecycle {
    Install(InstallState),
    Use(UseState),
    Remove(RemoveState),
    Link(LinkState),
    List(ListState),
}

/// Mathematical view of [`Lifecycle`].
pub enum LifecycleView {
    Install(InstallView),
    Use(UseView),
    Remove(RemoveView),
    Link(LinkView),
    List(ListView),
}

impl View for Lifecycle {
    type V = LifecycleView;

    open spec fn view(&self) -> LifecycleView {
        match self {
            Lifecycle::Install(state) => LifecycleView::Install(state@),
            Lifecycle::Use(state) => LifecycleView::Use(state@),
            Lifecycle::Remove(state) => LifecycleView::Remove(state@),
            Lifecycle::Link(state) => LifecycleView::Link(state@),
            Lifecycle::List(state) => LifecycleView::List(state@),
        }
    }
}

/// What an operation does next.
#[derive(Debug, Clone, PartialEq, Eq)]
pub enum Step {
    /// The host is to carry out the request and to advance the state by its reply.
    Continue(Lifecycle, Request),
    /// The operation is complete.
    Finished(Outcome),
    /// The operation has failed; nothing further is attempted.
    Failed(LifecycleError),
}

/// Mathematical view of [`Step`].
pub enum StepView {
    Continue(LifecycleView, RequestView),
    Finished(OutcomeView),
    Failed(ErrorView),
}

impl View for Step {
    type V = StepView;

    open spec fn view(&self) -> StepView {
        match self {
            Step::Continue(state, request) => StepView::Continue(state@, request@),
            Step::Finished(outcome) => StepView::Finished(outcome@),
            Step::Failed(error) => StepView::Failed(error@),
        }
    }
}

/// What a specifier asks for.
#[derive(Debug, Clone, PartialEq, Eq)]
pub enum Resolution {
    /// The newest published version, whatever it is.
    Newest,
    /// This version.
    Version(String),
    /// Nothing that can be understood.
    Invalid(LifecycleError),
}

/// Mathematical view of [`Resolution`].
pub enum ResolutionView {
    Newest,
    Version(Seq<char>),
    Invalid(ErrorView),
}

impl View for Resolution {
    type V = ResolutionView;

    open spec fn view(&self) -> ResolutionView {
        match self {
            Resolution::Newest => ResolutionView::Newest,
            Resolution::Version(version) => ResolutionView::Version(version@),
            Resolution::Invalid(error) => ResolutionView::Invalid(error@),
        }
    }
}

/// `specifier` is one of the aliases for the newest published version. Both
/// `latest` and `lts` stand for it.
pub open spec fn is_alias(specifier: Seq<char>) -> bool {
    specifier == "latest"@ || specifier == "lts"@
}

/// What `specifier` asks for: the newest published version for an alias,
/// its normalized form for a semantic version, nothing for anything else.
pub open spec fn resolution(specifier: Seq<char>) -> ResolutionView {
    if is_alias(specifier) {
        ResolutionView::Newest
    } else {
        match concrete_version(specifier) {
            Some(id) => ResolutionView::Version(id),
            None => ResolutionView::Invalid(ErrorView::InvalidSpecifier(specifier)),
        }
    }
}

/// The version that the newest-version aliases stand for, given the catalog:
/// its first entry.
pub open spec fn newest_of(catalog: Seq<Seq<char>>) -> Option<Seq<char>> {
    if catalog.len() == 0 {
        None
    } else {
        Some(catalog[0])
    }
}

/// A semantic version, with or without a leading `v`, resolves to its
/// normalized form, and resolving that form again gives the same: no
/// version is mistaken for an alias.
pub proof fn versions_resolve_to_themselves(specifier: Seq<char>)
    ensures
        is_version_id(normalize(specifier)) ==> {
            &&& resolution(specifier) == ResolutionView::Version(normalize(specifier))
            &&& resolution(normalize(specifier)) == resolution(specifier)
        },
{
    reveal_strlit("latest");
    reveal_strlit("lts");
}

/// Reads a specifier. This looks at the text alone: it touches neither the
/// file system nor the activation record.
pub fn resolve(specifier: &str) -> (r: Resolution)
    ensures
        r@ == resolution(specifier@),
{
    if same_text(specifier, "latest") || same_text(specifier, "lts") {
        return Resolution::Newest;
    }
    match parse_version(specifier) {
        Ok(version) => Resolution::Version(version),
        Err(error) => Resolution::Invalid(error),
    }
}

/// The newest version of a catalog that lists the newest first. A catalog
/// without entries gives `NoVersionsPublished`.
pub fn newest(catalog: &Vec<String>) -> (r: Result<String, LifecycleError>)
    ensures
        match newest_of(catalog.deep_view()) {
            Some(version) => r matches Ok(v) && v@ == version,
            None => r matches Err(e) && e@ == ErrorView::NoVersionsPublished,
        },
{
    if catalog.len() == 0 {
        Err(LifecycleError::NoVersionsPublished)
    } else {
        Ok(catalog[0].clone())
    }
}

/// Whether the reply confirms that the version is installed. Any other
/// reply counts as its absence.
pub open spec fn confirms_presence(reply: ReplyView) -> bool {
    reply == ReplyView::Installed(true)
}

/// Whether the reply says that the work was done. Any other reply counts as
/// failure of the work.
pub open spec fn confirms_done(reply: ReplyView) -> bool {
    reply is Done
}

/// What the next step is after `reply` to the request of `state`.
pub open spec fn after(state: LifecycleView, reply: ReplyView) -> StepView {
    match state {
        LifecycleView::Install(s) => crate::commands::install::after(s, reply),
        LifecycleView::Use(s) => crate::commands::activate::after(s, reply),
        LifecycleView::Remove(s) => crate::commands::remove::after(s, reply),
        LifecycleView::Link(s) => crate::commands::install::after_link(s, reply),
        LifecycleView::List(s) => crate::commands::list::after(s, reply),
    }
}

impl Lifecycle {
    /// Takes the reply to the request that came with this state and decides
    /// the next step.
    pub fn advance(self, reply: Reply) -> (step: Step)
        ensures
            step@ == after(self@, reply@),
    {
        match self {
            Lifecycle::Install(state) => crate::commands::install::proceed(state, reply),
            Lifecycle::Use(state) => crate::commands::activate::proceed(state, reply),
            Lifecycle::Remove(state) => crate::commands::remove::proceed(state, reply),
            Lifecycle::Link(state) => crate::commands::install::proceed_link(state, reply),
            Lifecycle::List(state) => crate::commands::list::proceed(state, reply),
        }
    }
}

} // verus!
