//! The activation record and the directories the tool works in.

use crate::error::{ErrorView, LifecycleError};
use crate::lifecycle::{Request, RequestView};
use vstd::prelude::*;

verus! {

/// The activation record: the version that is active, if any.
#[derive(Debug, Clone, PartialEq, Eq)]
pub struct Config {
    pub active_version: Option<String>,
}

impl View for Config {
    type V = Option<Seq<char>>;

    open spec fn view(&self) -> Option<Seq<char>> {
        match self.active_version {
            Some(version) => Some(version@),
            None => None,
        }
    }
}

impl Default for Config {
    /// The record of a fresh installation: no version is active.
    fn default() -> (config: Config)
        ensures
            config@ is None,
    {
        Config { active_version: None }
    }
}

impl Config {
    /// A record that names `version` as active.
    pub fn activating(version: &str) -> (config: Config)
        ensures
            config@ == Some(version@),
    {
        Config { active_version: Some(version.to_owned()) }
    }

    /// A copy of this record.
    pub fn duplicate(&self) -> (copy: Config)
        ensures
            copy@ == self@,
    {
        match &self.active_version {
            Some(version) => Config { active_version: Some(version.clone()) },
            None => Config { active_version: None },
        }
    }

    /// Whether `version` is the active one.
    pub fn is_active(&self, version: &str) -> (yes: bool)
        ensures
            yes == (self@ == Some(version@)),
    {
        match &self.active_version {
            Some(active) => crate::text::same_text(active.as_str(), version),
            None => false,
        }
    }
}

/// What was found where the activation record is kept.
#[derive(Debug, Clone, PartialEq, Eq)]
pub enum ConfigRead {
    /// There is no file yet.
    Missing,
    /// The file holds this record.
    Found(Config),
    /// The file does not hold a record.
    Corrupt,
    /// The file could not be read.
    Unreadable,
}

/// Mathematical view of [`ConfigRead`].
pub enum ConfigReadView {
    Missing,
    Found(Option<Seq<char>>),
    Corrupt,
    Unreadable,
}

impl View for ConfigRead {
    type V = ConfigReadView;

    open spec fn view(&self) -> ConfigReadView {
        match self {
            ConfigRead::Missing => ConfigReadView::Missing,
            ConfigRead::Found(config) => ConfigReadView::Found(config@),
            ConfigRead::Corrupt => ConfigReadView::Corrupt,
            ConfigRead::Unreadable => ConfigReadView::Unreadable,
        }
    }
}

/// What loading the activation record comes to.
#[derive(Debug, Clone, PartialEq, Eq)]
pub enum Loaded {
    /// The record is this one.
    Ready(Config),
    /// No record exists yet: this default is the record, once it is saved.
    Materialize(Config),
    /// The record cannot be had.
    Failed(LifecycleError),
}

/// Mathematical view of [`Loaded`].
pub enum LoadedView {
    Ready(Option<Seq<char>>),
    Materialize(Option<Seq<char>>),
    Failed(ErrorView),
}

impl View for Loaded {
    type V = LoadedView;

    open spec fn view(&self) -> LoadedView {
        match self {
            Loaded::Ready(config) => LoadedView::Ready(config@),
            Loaded::Materialize(config) => LoadedView::Materialize(config@),
            Loaded::Failed(error) => LoadedView::Failed(error@),
        }
    }
}

/// What loading comes to for each thing found.
pub open spec fn loaded(found: ConfigReadView) -> LoadedView {
    match found {
        ConfigReadView::Found(record) => LoadedView::Ready(record),
        ConfigReadView::Missing => LoadedView::Materialize(None),
        ConfigReadView::Corrupt => LoadedView::Failed(ErrorView::ConfigCorrupt),
        ConfigReadView::Unreadable => LoadedView::Failed(ErrorView::ConfigIoError),
    }
}

/// Loads the activation record from what was found in its place. A record
/// that is there is returned. Where none exists yet the default record, with
/// no active version, is to be saved first. Content that is no record is
/// reported as `ConfigCorrupt` and never replaced by the default; a file that
/// cannot be read as `ConfigIoError`.
pub fn load_config(found: ConfigRead) -> (r: Loaded)
    ensures
        r@ == loaded(found@),
{
    match found {
        ConfigRead::Found(config) => Loaded::Ready(config),
        ConfigRead::Missing => Loaded::Materialize(Config::default()),
        ConfigRead::Corrupt => Loaded::Failed(LifecycleError::ConfigCorrupt),
        ConfigRead::Unreadable => Loaded::Failed(LifecycleError::ConfigIoError),
    }
}

/// The request that saves `config`: the persisted record is replaced by
/// all of `config`.
pub fn save_config(config: &Config) -> (request: Request)
    ensures
        request@ == RequestView::WriteConfig(config@),
{
    Request::WriteConfig(config.duplicate())
}

/// The directories of the tool.
#[derive(Debug, Clone, PartialEq, Eq)]
pub struct NodeSparkDirs {
    /// Holds the activation record and, while a version is installed, its archive.
    pub config_dir: String,
    /// Holds one directory per installed version, named by the version.
    pub versions_dir: String,
    /// Holds the launchers; expected on the search path.
    pub bin_dir: String,
    /// Stands between the parts of a path.
    pub separator: String,
}

/// `name` below the directory `base`.
pub open spec fn below(base: Seq<char>, separator: Seq<char>, name: Seq<char>) -> Seq<char> {
    base + separator + name
}

/// `name` below the directory `base`.
pub fn join(base: &str, separator: &str, name: &str) -> (path: String)
    ensures
        path@ == below(base@, separator@, name@),
{
    let mut path = base.to_owned();
    path.append(separator);
    path.append(name);
    path
}

/// Lays out the directories of the tool: the given directory for
/// configuration, and `versions` and `bin` below the given data directory.
pub fn get_dirs(config_dir: &str, data_dir: &str, separator: &str) -> (dirs: NodeSparkDirs)
    ensures
        dirs.config_dir@ == config_dir@,
        dirs.versions_dir@ == below(data_dir@, separator@, "versions"@),
        dirs.bin_dir@ == below(data_dir@, separator@, "bin"@),
        dirs.separator@ == separator@,
{
    NodeSparkDirs {
        config_dir: config_dir.to_owned(),
        versions_dir: join(data_dir, separator, "versions"),
        bin_dir: join(data_dir, separator, "bin"),
        separator: separator.to_owned(),
    }
}

impl NodeSparkDirs {
    /// The file that holds the activation record.
    pub fn config_file(&self) -> (path: String)
        ensures
            path@ == below(self.config_dir@, self.separator@, "config.json"@),
    {
        join(self.config_dir.as_str(), self.separator.as_str(), "config.json")
    }

    /// The directory in which archives are kept while they are installed.
    pub fn temp_dir(&self) -> (path: String)
        ensures
            path@ == below(self.config_dir@, self.separator@, "temp"@),
    {
        join(self.config_dir.as_str(), self.separator.as_str(), "temp")
    }

    /// The directory that holds the installed `version`.
    pub fn version_dir(&self, version: &str) -> (path: String)
        ensures
            path@ == below(self.versions_dir@, self.separator@, version@),
    {
        join(self.versions_dir.as_str(), self.separator.as_str(), version)
    }

    /// The stable path of the launcher `name`.
    pub fn launcher_link(&self, name: &str) -> (path: String)
        ensures
            path@ == below(self.bin_dir@, self.separator@, name@),
    {
        join(self.bin_dir.as_str(), self.separator.as_str(), name)
    }

    /// The executable `name` of the installed `version`, which the launcher
    /// of that name points to while the version is active.
    pub fn launcher_target(&self, version: &str, name: &str) -> (path: String)
        ensures
            path@ == below(
                below(below(self.versions_dir@, self.separator@, version@), self.separator@, "bin"@),
                self.separator@,
                name@,
            ),
    {
        let version_dir = self.version_dir(version);
        let bin = join(version_dir.as_str(), self.separator.as_str(), "bin");
        join(bin.as_str(), self.separator.as_str(), name)
    }
}

} // verus!
