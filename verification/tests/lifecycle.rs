use node_spark::commands::install::create_node_symlinks;
use node_spark::commands::list::{RemoteEntry, RemoteListing};
use node_spark::commands::{activate, install, list, remove};
use node_spark::config::{Config, ConfigRead};
use node_spark::error::LifecycleError;
use node_spark::lifecycle::{Launcher, Outcome, Reply, Request, Step};
use node_spark::utils::extract::ArchiveFormat;
use node_spark::utils::{Arch, Os, Platform};
use std::collections::{BTreeMap, BTreeSet};

const LINUX: Platform = Platform { os: Os::Linux, arch: Arch::X64 };

#[derive(Debug, Clone, PartialEq, Eq)]
enum Stored {
    Missing,
    Record(Option<String>),
    Corrupt,
}

/// A host in memory. A request that equals `refuse` fails.
#[derive(Debug, Clone, PartialEq, Eq)]
struct World {
    catalog: Option<Vec<String>>,
    installed: BTreeSet<String>,
    stored: Stored,
    launchers: BTreeMap<String, String>,
    refuse: Option<Request>,
    seen: Vec<Request>,
}

fn world() -> World {
    World {
        catalog: Some(vec!["20.5.0".to_string(), "18.17.0".to_string(), "16.20.0".to_string()]),
        installed: BTreeSet::new(),
        stored: Stored::Missing,
        launchers: BTreeMap::new(),
        refuse: None,
        seen: Vec::new(),
    }
}

fn name_of(launcher: Launcher) -> String {
    launcher.file_name().to_string()
}

fn serve(world: &mut World, request: &Request) -> Reply {
    world.seen.push(request.clone());
    if world.refuse.as_ref() == Some(request) {
        return Reply::Failed;
    }
    match request {
        Request::FetchCatalog => match &world.catalog {
            Some(catalog) => Reply::Catalog(catalog.clone()),
            None => Reply::Failed,
        },
        Request::CheckInstalled(version) => Reply::Installed(world.installed.contains(version)),
        Request::ReadConfig => Reply::Config(match &world.stored {
            Stored::Missing => ConfigRead::Missing,
            Stored::Record(active) => ConfigRead::Found(Config { active_version: active.clone() }),
            Stored::Corrupt => ConfigRead::Corrupt,
        }),
        Request::WriteConfig(config) => {
            world.stored = Stored::Record(config.active_version.clone());
            Reply::Done
        }
        Request::Download { .. } => Reply::Done,
        Request::Extract { version, .. } => {
            world.installed.insert(version.clone());
            Reply::Done
        }
        Request::RemoveLauncher(launcher) => {
            world.launchers.remove(&name_of(*launcher));
            Reply::Done
        }
        Request::LinkLauncher { launcher, version } => {
            world.launchers.insert(name_of(*launcher), version.clone());
            Reply::Done
        }
        Request::RemoveVersion(version) => {
            world.installed.remove(version);
            Reply::Done
        }
        Request::ListInstalled => Reply::Names(world.installed.iter().cloned().collect()),
    }
}

fn drive(mut step: Step, world: &mut World) -> Result<Outcome, LifecycleError> {
    world.seen.clear();
    for _ in 0..32 {
        match step {
            Step::Continue(state, request) => {
                let reply = serve(world, &request);
                step = state.advance(reply);
            }
            Step::Finished(outcome) => return Ok(outcome),
            Step::Failed(error) => return Err(error),
        }
    }
    panic!("the operation did not end");
}

fn transfers(world: &World) -> usize {
    world
        .seen
        .iter()
        .filter(|request| matches!(request, Request::Download { .. } | Request::Extract { .. }))
        .count()
}

fn all_launchers(version: &str) -> BTreeMap<String, String> {
    ["node", "npm", "npx"].iter().map(|name| (name.to_string(), version.to_string())).collect()
}

#[test]
fn latest_and_lts_resolve_to_the_first_catalog_entry() {
    for alias in ["latest", "lts"] {
        let Step::Continue(state, request) = install::execute(alias, LINUX) else { panic!("an alias needs the catalog") };
        assert_eq!(request, Request::FetchCatalog);
        let catalog = vec!["20.5.0".to_string(), "18.17.0".to_string(), "16.20.0".to_string()];
        let Step::Continue(_, request) = state.advance(Reply::Catalog(catalog)) else { panic!("the version is probed next") };
        assert_eq!(request, Request::CheckInstalled("20.5.0".to_string()));
    }
}

#[test]
fn alias_resolves_for_use_and_remove_too() {
    let mut host = world();
    host.installed.insert("20.5.0".to_string());
    host.installed.insert("18.17.0".to_string());
    host.stored = Stored::Record(Some("18.17.0".to_string()));
    assert_eq!(drive(remove::execute("latest"), &mut host), Ok(Outcome::Removed("20.5.0".to_string())));
    assert_eq!(
        drive(activate::execute("lts"), &mut host),
        Err(LifecycleError::NotInstalled("20.5.0".to_string()))
    );
}

#[test]
fn empty_catalog_means_no_versions_published() {
    let mut host = world();
    host.catalog = Some(Vec::new());
    assert_eq!(drive(install::execute("latest", LINUX), &mut host), Err(LifecycleError::NoVersionsPublished));
    assert_eq!(host.seen, vec![Request::FetchCatalog]);
}

#[test]
fn unreachable_catalog_is_reported() {
    let mut host = world();
    host.catalog = None;
    assert_eq!(drive(install::execute("lts", LINUX), &mut host), Err(LifecycleError::CatalogUnavailable));
    assert_eq!(drive(list::execute(true), &mut host), Err(LifecycleError::CatalogUnavailable));
}

#[test]
fn invalid_specifier_fails_before_any_request() {
    assert_eq!(
        install::execute("18", LINUX),
        Step::Failed(LifecycleError::InvalidSpecifier("18".to_string()))
    );
    assert_eq!(
        activate::execute("nonsense"),
        Step::Failed(LifecycleError::InvalidSpecifier("nonsense".to_string()))
    );
}

#[test]
fn first_install_activates_and_switches_the_launchers() {
    let mut host = world();
    let outcome = drive(install::execute("18.17.0", LINUX), &mut host);
    assert_eq!(outcome, Ok(Outcome::Installed { version: "18.17.0".to_string(), activated: true }));
    assert_eq!(host.stored, Stored::Record(Some("18.17.0".to_string())));
    assert_eq!(host.launchers, all_launchers("18.17.0"));
    assert!(host.installed.contains("18.17.0"));
}

#[test]
fn install_asks_in_the_documented_order() {
    let mut host = world();
    drive(install::execute("v18.17.0", LINUX), &mut host).unwrap();
    let version = "18.17.0".to_string();
    let archive = "node-v18.17.0.tar.gz".to_string();
    assert_eq!(
        host.seen,
        vec![
            Request::CheckInstalled(version.clone()),
            Request::Download {
                url: "https://nodejs.org/dist/v18.17.0/node-v18.17.0-linux-x64.tar.gz".to_string(),
                archive: archive.clone(),
            },
            Request::Extract { archive, version: version.clone(), format: ArchiveFormat::TarGz },
            Request::ReadConfig,
            Request::WriteConfig(Config { active_version: None }),
            Request::WriteConfig(Config { active_version: Some(version.clone()) }),
            Request::CheckInstalled(version.clone()),
            Request::RemoveLauncher(Launcher::Node),
            Request::LinkLauncher { launcher: Launcher::Node, version: version.clone() },
            Request::RemoveLauncher(Launcher::Npm),
            Request::LinkLauncher { launcher: Launcher::Npm, version: version.clone() },
            Request::RemoveLauncher(Launcher::Npx),
            Request::LinkLauncher { launcher: Launcher::Npx, version },
        ]
    );
}

#[test]
fn second_install_is_a_noop() {
    let mut host = world();
    drive(install::execute("18.17.0", LINUX), &mut host).unwrap();
    let before = host.clone();
    let outcome = drive(install::execute("18.17.0", LINUX), &mut host);
    assert_eq!(outcome, Ok(Outcome::AlreadyInstalled("18.17.0".to_string())));
    assert_eq!(transfers(&host), 0);
    assert_eq!(host.seen, vec![Request::CheckInstalled("18.17.0".to_string())]);
    assert_eq!(host.installed, before.installed);
    assert_eq!(host.stored, before.stored);
    assert_eq!(host.launchers, before.launchers);
}

#[test]
fn later_install_leaves_the_active_version() {
    let mut host = world();
    drive(install::execute("18.17.0", LINUX), &mut host).unwrap();
    let outcome = drive(install::execute("20.5.0", LINUX), &mut host);
    assert_eq!(outcome, Ok(Outcome::Installed { version: "20.5.0".to_string(), activated: false }));
    assert_eq!(host.stored, Stored::Record(Some("18.17.0".to_string())));
    assert_eq!(host.launchers, all_launchers("18.17.0"));
    assert_eq!(transfers(&host), 2);
}

#[test]
fn windows_install_uses_zip() {
    let mut host = world();
    let windows = Platform { os: Os::Windows, arch: Arch::Arm64 };
    drive(install::execute("20.5.0", windows), &mut host).unwrap();
    assert_eq!(
        host.seen[1],
        Request::Download {
            url: "https://nodejs.org/dist/v20.5.0/node-v20.5.0-win-arm64.zip".to_string(),
            archive: "node-v20.5.0.zip".to_string(),
        }
    );
    assert_eq!(
        host.seen[2],
        Request::Extract {
            archive: "node-v20.5.0.zip".to_string(),
            version: "20.5.0".to_string(),
            format: ArchiveFormat::Zip,
        }
    );
}

#[test]
fn failed_download_is_fetch_failed() {
    let mut host = world();
    host.refuse = Some(Request::Download {
        url: "https://nodejs.org/dist/v18.17.0/node-v18.17.0-linux-x64.tar.gz".to_string(),
        archive: "node-v18.17.0.tar.gz".to_string(),
    });
    assert_eq!(
        drive(install::execute("18.17.0", LINUX), &mut host),
        Err(LifecycleError::FetchFailed("18.17.0".to_string()))
    );
    assert!(host.installed.is_empty());
    assert_eq!(host.stored, Stored::Missing);
}

#[test]
fn failed_unpacking_is_extract_failed() {
    let mut host = world();
    host.refuse = Some(Request::Extract {
        archive: "node-v18.17.0.tar.gz".to_string(),
        version: "18.17.0".to_string(),
        format: ArchiveFormat::TarGz,
    });
    assert_eq!(
        drive(install::execute("18.17.0", LINUX), &mut host),
        Err(LifecycleError::ExtractFailed("node-v18.17.0.tar.gz".to_string()))
    );
    assert_eq!(host.stored, Stored::Missing);
    assert!(host.launchers.is_empty());
}

#[test]
fn corrupt_record_is_surfaced_and_kept() {
    let mut host = world();
    host.stored = Stored::Corrupt;
    assert_eq!(drive(install::execute("18.17.0", LINUX), &mut host), Err(LifecycleError::ConfigCorrupt));
    assert_eq!(host.stored, Stored::Corrupt);
    host.installed.insert("16.20.0".to_string());
    assert_eq!(drive(activate::execute("16.20.0"), &mut host), Err(LifecycleError::ConfigCorrupt));
    assert_eq!(drive(remove::execute("16.20.0"), &mut host), Err(LifecycleError::ConfigCorrupt));
    assert_eq!(drive(list::execute(false), &mut host), Err(LifecycleError::ConfigCorrupt));
    assert_eq!(host.stored, Stored::Corrupt);
    assert!(host.launchers.is_empty());
}

#[test]
fn unreadable_or_unwritable_record_is_config_io_error() {
    let Step::Continue(state, _) = list::execute(false) else { panic!("a listing starts with a request") };
    assert_eq!(
        state.advance(Reply::Config(ConfigRead::Unreadable)),
        Step::Failed(LifecycleError::ConfigIoError)
    );
    let mut host = world();
    host.refuse = Some(Request::WriteConfig(Config { active_version: None }));
    assert_eq!(drive(list::execute(false), &mut host), Err(LifecycleError::ConfigIoError));
    let mut host = world();
    host.installed.insert("18.17.0".to_string());
    host.stored = Stored::Record(None);
    host.refuse = Some(Request::WriteConfig(Config { active_version: Some("18.17.0".to_string()) }));
    assert_eq!(drive(activate::execute("18.17.0"), &mut host), Err(LifecycleError::ConfigIoError));
    assert!(host.launchers.is_empty());
}

#[test]
fn use_of_a_missing_version_fails_and_changes_nothing() {
    let mut host = world();
    host.installed.insert("16.20.0".to_string());
    host.stored = Stored::Record(Some("16.20.0".to_string()));
    host.launchers = all_launchers("16.20.0");
    let before = host.clone();
    assert_eq!(
        drive(activate::execute("18.17.0"), &mut host),
        Err(LifecycleError::NotInstalled("18.17.0".to_string()))
    );
    assert_eq!(host.stored, before.stored);
    assert_eq!(host.launchers, before.launchers);
    assert_eq!(host.installed, before.installed);
    assert_eq!(host.seen, vec![Request::CheckInstalled("18.17.0".to_string())]);
}

#[test]
fn use_records_before_it_switches() {
    let mut host = world();
    host.installed.insert("16.20.0".to_string());
    host.installed.insert("18.17.0".to_string());
    host.stored = Stored::Record(Some("16.20.0".to_string()));
    host.launchers = all_launchers("16.20.0");
    assert_eq!(drive(activate::execute("v18.17.0"), &mut host), Ok(Outcome::Activated("18.17.0".to_string())));
    assert_eq!(host.stored, Stored::Record(Some("18.17.0".to_string())));
    assert_eq!(host.launchers, all_launchers("18.17.0"));
    let write = host.seen.iter().position(|r| matches!(r, Request::WriteConfig(_))).unwrap();
    let first_launcher = host.seen.iter().position(|r| matches!(r, Request::RemoveLauncher(_))).unwrap();
    assert!(write < first_launcher);
}

#[test]
fn failed_launcher_names_those_already_switched() {
    let mut host = world();
    host.installed.insert("16.20.0".to_string());
    host.installed.insert("18.17.0".to_string());
    host.stored = Stored::Record(Some("16.20.0".to_string()));
    host.launchers = all_launchers("16.20.0");
    host.refuse = Some(Request::LinkLauncher { launcher: Launcher::Npm, version: "18.17.0".to_string() });
    assert_eq!(
        drive(activate::execute("18.17.0"), &mut host),
        Err(LifecycleError::ActivationIncomplete(vec!["node".to_string()]))
    );
    assert_eq!(host.stored, Stored::Record(Some("18.17.0".to_string())));
    assert_eq!(host.launchers.get("node"), Some(&"18.17.0".to_string()));
    assert_eq!(host.launchers.get("npx"), Some(&"16.20.0".to_string()));
    host.refuse = None;
    assert_eq!(drive(activate::execute("18.17.0"), &mut host), Ok(Outcome::Activated("18.17.0".to_string())));
    assert_eq!(host.launchers, all_launchers("18.17.0"));
}

#[test]
fn first_and_last_launcher_failures() {
    let mut host = world();
    host.installed.insert("18.17.0".to_string());
    host.refuse = Some(Request::RemoveLauncher(Launcher::Node));
    assert_eq!(
        drive(create_node_symlinks("18.17.0"), &mut host),
        Err(LifecycleError::ActivationIncomplete(Vec::new()))
    );
    host.refuse = Some(Request::LinkLauncher { launcher: Launcher::Npx, version: "18.17.0".to_string() });
    assert_eq!(
        drive(create_node_symlinks("18.17.0"), &mut host),
        Err(LifecycleError::ActivationIncomplete(vec!["node".to_string(), "npm".to_string()]))
    );
}

#[test]
fn launchers_are_not_touched_for_a_missing_version() {
    let mut host = world();
    host.launchers = all_launchers("16.20.0");
    assert_eq!(
        drive(create_node_symlinks("18.17.0"), &mut host),
        Err(LifecycleError::NotInstalled("18.17.0".to_string()))
    );
    assert_eq!(host.launchers, all_launchers("16.20.0"));
    assert_eq!(host.seen, vec![Request::CheckInstalled("18.17.0".to_string())]);
    host.installed.insert("18.17.0".to_string());
    assert_eq!(drive(create_node_symlinks("18.17.0"), &mut host), Ok(Outcome::Linked("18.17.0".to_string())));
    assert_eq!(host.launchers, all_launchers("18.17.0"));
}

#[test]
fn remove_of_the_active_version_is_refused() {
    let mut host = world();
    drive(install::execute("18.17.0", LINUX), &mut host).unwrap();
    let before = host.clone();
    assert_eq!(
        drive(remove::execute("18.17.0"), &mut host),
        Err(LifecycleError::CannotRemoveActive("18.17.0".to_string()))
    );
    assert_eq!(host.installed, before.installed);
    assert_eq!(host.stored, before.stored);
    assert_eq!(host.launchers, before.launchers);
}

#[test]
fn remove_of_an_inactive_version_deletes_only_it() {
    let mut host = world();
    drive(install::execute("18.17.0", LINUX), &mut host).unwrap();
    drive(install::execute("20.5.0", LINUX), &mut host).unwrap();
    let before = host.clone();
    assert_eq!(drive(remove::execute("v20.5.0"), &mut host), Ok(Outcome::Removed("20.5.0".to_string())));
    assert!(!host.installed.contains("20.5.0"));
    assert!(host.installed.contains("18.17.0"));
    assert_eq!(host.stored, before.stored);
    assert_eq!(host.launchers, before.launchers);
}

#[test]
fn remove_of_a_missing_version_is_not_installed() {
    let mut host = world();
    assert_eq!(
        drive(remove::execute("18.17.0"), &mut host),
        Err(LifecycleError::NotInstalled("18.17.0".to_string()))
    );
    assert_eq!(
        drive(remove::execute("eighteen"), &mut host),
        Err(LifecycleError::InvalidSpecifier("eighteen".to_string()))
    );
}

#[test]
fn failed_deletion_is_removal_io_error() {
    let mut host = world();
    host.installed.insert("18.17.0".to_string());
    host.refuse = Some(Request::RemoveVersion("18.17.0".to_string()));
    assert_eq!(
        drive(remove::execute("18.17.0"), &mut host),
        Err(LifecycleError::RemovalIoError("18.17.0".to_string()))
    );
}

#[test]
fn saved_record_is_the_loaded_one() {
    for record in [None, Some("18.17.0".to_string())] {
        let mut host = world();
        host.stored = Stored::Corrupt;
        serve(&mut host, &Request::WriteConfig(Config { active_version: record.clone() }));
        let reply = serve(&mut host, &Request::ReadConfig);
        assert_eq!(reply, Reply::Config(ConfigRead::Found(Config { active_version: record })));
    }
}

#[test]
fn first_load_writes_the_default_record_once() {
    let mut host = world();
    drive(list::execute(false), &mut host).unwrap();
    assert_eq!(host.stored, Stored::Record(None));
    assert_eq!(
        host.seen,
        vec![Request::ReadConfig, Request::WriteConfig(Config { active_version: None }), Request::ListInstalled]
    );
    drive(list::execute(false), &mut host).unwrap();
    assert_eq!(host.stored, Stored::Record(None));
    assert_eq!(host.seen, vec![Request::ReadConfig, Request::ListInstalled]);
}

#[test]
fn remote_listing_runs_against_the_host() {
    let mut host = world();
    host.installed.insert("18.17.0".to_string());
    host.stored = Stored::Record(Some("18.17.0".to_string()));
    let outcome = drive(list::execute(true), &mut host);
    assert_eq!(
        outcome,
        Ok(Outcome::Remote(RemoteListing {
            entries: vec![
                RemoteEntry { version: "20.5.0".to_string(), installed: false, current: false },
                RemoteEntry { version: "18.17.0".to_string(), installed: true, current: true },
                RemoteEntry { version: "16.20.0".to_string(), installed: false, current: false },
            ],
            more: false,
        }))
    );
    assert_eq!(host.seen, vec![Request::FetchCatalog, Request::ReadConfig, Request::ListInstalled]);
}

#[test]
fn empty_catalog_lists_nothing_and_reads_nothing() {
    let mut host = world();
    host.catalog = Some(Vec::new());
    let outcome = drive(list::execute(true), &mut host);
    assert_eq!(outcome, Ok(Outcome::Remote(RemoteListing { entries: Vec::new(), more: false })));
    assert_eq!(host.seen, vec![Request::FetchCatalog]);
    assert_eq!(host.stored, Stored::Missing);
}
