use node_spark::config::{get_dirs, join, load_config, save_config, Config, ConfigRead, Loaded};
use node_spark::error::LifecycleError;
use node_spark::lifecycle::{Launcher, Request, Step};
use node_spark::options::verbose::{is_verbose, log, set_verbose, Verbosity};
use node_spark::options::{dispatch, Cli, Commands, Invocation};
use node_spark::utils::download::get_available_versions;
use node_spark::utils::extract::{entry_kind, extract_archive, ArchiveFormat, EntryKind};
use node_spark::utils::{archive_file_name, extension_of, get_download_url, Arch, Os, Platform};

#[test]
fn download_urls_follow_the_published_layout() {
    let cases = [
        (Os::Linux, Arch::X64, "https://nodejs.org/dist/v18.17.0/node-v18.17.0-linux-x64.tar.gz"),
        (Os::Linux, Arch::Arm64, "https://nodejs.org/dist/v18.17.0/node-v18.17.0-linux-arm64.tar.gz"),
        (Os::MacOs, Arch::Arm64, "https://nodejs.org/dist/v18.17.0/node-v18.17.0-darwin-arm64.tar.gz"),
        (Os::MacOs, Arch::X64, "https://nodejs.org/dist/v18.17.0/node-v18.17.0-darwin-x64.tar.gz"),
        (Os::Windows, Arch::X86, "https://nodejs.org/dist/v18.17.0/node-v18.17.0-win-x86.zip"),
        (Os::Windows, Arch::X64, "https://nodejs.org/dist/v18.17.0/node-v18.17.0-win-x64.zip"),
    ];
    for (os, arch, url) in cases {
        assert_eq!(get_download_url("18.17.0", Platform { os, arch }), url);
    }
}

#[test]
fn archive_names_carry_version_and_extension() {
    assert_eq!(archive_file_name("20.5.0", Platform { os: Os::Linux, arch: Arch::X64 }), "node-v20.5.0.tar.gz");
    assert_eq!(archive_file_name("20.5.0", Platform { os: Os::MacOs, arch: Arch::X64 }), "node-v20.5.0.tar.gz");
    assert_eq!(archive_file_name("20.5.0", Platform { os: Os::Windows, arch: Arch::X64 }), "node-v20.5.0.zip");
    assert_eq!(extension_of(Os::Windows), "zip");
    assert_eq!(extension_of(Os::Linux), "tar.gz");
}

#[test]
fn archive_format_goes_by_the_suffix() {
    assert_eq!(extract_archive("/tmp/node-v18.17.0.tar.gz"), Ok(ArchiveFormat::TarGz));
    assert_eq!(extract_archive("node.zip"), Ok(ArchiveFormat::Zip));
    assert_eq!(extract_archive(".zip"), Ok(ArchiveFormat::Zip));
    assert_eq!(
        extract_archive("node.tar"),
        Err(LifecycleError::ExtractFailed("node.tar".to_string()))
    );
    assert_eq!(extract_archive("node.ZIP"), Err(LifecycleError::ExtractFailed("node.ZIP".to_string())));
    assert_eq!(extract_archive(""), Err(LifecycleError::ExtractFailed(String::new())));
}

#[test]
fn zip_entries_ending_in_a_slash_are_directories() {
    assert_eq!(entry_kind("node/bin/"), EntryKind::Directory);
    assert_eq!(entry_kind("node/bin/node"), EntryKind::File);
    assert_eq!(entry_kind(""), EntryKind::File);
    assert_eq!(entry_kind("/"), EntryKind::Directory);
}

#[test]
fn catalog_tags_lose_their_prefix() {
    let tags = vec![
        Some("v20.5.0".to_string()),
        None,
        Some("v18.17.0".to_string()),
        Some("16.20.0".to_string()),
        Some("vv1.0.0".to_string()),
    ];
    assert_eq!(get_available_versions(&tags), vec!["20.5.0", "18.17.0", "16.20.0", "1.0.0"]);
    assert!(get_available_versions(&Vec::new()).is_empty());
}

#[test]
fn load_config_by_what_was_found() {
    let record = Config { active_version: Some("18.17.0".to_string()) };
    assert_eq!(load_config(ConfigRead::Found(record.clone())), Loaded::Ready(record));
    assert_eq!(load_config(ConfigRead::Missing), Loaded::Materialize(Config { active_version: None }));
    assert_eq!(load_config(ConfigRead::Corrupt), Loaded::Failed(LifecycleError::ConfigCorrupt));
    assert_eq!(load_config(ConfigRead::Unreadable), Loaded::Failed(LifecycleError::ConfigIoError));
}

#[test]
fn config_helpers() {
    assert_eq!(Config::default(), Config { active_version: None });
    let record = Config::activating("20.5.0");
    assert_eq!(record.active_version.as_deref(), Some("20.5.0"));
    assert_eq!(save_config(&record), Request::WriteConfig(record.clone()));
    assert_eq!(record.duplicate(), record);
    assert!(record.is_active("20.5.0"));
    assert!(!record.is_active("20.5"));
    assert!(!Config::default().is_active(""));
}

#[test]
fn directories_are_laid_out_below_the_given_ones() {
    let dirs = get_dirs("/home/u/.config/node-spark", "/home/u/.local/share/node-spark", "/");
    assert_eq!(dirs.config_dir, "/home/u/.config/node-spark");
    assert_eq!(dirs.versions_dir, "/home/u/.local/share/node-spark/versions");
    assert_eq!(dirs.bin_dir, "/home/u/.local/share/node-spark/bin");
    assert_eq!(dirs.config_file(), "/home/u/.config/node-spark/config.json");
    assert_eq!(dirs.temp_dir(), "/home/u/.config/node-spark/temp");
    assert_eq!(dirs.version_dir("18.17.0"), "/home/u/.local/share/node-spark/versions/18.17.0");
    assert_eq!(dirs.launcher_link("npm"), "/home/u/.local/share/node-spark/bin/npm");
    assert_eq!(
        dirs.launcher_target("18.17.0", "npx"),
        "/home/u/.local/share/node-spark/versions/18.17.0/bin/npx"
    );
    assert_eq!(join("C:\\data", "\\", "bin"), "C:\\data\\bin");
}

#[test]
fn launchers_in_switching_order() {
    assert_eq!(Launcher::Node.file_name(), "node");
    assert_eq!(Launcher::Npm.file_name(), "npm");
    assert_eq!(Launcher::Npx.file_name(), "npx");
    assert_eq!(Launcher::Node.next(), Some(Launcher::Npm));
    assert_eq!(Launcher::Npm.next(), Some(Launcher::Npx));
    assert_eq!(Launcher::Npx.next(), None);
    assert!(Launcher::Node.switched_before().is_empty());
    assert_eq!(Launcher::Npx.switched_before(), vec!["node", "npm"]);
}

#[test]
fn verbosity_is_off_until_switched_on() {
    let mut verbosity = Verbosity::default();
    assert!(!is_verbose(&verbosity));
    assert_eq!(log(&verbosity, "hidden"), None);
    set_verbose(&mut verbosity, true);
    assert!(is_verbose(&verbosity));
    assert_eq!(log(&verbosity, "Executing update command"), Some("[VERBOSE] Executing update command".to_string()));
    set_verbose(&mut verbosity, false);
    assert_eq!(log(&verbosity, "hidden"), None);
}

#[test]
fn version_flag_wins_over_commands() {
    let platform = Platform { os: Os::Linux, arch: Arch::X64 };
    let cli = Cli { command: Some(Commands::Update), version: true, verbose: true };
    assert_eq!(dispatch(cli, platform), Invocation::ShowVersion { verbose: true });
    let cli = Cli { command: None, version: true, verbose: false };
    assert_eq!(dispatch(cli, platform), Invocation::ShowVersion { verbose: false });
}

#[test]
fn commands_are_dispatched() {
    let platform = Platform { os: Os::Linux, arch: Arch::X64 };
    let cli = |command| Cli { command, version: false, verbose: false };
    assert_eq!(dispatch(cli(None), platform), Invocation::Help);
    assert_eq!(dispatch(cli(Some(Commands::GlobalList)), platform), Invocation::GlobalList);
    assert_eq!(dispatch(cli(Some(Commands::Update)), platform), Invocation::Update);
    assert_eq!(
        dispatch(cli(Some(Commands::Install { version: "x".to_string() })), platform),
        Invocation::Run(Step::Failed(LifecycleError::InvalidSpecifier("x".to_string())))
    );
    assert_eq!(
        dispatch(cli(Some(Commands::Use { version: "v1.2.3".to_string() })), platform),
        Invocation::Run(node_spark::commands::activate::execute("v1.2.3"))
    );
    assert_eq!(
        dispatch(cli(Some(Commands::Remove { version: "1.2.3".to_string() })), platform),
        Invocation::Run(node_spark::commands::remove::execute("1.2.3"))
    );
    assert_eq!(
        dispatch(cli(Some(Commands::List { remote: true })), platform),
        Invocation::Run(node_spark::commands::list::execute(true))
    );
}
