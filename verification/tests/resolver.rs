use node_spark::error::LifecycleError;
use node_spark::lifecycle::{newest, resolve, Resolution};
use node_spark::utils::{accept_version, key_of, parse_version};

#[test]
fn semantic_version_is_returned_unchanged() {
    assert_eq!(parse_version("18.17.0"), Ok("18.17.0".to_string()));
}

#[test]
fn leading_v_is_stripped() {
    assert_eq!(parse_version("v18.17.0"), Ok("18.17.0".to_string()));
}

#[test]
fn prerelease_and_build_are_kept() {
    assert_eq!(parse_version("1.2.3-beta.1+build.5"), Ok("1.2.3-beta.1+build.5".to_string()));
    assert_eq!(parse_version("v1.2.3-rc.1"), Ok("1.2.3-rc.1".to_string()));
}

#[test]
fn partial_version_is_invalid() {
    assert_eq!(parse_version("18"), Err(LifecycleError::InvalidSpecifier("18".to_string())));
    assert_eq!(parse_version("18.17"), Err(LifecycleError::InvalidSpecifier("18.17".to_string())));
}

#[test]
fn garbage_is_invalid_and_named_in_the_error() {
    assert_eq!(parse_version(""), Err(LifecycleError::InvalidSpecifier(String::new())));
    assert_eq!(parse_version("v"), Err(LifecycleError::InvalidSpecifier("v".to_string())));
    assert_eq!(parse_version("vv1.2.3"), Err(LifecycleError::InvalidSpecifier("vv1.2.3".to_string())));
    assert_eq!(parse_version("beta-foo"), Err(LifecycleError::InvalidSpecifier("beta-foo".to_string())));
    assert_eq!(parse_version("1.02.3"), Err(LifecycleError::InvalidSpecifier("1.02.3".to_string())));
    assert_eq!(parse_version(" 1.2.3"), Err(LifecycleError::InvalidSpecifier(" 1.2.3".to_string())));
}

#[test]
fn aliases_are_no_concrete_versions() {
    assert_eq!(parse_version("latest"), Err(LifecycleError::InvalidSpecifier("latest".to_string())));
    assert_eq!(parse_version("lts"), Err(LifecycleError::InvalidSpecifier("lts".to_string())));
}

#[test]
fn resolving_twice_changes_nothing() {
    for specifier in ["18.17.0", "v18.17.0", "0.0.1", "v20.5.0-nightly.1"] {
        let once = parse_version(specifier).unwrap();
        let twice = parse_version(&once).unwrap();
        assert_eq!(once, twice);
        assert_eq!(once, specifier.trim_start_matches('v'));
    }
}

#[test]
fn accept_version_follows_the_verdicts() {
    assert_eq!(accept_version("1.2.3", true, false), Ok("1.2.3".to_string()));
    assert_eq!(accept_version("v1.2.3", false, true), Ok("1.2.3".to_string()));
    assert_eq!(accept_version("v1.2.3", true, true), Ok("v1.2.3".to_string()));
    assert_eq!(
        accept_version("x1.2.3", false, true),
        Err(LifecycleError::InvalidSpecifier("x1.2.3".to_string()))
    );
    assert_eq!(
        accept_version("v1.2", false, false),
        Err(LifecycleError::InvalidSpecifier("v1.2".to_string()))
    );
    assert_eq!(accept_version("", false, true), Err(LifecycleError::InvalidSpecifier(String::new())));
}

#[test]
fn key_is_major_minor_patch() {
    assert_eq!(key_of("18.17.0"), Some((18, 17, 0)));
    assert_eq!(key_of("1.2.3-alpha+7"), Some((1, 2, 3)));
    assert_eq!(key_of("v18.17.0"), None);
    assert_eq!(key_of("beta-foo"), None);
    assert_eq!(key_of("18446744073709551616.0.0"), None);
}

#[test]
fn resolve_tells_aliases_versions_and_garbage_apart() {
    assert_eq!(resolve("latest"), Resolution::Newest);
    assert_eq!(resolve("lts"), Resolution::Newest);
    assert_eq!(resolve("v16.20.0"), Resolution::Version("16.20.0".to_string()));
    assert_eq!(
        resolve("LATEST"),
        Resolution::Invalid(LifecycleError::InvalidSpecifier("LATEST".to_string()))
    );
    assert_eq!(resolve("18"), Resolution::Invalid(LifecycleError::InvalidSpecifier("18".to_string())));
}

#[test]
fn newest_is_the_first_catalog_entry() {
    let catalog = vec!["20.5.0".to_string(), "18.17.0".to_string(), "16.20.0".to_string()];
    assert_eq!(newest(&catalog), Ok("20.5.0".to_string()));
}

#[test]
fn empty_catalog_has_no_newest() {
    assert_eq!(newest(&Vec::new()), Err(LifecycleError::NoVersionsPublished));
}
