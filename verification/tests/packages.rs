use node_spark::commands::global_list::{classify, classify_with, contains, execute, flags_of, PackageLine};
use node_spark::error::LifecycleError;

fn package(name: &str, version: &str) -> PackageLine {
    PackageLine::Package { name: name.to_string(), version: version.to_string() }
}

fn chars(text: &str) -> Vec<char> {
    text.chars().collect()
}

#[test]
fn package_lines_are_split_at_the_first_at_sign() {
    assert_eq!(classify("npm@9.6.7"), package("npm", "9.6.7"));
    assert_eq!(classify("  typescript @ 5.1.6  "), package("typescript", "5.1.6"));
    assert_eq!(classify("a@b@c"), package("a", "b@c"));
    assert_eq!(classify("@scope/pkg@1.0.0"), package("", "scope/pkg@1.0.0"));
    assert_eq!(classify("├── npm@9.6.7"), package("├── npm", "9.6.7"));
    assert_eq!(classify("x@"), package("x", ""));
}

#[test]
fn tree_lines_and_other_lines_stay_plain() {
    assert_eq!(classify("+-- npm@9.6.7"), PackageLine::Plain("+-- npm@9.6.7".to_string()));
    assert_eq!(classify("`-- npm@9.6.7"), PackageLine::Plain("`-- npm@9.6.7".to_string()));
    assert_eq!(classify("/usr/local/lib"), PackageLine::Plain("/usr/local/lib".to_string()));
    assert_eq!(classify(" +x@1"), package("+x", "1"));
}

#[test]
fn error_lines_and_blank_lines_are_skipped() {
    assert_eq!(classify("npm ERR! missing: foo@1.0.0"), PackageLine::Skip);
    assert_eq!(classify("x npm ERR! y"), PackageLine::Skip);
    assert_eq!(classify(""), PackageLine::Skip);
    assert_eq!(classify("   \t\u{a0}\u{2003}"), PackageLine::Skip);
    assert_eq!(classify("npm ERR"), PackageLine::Plain("npm ERR".to_string()));
}

#[test]
fn white_space_follows_unicode() {
    assert_eq!(flags_of(&chars("a \t\u{a0}b\u{200b}")), vec![false, true, true, true, false, false]);
    assert_eq!(classify("\u{2003}pkg\u{2003}@\u{3000}1.0\n"), package("pkg", "1.0"));
}

#[test]
fn white_space_is_exactly_the_unicode_set() {
    let listed = [
        0x09u32..=0x0d,
        0x20..=0x20,
        0x85..=0x85,
        0xa0..=0xa0,
        0x1680..=0x1680,
        0x2000..=0x200a,
        0x2028..=0x2029,
        0x202f..=0x202f,
        0x205f..=0x205f,
        0x3000..=0x3000,
    ];
    let all: Vec<char> = (0u32..=0x10ffff).filter_map(char::from_u32).collect();
    let flags = flags_of(&all);
    assert_eq!(flags.len(), all.len());
    for (c, flag) in all.iter().zip(flags) {
        let expected = listed.iter().any(|range| range.contains(&(*c as u32)));
        assert_eq!(flag, expected, "U+{:04X}", *c as u32);
    }
}

#[test]
fn classification_goes_by_the_given_flags() {
    let flags = vec![true, false, false, false, false, true];
    assert_eq!(classify_with("xa@1.y", &flags), package("a", "1."));
    let none = vec![false; 6];
    assert_eq!(classify_with(" a@1. ", &none), package(" a", "1. "));
    let all = vec![true; 3];
    assert_eq!(classify_with("a@b", &all), PackageLine::Skip);
    assert_eq!(classify_with("a@b", &Vec::new()), package("a", "b"));
}

#[test]
fn contains_finds_patterns() {
    assert!(contains(&chars("abcabd"), &chars("abd")));
    assert!(contains(&chars("abc"), &chars("")));
    assert!(contains(&chars(""), &chars("")));
    assert!(!contains(&chars("abcabd"), &chars("abe")));
    assert!(!contains(&chars("ab"), &chars("abc")));
    assert!(contains(&chars("aab"), &chars("ab")));
}

#[test]
fn package_list_is_read_line_by_line() {
    let lines: Vec<String> = ["/usr/lib", "├── npm@9.6.7", "", "npm ERR! extraneous", "└── yarn@1.22.19"]
        .iter()
        .map(|line| line.to_string())
        .collect();
    assert_eq!(
        execute(&lines),
        vec![
            PackageLine::Plain("/usr/lib".to_string()),
            package("├── npm", "9.6.7"),
            package("└── yarn", "1.22.19"),
        ]
    );
    assert!(execute(&Vec::new()).is_empty());
}

#[test]
fn every_error_has_a_message_that_names_its_subject() {
    let cases = [
        (LifecycleError::InvalidSpecifier("18".to_string()), "Invalid version format: 18"),
        (LifecycleError::CatalogUnavailable, "Failed to fetch available Node.js versions"),
        (LifecycleError::NoVersionsPublished, "No available Node.js versions found"),
        (LifecycleError::NotInstalled("18.17.0".to_string()), "Node.js 18.17.0 is not installed"),
        (
            LifecycleError::CannotRemoveActive("18.17.0".to_string()),
            "Cannot remove the active Node.js version. Switch to another version first.",
        ),
        (LifecycleError::ConfigCorrupt, "The configuration file does not hold an activation record"),
        (LifecycleError::ConfigIoError, "Failed to read or write the configuration file"),
        (
            LifecycleError::ActivationIncomplete(vec!["node".to_string(), "npm".to_string()]),
            "Failed to switch every launcher; switched: node npm",
        ),
        (LifecycleError::ActivationIncomplete(Vec::new()), "Failed to switch every launcher; switched:"),
        (LifecycleError::RemovalIoError("18.17.0".to_string()), "Failed to remove Node.js 18.17.0"),
        (LifecycleError::FetchFailed("18.17.0".to_string()), "Failed to download Node.js 18.17.0"),
        (LifecycleError::ExtractFailed("node-v1.0.0.zip".to_string()), "Failed to unpack node-v1.0.0.zip"),
    ];
    for (error, message) in cases {
        assert_eq!(error.message(), message);
    }
}
