//! Version specifiers and download locations.

pub mod download;
pub mod extract;
pub mod precedence;

use crate::error::{ErrorView, LifecycleError};
use crate::text::{chars_of, joined};
use vstd::prelude::*;

verus! {

broadcast use vstd::string::group_string_axioms;

/// Major, minor and patch number that `semver::Version::parse` reads from
/// `text`, or `None` where it rejects `text`.
pub uninterp spec fn semver_triple(text: Seq<char>) -> Option<(u64, u64, u64)>;

/// `text` begins with a decimal digit.
pub open spec fn leads_with_digit(text: Seq<char>) -> bool {
    text.len() > 0 && '0' <= text[0] <= '9'
}

/// The numbers of `text`: its major, minor and patch number where it is a
/// semantic version, `None` otherwise.
pub open spec fn version_key(text: Seq<char>) -> Option<(u64, u64, u64)> {
    if leads_with_digit(text) {
        semver_triple(text)
    } else {
        None
    }
}

/// `text` is a canonical version identifier: a semantic version without prefix.
pub open spec fn is_version_id(text: Seq<char>) -> bool {
    version_key(text) is Some
}

/// `text` without one leading `v`, if it has one.
pub open spec fn normalize(text: Seq<char>) -> Seq<char> {
    if text.len() > 0 && text[0] == 'v' {
        text.subrange(1, text.len() as int)
    } else {
        text
    }
}

/// The version identifier that a concrete specifier stands for: the
/// specifier itself where it is a semantic version, the specifier without
/// its leading `v` where that is one, else none.
pub open spec fn concrete_version(specifier: Seq<char>) -> Option<Seq<char>> {
    if is_version_id(specifier) {
        Some(specifier)
    } else if is_version_id(normalize(specifier)) {
        Some(normalize(specifier))
    } else {
        None
    }
}

/// What [`accept_version`] returns for a specifier, given whether the
/// specifier parsed as it stands and whether it parsed without its `v`.
pub open spec fn accepted(specifier: Seq<char>, direct: bool, bare: bool) -> Option<Seq<char>> {
    if direct {
        Some(specifier)
    } else if specifier.len() > 0 && specifier[0] == 'v' && bare {
        Some(normalize(specifier))
    } else {
        None
    }
}

/// Calls `semver::Version::parse` and hands out the three numbers of the
/// parsed version. Trusted: the result is the crate's verdict on `text`, and a
/// text that the crate accepts starts with a digit, because the parser reads
/// the major number first and wants at least one digit for it.
#[verifier::external_body]
pub(crate) fn parse_semver(text: &str) -> (parsed: Option<(u64, u64, u64)>)
    ensures
        parsed == semver_triple(text@),
        parsed is Some ==> leads_with_digit(text@),
{
    match semver::Version::parse(text) {
        Ok(version) => Some((version.major, version.minor, version.patch)),
        Err(_) => None,
    }
}

/// The major, minor and patch number of `text` where it is a semantic
/// version, `None` otherwise.
pub fn key_of(text: &str) -> (key: Option<(u64, u64, u64)>)
    ensures
        key == version_key(text@),
{
    parse_semver(text)
}

/// Chooses the version identifier for `version` from the two parse verdicts:
/// `direct` for the specifier as written, `bare` for it without a leading `v`.
pub fn accept_version(version: &str, direct: bool, bare: bool) -> (r: Result<
    String,
    LifecycleError,
>)
    ensures
        match accepted(version@, direct, bare) {
            Some(id) => r matches Ok(s) && s@ == id,
            None => r matches Err(e) && e@ == ErrorView::InvalidSpecifier(version@),
        },
{
    if direct {
        return Ok(version.to_owned());
    }
    let chars = chars_of(version);
    if chars.len() > 0 && chars[0] == 'v' && bare {
        return Ok(version.substring_char(1, chars.len()).to_owned());
    }
    Err(LifecycleError::InvalidSpecifier(version.to_owned()))
}

/// Normalizes a concrete version specifier: a semantic version is returned as
/// written, one with a leading `v` without it, anything else is rejected with
/// the specifier in the error.
pub fn parse_version(version: &str) -> (r: Result<String, LifecycleError>)
    ensures
        match concrete_version(version@) {
            Some(id) => r matches Ok(s) && s@ == id,
            None => r matches Err(e) && e@ == ErrorView::InvalidSpecifier(version@),
        },
{
    let direct = key_of(version).is_some();
    let chars = chars_of(version);
    let bare = if !direct && chars.len() > 0 && chars[0] == 'v' {
        key_of(version.substring_char(1, chars.len())).is_some()
    } else {
        false
    };
    accept_version(version, direct, bare)
}

/// The operating systems that Node.js publishes archives for.
#[derive(Debug, Clone, Copy, PartialEq, Eq, Structural)]
pub enum Os {
    Windows,
    MacOs,
    Linux,
}

/// The processor architectures that Node.js publishes archives for.
#[derive(Debug, Clone, Copy, PartialEq, Eq, Structural)]
pub enum Arch {
    X64,
    X86,
    Arm64,
}

/// The machine that a version is installed on.
#[derive(Debug, Clone, Copy, PartialEq, Eq, Structural)]
pub struct Platform {
    pub os: Os,
    pub arch: Arch,
}

/// The name of an operating system in archive names.
pub open spec fn os_tag(os: Os) -> Seq<char> {
    match os {
        Os::Windows => "win"@,
        Os::MacOs => "darwin"@,
        Os::Linux => "linux"@,
    }
}

/// The name of an architecture in archive names.
pub open spec fn arch_tag(arch: Arch) -> Seq<char> {
    match arch {
        Arch::X64 => "x64"@,
        Arch::X86 => "x86"@,
        Arch::Arm64 => "arm64"@,
    }
}

/// The archive format published for an operating system: zip for Windows,
/// a gzipped tarball for the others.
pub open spec fn archive_extension(os: Os) -> Seq<char> {
    match os {
        Os::Windows => "zip"@,
        _ => "tar.gz"@,
    }
}

/// Where the archive of `version` for `platform` is published.
pub open spec fn download_url(version: Seq<char>, platform: Platform) -> Seq<char> {
    "https://nodejs.org/dist/v"@ + version + "/node-v"@ + version + "-"@ + os_tag(platform.os)
        + "-"@ + arch_tag(platform.arch) + "."@ + archive_extension(platform.os)
}

/// The file name under which the archive of `version` is kept while it is
/// installed.
pub open spec fn archive_name(version: Seq<char>, platform: Platform) -> Seq<char> {
    "node-v"@ + version + "."@ + archive_extension(platform.os)
}

/// The archive extension for `os`.
pub fn extension_of(os: Os) -> (ext: &'static str)
    ensures
        ext@ == archive_extension(os),
{
    match os {
        Os::Windows => "zip",
        _ => "tar.gz",
    }
}

/// The download location of `version` for `platform`:
/// `https://nodejs.org/dist/v<version>/node-v<version>-<os>-<arch>.<ext>`.
pub fn get_download_url(version: &str, platform: Platform) -> (url: String)
    ensures
        url@ == download_url(version@, platform),
{
    let os = match platform.os {
        Os::Windows => "win",
        Os::MacOs => "darwin",
        Os::Linux => "linux",
    };
    let arch = match platform.arch {
        Arch::X64 => "x64",
        Arch::X86 => "x86",
        Arch::Arm64 => "arm64",
    };
    let mut url = joined("https://nodejs.org/dist/v", version);
    url.append("/node-v");
    url.append(version);
    url.append("-");
    url.append(os);
    url.append("-");
    url.append(arch);
    url.append(".");
    url.append(extension_of(platform.os));
    url
}

/// The file name of the downloaded archive: `node-v<version>.<ext>`.
pub fn archive_file_name(version: &str, platform: Platform) -> (name: String)
    ensures
        name@ == archive_name(version@, platform),
{
    let mut name = joined("node-v", version);
    name.append(".");
    name.append(extension_of(platform.os));
    name
}

/// A version identifier resolves to itself, with or without a leading `v` on
/// the specifier, and resolving the result again changes nothing.
pub proof fn resolve_is_normalize_and_idempotent(specifier: Seq<char>)
    ensures
        is_version_id(normalize(specifier)) ==> concrete_version(specifier) == Some(
            normalize(specifier),
        ),
        concrete_version(specifier) matches Some(id) ==> concrete_version(id) == Some(id),
{
}

} // verus!
