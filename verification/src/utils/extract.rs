//! Archive formats.

use crate::error::{ErrorView, LifecycleError};
use crate::text::{ends_with, has_suffix};
use vstd::prelude::*;

verus! {

/// The container formats that can be unpacked.
#[derive(Debug, Clone, Copy, PartialEq, Eq, Structural)]
pub enum ArchiveFormat {
    TarGz,
    Zip,
}

/// What an entry of a zip archive stands for.
#[derive(Debug, Clone, Copy, PartialEq, Eq, Structural)]
pub enum EntryKind {
    Directory,
    File,
}

/// The format that the name of an archive announces.
pub open spec fn archive_format(path: Seq<char>) -> Option<ArchiveFormat> {
    if has_suffix(path, ".tar.gz"@) {
        Some(ArchiveFormat::TarGz)
    } else if has_suffix(path, ".zip"@) {
        Some(ArchiveFormat::Zip)
    } else {
        None
    }
}

/// Decides by the name of an archive how it is to be unpacked: `.tar.gz` as
/// a gzipped tarball, `.zip` as a zip archive. Any other name is refused
/// with `ExtractFailed` naming the archive.
pub fn extract_archive(archive_path: &str) -> (r: Result<ArchiveFormat, LifecycleError>)
    ensures
        match archive_format(archive_path@) {
            Some(format) => r == Ok::<ArchiveFormat, LifecycleError>(format),
            None => r matches Err(e) && e@ == ErrorView::ExtractFailed(archive_path@),
        },
{
    if ends_with(archive_path, ".tar.gz") {
        Ok(ArchiveFormat::TarGz)
    } else if ends_with(archive_path, ".zip") {
        Ok(ArchiveFormat::Zip)
    } else {
        Err(LifecycleError::ExtractFailed(archive_path.to_owned()))
    }
}

/// An entry of a zip archive whose name ends in `/` is a directory to
/// create; any other entry is a file to write, below its parent directory.
pub fn entry_kind(name: &str) -> (kind: EntryKind)
    ensures
        kind == if has_suffix(name@, "/"@) {
            EntryKind::Directory
        } else {
            EntryKind::File
        },
{
    if ends_with(name, "/") {
        EntryKind::Directory
    } else {
        EntryKind::File
    }
}

} // verus!
