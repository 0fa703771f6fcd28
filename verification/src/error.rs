//! The ways a lifecycle operation can fail.

use crate::text::joined;
use vstd::prelude::*;

verus! {

/// Why an operation stopped without completing. Every failure is final for
/// the operation that met it: nothing is retried.
#[derive(Debug, Clone, PartialEq, Eq)]
pub enum LifecycleError {
    /// The specifier is neither a semantic version nor a known alias.
    InvalidSpecifier(String),
    /// The remote catalog could not be fetched or decoded.
    CatalogUnavailable,
    /// The remote catalog was fetched and lists no version.
    NoVersionsPublished,
    /// The version has no directory under the versions root.
    NotInstalled(String),
    /// The version is the active one and therefore may not be removed.
    CannotRemoveActive(String),
    /// The persisted activation record does not have the expected structure.
    ConfigCorrupt,
    /// The activation record could not be read or written.
    ConfigIoError,
    /// A launcher could not be switched; holds the launchers switched before it.
    ActivationIncomplete(Vec<String>),
    /// The directory of the version could not be deleted.
    RemovalIoError(String),
    /// The archive of the version could not be downloaded.
    FetchFailed(String),
    /// The archive of the version could not be unpacked.
    ExtractFailed(String),
}

/// Mathematical view of [`LifecycleError`].
pub enum ErrorView {
    InvalidSpecifier(Seq<char>),
    CatalogUnavailable,
    NoVersionsPublished,
    NotInstalled(Seq<char>),
    CannotRemoveActive(Seq<char>),
    ConfigCorrupt,
    ConfigIoError,
    ActivationIncomplete(Seq<Seq<char>>),
    RemovalIoError(Seq<char>),
    FetchFailed(Seq<char>),
    ExtractFailed(Seq<char>),
}

impl View for LifecycleError {
    type V = ErrorView;

    open spec fn view(&self) -> ErrorView {
        match self {
            LifecycleError::InvalidSpecifier(s) => ErrorView::InvalidSpecifier(s@),
            LifecycleError::CatalogUnavailable => ErrorView::CatalogUnavailable,
            LifecycleError::NoVersionsPublished => ErrorView::NoVersionsPublished,
            LifecycleError::NotInstalled(v) => ErrorView::NotInstalled(v@),
            LifecycleError::CannotRemoveActive(v) => ErrorView::CannotRemoveActive(v@),
            LifecycleError::ConfigCorrupt => ErrorView::ConfigCorrupt,
            LifecycleError::ConfigIoError => ErrorView::ConfigIoError,
            LifecycleError::ActivationIncomplete(names) => ErrorView::ActivationIncomplete(
                names.deep_view(),
            ),
            LifecycleError::RemovalIoError(v) => ErrorView::RemovalIoError(v@),
            LifecycleError::FetchFailed(v) => ErrorView::FetchFailed(v@),
            LifecycleError::ExtractFailed(v) => ErrorView::ExtractFailed(v@),
        }
    }
}

/// The names of `names`, each behind a blank.
pub open spec fn spaced(names: Seq<Seq<char>>) -> Seq<char>
    decreases names.len(),
{
    if names.len() == 0 {
        Seq::empty()
    } else {
        spaced(names.drop_last()) + " "@ + names.last()
    }
}

/// What is shown to the user for an error.
pub open spec fn message_of(error: ErrorView) -> Seq<char> {
    match error {
        ErrorView::InvalidSpecifier(specifier) => "Invalid version format: "@ + specifier,
        ErrorView::CatalogUnavailable => "Failed to fetch available Node.js versions"@,
        ErrorView::NoVersionsPublished => "No available Node.js versions found"@,
        ErrorView::NotInstalled(version) => "Node.js "@ + version + " is not installed"@,
        ErrorView::CannotRemoveActive(_) =>
            "Cannot remove the active Node.js version. Switch to another version first."@,
        ErrorView::ConfigCorrupt => "The configuration file does not hold an activation record"@,
        ErrorView::ConfigIoError => "Failed to read or write the configuration file"@,
        ErrorView::ActivationIncomplete(names) => "Failed to switch every launcher; switched:"@
            + spaced(names),
        ErrorView::RemovalIoError(version) => "Failed to remove Node.js "@ + version,
        ErrorView::FetchFailed(version) => "Failed to download Node.js "@ + version,
        ErrorView::ExtractFailed(archive) => "Failed to unpack "@ + archive,
    }
}

impl LifecycleError {
    /// What is shown to the user for this error. It names the specifier,
    /// version or archive that the error is about.
    pub fn message(&self) -> (text: String)
        ensures
            text@ == message_of(self@),
    {
        match self {
            LifecycleError::InvalidSpecifier(specifier) => joined(
                "Invalid version format: ",
                specifier.as_str(),
            ),
            LifecycleError::CatalogUnavailable => "Failed to fetch available Node.js versions"
                .to_owned(),
            LifecycleError::NoVersionsPublished => "No available Node.js versions found"
                .to_owned(),
            LifecycleError::NotInstalled(version) => {
                let mut text = joined("Node.js ", version.as_str());
                text.append(" is not installed");
                text
            },
            LifecycleError::CannotRemoveActive(_) =>
                "Cannot remove the active Node.js version. Switch to another version first."
                .to_owned(),
            LifecycleError::ConfigCorrupt =>
                "The configuration file does not hold an activation record".to_owned(),
            LifecycleError::ConfigIoError => "Failed to read or write the configuration file"
                .to_owned(),
            LifecycleError::ActivationIncomplete(names) => {
                let mut text = "Failed to switch every launcher; switched:".to_owned();
                let ghost head = text@;
                let ghost all = names.deep_view();
                let mut i: usize = 0;
                while i < names.len()
                    invariant
                        i <= names.len(),
                        all == names.deep_view(),
                        text@ == head + spaced(all.take(i as int)),
                    decreases names.len() - i,
                {
                    proof {
                        assert(all.take(i + 1).drop_last() =~= all.take(i as int));
                        assert(all.take(i + 1).last() == names[i as int]@);
                    }
                    text.append(" ");
                    text.append(names[i].as_str());
                    i += 1;
                    assert(text@ =~= head + spaced(all.take(i as int)));
                }
                proof {
                    assert(all.take(names.len() as int) =~= all);
                }
                text
            },
            LifecycleError::RemovalIoError(version) => joined(
                "Failed to remove Node.js ",
                version.as_str(),
            ),
            LifecycleError::FetchFailed(version) => joined(
                "Failed to download Node.js ",
                version.as_str(),
            ),
            LifecycleError::ExtractFailed(archive) => joined("Failed to unpack ", archive.as_str()),
        }
    }
}

} // verus!
