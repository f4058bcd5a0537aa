use vstd::prelude::*;

verus! {

/// Why a lookup or a launch could not go on.
#[derive(Debug, Clone, Copy, PartialEq, Eq, Structural)]
pub enum Error {
    /// An expected file or directory is missing, or the home directory is unknown.
    NotFound,
    /// The host does not support this operation.
    UnsupportedPlatform,
    /// The library-folders manifest names no usable library.
    NoLibrariesFound,
    /// An app manifest has no `installdir` entry.
    ManifestFieldMissing,
    /// The installation directory named by a manifest is not a directory.
    InvalidInstallation,
    /// The installation holds neither build marker.
    UnrecognizedInstallation,
    /// This host cannot run this build of the game.
    UnsupportedCombination,
    /// A file or directory to be linked does not exist.
    MissingSource,
    /// Spawning or waiting for a process failed.
    ProcessSpawnFailure,
    /// The path-translation helper failed.
    TranslationFailure,
}

} // verus!
