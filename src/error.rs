use vstd::prelude::*;

verus! {

#[verifier::external_type_specification]
#[verifier::external_body]
pub struct ExIoError(std::io::Error);

#[verifier::external_type_specification]
#[verifier::external_body]
pub struct ExGlobError(globset::Error);

#[verifier::external_type_specification]
#[verifier::external_body]
pub struct ExWalkError(walkdir::Error);

/// Why a staleness check could not reach an answer.
pub enum NeedsRebuildError {
    /// Reading a file's metadata, or checking that it exists, failed.
    IOError(std::io::Error),
    /// A configured glob pattern is malformed, or the patterns could not be
    /// compiled into one matcher.
    PatternError(globset::Error),
    /// Walking the source tree failed (a symbolic link loop, a broken link,
    /// a directory that could not be opened).
    WalkDirError(walkdir::Error),
}

} // verus!
