use vstd::prelude::*;

verus! {

/// The failures that path resolution can surface.
///
/// Directory creation and removal, and the opening of the store, happen on
/// the caller's side of the file-system boundary; the errors here are the
/// ones the library itself decides.
#[derive(Debug)]
pub enum DataDirError {
    /// The platform provider could not determine a conventional data
    /// directory and no override was given.
    UnresolvableBaseDir,
}

} // verus!
