//! Which store keeps the variable on a given platform.

use vstd::prelude::*;

verus! {

/// The two ways the variable is persisted.
#[derive(Debug, Clone, Copy, PartialEq, Eq, Structural)]
pub enum StorageBackend {
    /// A user-scope environment value, reached through a helper process.
    Registry,
    /// An assignment line in a shell start-up file.
    ShellFile,
}

impl StorageBackend {
    /// The store used on Windows (`windows`) or on any other platform.
    pub fn for_platform(windows: bool) -> (r: StorageBackend)
        ensures
            r == (if windows { StorageBackend::Registry } else { StorageBackend::ShellFile }),
    {
        if windows {
            StorageBackend::Registry
        } else {
            StorageBackend::ShellFile
        }
    }
}

} // verus!
