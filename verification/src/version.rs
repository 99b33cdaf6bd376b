//! The app-version command: a read of immutable build metadata.
//!
//! The version string is fixed when the application is packaged and never
//! changes within a process run; this module models that metadata and the
//! getter over it.

use vstd::prelude::*;

verus! {

/// The application's immutable build metadata, fixed for the lifetime of the
/// process.
pub struct AppInfo {
    version: String,
}

impl AppInfo {
    /// The version string this metadata carries.
    pub closed spec fn spec_version(&self) -> Seq<char> {
        self.version@
    }

    /// Captures the packaged version string.
    pub fn new(version: String) -> (r: AppInfo)
        ensures
            r.spec_version() == version@,
    {
        AppInfo { version }
    }

    /// Returns the version string, exactly as packaged.
    pub fn version(&self) -> (r: String)
        ensures
            r@ == self.spec_version(),
    {
        self.version.clone()
    }
}

/// Repeated version reads within one process run agree: any two results of
/// `version` on the same metadata are the same string.
pub proof fn lemma_version_constant(info: &AppInfo, first: Seq<char>, second: Seq<char>)
    requires
        first == info.spec_version(),
        second == info.spec_version(),
    ensures
        first == second,
{
}

} // verus!
