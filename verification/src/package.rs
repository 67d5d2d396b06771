//! The launcher's record of the host, the release it last resolved and where builds live.

use vstd::prelude::*;

verus! {

/// Name of the worker binary inside every installed version directory.
pub open spec fn worker_binary() -> Seq<char> {
    "nockpool-miner"@
}

/// Host identity, the package last resolved for it, and the on-disk layout.
#[derive(Debug, Clone)]
pub struct PackageInfo {
    /// `"macos"` or `"linux"`.
    pub os_name: String,
    /// `"aarch64"` or `"x86_64"`.
    pub arch: String,
    /// Version identifier of the release last resolved; empty before the first resolution.
    pub version: String,
    /// Where the package of that release is downloaded from.
    pub download_url: String,
    /// File name of the worker binary.
    pub bin_name: String,
    /// Asset name of the package of that release.
    pub package_name: String,
    /// Directory that holds one directory per installed version.
    pub versions_dir: String,
    /// Path of the pointer that names the active version directory.
    pub current_symlink: String,
}

} // verus!
