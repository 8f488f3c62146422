//! The per-target dependency bundle.
//!
//! Cross-compiling to a supported triple needs a pre-built archive of that
//! target's libraries and headers — sysroot, OpenSSL, the storage engine —
//! at a fixed URL per triple. The bundle lives in a fixed directory under
//! the working directory; when that directory is absent the archive is
//! fetched and extracted there. This module names the directory and the URL
//! for each triple and records what one pass observed; testing the
//! directory's existence and the fetch itself happen outside the library.

use vstd::prelude::*;

use crate::fetch::{file_name_from_url, url_file_name};
use crate::triple::TargetTriple;

verus! {

/// The bundle directory's name under the working directory.
pub open spec fn bundle_dir_chars(t: TargetTriple) -> Seq<char> {
    match t {
        TargetTriple::X8664AppleDarwin => "darwin-x86_64"@,
        TargetTriple::X8664UnknownLinuxGnu => "linux-x86_64"@,
        TargetTriple::X8664PcWindowsGnu => "windows-x86_64"@,
    }
}

/// The fixed URL the bundle archive is fetched from.
pub open spec fn bundle_url_chars(t: TargetTriple) -> Seq<char> {
    match t {
        TargetTriple::X8664AppleDarwin => "https://github.com/AurevoirXavier/darwinia-builder/releases/download/darwin-x86_64/darwin-x86_64.tar.gz"@,
        TargetTriple::X8664UnknownLinuxGnu => "https://github.com/AurevoirXavier/darwinia-builder/releases/download/linux-x86_64/linux-x86_64.tar.gz"@,
        TargetTriple::X8664PcWindowsGnu => "https://github.com/AurevoirXavier/darwinia-builder/releases/download/windows-x86_64/windows-x86_64.tar.gz"@,
    }
}

/// The bundle directory's name under the working directory.
pub fn bundle_dir_name(t: &TargetTriple) -> (r: String)
    ensures
        r@ == bundle_dir_chars(*t),
{
    match t {
        TargetTriple::X8664AppleDarwin => "darwin-x86_64".to_owned(),
        TargetTriple::X8664UnknownLinuxGnu => "linux-x86_64".to_owned(),
        TargetTriple::X8664PcWindowsGnu => "windows-x86_64".to_owned(),
    }
}

/// The fixed URL the bundle archive is fetched from.
pub fn bundle_url(t: &TargetTriple) -> (r: String)
    ensures
        r@ == bundle_url_chars(*t),
{
    match t {
        TargetTriple::X8664AppleDarwin =>
            "https://github.com/AurevoirXavier/darwinia-builder/releases/download/darwin-x86_64/darwin-x86_64.tar.gz".to_owned(),
        TargetTriple::X8664UnknownLinuxGnu =>
            "https://github.com/AurevoirXavier/darwinia-builder/releases/download/linux-x86_64/linux-x86_64.tar.gz".to_owned(),
        TargetTriple::X8664PcWindowsGnu =>
            "https://github.com/AurevoirXavier/darwinia-builder/releases/download/windows-x86_64/windows-x86_64.tar.gz".to_owned(),
    }
}

/// The full path of the bundle directory for `t` under `work_dir`.
pub open spec fn bundle_path_chars(t: TargetTriple, work_dir: Seq<char>) -> Seq<char> {
    work_dir + seq!['/'] + bundle_dir_chars(t)
}

/// One pass's view of the dependency bundle for a triple: where it lives,
/// where it comes from, and whether it is present on disk.
#[derive(Debug)]
pub struct DependencyBundle {
    /// The triple the bundle serves.
    pub triple: TargetTriple,
    /// The bundle directory's full path under the working directory.
    pub local_path: String,
    /// The fixed URL the archive is fetched from.
    pub remote_url: String,
    /// Whether the bundle directory exists on disk.
    pub present: bool,
}

impl DependencyBundle {
    /// Records where the bundle for `t` lives and whether its directory was
    /// found on disk. `dir_exists` is the observed existence of
    /// `<work_dir>/<bundle dir>`.
    pub fn locate(t: &TargetTriple, work_dir: &str, dir_exists: bool) -> (r: DependencyBundle)
        ensures
            r.triple == *t,
            r.local_path@ == bundle_path_chars(*t, work_dir@),
            r.remote_url@ == bundle_url_chars(*t),
            r.present == dir_exists,
    {
        let mut p = work_dir.to_owned();
        p.append("/");
        p.append(bundle_dir_name(t).as_str());
        proof {
            reveal_strlit("/");
            assert(p@ =~= bundle_path_chars(*t, work_dir@));
        }
        DependencyBundle { triple: *t, local_path: p, remote_url: bundle_url(t), present: dir_exists }
    }

    /// Whether the archive must be fetched: exactly when the bundle
    /// directory is absent.
    pub fn needs_fetch(&self) -> (r: bool)
        ensures
            r == !self.present,
    {
        !self.present
    }

    /// The name the fetched archive is stored under, and the name the
    /// extraction step is given: the URL's last path segment.
    pub fn archive_name(&self) -> (r: String)
        ensures
            r@ == url_file_name(self.remote_url@),
    {
        file_name_from_url(self.remote_url.as_str())
    }
}

} // verus!
