//! Resolving the cross-compilation environment variables.
//!
//! Each cross-compile setting — sysroot, OpenSSL headers and library
//! directories, the storage-engine library directory — is resolved with a
//! fixed precedence: an already-set process environment variable of that
//! name wins outright; otherwise a fixed sub-path under the dependency
//! bundle directory is used when that sub-path exists on disk; otherwise the
//! variable stays unresolved and gates readiness. Reading the process
//! environment and testing paths happens outside the library; the answers
//! come in as arguments.

use vstd::prelude::*;

use crate::triple::TargetTriple;

verus! {

/// Where a resolved value came from.
#[derive(Clone, Copy, Debug, PartialEq, Eq, Structural)]
pub enum EnvVarSource {
    /// An already-set environment variable of the same name.
    ExplicitOverride,
    /// A fixed sub-path under the dependency bundle directory.
    DiscoveredFromBundle,
    /// Nothing provided a value; readiness fails on a required variable in
    /// this state.
    Unresolved,
}

/// One required cross-compile variable after resolution.
#[derive(Debug)]
pub struct EnvVarSpec {
    /// The environment variable's name.
    pub key: String,
    /// The resolved value, if any.
    pub resolved_value: Option<String>,
    /// Where the value came from.
    pub source: EnvVarSource,
}

/// The view of an optional owned string.
pub open spec fn opt_chars(o: Option<String>) -> Option<Seq<char>> {
    match o {
        Some(s) => Some(s@),
        None => None,
    }
}

/// The value the precedence yields: the override when set, else the bundle
/// sub-path when it exists on disk, else nothing.
pub open spec fn resolved_value_spec(
    override_value: Option<Seq<char>>,
    bundle_dir: Seq<char>,
    sub_path: Seq<char>,
    sub_path_exists: bool,
) -> Option<Seq<char>> {
    match override_value {
        Some(v) => Some(v),
        None => if sub_path_exists {
            Some(bundle_dir + seq!['/'] + sub_path)
        } else {
            None
        },
    }
}

/// The source the precedence yields.
pub open spec fn resolved_source_spec(
    override_value: Option<Seq<char>>,
    sub_path_exists: bool,
) -> EnvVarSource {
    match override_value {
        Some(_) => EnvVarSource::ExplicitOverride,
        None => if sub_path_exists {
            EnvVarSource::DiscoveredFromBundle
        } else {
            EnvVarSource::Unresolved
        },
    }
}

/// Resolves one variable. `override_value` is the variable's value in the
/// process environment, if it is set there; `sub_path_exists` says whether
/// `<bundle_dir>/<sub_path>` exists on disk.
pub fn resolve_env_var(
    key: &str,
    override_value: Option<String>,
    bundle_dir: &str,
    sub_path: &str,
    sub_path_exists: bool,
) -> (r: EnvVarSpec)
    ensures
        r.key@ == key@,
        opt_chars(r.resolved_value) == resolved_value_spec(
            opt_chars(override_value),
            bundle_dir@,
            sub_path@,
            sub_path_exists,
        ),
        r.source == resolved_source_spec(opt_chars(override_value), sub_path_exists),
{
    match override_value {
        Some(v) => EnvVarSpec {
            key: key.to_owned(),
            resolved_value: Some(v),
            source: EnvVarSource::ExplicitOverride,
        },
        None => {
            if sub_path_exists {
                let mut p = bundle_dir.to_owned();
                p.append("/");
                p.append(sub_path);
                proof {
                    reveal_strlit("/");
                    assert(p@ =~= bundle_dir@ + seq!['/'] + sub_path@);
                }
                EnvVarSpec {
                    key: key.to_owned(),
                    resolved_value: Some(p),
                    source: EnvVarSource::DiscoveredFromBundle,
                }
            } else {
                EnvVarSpec {
                    key: key.to_owned(),
                    resolved_value: None,
                    source: EnvVarSource::Unresolved,
                }
            }
        },
    }
}

/// Precedence law. When an override environment variable is set for a key,
/// the resolved value equals the override and is marked as one, whether or
/// not a matching path exists under the bundle directory.
pub proof fn lemma_override_wins(
    v: Seq<char>,
    bundle_dir: Seq<char>,
    sub_path: Seq<char>,
    sub_path_exists: bool,
)
    ensures
        resolved_value_spec(Some(v), bundle_dir, sub_path, sub_path_exists) == Some(v),
        resolved_source_spec(Some(v), sub_path_exists) == EnvVarSource::ExplicitOverride,
{
}

/// The bundle sub-path holding the OpenSSL headers.
pub open spec fn headers_subdir_chars() -> Seq<char> {
    "incl"@ + "ude"@
}

/// The bundle sub-path holding the OpenSSL headers.
pub fn headers_subdir() -> (r: String)
    ensures
        r@ == headers_subdir_chars(),
{
    let mut r = "incl".to_owned();
    r.append("ude");
    r
}

/// A variable the selected target requires: its name and the fixed sub-path
/// under the bundle directory that can provide it.
#[derive(Debug)]
pub struct EnvVarRequirement {
    /// The environment variable's name.
    pub key: String,
    /// The sub-path under the bundle directory that provides the value when
    /// no override is set.
    pub sub_path: String,
}

/// The variables the selected target requires. A Linux-family target needs
/// the sysroot and the OpenSSL pair on top of the storage-engine library
/// directory; other targets get TLS from their own platform and need only
/// the storage engine.
pub fn required_env_vars(t: &TargetTriple) -> (r: Vec<EnvVarRequirement>)
    ensures
        *t is X8664UnknownLinuxGnu ==> r@.len() == 4 && r@[0].key@ == "SYSROOT"@ && r@[0].sub_path@
            == "sysroot"@ && r@[1].key@ == "OPENSSL_INCLUDE_DIR"@ && r@[1].sub_path@
            == headers_subdir_chars() && r@[2].key@ == "OPENSSL_LIB_DIR"@ && r@[2].sub_path@
            == "lib/openssl"@
            && r@[3].key@ == "ROCKSDB_LIB_DIR"@ && r@[3].sub_path@ == "lib/rocksdb"@,
        !(*t is X8664UnknownLinuxGnu) ==> r@.len() == 1 && r@[0].key@ == "ROCKSDB_LIB_DIR"@
            && r@[0].sub_path@ == "lib/rocksdb"@,
{
    let mut r: Vec<EnvVarRequirement> = Vec::new();
    if t.is_linux_family() {
        r.push(EnvVarRequirement { key: "SYSROOT".to_owned(), sub_path: "sysroot".to_owned() });
        r.push(EnvVarRequirement {
            key: "OPENSSL_INCLUDE_DIR".to_owned(),
            sub_path: headers_subdir(),
        });
        r.push(EnvVarRequirement {
            key: "OPENSSL_LIB_DIR".to_owned(),
            sub_path: "lib/openssl".to_owned(),
        });
        r.push(EnvVarRequirement {
            key: "ROCKSDB_LIB_DIR".to_owned(),
            sub_path: "lib/rocksdb".to_owned(),
        });
    } else {
        r.push(EnvVarRequirement {
            key: "ROCKSDB_LIB_DIR".to_owned(),
            sub_path: "lib/rocksdb".to_owned(),
        });
    }
    r
}

} // verus!
