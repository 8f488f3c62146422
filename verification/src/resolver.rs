//! The cross-compilation environment resolver.
//!
//! Invoked only when the selected run target differs from the host. One pass
//! probes the target's cross compiler, derives the linker entry for the
//! shared toolchain configuration file (appending it only when missing),
//! records where the dependency bundle lives, and resolves each required
//! environment variable with the override-then-bundle precedence. The pass
//! itself only decides; the probe, the filesystem answers and the process
//! environment come in as arguments, and an unresolved value leaves its
//! field empty so that the readiness gate fails on it.

use vstd::prelude::*;

use crate::bundle::DependencyBundle;
use crate::config_file::{
    linker_section, linker_section_chars, section_header, section_header_chars,
    write_linker_section, written_config,
};
use crate::envvar::{
    EnvVarSpec, headers_subdir, headers_subdir_chars, opt_chars, resolve_env_var,
    resolved_source_spec, resolved_value_spec,
};
use crate::probe::{ProbeOutcome, ProvisionError};
use crate::text::{first_line, first_line_str, first_token, first_token_str, has_trimmed_line,
    trim_str, trimmed};
use crate::triple::TargetTriple;

verus! {

/// The cross compiler probed for the given target.
pub open spec fn cross_linker_chars(t: TargetTriple) -> Seq<char> {
    match t {
        TargetTriple::X8664AppleDarwin => "x86_64-apple-darwin19-clang"@,
        TargetTriple::X8664UnknownLinuxGnu => "x86_64-unknown-linux-gnu-gcc"@,
        TargetTriple::X8664PcWindowsGnu => "x86_64-w64-mingw32-gcc"@,
    }
}

/// The cross compiler to probe for the given target.
pub fn cross_linker_program(t: &TargetTriple) -> (r: String)
    ensures
        r@ == cross_linker_chars(*t),
{
    match t {
        TargetTriple::X8664AppleDarwin => "x86_64-apple-darwin19-clang".to_owned(),
        TargetTriple::X8664UnknownLinuxGnu => "x86_64-unknown-linux-gnu-gcc".to_owned(),
        TargetTriple::X8664PcWindowsGnu => "x86_64-w64-mingw32-gcc".to_owned(),
    }
}

/// What the build's TARGET_CC records when the cross compiler was found:
/// for the Darwin target the compiler's fixed name, for the others the
/// first line of the probe's trimmed output.
pub open spec fn target_cc_chars(t: TargetTriple, version_output: Seq<char>) -> Seq<char> {
    match t {
        TargetTriple::X8664AppleDarwin => cross_linker_chars(t),
        _ => first_line(trimmed(version_output)),
    }
}

/// The linker name written into the configuration section: for the Darwin
/// target the compiler's fixed name, for the others the first token of what
/// TARGET_CC records.
pub open spec fn linker_name_chars(t: TargetTriple, version_output: Seq<char>) -> Seq<char> {
    match t {
        TargetTriple::X8664AppleDarwin => cross_linker_chars(t),
        _ => first_token(target_cc_chars(t, version_output)),
    }
}

/// The target-specific linker, when its probe found it.
#[derive(Debug)]
pub struct LinkerResolution {
    /// What the build's TARGET_CC is set to.
    pub target_cc: String,
    /// The `[target.<triple>]` section naming the linker.
    pub section: String,
}

/// Reads the cross-compiler probe: found means a linker entry can be
/// written; a missing compiler degrades the pass (the caller reports advice
/// and goes on unresolved); any other spawn failure is fatal.
pub fn resolve_linker(t: &TargetTriple, probe: &ProbeOutcome) -> (r: Result<
    Option<LinkerResolution>,
    ProvisionError,
>)
    ensures
        match probe {
            ProbeOutcome::Output(o) => r matches Ok(Some(lr)) && lr.target_cc@ == target_cc_chars(
                *t,
                o@,
            ) && lr.section@ == linker_section_chars(*t, linker_name_chars(*t, o@)),
            ProbeOutcome::NotFound => r matches Ok(None),
            ProbeOutcome::SpawnFailure => r matches Err(e) && e is SpawnFailure,
        },
{
    match probe {
        ProbeOutcome::Output(o) => {
            match t {
                TargetTriple::X8664AppleDarwin => {
                    let cc = cross_linker_program(t);
                    let section = linker_section(t, cc.as_str());
                    Ok(Some(LinkerResolution { target_cc: cc, section }))
                },
                _ => {
                    let cc = first_line_str(trim_str(o.as_str()).as_str());
                    let name = first_token_str(cc.as_str());
                    let section = linker_section(t, name.as_str());
                    Ok(Some(LinkerResolution { target_cc: cc, section }))
                },
            }
        },
        ProbeOutcome::NotFound => Ok(None),
        ProbeOutcome::SpawnFailure => Err(ProvisionError::SpawnFailure),
    }
}

/// The cross-compile settings one pass resolved, with an empty string for
/// anything that stayed unresolved. These are the values the build
/// subprocess is given; the readiness gate fails while a required one is
/// empty.
#[derive(Debug)]
pub struct EnvVar {
    /// The linker section written (or found) in the configuration file;
    /// empty when the cross compiler was not found.
    pub config_file: String,
    /// What TARGET_CC is set to; empty when the cross compiler was not
    /// found.
    pub target_cc: String,
    /// The dependency bundle directory; empty while the bundle is absent.
    pub deps: String,
    /// The sysroot handed to the linker; Linux-family targets only.
    pub sysroot: String,
    /// OpenSSL headers; Linux-family targets only.
    pub openssl_include_dir: String,
    /// OpenSSL libraries; Linux-family targets only.
    pub openssl_lib_dir: String,
    /// The storage engine's libraries; all cross targets.
    pub rocksdb_lib_dir: String,
}

impl EnvVar {
    /// The record of a pass that does not cross-compile: nothing to resolve.
    pub fn native() -> (r: EnvVar)
        ensures
            r.config_file@.len() == 0,
            r.target_cc@.len() == 0,
            r.deps@.len() == 0,
            r.sysroot@.len() == 0,
            r.openssl_include_dir@.len() == 0,
            r.openssl_lib_dir@.len() == 0,
            r.rocksdb_lib_dir@.len() == 0,
    {
        EnvVar {
            config_file: String::new(),
            target_cc: String::new(),
            deps: String::new(),
            sysroot: String::new(),
            openssl_include_dir: String::new(),
            openssl_lib_dir: String::new(),
            rocksdb_lib_dir: String::new(),
        }
    }
}

/// The process environment's overrides for the resolver's keys: each field
/// is the like-named variable's value when it is set.
#[derive(Debug)]
pub struct EnvOverrides {
    pub sysroot: Option<String>,
    pub openssl_include_dir: Option<String>,
    pub openssl_lib_dir: Option<String>,
    pub rocksdb_lib_dir: Option<String>,
}

/// Which fixed sub-paths exist under the bundle directory on disk.
#[derive(Clone, Copy, Debug, PartialEq, Eq, Structural)]
pub struct BundleSubdirs {
    /// `<bundle>/sysroot`
    pub sysroot: bool,
    /// The OpenSSL headers directory under the bundle.
    pub headers: bool,
    /// `<bundle>/lib/openssl`
    pub openssl_lib: bool,
    /// `<bundle>/lib/rocksdb`
    pub rocksdb_lib: bool,
}

/// Everything one resolver pass produced.
#[derive(Debug)]
pub struct CrossResolution {
    /// The resolved settings, empty strings for unresolved ones.
    pub env_var: EnvVar,
    /// The configuration file's new content, to be written back whole.
    pub config_content: String,
    /// Whether the linker section was appended (false: it was already there,
    /// or there was no linker to name).
    pub config_appended: bool,
    /// The per-variable resolution records, for reporting.
    pub env_specs: Vec<EnvVarSpec>,
}

/// A resolved value, or the empty text when nothing provided one.
pub open spec fn value_or_empty(v: Option<Seq<char>>) -> Seq<char> {
    match v {
        Some(s) => s,
        None => Seq::empty(),
    }
}

/// The record `s` is what resolving `key` with the given observations
/// yields.
pub open spec fn env_spec_matches(
    s: EnvVarSpec,
    key: Seq<char>,
    ov: Option<Seq<char>>,
    base: Seq<char>,
    sub: Seq<char>,
    exists: bool,
) -> bool {
    s.key@ == key && opt_chars(s.resolved_value) == resolved_value_spec(ov, base, sub, exists)
        && s.source == resolved_source_spec(ov, exists)
}

/// The value such a resolution puts into the build's environment: the
/// resolved text, or empty while unresolved.
pub open spec fn var_value(
    ov: Option<Seq<char>>,
    base: Seq<char>,
    sub: Seq<char>,
    exists: bool,
) -> Seq<char> {
    value_or_empty(resolved_value_spec(ov, base, sub, exists))
}

/// The resolved value as an owned string, empty when there is none.
fn value_or_default(o: &Option<String>) -> (r: String)
    ensures
        r@ == value_or_empty(opt_chars(*o)),
{
    match o {
        Some(v) => v.clone(),
        None => String::new(),
    }
}

/// One resolver pass for cross-compiling to `t`.
///
/// `existing_config` is the configuration file's current content;
/// `linker_probe` what running the target's cross compiler with its version
/// flag produced; `bundle` the located dependency bundle, its presence
/// re-checked after any fetch and extraction; `overrides` the process
/// environment's values for the resolver's keys; `subdirs` which fixed
/// sub-paths exist under the bundle directory.
///
/// Resolves the linker and, when it was found, computes the configuration
/// file's new content, appending the `[target.<triple>]` section only when
/// no line of the file reads that header yet. Resolves each variable the
/// target requires — all of them for a Linux-family target, only the
/// storage engine's for the others — by the override-then-bundle
/// precedence, and leaves every other field empty.
pub fn resolve_cross_env(
    t: &TargetTriple,
    existing_config: &str,
    linker_probe: &ProbeOutcome,
    bundle: &DependencyBundle,
    overrides: EnvOverrides,
    subdirs: &BundleSubdirs,
) -> (r: Result<CrossResolution, ProvisionError>)
    ensures
        linker_probe is SpawnFailure <==> (r matches Err(e) && e is SpawnFailure),
        match r {
            Ok(cr) => {
                &&& match linker_probe {
                    ProbeOutcome::Output(o) => {
                        &&& cr.env_var.target_cc@ == target_cc_chars(*t, o@)
                        &&& cr.env_var.config_file@ == linker_section_chars(
                            *t,
                            linker_name_chars(*t, o@),
                        )
                        &&& cr.config_content@ == written_config(
                            existing_config@,
                            cr.env_var.config_file@,
                            section_header_chars(*t),
                        )
                        &&& cr.config_appended == !has_trimmed_line(
                            existing_config@,
                            section_header_chars(*t),
                        )
                    },
                    ProbeOutcome::NotFound => cr.env_var.target_cc@.len() == 0
                        && cr.env_var.config_file@.len() == 0 && cr.config_content@
                        == existing_config@ && !cr.config_appended,
                    ProbeOutcome::SpawnFailure => false,
                }
                &&& cr.env_var.deps@ == if bundle.present {
                    bundle.local_path@
                } else {
                    Seq::<char>::empty()
                }
                &&& if *t is X8664UnknownLinuxGnu {
                    &&& cr.env_specs@.len() == 4
                    &&& env_spec_matches(
                        cr.env_specs@[0],
                        "SYSROOT"@,
                        opt_chars(overrides.sysroot),
                        bundle.local_path@,
                        "sysroot"@,
                        subdirs.sysroot,
                    )
                    &&& env_spec_matches(
                        cr.env_specs@[1],
                        "OPENSSL_INCLUDE_DIR"@,
                        opt_chars(overrides.openssl_include_dir),
                        bundle.local_path@,
                        headers_subdir_chars(),
                        subdirs.headers,
                    )
                    &&& env_spec_matches(
                        cr.env_specs@[2],
                        "OPENSSL_LIB_DIR"@,
                        opt_chars(overrides.openssl_lib_dir),
                        bundle.local_path@,
                        "lib/openssl"@,
                        subdirs.openssl_lib,
                    )
                    &&& env_spec_matches(
                        cr.env_specs@[3],
                        "ROCKSDB_LIB_DIR"@,
                        opt_chars(overrides.rocksdb_lib_dir),
                        bundle.local_path@,
                        "lib/rocksdb"@,
                        subdirs.rocksdb_lib,
                    )
                    &&& cr.env_var.sysroot@ == var_value(
                        opt_chars(overrides.sysroot),
                        bundle.local_path@,
                        "sysroot"@,
                        subdirs.sysroot,
                    )
                    &&& cr.env_var.openssl_include_dir@ == var_value(
                        opt_chars(overrides.openssl_include_dir),
                        bundle.local_path@,
                        headers_subdir_chars(),
                        subdirs.headers,
                    )
                    &&& cr.env_var.openssl_lib_dir@ == var_value(
                        opt_chars(overrides.openssl_lib_dir),
                        bundle.local_path@,
                        "lib/openssl"@,
                        subdirs.openssl_lib,
                    )
                    &&& cr.env_var.rocksdb_lib_dir@ == var_value(
                        opt_chars(overrides.rocksdb_lib_dir),
                        bundle.local_path@,
                        "lib/rocksdb"@,
                        subdirs.rocksdb_lib,
                    )
                } else {
                    &&& cr.env_specs@.len() == 1
                    &&& env_spec_matches(
                        cr.env_specs@[0],
                        "ROCKSDB_LIB_DIR"@,
                        opt_chars(overrides.rocksdb_lib_dir),
                        bundle.local_path@,
                        "lib/rocksdb"@,
                        subdirs.rocksdb_lib,
                    )
                    &&& cr.env_var.rocksdb_lib_dir@ == var_value(
                        opt_chars(overrides.rocksdb_lib_dir),
                        bundle.local_path@,
                        "lib/rocksdb"@,
                        subdirs.rocksdb_lib,
                    )
                    &&& cr.env_var.sysroot@.len() == 0
                    &&& cr.env_var.openssl_include_dir@.len() == 0
                    &&& cr.env_var.openssl_lib_dir@.len() == 0
                }
            },
            Err(e) => e is SpawnFailure,
        },
{
    let linker = match resolve_linker(t, linker_probe) {
        Ok(l) => l,
        Err(e) => {
            return Err(e);
        },
    };
    let (target_cc, config_file, config_content, config_appended) = match linker {
        Some(lr) => {
            let header = section_header(t);
            let (content, appended) = write_linker_section(
                existing_config,
                lr.section.as_str(),
                header.as_str(),
            );
            (lr.target_cc, lr.section, content, appended)
        },
        None => (String::new(), String::new(), existing_config.to_owned(), false),
    };
    let deps = if bundle.present {
        bundle.local_path.clone()
    } else {
        String::new()
    };
    let mut env_specs: Vec<EnvVarSpec> = Vec::new();
    let mut sysroot = String::new();
    let mut openssl_include_dir = String::new();
    let mut openssl_lib_dir = String::new();
    let rocksdb_lib_dir;
    if t.is_linux_family() {
        let s0 = resolve_env_var(
            "SYSROOT",
            overrides.sysroot,
            bundle.local_path.as_str(),
            "sysroot",
            subdirs.sysroot,
        );
        sysroot = value_or_default(&s0.resolved_value);
        env_specs.push(s0);
        let headers_sub = headers_subdir();
        let s1 = resolve_env_var(
            "OPENSSL_INCLUDE_DIR",
            overrides.openssl_include_dir,
            bundle.local_path.as_str(),
            headers_sub.as_str(),
            subdirs.headers,
        );
        openssl_include_dir = value_or_default(&s1.resolved_value);
        env_specs.push(s1);
        let s2 = resolve_env_var(
            "OPENSSL_LIB_DIR",
            overrides.openssl_lib_dir,
            bundle.local_path.as_str(),
            "lib/openssl",
            subdirs.openssl_lib,
        );
        openssl_lib_dir = value_or_default(&s2.resolved_value);
        env_specs.push(s2);
        let s3 = resolve_env_var(
            "ROCKSDB_LIB_DIR",
            overrides.rocksdb_lib_dir,
            bundle.local_path.as_str(),
            "lib/rocksdb",
            subdirs.rocksdb_lib,
        );
        rocksdb_lib_dir = value_or_default(&s3.resolved_value);
        env_specs.push(s3);
    } else {
        let s0 = resolve_env_var(
            "ROCKSDB_LIB_DIR",
            overrides.rocksdb_lib_dir,
            bundle.local_path.as_str(),
            "lib/rocksdb",
            subdirs.rocksdb_lib,
        );
        rocksdb_lib_dir = value_or_default(&s0.resolved_value);
        env_specs.push(s0);
    }
    Ok(CrossResolution {
        env_var: EnvVar {
            config_file,
            target_cc,
            deps,
            sysroot,
            openssl_include_dir,
            openssl_lib_dir,
            rocksdb_lib_dir,
        },
        config_content,
        config_appended,
        env_specs,
    })
}

} // verus!
