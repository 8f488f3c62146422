//! The readiness gate and the planned build commands.
//!
//! A pass collects a [`Tool`] record and an [`EnvVar`] record; the builder
//! holds both, together with the pass's configuration. `check` is the single
//! pass/fail readiness decision: every essential tool must be present, and a
//! cross-compiling pass additionally needs every setting its target family
//! requires. Only a ready builder's command plans are meant to be run; the
//! plans say which programs to invoke, with which arguments, environment and
//! working directory, and running them happens outside the library.

use vstd::prelude::*;

use crate::resolver::EnvVar;
use crate::text::{first_token, first_token_str, views_of};
use crate::toolchain::Tool;
use crate::triple::{ProvisioningConfig, triple_chars};

verus! {

/// A builder for one provisioning pass: its configuration and the two
/// records the pass produced.
#[derive(Debug)]
pub struct Builder {
    /// What this pass was asked to do.
    pub config: ProvisioningConfig,
    /// The probed and pinned tools.
    pub tool: Tool,
    /// The resolved cross-compile settings.
    pub env_var: EnvVar,
}

/// Every essential tool is present: the manager, the frontend, the pinned
/// toolchain, both targets and the WASM helper all have non-empty records.
pub open spec fn essential_ok(tool: Tool) -> bool {
    tool.rustup@.len() > 0 && tool.cargo@.len() > 0 && tool.toolchain@.len() > 0
        && tool.wasm_target@.len() > 0 && tool.wasm_gc@.len() > 0 && tool.run_target@.len() > 0
}

/// Every setting a cross-compiling pass requires is resolved. A Linux-family
/// target needs them all; the others need no sysroot and no OpenSSL, their
/// platform provides TLS.
pub open spec fn cross_ok(env: EnvVar, linux_family: bool) -> bool {
    if linux_family {
        env.config_file@.len() > 0 && env.target_cc@.len() > 0 && env.deps@.len() > 0
            && env.sysroot@.len() > 0 && env.openssl_include_dir@.len() > 0
            && env.openssl_lib_dir@.len() > 0 && env.rocksdb_lib_dir@.len() > 0
    } else {
        env.config_file@.len() > 0 && env.target_cc@.len() > 0 && env.deps@.len() > 0
            && env.rocksdb_lib_dir@.len() > 0
    }
}

/// The readiness gate: the essential tools, and — only when cross-compiling
/// — the target family's required settings.
pub open spec fn ready_spec(b: Builder) -> bool {
    essential_ok(b.tool) && (b.config.spec_is_cross() ==> cross_ok(
        b.env_var,
        b.config.spec_run_target() is X8664UnknownLinuxGnu,
    ))
}

/// One variable in a planned command's environment.
#[derive(Debug)]
pub struct EnvAssignment {
    pub key: String,
    pub value: String,
}

/// The key-value views of planned environment assignments.
pub open spec fn env_views(es: Seq<EnvAssignment>) -> Seq<(Seq<char>, Seq<char>)> {
    Seq::new(es.len(), |i: int| (es[i].key@, es[i].value@))
}

/// One command the build step runs: a program, its arguments, the extra
/// environment, and the directory to run in (relative to the project root;
/// none means the root itself).
#[derive(Debug)]
pub struct CommandPlan {
    pub program: String,
    pub args: Vec<String>,
    pub envs: Vec<EnvAssignment>,
    pub working_dir: Option<String>,
}

/// The arguments of the project build: the pinned toolchain and `rustc`,
/// the mode flags, and — when a target is selected — the target, with the
/// sysroot link argument on a Linux-family target.
pub open spec fn project_args_spec(b: Builder) -> Seq<Seq<char>> {
    let base = seq!["+"@ + b.tool.toolchain@, "rustc"@];
    let with_release = if b.config.release {
        base.push("--release"@)
    } else {
        base
    };
    let with_verbose = if b.config.verbose {
        with_release.push("--verbose"@)
    } else {
        with_release
    };
    match b.config.target {
        Some(t) => {
            let with_target = with_verbose + seq!["--target"@, triple_chars(t)];
            if t is X8664UnknownLinuxGnu {
                with_target + seq!["--"@, "-C"@, "link_args=--sysroot="@ + b.env_var.sysroot@]
            } else {
                with_target
            }
        },
        None => with_verbose,
    }
}

/// The environment of the project build: incremental compilation on, and —
/// when a target is selected — the cross compiler and the library
/// directories, with the OpenSSL pair on a Linux-family target. TARGET_CC
/// gets the first token of what the linker probe recorded.
pub open spec fn project_envs_spec(b: Builder) -> Seq<(Seq<char>, Seq<char>)> {
    let base = seq![("CARGO_INCREMENTAL"@, "1"@)];
    match b.config.target {
        Some(t) => {
            let with_target = base + seq![
                ("TARGET_CC"@, first_token(b.env_var.target_cc@)),
                ("ROCKSDB_LIB_DIR"@, b.env_var.rocksdb_lib_dir@),
            ];
            if t is X8664UnknownLinuxGnu {
                with_target + seq![
                    ("OPENSSL_INCLUDE_DIR"@, b.env_var.openssl_include_dir@),
                    ("OPENSSL_LIB_DIR"@, b.env_var.openssl_lib_dir@),
                ]
            } else {
                with_target
            }
        },
        None => base,
    }
}

/// The arguments of the WASM runtime build: a release build for the WASM
/// target with the export-table link argument, under the pinned toolchain.
pub open spec fn wasm_build_args_spec(b: Builder) -> Seq<Seq<char>> {
    seq![
        "+"@ + b.tool.toolchain@,
        "rustc"@,
        "--release"@,
        "--target"@,
        "wasm32-unknown-unknown"@,
        "--"@,
        "-C"@,
        "link-arg=--export-table"@,
    ]
}

/// The arguments of the WASM shrinking step: the built runtime in, the
/// compacted runtime out.
pub open spec fn wasm_gc_args_spec() -> Seq<Seq<char>> {
    seq![
        "target/wasm32-unknown-unknown/release/node_runtime.wasm"@,
        "target/wasm32-unknown-unknown/release/node_runtime.compact.wasm"@,
    ]
}

/// `p` is the project build command for `b`.
pub open spec fn is_project_plan(p: CommandPlan, b: Builder) -> bool {
    p.program@ == "cargo"@ && views_of(p.args@) == project_args_spec(b) && env_views(p.envs@)
        == project_envs_spec(b) && p.working_dir is None
}

/// `p` is the WASM runtime build command for `b`, run in the runtime's
/// directory with incremental compilation off.
pub open spec fn is_wasm_build_plan(p: CommandPlan, b: Builder) -> bool {
    p.program@ == "cargo"@ && views_of(p.args@) == wasm_build_args_spec(b) && env_views(p.envs@)
        == seq![("CARGO_INCREMENTAL"@, "0"@)] && (p.working_dir matches Some(d) && d@
        == "node/runtime/wasm"@)
}

/// `p` is the WASM shrinking command, run in the runtime's directory.
pub open spec fn is_wasm_gc_plan(p: CommandPlan) -> bool {
    p.program@ == "wasm-gc"@ && views_of(p.args@) == wasm_gc_args_spec() && env_views(p.envs@)
        == Seq::<(Seq<char>, Seq<char>)>::empty() && (p.working_dir matches Some(d) && d@
        == "node/runtime/wasm"@)
}

impl Builder {
    /// A builder over the pass's configuration and its two records.
    pub fn new(config: ProvisioningConfig, tool: Tool, env_var: EnvVar) -> (r: Builder)
        ensures
            r.config == config,
            r.tool == tool,
            r.env_var == env_var,
    {
        Builder { config, tool, env_var }
    }

    /// The readiness gate, as [`ready_spec`] defines it: true exactly when
    /// every essential tool is present and, when cross-compiling, every
    /// setting the target family requires is resolved.
    pub fn check(&self) -> (r: bool)
        ensures
            r == ready_spec(*self),
    {
        let essential = !(self.tool.rustup.as_str().is_empty()
            || self.tool.cargo.as_str().is_empty() || self.tool.toolchain.as_str().is_empty()
            || self.tool.wasm_target.as_str().is_empty() || self.tool.wasm_gc.as_str().is_empty()
            || self.tool.run_target.as_str().is_empty());
        if self.config.is_cross_compile() {
            let cross = if self.config.run_target().is_linux_family() {
                !(self.env_var.config_file.as_str().is_empty()
                    || self.env_var.target_cc.as_str().is_empty()
                    || self.env_var.deps.as_str().is_empty()
                    || self.env_var.sysroot.as_str().is_empty()
                    || self.env_var.openssl_include_dir.as_str().is_empty()
                    || self.env_var.openssl_lib_dir.as_str().is_empty()
                    || self.env_var.rocksdb_lib_dir.as_str().is_empty())
            } else {
                !(self.env_var.config_file.as_str().is_empty()
                    || self.env_var.target_cc.as_str().is_empty()
                    || self.env_var.deps.as_str().is_empty()
                    || self.env_var.rocksdb_lib_dir.as_str().is_empty())
            };
            essential && cross
        } else {
            essential
        }
    }

    /// Plans the project build command, as [`is_project_plan`] defines it.
    pub fn build_project_plan(&self) -> (r: CommandPlan)
        ensures
            is_project_plan(r, *self),
    {
        let mut args: Vec<String> = Vec::new();
        let mut plus = "+".to_owned();
        plus.append(self.tool.toolchain.as_str());
        args.push(plus);
        args.push("rustc".to_owned());
        if self.config.release {
            args.push("--release".to_owned());
        }
        if self.config.verbose {
            args.push("--verbose".to_owned());
        }
        let mut envs: Vec<EnvAssignment> = Vec::new();
        envs.push(EnvAssignment { key: "CARGO_INCREMENTAL".to_owned(), value: "1".to_owned() });
        match &self.config.target {
            Some(t) => {
                args.push("--target".to_owned());
                args.push(t.as_text());
                envs.push(EnvAssignment {
                    key: "TARGET_CC".to_owned(),
                    value: first_token_str(self.env_var.target_cc.as_str()),
                });
                envs.push(EnvAssignment {
                    key: "ROCKSDB_LIB_DIR".to_owned(),
                    value: self.env_var.rocksdb_lib_dir.clone(),
                });
                if t.is_linux_family() {
                    args.push("--".to_owned());
                    args.push("-C".to_owned());
                    let mut link = "link_args=--sysroot=".to_owned();
                    link.append(self.env_var.sysroot.as_str());
                    args.push(link);
                    envs.push(EnvAssignment {
                        key: "OPENSSL_INCLUDE_DIR".to_owned(),
                        value: self.env_var.openssl_include_dir.clone(),
                    });
                    envs.push(EnvAssignment {
                        key: "OPENSSL_LIB_DIR".to_owned(),
                        value: self.env_var.openssl_lib_dir.clone(),
                    });
                }
            },
            None => {},
        }
        proof {
            assert(views_of(args@) =~= project_args_spec(*self));
            assert(env_views(envs@) =~= project_envs_spec(*self));
        }
        CommandPlan { program: "cargo".to_owned(), args, envs, working_dir: None }
    }

    /// Plans the WASM runtime build and the shrinking step that follows it.
    pub fn build_wasm_plans(&self) -> (r: (CommandPlan, CommandPlan))
        ensures
            is_wasm_build_plan(r.0, *self),
            is_wasm_gc_plan(r.1),
    {
        let mut args: Vec<String> = Vec::new();
        let mut plus = "+".to_owned();
        plus.append(self.tool.toolchain.as_str());
        args.push(plus);
        args.push("rustc".to_owned());
        args.push("--release".to_owned());
        args.push("--target".to_owned());
        args.push("wasm32-unknown-unknown".to_owned());
        args.push("--".to_owned());
        args.push("-C".to_owned());
        args.push("link-arg=--export-table".to_owned());
        let mut envs: Vec<EnvAssignment> = Vec::new();
        envs.push(EnvAssignment { key: "CARGO_INCREMENTAL".to_owned(), value: "0".to_owned() });
        let build = CommandPlan {
            program: "cargo".to_owned(),
            args,
            envs,
            working_dir: Some("node/runtime/wasm".to_owned()),
        };
        let mut gc_args: Vec<String> = Vec::new();
        gc_args.push("target/wasm32-unknown-unknown/release/node_runtime.wasm".to_owned());
        gc_args.push("target/wasm32-unknown-unknown/release/node_runtime.compact.wasm".to_owned());
        let gc = CommandPlan {
            program: "wasm-gc".to_owned(),
            args: gc_args,
            envs: Vec::new(),
            working_dir: Some("node/runtime/wasm".to_owned()),
        };
        proof {
            assert(views_of(build.args@) =~= wasm_build_args_spec(*self));
            assert(env_views(build.envs@) =~= seq![("CARGO_INCREMENTAL"@, "0"@)]);
            assert(views_of(gc.args@) =~= wasm_gc_args_spec());
            assert(env_views(gc.envs@) =~= Seq::<(Seq<char>, Seq<char>)>::empty());
        }
        (build, gc)
    }

    /// Plans the whole build step: the WASM runtime build and shrink first
    /// when asked for, then the project build.
    pub fn build(&self) -> (r: Vec<CommandPlan>)
        ensures
            self.config.wasm ==> r@.len() == 3 && is_wasm_build_plan(r@[0], *self)
                && is_wasm_gc_plan(r@[1]) && is_project_plan(r@[2], *self),
            !self.config.wasm ==> r@.len() == 1 && is_project_plan(r@[0], *self),
    {
        let mut r: Vec<CommandPlan> = Vec::new();
        if self.config.wasm {
            let (wasm_build, wasm_gc) = self.build_wasm_plans();
            r.push(wasm_build);
            r.push(wasm_gc);
        }
        r.push(self.build_project_plan());
        r
    }
}

/// Where the readiness gate stands.
#[derive(Clone, Copy, Debug, PartialEq, Eq, Structural)]
pub enum CheckState {
    /// Nothing examined yet.
    Unchecked,
    /// The pass is examining the environment.
    Checking,
    /// Everything required is present; the build may be launched.
    Ready,
    /// Something required is missing. Terminal for this pass: the tool does
    /// not retry, the user addresses the reported gaps and re-runs.
    NotReady,
}

/// The readiness gate as a state machine: `Unchecked`, then `Checking`, then
/// `Ready` or `NotReady` according to the builder's records.
#[derive(Debug)]
pub struct ProvisioningCheck {
    pub state: CheckState,
}

impl ProvisioningCheck {
    /// A gate that has examined nothing yet.
    pub fn new() -> (r: ProvisioningCheck)
        ensures
            r.state is Unchecked,
    {
        ProvisioningCheck { state: CheckState::Unchecked }
    }

    /// The pass starts examining the environment.
    pub fn begin(&mut self)
        requires
            old(self).state is Unchecked,
        ensures
            final(self).state is Checking,
    {
        self.state = CheckState::Checking;
    }

    /// Settles the outcome from the builder's records: `Ready` exactly when
    /// the readiness condition holds, else `NotReady`.
    pub fn complete(&mut self, builder: &Builder)
        requires
            old(self).state is Checking,
        ensures
            final(self).state == if ready_spec(*builder) {
                CheckState::Ready
            } else {
                CheckState::NotReady
            },
    {
        if builder.check() {
            self.state = CheckState::Ready;
        } else {
            self.state = CheckState::NotReady;
        }
    }

    /// True exactly in the `Ready` state; the build runs only then.
    pub fn is_ready(&self) -> (r: bool)
        ensures
            r == (self.state is Ready),
    {
        match self.state {
            CheckState::Ready => true,
            _ => false,
        }
    }
}

} // verus!
