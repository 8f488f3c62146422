//! Verifying and installing the pinned toolchain and its targets.
//!
//! The toolchain manager lists installed toolchains and, per toolchain, the
//! available targets with an `(installed)` or `(default)` mark. This module
//! reads those listings and plans the installs: the pinned toolchain when it
//! is not listed, and each required target that the listing does not mark
//! installed. A listing entry is recognised by its whole first token, never
//! by substring containment, so one triple cannot spuriously match inside a
//! longer one. Running the list and install subcommands happens outside the
//! library; their captured output and exit codes come back in as arguments.

use vstd::prelude::*;

use crate::probe::{ProbeOutcome, ProvisionError};
use crate::text::{
    after_token, after_token_str, first_token, first_token_str, split_lines, split_lines_spec,
    trim_str, trimmed,
};
use crate::triple::{ProvisioningConfig, TargetTriple, triple_chars};

verus! {

/// Some line of the listing, trimmed, has `name` as its whole first token.
pub open spec fn listing_names(listing: Seq<char>, name: Seq<char>) -> bool {
    exists|i: int|
        0 <= i < split_lines_spec(listing).len() && first_token(
            trimmed(split_lines_spec(listing)[i]),
        ) == name
}

/// The line, trimmed, has `name` as its whole first token, and the rest of
/// the line, trimmed, reads `(installed)` or `(default)`.
pub open spec fn marks_installed_line(line: Seq<char>, name: Seq<char>) -> bool {
    first_token(trimmed(line)) == name && (trimmed(after_token(trimmed(line))) == "(installed)"@
        || trimmed(after_token(trimmed(line))) == "(default)"@)
}

/// Some line of the target listing marks `name` installed.
pub open spec fn listing_marks_installed(listing: Seq<char>, name: Seq<char>) -> bool {
    exists|i: int|
        0 <= i < split_lines_spec(listing).len() && marks_installed_line(
            split_lines_spec(listing)[i],
            name,
        )
}

/// Whether some line of `listing`, trimmed, has `name` as its whole first
/// token.
pub fn listing_has_name(listing: &str, name: &str) -> (r: bool)
    ensures
        r == listing_names(listing@, name@),
{
    let lines = split_lines(listing);
    let target = name.to_owned();
    let n = lines.len();
    let mut i: usize = 0;
    let mut found = false;
    while i < n
        invariant
            n == lines@.len(),
            lines@.len() == split_lines_spec(listing@).len(),
            forall|j: int| 0 <= j < lines@.len() ==> lines@[j]@ == split_lines_spec(listing@)[j],
            target@ == name@,
            i <= n,
            found == exists|j: int|
                0 <= j < i && first_token(trimmed(split_lines_spec(listing@)[j])) == name@,
        decreases n - i,
    {
        let lt = trim_str(lines[i].as_str());
        let tok = first_token_str(lt.as_str());
        proof {
            assert(lines@[i as int]@ == split_lines_spec(listing@)[i as int]);
        }
        if tok == target {
            found = true;
            proof {
                assert(first_token(trimmed(split_lines_spec(listing@)[i as int])) == name@);
            }
        } else {
            proof {
                assert(first_token(trimmed(split_lines_spec(listing@)[i as int])) != name@);
            }
        }
        i = i + 1;
    }
    found
}

/// Whether some line of the target listing marks `name` installed, as
/// [`marks_installed_line`] defines it.
pub fn listing_shows_installed(listing: &str, name: &str) -> (r: bool)
    ensures
        r == listing_marks_installed(listing@, name@),
{
    let lines = split_lines(listing);
    let target = name.to_owned();
    let installed_mark = "(installed)".to_owned();
    let default_mark = "(default)".to_owned();
    let n = lines.len();
    let mut i: usize = 0;
    let mut found = false;
    while i < n
        invariant
            n == lines@.len(),
            lines@.len() == split_lines_spec(listing@).len(),
            forall|j: int| 0 <= j < lines@.len() ==> lines@[j]@ == split_lines_spec(listing@)[j],
            target@ == name@,
            installed_mark@ == "(installed)"@,
            default_mark@ == "(default)"@,
            i <= n,
            found == exists|j: int|
                0 <= j < i && marks_installed_line(split_lines_spec(listing@)[j], name@),
        decreases n - i,
    {
        let lt = trim_str(lines[i].as_str());
        let tok = first_token_str(lt.as_str());
        let rest = after_token_str(lt.as_str());
        let mark = trim_str(rest.as_str());
        proof {
            assert(lines@[i as int]@ == split_lines_spec(listing@)[i as int]);
        }
        if tok == target && (mark == installed_mark || mark == default_mark) {
            found = true;
            proof {
                assert(marks_installed_line(split_lines_spec(listing@)[i as int], name@));
            }
        } else {
            proof {
                assert(!marks_installed_line(split_lines_spec(listing@)[i as int], name@));
            }
        }
        i = i + 1;
    }
    found
}

/// The identifier of the pinned toolchain on `host`: the dated nightly,
/// suffixed with the host triple.
pub open spec fn pinned_toolchain_chars(host: TargetTriple) -> Seq<char> {
    "nightly-2019-07-14-"@ + triple_chars(host)
}

/// The auxiliary target every build needs for the WASM runtime.
pub open spec fn wasm_target_chars() -> Seq<char> {
    "wasm32-unknown-unknown"@
}

/// Where the helper that shrinks built WASM comes from.
pub open spec fn wasm_gc_source_chars() -> Seq<char> {
    "https://github.com/alexcrichton/wasm-gc"@
}

/// The identifier of the pinned toolchain on `host`.
pub fn pinned_toolchain_id(host: &TargetTriple) -> (r: String)
    ensures
        r@ == pinned_toolchain_chars(*host),
{
    let mut r = "nightly-2019-07-14-".to_owned();
    r.append(host.as_text().as_str());
    r
}

/// The installs one provisioning pass has to perform: the pinned toolchain
/// and each required target that the listings do not show.
#[derive(Clone, Copy, Debug, PartialEq, Eq, Structural)]
pub struct ProvisionPlan {
    /// Install the pinned toolchain.
    pub install_toolchain: bool,
    /// Add the run target to the pinned toolchain.
    pub add_run_target: bool,
    /// Add the WASM target to the pinned toolchain.
    pub add_wasm_target: bool,
}

/// The plan the listings dictate: install whatever they do not show.
pub open spec fn plan_spec(
    toolchain_list: Seq<char>,
    target_list: Seq<char>,
    toolchain_id: Seq<char>,
    run_target: Seq<char>,
    wasm_target: Seq<char>,
) -> ProvisionPlan {
    ProvisionPlan {
        install_toolchain: !listing_names(toolchain_list, toolchain_id),
        add_run_target: !listing_marks_installed(target_list, run_target),
        add_wasm_target: !listing_marks_installed(target_list, wasm_target),
    }
}

impl ProvisionPlan {
    /// The plan performs no install at all.
    pub open spec fn spec_is_noop(self) -> bool {
        !self.install_toolchain && !self.add_run_target && !self.add_wasm_target
    }

    /// Whether the plan performs no install at all.
    pub fn is_noop(&self) -> (r: bool)
        ensures
            r == self.spec_is_noop(),
    {
        !self.install_toolchain && !self.add_run_target && !self.add_wasm_target
    }
}

/// Checks that the pinned toolchain and the required targets are installed
/// and plans the installs for whatever is missing.
#[derive(Debug)]
pub struct ToolchainProvisioner {
    /// The pinned toolchain's identifier on this host.
    pub toolchain_id: String,
    /// The triple the build is for.
    pub run_target: TargetTriple,
    /// The auxiliary WASM target.
    pub wasm_target: String,
}

impl ToolchainProvisioner {
    /// Sets up the provisioner for one pass: the pinned toolchain on the
    /// configured host, the configured run target, and the WASM target.
    pub fn new(config: &ProvisioningConfig) -> (r: ToolchainProvisioner)
        ensures
            r.toolchain_id@ == pinned_toolchain_chars(config.host),
            r.run_target == config.spec_run_target(),
            r.wasm_target@ == wasm_target_chars(),
    {
        ToolchainProvisioner {
            toolchain_id: pinned_toolchain_id(&config.host),
            run_target: config.run_target(),
            wasm_target: "wasm32-unknown-unknown".to_owned(),
        }
    }

    /// Reads the two listings and plans the installs: the pinned toolchain
    /// unless the toolchain listing names it, and each target the target
    /// listing does not mark installed.
    pub fn plan(&self, toolchain_list: &str, target_list: &str) -> (r: ProvisionPlan)
        ensures
            r == plan_spec(
                toolchain_list@,
                target_list@,
                self.toolchain_id@,
                triple_chars(self.run_target),
                self.wasm_target@,
            ),
    {
        let run_target_text = self.run_target.as_text();
        ProvisionPlan {
            install_toolchain: !listing_has_name(toolchain_list, self.toolchain_id.as_str()),
            add_run_target: !listing_shows_installed(target_list, run_target_text.as_str()),
            add_wasm_target: !listing_shows_installed(target_list, self.wasm_target.as_str()),
        }
    }
}

/// The probed and pinned tools one pass works with, as text: empty means the
/// tool is missing and the readiness gate fails on it.
#[derive(Debug)]
pub struct Tool {
    /// The toolchain manager's version, trimmed probe output.
    pub rustup: String,
    /// The build frontend's version, trimmed probe output.
    pub cargo: String,
    /// The pinned toolchain's identifier.
    pub toolchain: String,
    /// The run target triple, as text.
    pub run_target: String,
    /// The auxiliary WASM target, as text.
    pub wasm_target: String,
    /// Where the WASM shrinking helper comes from; empty while it is not
    /// available.
    pub wasm_gc: String,
}

impl Tool {
    /// Assembles the tool record from the two version probes. The manager
    /// and the frontend must both be present — neither is ever
    /// auto-installed, so a missing one is fatal — and their trimmed output
    /// is the recorded version. `wasm_gc_available` says whether the WASM
    /// helper is present after any install the plan asked for.
    pub fn assemble(
        config: &ProvisioningConfig,
        rustup_probe: &ProbeOutcome,
        cargo_probe: &ProbeOutcome,
        wasm_gc_available: bool,
    ) -> (r: Result<Tool, ProvisionError>)
        ensures
            match (rustup_probe, cargo_probe) {
                (ProbeOutcome::Output(rv), ProbeOutcome::Output(cv)) => r matches Ok(tool)
                    && tool.rustup@ == trimmed(rv@) && tool.cargo@ == trimmed(cv@)
                    && tool.toolchain@ == pinned_toolchain_chars(config.host) && tool.run_target@
                    == triple_chars(config.spec_run_target()) && tool.wasm_target@
                    == wasm_target_chars() && tool.wasm_gc@ == if wasm_gc_available {
                    wasm_gc_source_chars()
                } else {
                    Seq::<char>::empty()
                },
                (ProbeOutcome::NotFound, _) => r matches Err(e) && e is ManagerNotFound,
                (ProbeOutcome::SpawnFailure, _) => r matches Err(e) && e is SpawnFailure,
                (ProbeOutcome::Output(_), ProbeOutcome::NotFound) => r matches Err(e)
                    && e is FrontendNotFound,
                (ProbeOutcome::Output(_), ProbeOutcome::SpawnFailure) => r matches Err(e)
                    && e is SpawnFailure,
            },
    {
        let rustup = match rustup_probe {
            ProbeOutcome::Output(rv) => trim_str(rv.as_str()),
            ProbeOutcome::NotFound => {
                return Err(ProvisionError::ManagerNotFound);
            },
            ProbeOutcome::SpawnFailure => {
                return Err(ProvisionError::SpawnFailure);
            },
        };
        let cargo = match cargo_probe {
            ProbeOutcome::Output(cv) => trim_str(cv.as_str()),
            ProbeOutcome::NotFound => {
                return Err(ProvisionError::FrontendNotFound);
            },
            ProbeOutcome::SpawnFailure => {
                return Err(ProvisionError::SpawnFailure);
            },
        };
        let run_target = config.run_target().as_text();
        let wasm_gc = if wasm_gc_available {
            "https://github.com/alexcrichton/wasm-gc".to_owned()
        } else {
            String::new()
        };
        Ok(Tool {
            rustup,
            cargo,
            toolchain: pinned_toolchain_id(&config.host),
            run_target,
            wasm_target: "wasm32-unknown-unknown".to_owned(),
            wasm_gc,
        })
    }
}

/// Idempotence of the provisioner. When the listings already show the pinned
/// toolchain and both required targets installed — as they do on the pass
/// right after a successful one, with no environment change in between — the
/// plan performs no install at all: such a pass issues only the read-only
/// list commands.
pub proof fn lemma_provisioner_idempotent(
    toolchain_list: Seq<char>,
    target_list: Seq<char>,
    toolchain_id: Seq<char>,
    run_target: Seq<char>,
    wasm_target: Seq<char>,
)
    requires
        listing_names(toolchain_list, toolchain_id),
        listing_marks_installed(target_list, run_target),
        listing_marks_installed(target_list, wasm_target),
    ensures
        plan_spec(toolchain_list, target_list, toolchain_id, run_target, wasm_target).spec_is_noop(),
{
}

} // verus!
