use darwinia_builder::builder::{Builder, CheckState, ProvisioningCheck};
use darwinia_builder::probe::{ProbeOutcome, ProvisionError, install_needed_after_probe, tool_status, classify_install_exit};
use darwinia_builder::resolver::EnvVar;
use darwinia_builder::toolchain::{Tool, ToolchainProvisioner};
use darwinia_builder::triple::{ProvisioningConfig, TargetTriple};

#[test]
fn test() {}

fn native_linux_config() -> ProvisioningConfig {
    ProvisioningConfig {
        host: TargetTriple::X8664UnknownLinuxGnu,
        target: None,
        release: false,
        wasm: false,
        verbose: false,
        pack: false,
    }
}

#[test]
fn pinned_toolchain_id_is_dated_nightly_for_host() {
    let p = ToolchainProvisioner::new(&native_linux_config());
    assert_eq!(p.toolchain_id, "nightly-2019-07-14-x86_64-unknown-linux-gnu");
    assert_eq!(p.wasm_target, "wasm32-unknown-unknown");
    assert_eq!(p.run_target, TargetTriple::X8664UnknownLinuxGnu);
}

#[test]
fn provisioner_plans_nothing_when_listings_show_everything() {
    let p = ToolchainProvisioner::new(&native_linux_config());
    let toolchain_list = "stable-x86_64-unknown-linux-gnu\n\
                          nightly-2019-07-14-x86_64-unknown-linux-gnu (default)\n";
    let target_list = "wasm32-unknown-unknown (installed)\n\
                       x86_64-unknown-linux-gnu (default)\n\
                       x86_64-pc-windows-gnu\n";
    let plan = p.plan(toolchain_list, target_list);
    assert!(plan.is_noop());
    assert!(!plan.install_toolchain);
    assert!(!plan.add_run_target);
    assert!(!plan.add_wasm_target);
}

#[test]
fn provisioner_plans_installs_for_whatever_is_missing() {
    let p = ToolchainProvisioner::new(&native_linux_config());
    let toolchain_list = "stable-x86_64-unknown-linux-gnu (default)\n";
    let target_list = "wasm32-unknown-unknown\nx86_64-unknown-linux-gnu (installed)\n";
    let plan = p.plan(toolchain_list, target_list);
    assert!(plan.install_toolchain);
    assert!(!plan.add_run_target);
    assert!(plan.add_wasm_target);
    assert!(!plan.is_noop());
}

#[test]
fn target_match_is_by_whole_token_not_substring() {
    let p = ToolchainProvisioner::new(&native_linux_config());
    // A longer name that merely contains the triple must not count as the
    // triple being installed.
    let target_list = "x86_64-unknown-linux-gnux32 (installed)\n";
    let plan = p.plan("nightly-2019-07-14-x86_64-unknown-linux-gnu\n", target_list);
    assert!(plan.add_run_target);
}

#[test]
fn tool_status_reads_probe_outcomes() {
    let st = tool_status(
        "rustup".to_owned(),
        &ProbeOutcome::Output("rustup 1.25.1 (bb60b1e89 2022-07-12)\n".to_owned()),
    )
    .unwrap();
    assert!(st.installed);
    assert_eq!(st.detected_version.as_deref(), Some("rustup 1.25.1 (bb60b1e89 2022-07-12)"));

    let st = tool_status("rustup".to_owned(), &ProbeOutcome::NotFound).unwrap();
    assert!(!st.installed);
    assert!(st.detected_version.is_none());

    assert!(matches!(
        tool_status("rustup".to_owned(), &ProbeOutcome::SpawnFailure),
        Err(ProvisionError::SpawnFailure)
    ));
}

#[test]
fn helper_probe_classification() {
    assert_eq!(install_needed_after_probe(&ProbeOutcome::Output("usage".to_owned())).unwrap(), false);
    assert_eq!(install_needed_after_probe(&ProbeOutcome::NotFound).unwrap(), true);
    assert!(matches!(
        install_needed_after_probe(&ProbeOutcome::SpawnFailure),
        Err(ProvisionError::SpawnFailure)
    ));
}

#[test]
fn nonzero_installer_exit_is_fatal() {
    assert!(classify_install_exit(true).is_ok());
    assert!(matches!(classify_install_exit(false), Err(ProvisionError::InstallFailed)));
}

#[test]
fn missing_manager_is_fatal() {
    let config = native_linux_config();
    let r = Tool::assemble(
        &config,
        &ProbeOutcome::NotFound,
        &ProbeOutcome::Output("cargo 1.0".to_owned()),
        true,
    );
    assert!(matches!(r, Err(ProvisionError::ManagerNotFound)));
}

#[test]
fn missing_frontend_is_fatal() {
    let config = native_linux_config();
    let r = Tool::assemble(
        &config,
        &ProbeOutcome::Output("rustup 1.25.1".to_owned()),
        &ProbeOutcome::NotFound,
        true,
    );
    assert!(matches!(r, Err(ProvisionError::FrontendNotFound)));
}

#[test]
fn spawn_failure_is_fatal() {
    let config = native_linux_config();
    let r = Tool::assemble(
        &config,
        &ProbeOutcome::SpawnFailure,
        &ProbeOutcome::Output("cargo 1.0".to_owned()),
        true,
    );
    assert!(matches!(r, Err(ProvisionError::SpawnFailure)));
}

#[test]
fn native_pass_reaches_ready_after_toolchain_checks_alone() {
    // Host x86_64-unknown-linux-gnu, no target selected: readiness needs
    // only the toolchain-side records, and no bundle is involved.
    let config = native_linux_config();
    assert!(!config.is_cross_compile());
    let tool = Tool::assemble(
        &config,
        &ProbeOutcome::Output("rustup 1.25.1 (bb60b1e89 2022-07-12)\n".to_owned()),
        &ProbeOutcome::Output("cargo 1.38.0-nightly (677a180f4 2019-07-08)\n".to_owned()),
        true,
    )
    .unwrap();
    assert_eq!(tool.run_target, "x86_64-unknown-linux-gnu");
    let builder = Builder::new(config, tool, EnvVar::native());
    assert!(builder.check());

    let mut gate = ProvisioningCheck::new();
    assert_eq!(gate.state, CheckState::Unchecked);
    gate.begin();
    assert_eq!(gate.state, CheckState::Checking);
    gate.complete(&builder);
    assert_eq!(gate.state, CheckState::Ready);
    assert!(gate.is_ready());
}

#[test]
fn missing_wasm_helper_blocks_readiness() {
    let config = native_linux_config();
    let tool = Tool::assemble(
        &config,
        &ProbeOutcome::Output("rustup 1.25.1".to_owned()),
        &ProbeOutcome::Output("cargo 1.38.0".to_owned()),
        false,
    )
    .unwrap();
    let builder = Builder::new(config, tool, EnvVar::native());
    assert!(!builder.check());

    let mut gate = ProvisioningCheck::new();
    gate.begin();
    gate.complete(&builder);
    assert!(!gate.is_ready());
    assert_eq!(gate.state, CheckState::NotReady);
}

#[test]
fn project_plan_carries_toolchain_mode_and_target() {
    let config = ProvisioningConfig {
        host: TargetTriple::X8664AppleDarwin,
        target: Some(TargetTriple::X8664UnknownLinuxGnu),
        release: true,
        wasm: false,
        verbose: false,
        pack: false,
    };
    let tool = Tool::assemble(
        &config,
        &ProbeOutcome::Output("rustup 1.25.1".to_owned()),
        &ProbeOutcome::Output("cargo 1.38.0".to_owned()),
        true,
    )
    .unwrap();
    let env_var = EnvVar {
        config_file: "[target.x86_64-unknown-linux-gnu]\nlinker = \"x86_64-unknown-linux-gnu-gcc\"".to_owned(),
        target_cc: "x86_64-unknown-linux-gnu-gcc (GCC) 8.3.0".to_owned(),
        deps: "/work/linux-x86_64".to_owned(),
        sysroot: "/work/linux-x86_64/sysroot".to_owned(),
        openssl_include_dir: "/work/linux-x86_64/incl".to_owned() + "ude",
        openssl_lib_dir: "/work/linux-x86_64/lib/openssl".to_owned(),
        rocksdb_lib_dir: "/work/linux-x86_64/lib/rocksdb".to_owned(),
    };
    let builder = Builder::new(config, tool, env_var);
    let plans = builder.build();
    assert_eq!(plans.len(), 1);
    let p = &plans[0];
    assert_eq!(p.program, "cargo");
    let args: Vec<&str> = p.args.iter().map(|a| a.as_str()).collect();
    assert_eq!(
        args,
        [
            "+nightly-2019-07-14-x86_64-apple-darwin",
            "rustc",
            "--release",
            "--target",
            "x86_64-unknown-linux-gnu",
            "--",
            "-C",
            "link_args=--sysroot=/work/linux-x86_64/sysroot",
        ]
    );
    let envs: Vec<(&str, &str)> = p.envs.iter().map(|e| (e.key.as_str(), e.value.as_str())).collect();
    assert_eq!(envs[0], ("CARGO_INCREMENTAL", "1"));
    assert_eq!(envs[1], ("TARGET_CC", "x86_64-unknown-linux-gnu-gcc"));
    assert_eq!(envs[2], ("ROCKSDB_LIB_DIR", "/work/linux-x86_64/lib/rocksdb"));
    assert_eq!(envs[3].0, "OPENSSL_INCLUDE_DIR");
    assert_eq!(envs[4], ("OPENSSL_LIB_DIR", "/work/linux-x86_64/lib/openssl"));
    assert!(p.working_dir.is_none());
}

#[test]
fn wasm_plans_precede_the_project_build() {
    let mut config = native_linux_config();
    config.wasm = true;
    let tool = Tool::assemble(
        &config,
        &ProbeOutcome::Output("rustup 1.25.1".to_owned()),
        &ProbeOutcome::Output("cargo 1.38.0".to_owned()),
        true,
    )
    .unwrap();
    let builder = Builder::new(config, tool, EnvVar::native());
    let plans = builder.build();
    assert_eq!(plans.len(), 3);
    assert_eq!(plans[0].program, "cargo");
    assert_eq!(plans[0].working_dir.as_deref(), Some("node/runtime/wasm"));
    assert_eq!(plans[0].envs[0].key, "CARGO_INCREMENTAL");
    assert_eq!(plans[0].envs[0].value, "0");
    assert_eq!(plans[1].program, "wasm-gc");
    assert_eq!(
        plans[1].args[0],
        "target/wasm32-unknown-unknown/release/node_runtime.wasm"
    );
    assert_eq!(
        plans[1].args[1],
        "target/wasm32-unknown-unknown/release/node_runtime.compact.wasm"
    );
    assert_eq!(plans[2].program, "cargo");
    assert!(plans[2].working_dir.is_none());
}
