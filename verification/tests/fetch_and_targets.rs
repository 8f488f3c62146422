use darwinia_builder::builder::{Builder, ProvisioningCheck};
use darwinia_builder::bundle::{DependencyBundle, bundle_dir_name, bundle_url};
use darwinia_builder::fetch::{DownloadSession, FetchError, file_name_from_url};
use darwinia_builder::probe::ProbeOutcome;
use darwinia_builder::resolver::{BundleSubdirs, EnvOverrides, resolve_cross_env};
use darwinia_builder::text::{first_line_str, first_token_str, split_lines, trim_str};
use darwinia_builder::toolchain::Tool;
use darwinia_builder::triple::{Arch, LinuxDistribution, Os, ProvisioningConfig, TargetTriple};

#[test]
fn resume_appends_exactly_the_missing_bytes() {
    // A partial file of 100 bytes, a remote total of 250.
    let mut s = DownloadSession::begin(250, 100).unwrap();
    assert!(s.resumes());
    assert_eq!(s.range_start(), 100);
    assert_eq!(s.progress_total(), 250);
    assert_eq!(s.progress_position(), 100);
    assert_eq!(s.remaining(), 150);
    assert!(!s.is_complete());

    s.record_chunk(100);
    assert_eq!(s.progress_total(), 250);
    assert_eq!(s.progress_position(), 200);
    assert!(!s.is_complete());

    s.record_chunk(50);
    assert_eq!(s.progress_total(), 250);
    assert_eq!(s.progress_position(), 250);
    assert_eq!(s.remaining(), 0);
    assert!(s.is_complete());
}

#[test]
fn fresh_download_starts_at_zero() {
    let s = DownloadSession::begin(42, 0).unwrap();
    assert!(!s.resumes());
    assert_eq!(s.range_start(), 0);
    assert_eq!(s.remaining(), 42);
}

#[test]
fn oversized_local_file_cannot_resume() {
    assert!(matches!(DownloadSession::begin(10, 20), Err(FetchError::OversizedLocalFile)));
}

#[test]
fn archive_name_is_the_last_url_segment() {
    assert_eq!(
        file_name_from_url(
            "https://github.com/AurevoirXavier/darwinia-builder/releases/download/linux-x86_64/linux-x86_64.tar.gz"
        ),
        "linux-x86_64.tar.gz"
    );
    assert_eq!(file_name_from_url("no-slash.tar.gz"), "no-slash.tar.gz");
    assert_eq!(file_name_from_url("dir/"), "");
}

#[test]
fn bundle_names_and_urls_are_fixed_per_triple() {
    assert_eq!(bundle_dir_name(&TargetTriple::X8664AppleDarwin), "darwin-x86_64");
    assert_eq!(bundle_dir_name(&TargetTriple::X8664UnknownLinuxGnu), "linux-x86_64");
    assert_eq!(bundle_dir_name(&TargetTriple::X8664PcWindowsGnu), "windows-x86_64");
    assert_eq!(
        bundle_url(&TargetTriple::X8664PcWindowsGnu),
        "https://github.com/AurevoirXavier/darwinia-builder/releases/download/windows-x86_64/windows-x86_64.tar.gz"
    );
}

#[test]
fn unsupported_triple_is_rejected_at_parse() {
    // Rejection happens before any subprocess or network call: provisioning
    // and resolution only accept a parsed TargetTriple.
    assert!(TargetTriple::parse("mips64-unknown-linux-gnuabi64").is_none());
    assert!(TargetTriple::parse("x86_64-unknown-linux-gn").is_none());
    assert!(TargetTriple::parse("").is_none());
    assert_eq!(
        TargetTriple::parse("x86_64-apple-darwin"),
        Some(TargetTriple::X8664AppleDarwin)
    );
    assert_eq!(
        TargetTriple::parse("x86_64-unknown-linux-gnu"),
        Some(TargetTriple::X8664UnknownLinuxGnu)
    );
    assert_eq!(
        TargetTriple::parse("x86_64-pc-windows-gnu"),
        Some(TargetTriple::X8664PcWindowsGnu)
    );
}

#[test]
fn triple_text_round_trips() {
    for t in [
        TargetTriple::X8664AppleDarwin,
        TargetTriple::X8664UnknownLinuxGnu,
        TargetTriple::X8664PcWindowsGnu,
    ] {
        assert_eq!(TargetTriple::parse(t.as_text().as_str()), Some(t));
    }
}

#[test]
fn host_triple_from_arch_and_os() {
    assert_eq!(
        TargetTriple::for_host(&Arch::X8664, &Os::Linux(LinuxDistribution::Ubuntu)),
        Some(TargetTriple::X8664UnknownLinuxGnu)
    );
    assert_eq!(TargetTriple::for_host(&Arch::X8664, &Os::MacOs), Some(TargetTriple::X8664AppleDarwin));
    assert_eq!(TargetTriple::for_host(&Arch::X8664, &Os::Windows), Some(TargetTriple::X8664PcWindowsGnu));
    assert_eq!(TargetTriple::for_host(&Arch::X86, &Os::MacOs), None);
    assert_eq!(TargetTriple::for_host(&Arch::Arm, &Os::Linux(LinuxDistribution::Unknown)), None);
    assert_eq!(Arch::X8664.prefix_text(), "x86_64");
    assert_eq!(Arch::X86.prefix_text(), "i686");
    assert_eq!(Os::Linux(LinuxDistribution::ArchLinux).suffix_text(), "unknown-linux-gnu");
}

#[test]
fn text_utilities_behave_like_their_models() {
    assert_eq!(trim_str("  \t x y \r\n"), "x y");
    assert_eq!(trim_str(""), "");
    assert_eq!(trim_str(" \n "), "");
    assert_eq!(first_token_str("gcc (GCC) 8.3.0"), "gcc");
    assert_eq!(first_token_str(""), "");
    assert_eq!(first_token_str(" leading"), "");
    assert_eq!(first_line_str("a\nb\nc"), "a");
    assert_eq!(first_line_str("single"), "single");
    let lines = split_lines("a\nb\n");
    assert_eq!(lines, ["a", "b", ""]);
    let lines = split_lines("");
    assert_eq!(lines, [""]);
}

#[test]
fn cross_pass_to_linux_reaches_ready_after_fetch_and_extraction() {
    // Host x86_64-apple-darwin, target x86_64-unknown-linux-gnu, no bundle
    // on disk, no overrides set.
    let config = ProvisioningConfig {
        host: TargetTriple::X8664AppleDarwin,
        target: Some(TargetTriple::X8664UnknownLinuxGnu),
        release: false,
        wasm: false,
        verbose: false,
        pack: false,
    };
    assert!(config.is_cross_compile());
    let target = config.run_target();

    // The bundle is absent, so it must be fetched from the fixed Linux URL.
    let bundle = DependencyBundle::locate(&target, "/work", false);
    assert!(bundle.needs_fetch());
    assert_eq!(
        bundle.remote_url,
        "https://github.com/AurevoirXavier/darwinia-builder/releases/download/linux-x86_64/linux-x86_64.tar.gz"
    );
    assert_eq!(bundle.archive_name(), "linux-x86_64.tar.gz");

    // The fetch streams the whole artifact.
    let mut session = DownloadSession::begin(1000, 0).unwrap();
    session.record_chunk(600);
    session.record_chunk(400);
    assert!(session.is_complete());

    // After extraction the bundle directory and all its sub-paths exist.
    let bundle = DependencyBundle::locate(&target, "/work", true);
    assert!(!bundle.needs_fetch());
    let overrides = EnvOverrides {
        sysroot: None,
        openssl_include_dir: None,
        openssl_lib_dir: None,
        rocksdb_lib_dir: None,
    };
    let subdirs = BundleSubdirs { sysroot: true, headers: true, openssl_lib: true, rocksdb_lib: true };
    let probe = ProbeOutcome::Output("x86_64-unknown-linux-gnu-gcc (GCC) 8.3.0\n".to_owned());
    let cr = resolve_cross_env(&target, "", &probe, &bundle, overrides, &subdirs).unwrap();

    // All five Linux-required settings resolve under the extracted
    // directory (the linker via its probe, the other four via sub-paths).
    assert_eq!(cr.env_var.target_cc, "x86_64-unknown-linux-gnu-gcc (GCC) 8.3.0");
    assert_eq!(cr.env_var.deps, "/work/linux-x86_64");
    assert!(cr.env_var.sysroot.starts_with("/work/linux-x86_64/"));
    assert!(cr.env_var.openssl_include_dir.starts_with("/work/linux-x86_64/"));
    assert!(cr.env_var.openssl_lib_dir.starts_with("/work/linux-x86_64/"));
    assert!(cr.env_var.rocksdb_lib_dir.starts_with("/work/linux-x86_64/"));

    let tool = Tool::assemble(
        &config,
        &ProbeOutcome::Output("rustup 1.25.1".to_owned()),
        &ProbeOutcome::Output("cargo 1.38.0".to_owned()),
        true,
    )
    .unwrap();
    let builder = Builder::new(config, tool, cr.env_var);
    assert!(builder.check());
    let mut gate = ProvisioningCheck::new();
    gate.begin();
    gate.complete(&builder);
    assert!(gate.is_ready());
}
