use darwinia_builder::bundle::DependencyBundle;
use darwinia_builder::config_file::{linker_section, section_header, write_linker_section};
use darwinia_builder::envvar::{EnvVarSource, required_env_vars, resolve_env_var};
use darwinia_builder::probe::{ProbeOutcome, ProvisionError};
use darwinia_builder::resolver::{BundleSubdirs, EnvOverrides, EnvVar, cross_linker_program, resolve_cross_env, resolve_linker};
use darwinia_builder::triple::TargetTriple;

#[test]
fn linker_section_text_is_exact() {
    let t = TargetTriple::X8664UnknownLinuxGnu;
    assert_eq!(section_header(&t), "[target.x86_64-unknown-linux-gnu]");
    assert_eq!(
        linker_section(&t, "x86_64-unknown-linux-gnu-gcc"),
        "[target.x86_64-unknown-linux-gnu]\nlinker = \"x86_64-unknown-linux-gnu-gcc\""
    );
}

#[test]
fn config_write_appends_once_and_preserves_content() {
    let existing = "[build]\njobs = 4";
    let t = TargetTriple::X8664UnknownLinuxGnu;
    let header = section_header(&t);
    let section = linker_section(&t, "x86_64-unknown-linux-gnu-gcc");

    let (once, appended) = write_linker_section(existing, section.as_str(), header.as_str());
    assert!(appended);
    assert_eq!(once, format!("{}\n\n{}", existing, section));
    assert!(once.starts_with(existing));
    assert_eq!(once.matches(header.as_str()).count(), 1);

    let (twice, appended_again) = write_linker_section(once.as_str(), section.as_str(), header.as_str());
    assert!(!appended_again);
    assert_eq!(twice, once);
    assert_eq!(twice.matches(header.as_str()).count(), 1);
}

#[test]
fn config_write_into_empty_file_is_the_section_alone() {
    let t = TargetTriple::X8664AppleDarwin;
    let header = section_header(&t);
    let section = linker_section(&t, "x86_64-apple-darwin19-clang");
    let (content, appended) = write_linker_section("", section.as_str(), header.as_str());
    assert!(appended);
    assert_eq!(content, section);
    let (again, appended_again) = write_linker_section(content.as_str(), section.as_str(), header.as_str());
    assert!(!appended_again);
    assert_eq!(again, content);
}

#[test]
fn config_write_recognises_indented_header() {
    let existing = "   [target.x86_64-pc-windows-gnu]\nlinker = \"old\"";
    let t = TargetTriple::X8664PcWindowsGnu;
    let header = section_header(&t);
    let section = linker_section(&t, "x86_64-w64-mingw32-gcc");
    let (content, appended) = write_linker_section(existing, section.as_str(), header.as_str());
    assert!(!appended);
    assert_eq!(content, existing);
}

#[test]
fn override_wins_over_existing_bundle_path() {
    let spec = resolve_env_var(
        "SYSROOT",
        Some("/custom/sysroot".to_owned()),
        "/work/linux-x86_64",
        "sysroot",
        true,
    );
    assert_eq!(spec.key, "SYSROOT");
    assert_eq!(spec.resolved_value.as_deref(), Some("/custom/sysroot"));
    assert_eq!(spec.source, EnvVarSource::ExplicitOverride);

    // The override also wins when no bundle path exists.
    let spec = resolve_env_var(
        "SYSROOT",
        Some("/custom/sysroot".to_owned()),
        "/work/linux-x86_64",
        "sysroot",
        false,
    );
    assert_eq!(spec.resolved_value.as_deref(), Some("/custom/sysroot"));
    assert_eq!(spec.source, EnvVarSource::ExplicitOverride);
}

#[test]
fn bundle_path_is_used_without_an_override() {
    let spec = resolve_env_var("OPENSSL_LIB_DIR", None, "/work/linux-x86_64", "lib/openssl", true);
    assert_eq!(spec.resolved_value.as_deref(), Some("/work/linux-x86_64/lib/openssl"));
    assert_eq!(spec.source, EnvVarSource::DiscoveredFromBundle);
}

#[test]
fn nothing_resolves_without_override_or_bundle_path() {
    let spec = resolve_env_var("OPENSSL_LIB_DIR", None, "/work/linux-x86_64", "lib/openssl", false);
    assert!(spec.resolved_value.is_none());
    assert_eq!(spec.source, EnvVarSource::Unresolved);
}

#[test]
fn linux_family_requires_all_variables_others_only_the_storage_engine() {
    let linux = required_env_vars(&TargetTriple::X8664UnknownLinuxGnu);
    let keys: Vec<&str> = linux.iter().map(|r| r.key.as_str()).collect();
    assert_eq!(keys, ["SYSROOT", "OPENSSL_INCLUDE_DIR", "OPENSSL_LIB_DIR", "ROCKSDB_LIB_DIR"]);
    let subs: Vec<&str> = linux.iter().map(|r| r.sub_path.as_str()).collect();
    let headers = "incl".to_string() + "ude";
    assert_eq!(subs, ["sysroot", headers.as_str(), "lib/openssl", "lib/rocksdb"]);

    let windows = required_env_vars(&TargetTriple::X8664PcWindowsGnu);
    assert_eq!(windows.len(), 1);
    assert_eq!(windows[0].key, "ROCKSDB_LIB_DIR");
    assert_eq!(windows[0].sub_path, "lib/rocksdb");
}

#[test]
fn cross_linker_programs_per_target() {
    assert_eq!(cross_linker_program(&TargetTriple::X8664AppleDarwin), "x86_64-apple-darwin19-clang");
    assert_eq!(cross_linker_program(&TargetTriple::X8664UnknownLinuxGnu), "x86_64-unknown-linux-gnu-gcc");
    assert_eq!(cross_linker_program(&TargetTriple::X8664PcWindowsGnu), "x86_64-w64-mingw32-gcc");
}

#[test]
fn linker_resolution_takes_the_version_line_and_its_first_token() {
    let t = TargetTriple::X8664UnknownLinuxGnu;
    let probe = ProbeOutcome::Output(
        "x86_64-unknown-linux-gnu-gcc (GCC) 8.3.0\nCopyright (C) 2018\n".to_owned(),
    );
    let lr = resolve_linker(&t, &probe).unwrap().unwrap();
    assert_eq!(lr.target_cc, "x86_64-unknown-linux-gnu-gcc (GCC) 8.3.0");
    assert_eq!(
        lr.section,
        "[target.x86_64-unknown-linux-gnu]\nlinker = \"x86_64-unknown-linux-gnu-gcc\""
    );

    let darwin = TargetTriple::X8664AppleDarwin;
    let probe = ProbeOutcome::Output("clang version 11.0.0\nTarget: x86_64\n".to_owned());
    let lr = resolve_linker(&darwin, &probe).unwrap().unwrap();
    assert_eq!(lr.target_cc, "x86_64-apple-darwin19-clang");
    assert_eq!(
        lr.section,
        "[target.x86_64-apple-darwin]\nlinker = \"x86_64-apple-darwin19-clang\""
    );

    assert!(resolve_linker(&t, &ProbeOutcome::NotFound).unwrap().is_none());
    assert!(matches!(
        resolve_linker(&t, &ProbeOutcome::SpawnFailure),
        Err(ProvisionError::SpawnFailure)
    ));
}

#[test]
fn resolver_fills_every_linux_variable_from_the_bundle() {
    let t = TargetTriple::X8664UnknownLinuxGnu;
    let bundle = DependencyBundle::locate(&t, "/work", true);
    let probe = ProbeOutcome::Output("x86_64-unknown-linux-gnu-gcc (GCC) 8.3.0\n".to_owned());
    let overrides = EnvOverrides {
        sysroot: None,
        openssl_include_dir: None,
        openssl_lib_dir: None,
        rocksdb_lib_dir: None,
    };
    let subdirs = BundleSubdirs { sysroot: true, headers: true, openssl_lib: true, rocksdb_lib: true };
    let cr = resolve_cross_env(&t, "", &probe, &bundle, overrides, &subdirs).unwrap();
    assert_eq!(cr.env_var.deps, "/work/linux-x86_64");
    assert_eq!(cr.env_var.sysroot, "/work/linux-x86_64/sysroot");
    assert_eq!(cr.env_var.openssl_include_dir, format!("/work/linux-x86_64/incl{}", "ude"));
    assert_eq!(cr.env_var.openssl_lib_dir, "/work/linux-x86_64/lib/openssl");
    assert_eq!(cr.env_var.rocksdb_lib_dir, "/work/linux-x86_64/lib/rocksdb");
    assert_eq!(cr.env_var.target_cc, "x86_64-unknown-linux-gnu-gcc (GCC) 8.3.0");
    assert!(cr.config_appended);
    assert_eq!(cr.config_content, cr.env_var.config_file);
    assert_eq!(cr.env_specs.len(), 4);
    assert!(cr.env_specs.iter().all(|s| s.source == EnvVarSource::DiscoveredFromBundle));
}

#[test]
fn resolver_respects_overrides_and_reports_gaps() {
    let t = TargetTriple::X8664UnknownLinuxGnu;
    let bundle = DependencyBundle::locate(&t, "/work", true);
    let probe = ProbeOutcome::NotFound;
    let overrides = EnvOverrides {
        sysroot: Some("/custom/sysroot".to_owned()),
        openssl_include_dir: None,
        openssl_lib_dir: None,
        rocksdb_lib_dir: None,
    };
    let subdirs = BundleSubdirs { sysroot: true, headers: false, openssl_lib: true, rocksdb_lib: false };
    let cr = resolve_cross_env(&t, "keep = true", &probe, &bundle, overrides, &subdirs).unwrap();
    // No cross compiler: nothing written, nothing recorded.
    assert_eq!(cr.env_var.target_cc, "");
    assert_eq!(cr.env_var.config_file, "");
    assert_eq!(cr.config_content, "keep = true");
    assert!(!cr.config_appended);
    // The override wins although the bundle also has a sysroot.
    assert_eq!(cr.env_var.sysroot, "/custom/sysroot");
    assert_eq!(cr.env_specs[0].source, EnvVarSource::ExplicitOverride);
    // Missing sub-paths stay unresolved and empty.
    assert_eq!(cr.env_var.openssl_include_dir, "");
    assert_eq!(cr.env_specs[1].source, EnvVarSource::Unresolved);
    assert_eq!(cr.env_var.rocksdb_lib_dir, "");
}

#[test]
fn resolver_for_windows_target_needs_only_the_storage_engine() {
    let t = TargetTriple::X8664PcWindowsGnu;
    let bundle = DependencyBundle::locate(&t, "/work", true);
    let probe = ProbeOutcome::Output("x86_64-w64-mingw32-gcc (GCC) 9.0\n".to_owned());
    let overrides = EnvOverrides {
        sysroot: None,
        openssl_include_dir: None,
        openssl_lib_dir: None,
        rocksdb_lib_dir: None,
    };
    let subdirs = BundleSubdirs { sysroot: false, headers: false, openssl_lib: false, rocksdb_lib: true };
    let cr = resolve_cross_env(&t, "", &probe, &bundle, overrides, &subdirs).unwrap();
    assert_eq!(cr.env_specs.len(), 1);
    assert_eq!(cr.env_specs[0].key, "ROCKSDB_LIB_DIR");
    assert_eq!(cr.env_var.rocksdb_lib_dir, "/work/windows-x86_64/lib/rocksdb");
    assert_eq!(cr.env_var.sysroot, "");
    assert_eq!(cr.env_var.openssl_include_dir, "");
    assert_eq!(cr.env_var.openssl_lib_dir, "");
}

#[test]
fn native_env_record_is_empty() {
    let e = EnvVar::native();
    assert_eq!(e.config_file, "");
    assert_eq!(e.target_cc, "");
    assert_eq!(e.deps, "");
    assert_eq!(e.sysroot, "");
    assert_eq!(e.openssl_include_dir, "");
    assert_eq!(e.openssl_lib_dir, "");
    assert_eq!(e.rocksdb_lib_dir, "");
}
