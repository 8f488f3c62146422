//! Verified core of a build-environment provisioning tool.
//!
//! Before a build is launched, the tool checks that the pinned toolchain,
//! the required compilation targets and the target-specific cross-compilation
//! dependencies are present on the host, remedying gaps where it can:
//! installing toolchains and targets, downloading and extracting dependency
//! bundles, and writing linker configuration. This crate holds the decision
//! logic of that pass — what is probed, what each observation means, which
//! remedy is chosen, and when the readiness gate opens — as verified
//! functions over plain values. The surrounding process work (spawning the
//! probed programs, network transfers, filesystem reads and writes) lives
//! outside the library and hands observations in as arguments.

pub mod builder;
pub mod bundle;
pub mod config_file;
pub mod envvar;
pub mod fetch;
pub mod probe;
pub mod resolver;
pub mod text;
pub mod toolchain;
pub mod triple;
