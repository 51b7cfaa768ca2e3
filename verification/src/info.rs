//! Static application-identity, build and runtime metadata: flat records
//! assembled once at startup from the configuration and from values the
//! caller gathered (build stamps, toolchain and machine identifiers, the
//! startup time), and read-only thereafter.

use vstd::prelude::*;

use crate::config::Config;

verus! {

/// The application's identity: name, environment, version, and the time it
/// started, as milliseconds of the caller's clock.
#[derive(Debug)]
pub struct ApplicationInfo {
    pub name: String,
    pub env: String,
    pub version: String,
    pub startup_stamp: u64,
}

/// Build and version-control metadata, empty strings where unset.
#[derive(Debug)]
pub struct GITInfo {
    pub build_stamp: String,
    pub commit_id: String,
    pub commit_stamp: String,
    pub primary_branch: String,
}

/// The runtime environment: machine, operating system, port and toolchain.
#[derive(Debug)]
pub struct RuntimeInfo {
    pub arch: String,
    pub os: String,
    pub port: u16,
    pub version: String,
    pub cargo_version: String,
}

/// The complete metadata record served to callers.
#[derive(Debug)]
pub struct Info {
    pub application: ApplicationInfo,
    pub git: GITInfo,
    pub runtime: RuntimeInfo,
}

impl Info {
    /// Assembles the metadata record: identity fields come from the
    /// configuration, the rest from values the caller gathered.
    pub fn new(
        cfg: &Config,
        startup_stamp: u64,
        git: GITInfo,
        arch: String,
        os: String,
        rustc_version: String,
        cargo_profile: String,
    ) -> (r: Info)
        ensures
            r.application.name == cfg.name,
            r.application.env == cfg.env,
            r.application.version == cfg.version,
            r.application.startup_stamp == startup_stamp,
            r.git == git,
            r.runtime.arch == arch,
            r.runtime.os == os,
            r.runtime.port == cfg.port,
            r.runtime.version == rustc_version,
            r.runtime.cargo_version == cargo_profile,
    {
        Info {
            application: ApplicationInfo {
                name: cfg.name.clone(),
                env: cfg.env.clone(),
                version: cfg.version.clone(),
                startup_stamp,
            },
            git,
            runtime: RuntimeInfo {
                arch,
                os,
                port: cfg.port,
                version: rustc_version,
                cargo_version: cargo_profile,
            },
        }
    }
}

} // verus!
