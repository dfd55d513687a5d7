//! Naming of the platform variants the native library is built for.
//!
//! The prebuilt native library ships in one variant per target triple;
//! the name chosen here is the key under which the matching payload is
//! looked up.  The unverified shell reads the actual build target and
//! passes it in as plain values.

use vstd::prelude::*;

verus! {

/// The operating system of the running build.
#[derive(Debug, Clone, Copy, PartialEq, Eq, Structural)]
pub enum TargetOs {
    Windows,
    Linux,
    MacOs,
    Other,
}

/// The processor architecture of the running build.
#[derive(Debug, Clone, Copy, PartialEq, Eq, Structural)]
pub enum TargetArch {
    X86_64,
    Aarch64,
    Other,
}

/// The C library environment of the running build.
#[derive(Debug, Clone, Copy, PartialEq, Eq, Structural)]
pub enum TargetLibc {
    Gnu,
    Musl,
    Other,
}

/// The platform name a target resolves to.  Targets without a prebuilt
/// native library resolve to "unknown".
pub open spec fn spec_platform_name(os: TargetOs, arch: TargetArch, libc: TargetLibc) -> Seq<
    char,
> {
    if os is Windows && arch is X86_64 {
        "windows-x86_64"@
    } else if os is Linux && arch is X86_64 && libc is Gnu {
        "linux-x86_64"@
    } else if os is Linux && arch is X86_64 && libc is Musl {
        "linux-x86_64-musl"@
    } else if os is Linux && arch is Aarch64 {
        "linux-aarch64"@
    } else if os is MacOs && arch is X86_64 {
        "darwin-x86_64"@
    } else if os is MacOs && arch is Aarch64 {
        "darwin-aarch64"@
    } else {
        "unknown"@
    }
}

/// The name of the platform a build runs on, as the embedded-library
/// lookup keys its payloads.
pub fn get_current_platform(os: TargetOs, arch: TargetArch, libc: TargetLibc) -> (r:
    &'static str)
    ensures
        r@ == spec_platform_name(os, arch, libc),
{
    if os == TargetOs::Windows && arch == TargetArch::X86_64 {
        "windows-x86_64"
    } else if os == TargetOs::Linux && arch == TargetArch::X86_64 && libc == TargetLibc::Gnu {
        "linux-x86_64"
    } else if os == TargetOs::Linux && arch == TargetArch::X86_64 && libc == TargetLibc::Musl {
        "linux-x86_64-musl"
    } else if os == TargetOs::Linux && arch == TargetArch::Aarch64 {
        "linux-aarch64"
    } else if os == TargetOs::MacOs && arch == TargetArch::X86_64 {
        "darwin-x86_64"
    } else if os == TargetOs::MacOs && arch == TargetArch::Aarch64 {
        "darwin-aarch64"
    } else {
        "unknown"
    }
}

} // verus!
