//! Host platforms and the Terraform release archives published for them.

use crate::error::PluginFailure;
use crate::text::{ends_with, str_ends_with};
use vstd::prelude::*;
use vstd::string::*;

verus! {

/// Operating system of the host.
#[derive(Clone, Copy, Debug, PartialEq, Eq, Structural)]
pub enum Os {
    Linux,
    MacOS,
    Windows,
    /// Any other operating system.
    Other,
}

/// Processor architecture of the host.
#[derive(Clone, Copy, Debug, PartialEq, Eq, Structural)]
pub enum Arch {
    X64,
    Arm64,
    X86,
    Arm,
    /// Any other architecture.
    Other,
}

/// Whether Terraform publishes releases for some architecture of `os`.
pub open spec fn os_listed(os: Os) -> bool {
    os is Linux || os is MacOS || os is Windows
}

/// Whether Terraform publishes a release for `arch` on `os`.
pub open spec fn platform_supported(os: Os, arch: Arch) -> bool {
    match os {
        Os::Linux => arch is X64 || arch is Arm64 || arch is X86 || arch is Arm,
        Os::MacOS => arch is X64 || arch is Arm64,
        Os::Windows => arch is X64 || arch is X86,
        Os::Other => false,
    }
}

/// The outcome of checking a host platform against the published releases.
pub open spec fn platform_check(os: Os, arch: Arch) -> Result<(), PluginFailure> {
    if !os_listed(os) {
        Err(PluginFailure::UnsupportedOs)
    } else if !platform_supported(os, arch) {
        Err(PluginFailure::UnsupportedTarget)
    } else {
        Ok(())
    }
}

/// Checks the host platform against the releases that Terraform publishes:
/// Linux on x64, arm64, x86 and arm; macOS on x64 and arm64; Windows on x64
/// and x86.
pub fn check_supported_os_and_arch(os: Os, arch: Arch) -> (r: Result<(), PluginFailure>)
    ensures
        r == platform_check(os, arch),
{
    match os {
        Os::Linux => match arch {
            Arch::Other => Err(PluginFailure::UnsupportedTarget),
            _ => Ok(()),
        },
        Os::MacOS => match arch {
            Arch::X64 | Arch::Arm64 => Ok(()),
            _ => Err(PluginFailure::UnsupportedTarget),
        },
        Os::Windows => match arch {
            Arch::X64 | Arch::X86 => Ok(()),
            _ => Err(PluginFailure::UnsupportedTarget),
        },
        Os::Other => Err(PluginFailure::UnsupportedOs),
    }
}

/// The operating system's name in release archive names.
pub open spec fn os_label(os: Os) -> Seq<char> {
    match os {
        Os::Linux => "linux"@,
        Os::MacOS => "darwin"@,
        Os::Windows => "windows"@,
        Os::Other => Seq::empty(),
    }
}

/// The architecture's name in release archive names.
pub open spec fn arch_label(arch: Arch) -> Seq<char> {
    match arch {
        Arch::X64 => "amd64"@,
        Arch::Arm64 => "arm64"@,
        Arch::X86 => "386"@,
        Arch::Arm => "arm"@,
        Arch::Other => Seq::empty(),
    }
}

/// The operating system's name in release archive names.
pub fn os_archive_label(os: Os) -> (s: &'static str)
    requires
        os_listed(os),
    ensures
        s@ == os_label(os),
{
    match os {
        Os::Linux => "linux",
        Os::MacOS => "darwin",
        _ => "windows",
    }
}

/// The architecture's name in release archive names.
pub fn arch_archive_label(arch: Arch) -> (s: &'static str)
    requires
        !(arch is Other),
    ensures
        s@ == arch_label(arch),
{
    match arch {
        Arch::X64 => "amd64",
        Arch::Arm64 => "arm64",
        Arch::X86 => "386",
        _ => "arm",
    }
}

/// The file name of an executable: on Windows `.exe` is appended, unless
/// the name already ends with `exe`; elsewhere the name is kept.
pub open spec fn exe_file_name(os: Os, name: Seq<char>) -> Seq<char> {
    if os is Windows && !ends_with(name, "exe"@) {
        name + ".exe"@
    } else {
        name
    }
}

/// The file name of the executable `name` on `os`.
pub fn exe_name(os: Os, name: &str) -> (r: String)
    ensures
        r@ == exe_file_name(os, name@),
{
    let mut file = name.to_owned();
    if os == Os::Windows && !str_ends_with(name, "exe") {
        file.append(".exe");
    }
    file
}

} // verus!
