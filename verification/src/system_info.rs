//! The operating system and processor that the launcher runs on, and the
//! line of text that describes them.
use vstd::prelude::*;
use vstd::string::*;
use crate::text::{
    chars_of, contains, find_char, find_char_in, joined, occurs_in, opt_str_view, str_eq,
    substring, trim, trimmed,
};

verus! {

/// An operating system family.
#[derive(Clone, Copy, Debug, PartialEq, Eq, Structural)]
pub enum Os {
    Windows,
    Macos,
    Linux,
    Other,
}

/// A processor architecture.
#[derive(Clone, Copy, Debug, PartialEq, Eq, Structural)]
pub enum Arch {
    X86_64,
    Aarch64,
    Other,
}

/// The pair that decides which release asset fits this machine.
#[derive(Clone, Copy, Debug, PartialEq, Eq, Structural)]
pub struct Platform {
    pub os: Os,
    pub arch: Arch,
}

/// The operating system that goes by `name` in the toolchain's target
/// description.
pub open spec fn os_of_name(name: Seq<char>) -> Os {
    if name == "windows"@ {
        Os::Windows
    } else if name == "macos"@ {
        Os::Macos
    } else if name == "linux"@ {
        Os::Linux
    } else {
        Os::Other
    }
}

/// The architecture that goes by `name` in the toolchain's target description.
pub open spec fn arch_of_name(name: Seq<char>) -> Arch {
    if name == "x86_64"@ {
        Arch::X86_64
    } else if name == "aarch64"@ {
        Arch::Aarch64
    } else {
        Arch::Other
    }
}

impl Os {
    /// The operating system named `name`; any unknown name gives `Other`.
    pub fn from_name(name: &str) -> (os: Os)
        ensures
            os == os_of_name(name@),
    {
        if str_eq(name, "windows") {
            Os::Windows
        } else if str_eq(name, "macos") {
            Os::Macos
        } else if str_eq(name, "linux") {
            Os::Linux
        } else {
            Os::Other
        }
    }
}

impl Arch {
    /// The architecture named `name`; any unknown name gives `Other`.
    pub fn from_name(name: &str) -> (arch: Arch)
        ensures
            arch == arch_of_name(name@),
    {
        if str_eq(name, "x86_64") {
            Arch::X86_64
        } else if str_eq(name, "aarch64") {
            Arch::Aarch64
        } else {
            Arch::Other
        }
    }
}

impl Platform {
    /// The platform with the given names of operating system and architecture.
    pub fn from_names(os: &str, arch: &str) -> (p: Platform)
        ensures
            p.os == os_of_name(os@),
            p.arch == arch_of_name(arch@),
    {
        Platform { os: Os::from_name(os), arch: Arch::from_name(arch) }
    }

    /// The platforms for which releases are published.
    pub open spec fn supported(self) -> bool {
        ||| self.os == Os::Macos && self.arch == Arch::Aarch64
        ||| self.os == Os::Macos && self.arch == Arch::X86_64
        ||| self.os == Os::Linux && self.arch == Arch::X86_64
        ||| self.os == Os::Windows && self.arch == Arch::X86_64
    }

    /// Whether releases are published for this platform.
    pub fn is_supported(&self) -> (r: bool)
        ensures
            r == self.supported(),
    {
        match (self.os, self.arch) {
            (Os::Macos, Arch::Aarch64) => true,
            (Os::Macos, Arch::X86_64) => true,
            (Os::Linux, Arch::X86_64) => true,
            (Os::Windows, Arch::X86_64) => true,
            _ => false,
        }
    }
}

/// The lower-case name of an operating system.
pub open spec fn os_name_text(os: Os) -> Seq<char> {
    match os {
        Os::Windows => "windows"@,
        Os::Macos => "macos"@,
        Os::Linux => "linux"@,
        Os::Other => "unknown"@,
    }
}

/// The lower-case name of the operating system.
pub fn os_name(os: Os) -> (r: String)
    ensures
        r@ == os_name_text(os),
{
    match os {
        Os::Windows => "windows".to_string(),
        Os::Macos => "macos".to_string(),
        Os::Linux => "linux".to_string(),
        Os::Other => "unknown".to_string(),
    }
}

/// What the Windows command `ver` printed stands for: releases 10 and 11
/// both report the kernel version 10.0.
pub open spec fn windows_version_text(ver_output: Seq<char>) -> Seq<char> {
    if occurs_in(ver_output, "Windows"@) && occurs_in(ver_output, "10.0"@) {
        "Windows 10/11"@
    } else {
        "Windows"@
    }
}

/// What the macOS command `sw_vers -productVersion` printed stands for: the
/// product name and the major version, which is the text before the first dot.
pub open spec fn macos_version_text(product_version: Seq<char>) -> Seq<char> {
    let version = trimmed(product_version);
    "macOS "@ + version.take(find_char(version, '.', 0))
}

/// The display name of the operating system. `probe` is what the system's
/// version command printed, or `None` when it could not be run or read.
pub open spec fn os_version_text(os: Os, probe: Option<Seq<char>>) -> Seq<char> {
    match os {
        Os::Windows => match probe {
            Some(out) => windows_version_text(out),
            None => "Windows"@,
        },
        Os::Macos => match probe {
            Some(out) => macos_version_text(out),
            None => "macOS"@,
        },
        Os::Linux => "Linux"@,
        Os::Other => "Unknown"@,
    }
}

/// The display name of the operating system, with its version where the
/// version command's output `probe` tells it.
pub fn os_name_version(os: Os, probe: Option<&str>) -> (r: String)
    ensures
        r@ == os_version_text(os, opt_str_view(probe)),
{
    match os {
        Os::Windows => match probe {
            Some(out) => {
                if contains(out, "Windows") && contains(out, "10.0") {
                    "Windows 10/11".to_string()
                } else {
                    "Windows".to_string()
                }
            },
            None => "Windows".to_string(),
        },
        Os::Macos => match probe {
            Some(out) => {
                let version = trim(out);
                let v = chars_of(version.as_str());
                let dot = find_char_in(&v, '.', 0);
                let major = substring(version.as_str(), 0, dot);
                assert(major@ =~= version@.take(dot as int));
                joined("macOS ", major.as_str())
            },
            None => "macOS".to_string(),
        },
        Os::Linux => "Linux".to_string(),
        Os::Other => "Unknown".to_string(),
    }
}

/// The line that names the system: the operating system's display name, a
/// space, and the processor architecture's name.
pub fn system_info_string(os: Os, probe: Option<&str>, arch: &str) -> (r: String)
    ensures
        r@ == os_version_text(os, opt_str_view(probe)) + " "@ + arch@,
{
    let mut r = os_name_version(os, probe);
    r.append(" ");
    r.append(arch);
    r
}

} // verus!
