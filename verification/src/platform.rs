//! The platform a launcher was built for, and the names that follow from it.

use vstd::prelude::*;

verus! {

/// Processor architecture of the build target.
#[derive(Clone, Copy, Debug, PartialEq, Eq, Structural)]
pub enum Arch {
    X86_64,
    Aarch64,
    Other,
}

/// Operating system of the build target.
#[derive(Clone, Copy, Debug, PartialEq, Eq, Structural)]
pub enum Os {
    Windows,
    Linux,
    MacOs,
    Other,
}

/// A build target: architecture and operating system.
#[derive(Clone, Copy, Debug, PartialEq, Eq, Structural)]
pub struct Platform {
    pub arch: Arch,
    pub os: Os,
}

impl Platform {
    /// The identifier that qualifies a backend file name for this platform.
    ///
    /// Five combinations are recognised; every other one maps to `unknown`,
    /// so that only the generic file name can match.
    pub open spec fn triple_spec(self) -> Seq<char> {
        match (self.arch, self.os) {
            (Arch::X86_64, Os::Windows) => "x86_64-pc-windows-msvc"@,
            (Arch::X86_64, Os::Linux) => "x86_64-unknown-linux-gnu"@,
            (Arch::X86_64, Os::MacOs) => "x86_64-apple-darwin"@,
            (Arch::Aarch64, Os::MacOs) => "aarch64-apple-darwin"@,
            (Arch::Aarch64, Os::Linux) => "aarch64-unknown-linux-gnu"@,
            _ => "unknown"@,
        }
    }

    /// The suffix of an executable's file name.
    pub open spec fn exe_suffix_spec(self) -> Seq<char> {
        if self.os == Os::Windows {
            ".exe"@
        } else {
            ""@
        }
    }

    /// The text that separates the components of a path.
    pub open spec fn separator_spec(self) -> Seq<char> {
        if self.os == Os::Windows {
            "\\"@
        } else {
            "/"@
        }
    }

    /// The platform with this architecture and operating system.
    pub fn new(arch: Arch, os: Os) -> (platform: Platform)
        ensures
            platform == (Platform { arch, os }),
    {
        Platform { arch, os }
    }

    /// The platform identifier, `unknown` for a combination that is not
    /// recognised.
    pub fn triple(&self) -> (triple: &'static str)
        ensures
            triple@ == self.triple_spec(),
    {
        match (self.arch, self.os) {
            (Arch::X86_64, Os::Windows) => "x86_64-pc-windows-msvc",
            (Arch::X86_64, Os::Linux) => "x86_64-unknown-linux-gnu",
            (Arch::X86_64, Os::MacOs) => "x86_64-apple-darwin",
            (Arch::Aarch64, Os::MacOs) => "aarch64-apple-darwin",
            (Arch::Aarch64, Os::Linux) => "aarch64-unknown-linux-gnu",
            _ => "unknown",
        }
    }

    /// `.exe` on Windows, nothing elsewhere.
    pub fn exe_suffix(&self) -> (suffix: &'static str)
        ensures
            suffix@ == self.exe_suffix_spec(),
    {
        match self.os {
            Os::Windows => ".exe",
            _ => "",
        }
    }

    /// A backslash on Windows, a slash elsewhere.
    pub fn separator(&self) -> (separator: &'static str)
        ensures
            separator@ == self.separator_spec(),
    {
        match self.os {
            Os::Windows => "\\",
            _ => "/",
        }
    }
}

} // verus!
