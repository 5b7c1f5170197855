use vstd::prelude::*;

verus! {

/// Operating systems reported by the host.
#[derive(Clone, Copy, Debug, PartialEq, Eq, Structural)]
pub enum Os {
    Mac,
    Linux,
    Windows,
}

/// CPU architectures reported by the host.
#[derive(Clone, Copy, Debug, PartialEq, Eq, Structural)]
pub enum Architecture {
    Aarch64,
    X86,
    X8664,
}

/// What the resolver knows of the machine it runs on: the host's operating
/// system and architecture, and whether the build links a minimal libc (musl).
#[derive(Clone, Copy, Debug, PartialEq, Eq, Structural)]
pub struct Platform {
    pub os: Os,
    pub arch: Architecture,
    pub minimal_libc: bool,
}

/// The platform part of a release asset's name.
#[derive(Clone, Copy, Debug, PartialEq, Eq, Structural)]
pub enum PlatformTag {
    LinuxX64,
    LinuxArm64,
    AlpineX64,
    AlpineArm64,
    Win32X64,
    Win32Arm64,
    DarwinX64,
    DarwinArm64,
    Unknown,
}

/// The combinations for which release assets are published: the three
/// operating systems on 64-bit x86 and on 64-bit ARM.
pub open spec fn is_supported(p: Platform) -> bool {
    p.arch != Architecture::X86
}

/// The documented tag of each platform.
pub open spec fn tag_of(p: Platform) -> PlatformTag {
    match (p.os, p.arch) {
        (Os::Linux, Architecture::X8664) => if p.minimal_libc {
            PlatformTag::AlpineX64
        } else {
            PlatformTag::LinuxX64
        },
        (Os::Linux, Architecture::Aarch64) => if p.minimal_libc {
            PlatformTag::AlpineArm64
        } else {
            PlatformTag::LinuxArm64
        },
        (Os::Windows, Architecture::X8664) => PlatformTag::Win32X64,
        (Os::Windows, Architecture::Aarch64) => PlatformTag::Win32Arm64,
        (Os::Mac, Architecture::X8664) => PlatformTag::DarwinX64,
        (Os::Mac, Architecture::Aarch64) => PlatformTag::DarwinArm64,
        _ => PlatformTag::Unknown,
    }
}

/// The text of each tag, as it appears in asset names.
pub open spec fn tag_text(t: PlatformTag) -> Seq<char> {
    match t {
        PlatformTag::LinuxX64 => "linux-x64"@,
        PlatformTag::LinuxArm64 => "linux-arm64"@,
        PlatformTag::AlpineX64 => "alpine-x64"@,
        PlatformTag::AlpineArm64 => "alpine-arm64"@,
        PlatformTag::Win32X64 => "win32-x64"@,
        PlatformTag::Win32Arm64 => "win32-arm64"@,
        PlatformTag::DarwinX64 => "darwin-x64"@,
        PlatformTag::DarwinArm64 => "darwin-arm64"@,
        PlatformTag::Unknown => "unknown"@,
    }
}

/// Maps a platform to its tag. Never fails: a platform without published
/// assets gets `PlatformTag::Unknown`.
pub fn identify(p: Platform) -> (t: PlatformTag)
    ensures
        t == tag_of(p),
        (t == PlatformTag::Unknown) <==> !is_supported(p),
{
    match (p.os, p.arch) {
        (Os::Linux, Architecture::X8664) => if p.minimal_libc {
            PlatformTag::AlpineX64
        } else {
            PlatformTag::LinuxX64
        },
        (Os::Linux, Architecture::Aarch64) => if p.minimal_libc {
            PlatformTag::AlpineArm64
        } else {
            PlatformTag::LinuxArm64
        },
        (Os::Windows, Architecture::X8664) => PlatformTag::Win32X64,
        (Os::Windows, Architecture::Aarch64) => PlatformTag::Win32Arm64,
        (Os::Mac, Architecture::X8664) => PlatformTag::DarwinX64,
        (Os::Mac, Architecture::Aarch64) => PlatformTag::DarwinArm64,
        _ => PlatformTag::Unknown,
    }
}

impl PlatformTag {
    /// The tag's text, such as `linux-x64`.
    pub fn as_str(&self) -> (r: &'static str)
        ensures
            r@ == tag_text(*self),
    {
        match self {
            PlatformTag::LinuxX64 => "linux-x64",
            PlatformTag::LinuxArm64 => "linux-arm64",
            PlatformTag::AlpineX64 => "alpine-x64",
            PlatformTag::AlpineArm64 => "alpine-arm64",
            PlatformTag::Win32X64 => "win32-x64",
            PlatformTag::Win32Arm64 => "win32-arm64",
            PlatformTag::DarwinX64 => "darwin-x64",
            PlatformTag::DarwinArm64 => "darwin-arm64",
            PlatformTag::Unknown => "unknown",
        }
    }
}

/// Every platform of the published matrix gets a tag other than `unknown`,
/// and every other platform gets `unknown`.
pub proof fn lemma_identify_total(p: Platform)
    ensures
        is_supported(p) ==> tag_of(p) != PlatformTag::Unknown,
        !is_supported(p) ==> tag_of(p) == PlatformTag::Unknown,
{
}

} // verus!
