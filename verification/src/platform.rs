//! The platforms for which a `wasm-pack` binary is embedded, and how the host
//! is mapped to one of them.

use vstd::prelude::*;

verus! {

/// `eq` of `PartialEq` for `str`, of std, by which string slices are compared.
/// Trusted: that it holds of two slices exactly if they have the same
/// characters.
pub assume_specification[ <str as PartialEq>::eq ](a: &str, b: &str) -> (equal: bool)
    ensures
        equal == (a@ == b@),
;

/// A platform with an embedded `wasm-pack` binary.
#[derive(Debug, Clone, Copy, PartialEq, Eq, Structural)]
pub enum Platform {
    MacOs,
    LinuxArm64,
    LinuxX64,
    Windows,
}

/// Why a host has no embedded binary.
#[derive(Debug, Clone, Copy, PartialEq, Eq, Structural)]
pub enum UnsupportedHost {
    /// The operating system is none of macOS, Linux and Windows.
    Os,
    /// The operating system is known, but not on this CPU architecture.
    Architecture,
}

impl Platform {
    /// The target triple of the platform, as it appears in file names.
    pub open spec fn triple(self) -> Seq<char> {
        match self {
            Platform::MacOs => "x86_64-apple-darwin"@,
            Platform::LinuxArm64 => "aarch64-unknown-linux-musl"@,
            Platform::LinuxX64 => "x86_64-unknown-linux-musl"@,
            Platform::Windows => "x86_64-pc-windows-msvc"@,
        }
    }

    /// Whether files on the platform carry POSIX permission bits.
    pub open spec fn has_posix_permissions(self) -> bool {
        self != Platform::Windows
    }

    /// The target triple of the platform.
    pub fn name(&self) -> (name: &'static str)
        ensures
            name@ == self.triple(),
    {
        match self {
            Platform::MacOs => "x86_64-apple-darwin",
            Platform::LinuxArm64 => "aarch64-unknown-linux-musl",
            Platform::LinuxX64 => "x86_64-unknown-linux-musl",
            Platform::Windows => "x86_64-pc-windows-msvc",
        }
    }
}

/// The platform of a host, by the names Rust gives to its operating system
/// and CPU architecture: macOS, Linux and Windows on `x86_64`, and Linux on
/// `aarch64`.
pub open spec fn platform_of(os: Seq<char>, arch: Seq<char>) -> Result<Platform, UnsupportedHost> {
    if os == "macos"@ {
        if arch == "x86_64"@ {
            Ok(Platform::MacOs)
        } else {
            Err(UnsupportedHost::Architecture)
        }
    } else if os == "linux"@ {
        if arch == "x86_64"@ {
            Ok(Platform::LinuxX64)
        } else if arch == "aarch64"@ {
            Ok(Platform::LinuxArm64)
        } else {
            Err(UnsupportedHost::Architecture)
        }
    } else if os == "windows"@ {
        if arch == "x86_64"@ {
            Ok(Platform::Windows)
        } else {
            Err(UnsupportedHost::Architecture)
        }
    } else {
        Err(UnsupportedHost::Os)
    }
}

/// Four hosts have an embedded binary, each its own, and no other host has
/// one.
pub proof fn lemma_supported_hosts()
    ensures
        platform_of("macos"@, "x86_64"@) == Ok::<Platform, UnsupportedHost>(Platform::MacOs),
        platform_of("linux"@, "x86_64"@) == Ok::<Platform, UnsupportedHost>(Platform::LinuxX64),
        platform_of("linux"@, "aarch64"@) == Ok::<Platform, UnsupportedHost>(Platform::LinuxArm64),
        platform_of("windows"@, "x86_64"@) == Ok::<Platform, UnsupportedHost>(Platform::Windows),
        forall|os: Seq<char>, arch: Seq<char>| #[trigger]
            platform_of(os, arch) is Ok ==> {
                ||| os == "macos"@ && arch == "x86_64"@
                ||| os == "linux"@ && arch == "x86_64"@
                ||| os == "linux"@ && arch == "aarch64"@
                ||| os == "windows"@ && arch == "x86_64"@
            },
{
    reveal_strlit("macos");
    reveal_strlit("linux");
    reveal_strlit("windows");
    reveal_strlit("x86_64");
    reveal_strlit("aarch64");
    assert("linux"@[0] != "macos"@[0]);
    assert("windows"@.len() != "macos"@.len());
    assert("windows"@.len() != "linux"@.len());
    assert("aarch64"@.len() != "x86_64"@.len());
}

/// Maps a host to its platform, or says what about the host is unsupported.
pub fn resolve_platform(os: &str, arch: &str) -> (resolved: Result<Platform, UnsupportedHost>)
    ensures
        resolved == platform_of(os@, arch@),
{
    if os.eq("macos") {
        if arch.eq("x86_64") {
            Ok(Platform::MacOs)
        } else {
            Err(UnsupportedHost::Architecture)
        }
    } else if os.eq("linux") {
        if arch.eq("x86_64") {
            Ok(Platform::LinuxX64)
        } else if arch.eq("aarch64") {
            Ok(Platform::LinuxArm64)
        } else {
            Err(UnsupportedHost::Architecture)
        }
    } else if os.eq("windows") {
        if arch.eq("x86_64") {
            Ok(Platform::Windows)
        } else {
            Err(UnsupportedHost::Architecture)
        }
    } else {
        Err(UnsupportedHost::Os)
    }
}

/// The platform of a supported host.
pub fn guess_platform(os: &str, arch: &str) -> (platform: Platform)
    requires
        platform_of(os@, arch@) is Ok,
    ensures
        platform_of(os@, arch@) == Ok::<Platform, UnsupportedHost>(platform),
{
    if os.eq("macos") {
        Platform::MacOs
    } else if os.eq("linux") {
        if arch.eq("x86_64") {
            Platform::LinuxX64
        } else {
            Platform::LinuxArm64
        }
    } else {
        Platform::Windows
    }
}

} // verus!
