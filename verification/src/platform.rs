//! Naming of the running platform as upstream release artifacts spell it,
//! and what the platform needs of an installed executable.

use vstd::prelude::*;
use crate::text::text_eq;

verus! {

/// The operating-system token of release artifacts for a native OS name:
/// `macos` is published as `darwin`, every other name as it is.
pub open spec fn os_token(os: Seq<char>) -> Seq<char> {
    if os == "macos"@ {
        "darwin"@
    } else {
        os
    }
}

/// The architecture token of release artifacts for a native architecture
/// name: `x86_64` is `amd64`, `aarch64` is `arm64`, `x86` is `386`, every
/// other name as it is.
pub open spec fn arch_token(arch: Seq<char>) -> Seq<char> {
    if arch == "x86_64"@ {
        "amd64"@
    } else if arch == "aarch64"@ {
        "arm64"@
    } else if arch == "x86"@ {
        "386"@
    } else {
        arch
    }
}

/// The `{os}-{arch}` token that names a platform inside asset file names.
pub open spec fn platform_token(os: Seq<char>, arch: Seq<char>) -> Seq<char> {
    os + seq!['-'] + arch
}

/// The pair of tokens under which upstream publishes builds for a platform.
#[derive(Debug)]
pub struct Platform {
    /// The operating-system token.
    pub os: String,
    /// The architecture token.
    pub arch: String,
}

impl Clone for Platform {
    fn clone(&self) -> (copy: Self)
        ensures
            copy.os@ == self.os@,
            copy.arch@ == self.arch@,
    {
        Platform { os: self.os.clone(), arch: self.arch.clone() }
    }
}

impl Platform {
    /// Maps the native names of the running OS and architecture to the
    /// tokens of release artifacts. Unknown names pass through unchanged.
    pub fn identify(os: &str, arch: &str) -> (platform: Platform)
        ensures
            platform.os@ == os_token(os@),
            platform.arch@ == arch_token(arch@),
    {
        let os_out = if text_eq(os, "macos") {
            "darwin".to_owned()
        } else {
            os.to_owned()
        };
        let arch_out = if text_eq(arch, "x86_64") {
            "amd64".to_owned()
        } else if text_eq(arch, "aarch64") {
            "arm64".to_owned()
        } else if text_eq(arch, "x86") {
            "386".to_owned()
        } else {
            arch.to_owned()
        };
        Platform { os: os_out, arch: arch_out }
    }

    /// The `{os}-{arch}` token of this platform.
    pub fn token(&self) -> (token: String)
        ensures
            token@ == platform_token(self.os@, self.arch@),
    {
        let mut token = self.os.clone();
        token.append("-");
        token.append(self.arch.as_str());
        proof {
            reveal_strlit("-");
            assert("-"@ =~= seq!['-']);
        }
        token
    }
}

/// The executable suffix of a platform family: `.exe` on `windows`, none
/// elsewhere.
pub open spec fn family_suffix(family: Seq<char>) -> Seq<char> {
    if family == "windows"@ {
        ".exe"@
    } else {
        Seq::empty()
    }
}

/// What a platform family asks of an installed executable.
#[derive(Debug)]
pub struct PlatformCaps {
    /// Appended to a binary's own name to get its file name.
    pub executable_suffix: String,
    /// Whether files carry POSIX permission bits that mark them executable.
    pub posix_permissions: bool,
}

impl Clone for PlatformCaps {
    fn clone(&self) -> (copy: Self)
        ensures
            copy.executable_suffix@ == self.executable_suffix@,
            copy.posix_permissions == self.posix_permissions,
    {
        PlatformCaps {
            executable_suffix: self.executable_suffix.clone(),
            posix_permissions: self.posix_permissions,
        }
    }
}

impl PlatformCaps {
    /// The capabilities of a platform family, as the target names it
    /// (`unix`, `windows`, or something else).
    pub fn for_family(family: &str) -> (caps: PlatformCaps)
        ensures
            caps.executable_suffix@ == family_suffix(family@),
            caps.posix_permissions == (family@ == "unix"@),
    {
        let suffix = if text_eq(family, "windows") {
            ".exe".to_owned()
        } else {
            String::new()
        };
        PlatformCaps { executable_suffix: suffix, posix_permissions: text_eq(family, "unix") }
    }

    /// The file name of the executable `binary` on this platform.
    pub fn executable_name(&self, binary: &str) -> (name: String)
        ensures
            name@ == binary@ + self.executable_suffix@,
    {
        let mut name = binary.to_owned();
        name.append(self.executable_suffix.as_str());
        name
    }
}

/// The machine that the program runs on, as far as an update depends on it.
#[derive(Debug)]
pub struct Host {
    /// The tokens under which upstream publishes builds for it.
    pub platform: Platform,
    /// What it asks of an installed executable.
    pub caps: PlatformCaps,
}

impl Host {
    /// The host with the native names `os` and `arch` of the platform
    /// family `family`.
    pub fn identify(os: &str, arch: &str, family: &str) -> (host: Host)
        ensures
            host.platform.os@ == os_token(os@),
            host.platform.arch@ == arch_token(arch@),
            host.caps.executable_suffix@ == family_suffix(family@),
            host.caps.posix_permissions == (family@ == "unix"@),
    {
        Host { platform: Platform::identify(os, arch), caps: PlatformCaps::for_family(family) }
    }
}

} // verus!
