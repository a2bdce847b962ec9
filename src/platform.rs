//! The platforms that an executable ships for, and how the running one is
//! recognised.
use vstd::prelude::*;
use vstd::string::*;

use crate::error::TailwindCliError;

verus! {

/// An operating system and processor architecture with its own executable.
#[derive(Debug, Clone, Copy, PartialEq, Eq, Structural)]
pub enum Platform {
    MacOsArm64,
    MacOsX64,
    LinuxArm64,
    LinuxArmv7,
    LinuxX64,
    WindowsArm64,
    WindowsX64,
}

impl Platform {
    /// The platform's name as it appears in file names.
    pub open spec fn spec_name(self) -> Seq<char> {
        match self {
            Platform::MacOsArm64 => "macos-arm64"@,
            Platform::MacOsX64 => "macos-x64"@,
            Platform::LinuxArm64 => "linux-arm64"@,
            Platform::LinuxArmv7 => "linux-armv7"@,
            Platform::LinuxX64 => "linux-x64"@,
            Platform::WindowsArm64 => "windows-arm64"@,
            Platform::WindowsX64 => "windows-x64"@,
        }
    }

    /// The platform's name, such as `linux-x64`.
    pub fn name(&self) -> (r: &'static str)
        ensures
            r@ == self.spec_name(),
    {
        match self {
            Platform::MacOsArm64 => "macos-arm64",
            Platform::MacOsX64 => "macos-x64",
            Platform::LinuxArm64 => "linux-arm64",
            Platform::LinuxArmv7 => "linux-armv7",
            Platform::LinuxX64 => "linux-x64",
            Platform::WindowsArm64 => "windows-arm64",
            Platform::WindowsX64 => "windows-x64",
        }
    }
}

/// The platform that an operating system and architecture, named as Rust's
/// `std::env::consts` names them, stand for; `None` where none ships.
pub open spec fn platform_for(os: Seq<char>, arch: Seq<char>) -> Option<Platform> {
    if os == "macos"@ {
        if arch == "x86_64"@ {
            Some(Platform::MacOsX64)
        } else if arch == "aarch64"@ {
            Some(Platform::MacOsArm64)
        } else {
            None
        }
    } else if os == "linux"@ {
        if arch == "x86_64"@ {
            Some(Platform::LinuxX64)
        } else if arch == "aarch64"@ {
            Some(Platform::LinuxArm64)
        } else if arch == "armv7"@ {
            Some(Platform::LinuxArmv7)
        } else {
            None
        }
    } else if os == "windows"@ {
        if arch == "x86_64"@ {
            Some(Platform::WindowsX64)
        } else if arch == "aarch64"@ {
            Some(Platform::WindowsArm64)
        } else {
            None
        }
    } else {
        None
    }
}

/// Whether two texts hold the same characters.
pub(crate) fn same_text(a: &str, b: &str) -> (r: bool)
    ensures
        r == (a@ == b@),
{
    let n = a.unicode_len();
    if n != b.unicode_len() {
        return false;
    }
    let mut i: usize = 0;
    while i < n
        invariant
            n == a@.len(),
            n == b@.len(),
            i <= n,
            forall|k: int| 0 <= k < i ==> a@[k] == b@[k],
        decreases n - i,
    {
        if a.get_char(i) != b.get_char(i) {
            return false;
        }
        i = i + 1;
    }
    assert(a@ =~= b@);
    true
}

/// The platform for an operating system and architecture, or
/// `UnsupportedPlatform` naming both where no executable ships for the pair.
pub fn guess_platform(os: &str, arch: &str) -> (r: Result<Platform, TailwindCliError>)
    ensures
        platform_for(os@, arch@) matches Some(p) ==> r == Ok::<Platform, TailwindCliError>(p),
        platform_for(os@, arch@) is None ==> (r matches Err(
            TailwindCliError::UnsupportedPlatform { os: o, arch: a },
        ) && o@ == os@ && a@ == arch@),
{
    let found = if same_text(os, "macos") {
        if same_text(arch, "x86_64") {
            Some(Platform::MacOsX64)
        } else if same_text(arch, "aarch64") {
            Some(Platform::MacOsArm64)
        } else {
            None
        }
    } else if same_text(os, "linux") {
        if same_text(arch, "x86_64") {
            Some(Platform::LinuxX64)
        } else if same_text(arch, "aarch64") {
            Some(Platform::LinuxArm64)
        } else if same_text(arch, "armv7") {
            Some(Platform::LinuxArmv7)
        } else {
            None
        }
    } else if same_text(os, "windows") {
        if same_text(arch, "x86_64") {
            Some(Platform::WindowsX64)
        } else if same_text(arch, "aarch64") {
            Some(Platform::WindowsArm64)
        } else {
            None
        }
    } else {
        None
    };
    match found {
        Some(p) => Ok(p),
        None => Err(
            TailwindCliError::UnsupportedPlatform {
                os: String::from_str(os),
                arch: String::from_str(arch),
            },
        ),
    }
}

} // verus!
