//! The executables that ship with the library, one for each platform.
use vstd::prelude::*;

use crate::platform::Platform;

verus! {

/// One executable image for each platform, none of them empty.
pub struct EmbeddedBinaries<'a> {
    macos_arm64: &'a [u8],
    macos_x64: &'a [u8],
    linux_arm64: &'a [u8],
    linux_armv7: &'a [u8],
    linux_x64: &'a [u8],
    windows_arm64: &'a [u8],
    windows_x64: &'a [u8],
}

impl<'a> EmbeddedBinaries<'a> {
    /// The image for `platform`.
    pub closed spec fn image(&self, platform: Platform) -> Seq<u8> {
        match platform {
            Platform::MacOsArm64 => self.macos_arm64@,
            Platform::MacOsX64 => self.macos_x64@,
            Platform::LinuxArm64 => self.linux_arm64@,
            Platform::LinuxArmv7 => self.linux_armv7@,
            Platform::LinuxX64 => self.linux_x64@,
            Platform::WindowsArm64 => self.windows_arm64@,
            Platform::WindowsX64 => self.windows_x64@,
        }
    }

    /// Every platform has an image, and none is empty.
    pub open spec fn wf(&self) -> bool {
        forall|p: Platform| #[trigger] self.image(p).len() > 0
    }

    /// The table of the given images, or `None` where one of them is empty.
    pub fn new(
        macos_arm64: &'a [u8],
        macos_x64: &'a [u8],
        linux_arm64: &'a [u8],
        linux_armv7: &'a [u8],
        linux_x64: &'a [u8],
        windows_arm64: &'a [u8],
        windows_x64: &'a [u8],
    ) -> (r: Option<Self>)
        ensures
            r is Some <==> (macos_arm64@.len() > 0 && macos_x64@.len() > 0 && linux_arm64@.len()
                > 0 && linux_armv7@.len() > 0 && linux_x64@.len() > 0 && windows_arm64@.len() > 0
                && windows_x64@.len() > 0),
            r matches Some(t) ==> {
                &&& t.wf()
                &&& t.image(Platform::MacOsArm64) == macos_arm64@
                &&& t.image(Platform::MacOsX64) == macos_x64@
                &&& t.image(Platform::LinuxArm64) == linux_arm64@
                &&& t.image(Platform::LinuxArmv7) == linux_armv7@
                &&& t.image(Platform::LinuxX64) == linux_x64@
                &&& t.image(Platform::WindowsArm64) == windows_arm64@
                &&& t.image(Platform::WindowsX64) == windows_x64@
            },
    {
        if macos_arm64.len() == 0 || macos_x64.len() == 0 || linux_arm64.len() == 0
            || linux_armv7.len() == 0 || linux_x64.len() == 0 || windows_arm64.len() == 0
            || windows_x64.len() == 0 {
            return None;
        }
        let t = EmbeddedBinaries {
            macos_arm64,
            macos_x64,
            linux_arm64,
            linux_armv7,
            linux_x64,
            windows_arm64,
            windows_x64,
        };
        assert forall|p: Platform| #[trigger] t.image(p).len() > 0 by {
            match p {
                Platform::MacOsArm64 => {},
                Platform::MacOsX64 => {},
                Platform::LinuxArm64 => {},
                Platform::LinuxArmv7 => {},
                Platform::LinuxX64 => {},
                Platform::WindowsArm64 => {},
                Platform::WindowsX64 => {},
            }
        }
        Some(t)
    }

    /// The executable image for `platform`.
    pub fn get_cli_executable_bytes(&self, platform: &Platform) -> (r: &'a [u8])
        requires
            self.wf(),
        ensures
            r@ == self.image(*platform),
            r@.len() > 0,
    {
        assert(self.image(*platform).len() > 0);
        match platform {
            Platform::MacOsArm64 => self.macos_arm64,
            Platform::MacOsX64 => self.macos_x64,
            Platform::LinuxArm64 => self.linux_arm64,
            Platform::LinuxArmv7 => self.linux_armv7,
            Platform::LinuxX64 => self.linux_x64,
            Platform::WindowsArm64 => self.windows_arm64,
            Platform::WindowsX64 => self.windows_x64,
        }
    }
}

/// Every platform's executable image in a well-formed table is non-empty.
pub proof fn lemma_every_image_non_empty(table: EmbeddedBinaries, platform: Platform)
    requires
        table.wf(),
    ensures
        table.image(platform).len() > 0,
{
}

} // verus!
