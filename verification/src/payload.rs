//! The embedded `wasm-pack` binaries, one per platform.

use crate::platform::Platform;
use vstd::prelude::*;

verus! {

/// The binary of every platform. None of them is empty.
pub struct PayloadRegistry {
    mac_os: &'static [u8],
    linux_arm64: &'static [u8],
    linux_x64: &'static [u8],
    windows: &'static [u8],
}

impl PayloadRegistry {
    #[verifier::type_invariant]
    spec fn populated(self) -> bool {
        &&& self.mac_os@.len() > 0
        &&& self.linux_arm64@.len() > 0
        &&& self.linux_x64@.len() > 0
        &&& self.windows@.len() > 0
    }

    /// The binary that the registry holds for a platform.
    pub closed spec fn payload(self, platform: Platform) -> Seq<u8> {
        match platform {
            Platform::MacOs => self.mac_os@,
            Platform::LinuxArm64 => self.linux_arm64@,
            Platform::LinuxX64 => self.linux_x64@,
            Platform::Windows => self.windows@,
        }
    }

    /// A registry of the four binaries, unless one of them is empty.
    pub fn new(
        mac_os: &'static [u8],
        linux_arm64: &'static [u8],
        linux_x64: &'static [u8],
        windows: &'static [u8],
    ) -> (registry: Option<PayloadRegistry>)
        ensures
            registry is Some <==> mac_os@.len() > 0 && linux_arm64@.len() > 0 && linux_x64@.len()
                > 0 && windows@.len() > 0,
            registry matches Some(r) ==> {
                &&& r.payload(Platform::MacOs) == mac_os@
                &&& r.payload(Platform::LinuxArm64) == linux_arm64@
                &&& r.payload(Platform::LinuxX64) == linux_x64@
                &&& r.payload(Platform::Windows) == windows@
            },
    {
        if mac_os.len() == 0 || linux_arm64.len() == 0 || linux_x64.len() == 0 || windows.len()
            == 0 {
            None
        } else {
            Some(PayloadRegistry { mac_os, linux_arm64, linux_x64, windows })
        }
    }
}

/// The embedded binary of a platform: the registry's entry, which is never
/// empty.
pub fn get_cli_executable_bytes(platform: &Platform, registry: &PayloadRegistry) -> (bytes:
    &'static [u8])
    ensures
        bytes@ == registry.payload(*platform),
        bytes@.len() > 0,
{
    proof {
        use_type_invariant(registry);
    }
    match platform {
        Platform::MacOs => registry.mac_os,
        Platform::LinuxArm64 => registry.linux_arm64,
        Platform::LinuxX64 => registry.linux_x64,
        Platform::Windows => registry.windows,
    }
}

} // verus!
