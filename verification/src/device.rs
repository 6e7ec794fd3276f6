//! Devices taking part in the shared desktop.

use vstd::prelude::*;

verus! {

/// Whether `v` carries the version and variant bits of a random (version 4)
/// UUID.
pub open spec fn is_random_uuid(v: u128) -> bool {
    &&& (v >> 76u128) & 0xfu128 == 4
    &&& (v >> 62u128) & 0x3u128 == 2
}

/// A fresh random UUID, as its 128-bit value.
///
/// Calls `uuid::Uuid::new_v4` and `as_u128`. The value is random; the crate
/// sets its version nibble to 4 and its variant bits to `10`, and that is
/// all that is stated. The crate panics when the operating system supplies
/// no random bytes, which no argument can rule out.
#[verifier::external_body]
pub(crate) fn random_uuid() -> (v: u128)
    ensures
        is_random_uuid(v),
{
    uuid::Uuid::new_v4().as_u128()
}

/// The 16 bytes of a UUID's value, most significant first.
pub open spec fn uuid_bytes(v: u128) -> Seq<u8> {
    Seq::new(16, |i: int| ((v >> ((15 - i) * 8) as u128) & 0xff) as u8)
}

/// A device, named by the 128-bit value of its UUID.
#[derive(Clone, Copy, Debug, PartialEq, Eq, Structural, Hash)]
pub struct DeviceId(pub u128);

impl DeviceId {
    /// A fresh random device id.
    pub fn new() -> (id: DeviceId)
        ensures
            is_random_uuid(id.0),
    {
        DeviceId(random_uuid())
    }

    /// The 16 bytes of the UUID, most significant first.
    pub fn as_bytes(&self) -> (b: [u8; 16])
        ensures
            b@ == uuid_bytes(self.0),
    {
        let mut b = [0u8; 16];
        let mut i: usize = 0;
        while i < 16
            invariant
                i <= 16,
                forall|j: int| 0 <= j < i ==> b@[j] == ((self.0 >> ((15 - j) * 8) as u128) & 0xff) as u8,
            decreases 16 - i,
        {
            let shift = ((15 - i) * 8) as u128;
            b[i] = ((self.0 >> shift) & 0xff) as u8;
            i = i + 1;
        }
        assert(b@ =~= uuid_bytes(self.0));
        b
    }
}

impl Default for DeviceId {
    /// A fresh random device id.
    fn default() -> (id: DeviceId)
        ensures
            is_random_uuid(id.0),
    {
        DeviceId::new()
    }
}

#[derive(Clone, Copy, Debug, PartialEq, Eq, Structural)]
pub enum DeviceRole {
    Primary,
    Secondary,
}

/// What a device can do.
#[derive(Clone, Debug)]
pub struct DeviceCapabilities {
    pub has_gpu_encoder: bool,
    pub has_gpu_decoder: bool,
    pub max_capture_fps: u32,
    pub supported_codecs: Vec<String>,
    pub cpu_cores: u32,
}

impl DeviceCapabilities {
    /// The default capabilities of a device with `cpu_cores` cores: no GPU
    /// codec, 60 fps capture, H.264 only.
    pub fn with_cpu_cores(cpu_cores: u32) -> (c: DeviceCapabilities)
        ensures
            !c.has_gpu_encoder,
            !c.has_gpu_decoder,
            c.max_capture_fps == 60,
            c.supported_codecs@.len() == 1,
            c.supported_codecs@[0]@ == "h264"@,
            c.cpu_cores == cpu_cores,
    {
        let mut codecs: Vec<String> = Vec::new();
        codecs.push("h264".to_owned());
        DeviceCapabilities {
            has_gpu_encoder: false,
            has_gpu_decoder: false,
            max_capture_fps: 60,
            supported_codecs: codecs,
            cpu_cores,
        }
    }
}

} // verus!
