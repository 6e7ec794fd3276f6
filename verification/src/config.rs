//! The node's settings.

use vstd::prelude::*;

verus! {

/// The name of this machine, when it can be read.
///
/// Calls `hostname::get` and converts the name lossily to UTF-8; the name
/// depends on the machine, so nothing is stated of it.
#[verifier::external_body]
pub(crate) fn host_name() -> Option<String> {
    match hostname::get() {
        Ok(h) => Some(h.to_string_lossy().to_string()),
        Err(_) => None,
    }
}

/// The name a node goes by: the host name when one was read, else
/// `fallback`.
pub fn name_or(host: Option<String>, fallback: &str) -> (n: String)
    ensures
        n@ == match host {
            Some(h) => h@,
            None => fallback@,
        },
{
    match host {
        Some(name) => name,
        None => fallback.to_owned(),
    }
}

#[derive(Clone, Debug)]
pub struct OmniBridgeConfig {
    pub device_name: String,
    pub is_primary: bool,
    pub port: u16,
    pub auto_discover: bool,
    pub edge_threshold: u32,
    pub capture_fps: u32,
    pub bitrate: u32,
    pub enable_encryption: bool,
    pub layout: Option<String>,
}

impl Default for OmniBridgeConfig {
    /// The machine's host name (or `omnibridge-node` when it cannot be
    /// read), a secondary node on port 19810 that discovers peers, with a
    /// 5-pixel edge, 60 fps capture at 20 Mbit/s, encryption on and no
    /// stored layout.
    fn default() -> (c: OmniBridgeConfig)
        ensures
            !c.is_primary,
            c.port == 19810,
            c.auto_discover,
            c.edge_threshold == 5,
            c.capture_fps == 60,
            c.bitrate == 20_000_000,
            c.enable_encryption,
            c.layout is None,
    {
        let device_name = name_or(host_name(), "omnibridge-node");
        OmniBridgeConfig {
            device_name,
            is_primary: false,
            port: 19810,
            auto_discover: true,
            edge_threshold: 5,
            capture_fps: 60,
            bitrate: 20_000_000,
            enable_encryption: true,
            layout: None,
        }
    }
}

} // verus!
