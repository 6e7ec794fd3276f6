//! Windows that can be dragged from one device to another.

use vstd::prelude::*;
use crate::device::{DeviceId, is_random_uuid, random_uuid};

verus! {

/// A window, named by the 128-bit value of its UUID.
#[derive(Clone, Copy, Debug, PartialEq, Eq, Structural, Hash)]
pub struct WindowId(pub u128);

impl Default for WindowId {
    /// A fresh random window id.
    fn default() -> (id: WindowId)
        ensures
            is_random_uuid(id.0),
    {
        WindowId(random_uuid())
    }
}

/// A top-level window of a device.
#[derive(Debug)]
pub struct WindowInfo {
    pub id: WindowId,
    pub handle: u64,
    pub title: String,
    pub process_name: String,
    pub process_id: u32,
    pub x: i32,
    pub y: i32,
    pub width: u32,
    pub height: u32,
    pub is_minimized: bool,
    pub is_maximized: bool,
    pub is_focused: bool,
}

impl Clone for WindowInfo {
    fn clone(&self) -> (w: WindowInfo)
        ensures
            w == *self,
    {
        WindowInfo {
            id: self.id,
            handle: self.handle,
            title: self.title.clone(),
            process_name: self.process_name.clone(),
            process_id: self.process_id,
            x: self.x,
            y: self.y,
            width: self.width,
            height: self.height,
            is_minimized: self.is_minimized,
            is_maximized: self.is_maximized,
            is_focused: self.is_focused,
        }
    }
}

/// Where a cross-device window transfer stands.
#[derive(Clone, Copy, Debug, PartialEq, Eq, Structural)]
pub enum TransferState {
    Idle,
    Dragging { source_device: DeviceId, target_device: DeviceId },
    Streaming { source_device: DeviceId, target_device: DeviceId },
    Dropped { target_device: DeviceId },
}

/// The stage a window transfer has reached.
#[derive(Clone, Debug, PartialEq)]
pub enum TransferPhase {
    Initializing,
    Capturing,
    Encoding,
    Streaming,
    Complete,
    Error(String),
}

/// A request to move a window to another device.
#[derive(Debug)]
pub struct WindowTransferRequest {
    pub window: WindowInfo,
    pub source_device: DeviceId,
    pub target_device: DeviceId,
    pub source_position: (i32, i32),
    pub timestamp: u64,
}

impl Clone for WindowTransferRequest {
    fn clone(&self) -> (r: WindowTransferRequest)
        ensures
            r == *self,
    {
        WindowTransferRequest {
            window: self.window.clone(),
            source_device: self.source_device,
            target_device: self.target_device,
            source_position: (self.source_position.0, self.source_position.1),
            timestamp: self.timestamp,
        }
    }
}

} // verus!
