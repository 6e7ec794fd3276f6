//! Captured frames, and the bookkeeping of a window capturer around the
//! platform's capture call.

use vstd::prelude::*;
use crate::window::WindowInfo;

verus! {

#[derive(Clone, Copy, Debug, PartialEq, Eq, Structural)]
pub enum FrameFormat {
    BGRA,
    RGBA,
    NV12,
    I420,
}

/// A rectangle of the frame that changed since the previous capture.
#[derive(Clone, Copy, Debug, PartialEq, Eq, Structural)]
pub struct DirtyRegion {
    pub x: i32,
    pub y: i32,
    pub width: u32,
    pub height: u32,
}

#[derive(Clone, Debug)]
pub struct FrameMetadata {
    pub width: u32,
    pub height: u32,
    pub stride: u32,
    pub format: FrameFormat,
    pub timestamp_us: u64,
    pub capture_time_us: u64,
    pub frame_number: u64,
    pub dirty_regions: Vec<DirtyRegion>,
}

#[derive(Clone, Debug)]
pub struct CapturedFrame {
    pub pixels: Vec<u8>,
    pub metadata: FrameMetadata,
}

impl FrameMetadata {
    /// The metadata of a whole captured window: `width` by `height` BGRA
    /// pixels in rows of `4 * width` bytes, with no dirty region marked.
    pub fn bgra_window(
        width: u32,
        height: u32,
        timestamp_us: u64,
        capture_time_us: u64,
        frame_number: u64,
    ) -> (m: FrameMetadata)
        requires
            width * 4 <= u32::MAX,
        ensures
            m.width == width,
            m.height == height,
            m.stride == width * 4,
            m.format == FrameFormat::BGRA,
            m.timestamp_us == timestamp_us,
            m.capture_time_us == capture_time_us,
            m.frame_number == frame_number,
            m.dirty_regions@ == Seq::<DirtyRegion>::empty(),
    {
        FrameMetadata {
            width,
            height,
            stride: width * 4,
            format: FrameFormat::BGRA,
            timestamp_us,
            capture_time_us,
            frame_number,
            dirty_regions: Vec::new(),
        }
    }
}

impl CapturedFrame {
    /// The size of the pixel data in bytes.
    pub fn size_bytes(&self) -> (n: usize)
        ensures
            n == self.pixels@.len(),
    {
        self.pixels.len()
    }
}

/// Captures one window, frame by frame, while started.
pub struct WindowCapturer {
    window: WindowInfo,
    running: bool,
    frame_count: u64,
}

impl WindowCapturer {
    /// The window being captured.
    pub closed spec fn target(&self) -> WindowInfo {
        self.window
    }

    /// Whether capturing has been started and not stopped since.
    pub closed spec fn started(&self) -> bool {
        self.running
    }

    /// The number of frames counted so far.
    pub closed spec fn frames(&self) -> u64 {
        self.frame_count
    }

    /// A capturer for `window`, not started, with no frame counted.
    pub fn new(window: WindowInfo) -> (c: WindowCapturer)
        ensures
            c.target() == window,
            !c.started(),
            c.frames() == 0,
    {
        WindowCapturer { window, running: false, frame_count: 0 }
    }

    pub fn start(&mut self)
        ensures
            final(self).started(),
            final(self).target() == old(self).target(),
            final(self).frames() == old(self).frames(),
    {
        self.running = true;
    }

    pub fn stop(&mut self)
        ensures
            !final(self).started(),
            final(self).target() == old(self).target(),
            final(self).frames() == old(self).frames(),
    {
        self.running = false;
    }

    pub fn update_window(&mut self, window: WindowInfo)
        ensures
            final(self).target() == window,
            final(self).started() == old(self).started(),
            final(self).frames() == old(self).frames(),
    {
        self.window = window;
    }

    /// Counts the next frame and says its number, or nothing when the
    /// capturer is not started; the platform capture follows a number.
    pub fn next_frame_number(&mut self) -> (r: Option<u64>)
        requires
            old(self).started() ==> old(self).frames() < u64::MAX,
        ensures
            final(self).target() == old(self).target(),
            final(self).started() == old(self).started(),
            old(self).started() ==> final(self).frames() == old(self).frames() + 1 && r == Some(
                final(self).frames(),
            ),
            !old(self).started() ==> final(self).frames() == old(self).frames() && r == None::<u64>,
    {
        if !self.running {
            return None;
        }
        self.frame_count = self.frame_count + 1;
        Some(self.frame_count)
    }

    pub fn window(&self) -> (w: &WindowInfo)
        ensures
            *w == self.target(),
    {
        &self.window
    }

    pub fn is_running(&self) -> (b: bool)
        ensures
            b == self.started(),
    {
        self.running
    }

    pub fn frame_count(&self) -> (n: u64)
        ensures
            n == self.frames(),
    {
        self.frame_count
    }
}

} // verus!
