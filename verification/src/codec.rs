//! Encoded and decoded video frames, and the bookkeeping that the H.264
//! encoder and decoder keep around the codec calls.

use vstd::prelude::*;

verus! {

#[derive(Clone, Copy, Debug, PartialEq, Eq, Structural)]
pub enum EncodedFormat {
    H264,
    H265,
    AV1,
    VP9,
}

/// One frame of compressed video.
#[derive(Clone, Debug)]
pub struct EncodedFrame {
    pub data: Vec<u8>,
    pub width: u32,
    pub height: u32,
    pub frame_number: u64,
    pub is_keyframe: bool,
    pub timestamp_us: u64,
    pub encode_time_us: u64,
    pub format: EncodedFormat,
}

/// An encoded frame as the contracts see it.
pub struct EncodedFrameView {
    pub data: Seq<u8>,
    pub width: u32,
    pub height: u32,
    pub frame_number: u64,
    pub is_keyframe: bool,
    pub timestamp_us: u64,
    pub encode_time_us: u64,
    pub format: EncodedFormat,
}

impl View for EncodedFrame {
    type V = EncodedFrameView;

    open spec fn view(&self) -> EncodedFrameView {
        EncodedFrameView {
            data: self.data@,
            width: self.width,
            height: self.height,
            frame_number: self.frame_number,
            is_keyframe: self.is_keyframe,
            timestamp_us: self.timestamp_us,
            encode_time_us: self.encode_time_us,
            format: self.format,
        }
    }
}

/// One frame of decoded BGRA pixels.
#[derive(Clone, Debug)]
pub struct DecodedFrame {
    pub pixels: Vec<u8>,
    pub width: u32,
    pub height: u32,
    pub frame_number: u64,
    pub timestamp_us: u64,
    pub decode_time_us: u64,
}

/// The bitrate an encoder starts with: three tenths of a bit per pixel and
/// frame, `width * height * 3 / 10`.
pub open spec fn initial_bitrate(width: u32, height: u32) -> int {
    width * height * 3 / 10
}

/// Whether the `frame_number`-th encoded frame is a keyframe: one every
/// two seconds of frames at `target_fps`.
pub open spec fn is_keyframe_number(frame_number: u64, target_fps: u32) -> bool {
    frame_number % (target_fps * 2) as u64 == 0
}

/// The counters an H.264 encoder keeps besides the codec itself.
pub struct EncoderState {
    pub width: u32,
    pub height: u32,
    pub target_fps: u32,
    pub bitrate: u32,
    pub frame_count: u64,
    /// Whether a keyframe was asked for and the next frame must be one.
    pub keyframe_pending: bool,
}

impl EncoderState {
    /// Whether the next frame counted is a keyframe: one was asked for, or
    /// its number falls on the two-second schedule.
    pub open spec fn next_is_keyframe(&self) -> bool {
        self.keyframe_pending || is_keyframe_number(
            (self.frame_count + 1) as u64,
            self.target_fps,
        )
    }

    /// The state of a freshly opened encoder.
    pub fn new(width: u32, height: u32, target_fps: u32) -> (s: EncoderState)
        requires
            width * height * 3 <= u32::MAX,
        ensures
            s.width == width,
            s.height == height,
            s.target_fps == target_fps,
            s.bitrate == initial_bitrate(width, height),
            s.frame_count == 0,
            !s.keyframe_pending,
    {
        proof {
            assert(0 <= width * height * 3) by (nonlinear_arith);
            assert(width * height <= width * height * 3) by (nonlinear_arith);
        }
        let bitrate = width * height * 3 / 10;
        EncoderState { width, height, target_fps, bitrate, frame_count: 0, keyframe_pending: false }
    }

    pub fn set_bitrate(&mut self, bitrate: u32)
        ensures
            *final(self) == (EncoderState { bitrate, ..*old(self) }),
    {
        self.bitrate = bitrate;
    }

    /// Counts one more frame and says its number and whether it is a
    /// keyframe: a requested keyframe, or one on the two-second schedule.
    pub fn next_frame(&mut self) -> (r: (u64, bool))
        requires
            old(self).target_fps > 0,
            old(self).frame_count < u64::MAX,
        ensures
            *final(self) == (EncoderState {
                frame_count: (old(self).frame_count + 1) as u64,
                keyframe_pending: false,
                ..*old(self)
            }),
            r.0 == final(self).frame_count,
            r.1 == old(self).next_is_keyframe(),
    {
        self.frame_count = self.frame_count + 1;
        let period = self.target_fps as u64 * 2;
        let key = self.keyframe_pending || self.frame_count % period == 0;
        self.keyframe_pending = false;
        (self.frame_count, key)
    }

    /// Asks for a keyframe: the next frame is one, and the keyframe
    /// schedule restarts from it, counting frames from 1 again.
    pub fn force_keyframe(&mut self)
        ensures
            *final(self) == (EncoderState { frame_count: 0, keyframe_pending: true, ..*old(self) }),
    {
        self.frame_count = 0;
        self.keyframe_pending = true;
    }

    pub fn frame_count(&self) -> (c: u64)
        ensures
            c == self.frame_count,
    {
        self.frame_count
    }
}

/// A keyframe that was asked for is the next frame counted, whatever the
/// schedule says.
pub proof fn lemma_requested_keyframe_is_next(s: EncoderState)
    requires
        s.keyframe_pending,
    ensures
        s.next_is_keyframe(),
{
}

/// The counters an H.264 decoder keeps besides the codec itself.
pub struct DecoderState {
    pub width: u32,
    pub height: u32,
    pub frame_count: u64,
    pub last_keyframe: u64,
}

impl DecoderState {
    pub fn new(width: u32, height: u32) -> (s: DecoderState)
        ensures
            s == (DecoderState { width, height, frame_count: 0, last_keyframe: 0 }),
    {
        DecoderState { width, height, frame_count: 0, last_keyframe: 0 }
    }

    /// Records that `encoded` is about to be decoded.
    pub fn record(&mut self, encoded: &EncodedFrame)
        requires
            old(self).frame_count < u64::MAX,
        ensures
            final(self).width == old(self).width,
            final(self).height == old(self).height,
            final(self).frame_count == old(self).frame_count + 1,
            final(self).last_keyframe == (if encoded.is_keyframe {
                encoded.frame_number
            } else {
                old(self).last_keyframe
            }),
    {
        self.frame_count = self.frame_count + 1;
        if encoded.is_keyframe {
            self.last_keyframe = encoded.frame_number;
        }
    }

    pub fn frame_count(&self) -> (c: u64)
        ensures
            c == self.frame_count,
    {
        self.frame_count
    }
}

} // verus!
