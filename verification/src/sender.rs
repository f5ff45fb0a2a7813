//! The send session: it checks every unit against its declared geometry
//! before the transport sees it.

use vstd::prelude::*;
use crate::codec::lemma_frame_size_fits;
use crate::codec::spec_audio_buffer_size;
use crate::codec::PixelFormat;
use crate::codec::FOURCC_UYVY;
use crate::engine::Runtime;
use crate::error::Component;
use crate::error::InitStage;
use crate::error::NdiError;
use crate::frames::AudioFrameView;
use crate::frames::MetadataFrameView;
use crate::frames::NdiAudioFrame;
use crate::frames::NdiMetadataFrame;
use crate::frames::NdiVideoFrame;
use crate::frames::VideoFrameView;

verus! {

/// The byte at place `i` of the test pattern: packed 4:2:2, two bytes per
/// pixel. The first byte of a pixel rises from left to right, the second from
/// top to bottom, each from 0 to just under 255.
pub open spec fn spec_test_pattern_byte(width: int, height: int, i: int) -> u8 {
    let pixel = i / 2;
    if i % 2 == 0 {
        (((pixel % width) * 255) / width) as u8
    } else {
        (((pixel / width) * 255) / height) as u8
    }
}

/// The payload of the test pattern for a frame of this size.
pub open spec fn spec_test_pattern(width: u32, height: u32) -> Seq<u8> {
    Seq::new(
        (width * height * 2) as nat,
        |i: int| spec_test_pattern_byte(width as int, height as int, i),
    )
}

/// The frame that goes out for a payload with its declared geometry, or why
/// the payload is refused. The format must be known and the payload exactly as
/// long as an unpadded frame of this size; the frame then has the smallest
/// stride and the timecode 0.
pub open spec fn spec_outgoing_video(
    data: Seq<u8>,
    width: u32,
    height: u32,
    fps_n: u32,
    fps_d: u32,
    four_cc: u32,
) -> Result<VideoFrameView, NdiError> {
    match PixelFormat::spec_from_code(four_cc) {
        None => Err(NdiError::UnsupportedFormat(four_cc)),
        Some(f) => if data.len() == f.spec_buffer_size(width as int, height as int) {
            Ok(
                VideoFrameView {
                    width,
                    height,
                    frame_rate_n: fps_n,
                    frame_rate_d: fps_d,
                    timecode: 0,
                    format: f,
                    stride: f.spec_stride(width as int) as u64,
                    data,
                },
            )
        } else {
            Err(
                NdiError::BufferSizeMismatch {
                    expected: f.spec_buffer_size(width as int, height as int) as u128,
                    actual: data.len() as u128,
                },
            )
        },
    }
}

/// The frame that goes out for an audio payload, or why it is refused: the
/// payload must hold exactly four bytes per channel and sample.
pub open spec fn spec_outgoing_audio(
    data: Seq<u8>,
    sample_rate: u32,
    channels: u32,
    samples: u32,
) -> Result<AudioFrameView, NdiError> {
    if data.len() == spec_audio_buffer_size(channels as int, samples as int) {
        Ok(
            AudioFrameView {
                sample_rate,
                num_channels: channels,
                num_samples: samples,
                timecode: 0,
                data,
            },
        )
    } else {
        Err(
            NdiError::BufferSizeMismatch {
                expected: spec_audio_buffer_size(channels as int, samples as int) as u128,
                actual: data.len() as u128,
            },
        )
    }
}

/// Where a send session stands: open or closed, under the name it was given.
pub struct SenderView {
    pub open: bool,
    pub name: Seq<char>,
}

impl SenderView {
    pub open spec fn send_video_frame(
        self,
        data: Seq<u8>,
        width: u32,
        height: u32,
        fps_n: u32,
        fps_d: u32,
        four_cc: u32,
    ) -> Result<VideoFrameView, NdiError> {
        if self.open {
            spec_outgoing_video(data, width, height, fps_n, fps_d, four_cc)
        } else {
            Err(NdiError::NotInitialized(Component::Sender))
        }
    }

    pub open spec fn send_test_pattern(self, width: u32, height: u32, fps_n: u32, fps_d: u32) -> Result<
        VideoFrameView,
        NdiError,
    > {
        if self.open {
            Ok(
                VideoFrameView {
                    width,
                    height,
                    frame_rate_n: fps_n,
                    frame_rate_d: fps_d,
                    timecode: 0,
                    format: PixelFormat::UYVY,
                    stride: (2 * width) as u64,
                    data: spec_test_pattern(width, height),
                },
            )
        } else {
            Err(NdiError::NotInitialized(Component::Sender))
        }
    }

    pub open spec fn send_audio(self, data: Seq<u8>, sample_rate: u32, channels: u32, samples: u32) -> Result<
        AudioFrameView,
        NdiError,
    > {
        if self.open {
            spec_outgoing_audio(data, sample_rate, channels, samples)
        } else {
            Err(NdiError::NotInitialized(Component::Sender))
        }
    }

    pub open spec fn send_metadata(self, text: Seq<char>) -> Result<MetadataFrameView, NdiError> {
        if self.open {
            Ok(MetadataFrameView { timecode: 0, data: text })
        } else {
            Err(NdiError::NotInitialized(Component::Sender))
        }
    }

    pub open spec fn close(self) -> SenderView {
        SenderView { open: false, name: self.name }
    }
}

/// The place of a pixel in its row and the row's place, from the pixel's
/// place in the frame.
proof fn lemma_pixel_place(width: int, x: int, y: int)
    requires
        0 <= x < width,
        0 <= y,
    ensures
        (y * width + x) % width == x,
        (y * width + x) / width == y,
{
    vstd::arithmetic::div_mod::lemma_fundamental_div_mod_converse(y * width + x, width, y, x);
}

/// A share of 255 is less than 255.
proof fn lemma_share_below(part: int, whole: int)
    requires
        0 <= part < whole,
    ensures
        0 <= (part * 255) / whole < 255,
{
    assert(0 <= part * 255 < 255 * whole) by (nonlinear_arith)
        requires
            0 <= part < whole,
    ;
    vstd::arithmetic::div_mod::lemma_div_pos_is_pos(part * 255, whole);
    vstd::arithmetic::div_mod::lemma_div_by_multiple_is_strongly_ordered(
        part * 255,
        255 * whole,
        255,
        whole,
    );
    vstd::arithmetic::div_mod::lemma_div_multiples_vanish(255, whole);
}

/// The payload of the test pattern. Its two bytes per pixel must be within
/// what this machine can address.
pub fn test_pattern(width: u32, height: u32) -> (data: Vec<u8>)
    requires
        width * height * 2 <= usize::MAX,
    ensures
        data@ == spec_test_pattern(width, height),
        data@.len() == width * height * 2,
{
    let mut data: Vec<u8> = Vec::new();
    let mut y: u32 = 0;
    while y < height
        invariant
            y <= height,
            data@.len() == y * width * 2,
            forall|i: int|
                0 <= i < data@.len() ==> data@[i] == spec_test_pattern_byte(
                    width as int,
                    height as int,
                    i,
                ),
        decreases height - y,
    {
        let mut x: u32 = 0;
        while x < width
            invariant
                y < height,
                x <= width,
                data@.len() == (y * width + x) * 2,
                forall|i: int|
                    0 <= i < data@.len() ==> data@[i] == spec_test_pattern_byte(
                        width as int,
                        height as int,
                        i,
                    ),
            decreases width - x,
        {
            proof {
                lemma_share_below(x as int, width as int);
                lemma_share_below(y as int, height as int);
                lemma_pixel_place(width as int, x as int, y as int);
            }
            let across: u8 = ((x as u64 * 255) / (width as u64)) as u8;
            let down: u8 = ((y as u64 * 255) / (height as u64)) as u8;
            data.push(across);
            data.push(down);
            x += 1;
        }
        assert((y * width + width) * 2 == (y + 1) * width * 2) by (nonlinear_arith);
        y += 1;
    }
    assert(height * width * 2 == width * height * 2) by (nonlinear_arith);
    data
}

/// A send session under a fixed name. It owns the transport's handle from its
/// creation until it is closed.
#[derive(Debug)]
pub struct NdiSender<H> {
    sender: Option<H>,
    name: String,
}

impl<H> View for NdiSender<H> {
    type V = SenderView;

    closed spec fn view(&self) -> SenderView {
        SenderView { open: self.sender is Some, name: self.name@ }
    }
}

impl<H> NdiSender<H> {
    /// The handle that the session owns while it is open.
    pub closed spec fn spec_handle(&self) -> Option<H> {
        self.sender
    }

    /// Opens a send session under `name` over the handle that the transport
    /// gave. The runtime must run, and there must be a handle.
    pub fn new(name: &str, runtime: &Runtime, handle: Option<H>) -> (result: Result<
        NdiSender<H>,
        NdiError,
    >)
        ensures
            if !runtime.spec_is_started() {
                result == Err::<NdiSender<H>, NdiError>(NdiError::InitError(InitStage::Runtime))
            } else if handle is None {
                result == Err::<NdiSender<H>, NdiError>(
                    NdiError::InitError(InitStage::Handle(Component::Sender)),
                )
            } else {
                result matches Ok(sender) && sender@ == (SenderView { open: true, name: name@ })
                    && sender.spec_handle() == handle
            },
    {
        if !runtime.is_started() {
            return Err(NdiError::InitError(InitStage::Runtime));
        }
        match handle {
            None => Err(NdiError::InitError(InitStage::Handle(Component::Sender))),
            Some(h) => Ok(NdiSender { sender: Some(h), name: name.to_owned() }),
        }
    }

    pub fn is_open(&self) -> (open: bool)
        ensures
            open == self@.open,
    {
        self.sender.is_some()
    }

    /// The handle, for the host to send with. A closed session has none.
    pub fn handle(&self) -> (handle: Option<&H>)
        ensures
            handle is Some == self@.open,
            handle matches Some(h) ==> self.spec_handle() == Some(*h),
    {
        self.sender.as_ref()
    }

    /// The handle, for the host to change. The session stays as it is.
    pub fn handle_mut(&mut self) -> (handle: Option<&mut H>)
        ensures
            handle is Some == old(self)@.open,
            final(self)@ == old(self)@,
            handle matches Some(h) ==> old(self).spec_handle() == Some(*h),
            handle matches Some(h) ==> final(self).spec_handle() == Some(*final(h)),
    {
        self.sender.as_mut()
    }

    /// The name under which the session sends. A closed session still has it.
    pub fn get_name(&self) -> (name: String)
        ensures
            name@ == self@.name,
    {
        self.name.clone()
    }

    /// Checks a video payload against its geometry and makes the frame that
    /// the transport is to send. Nothing reaches the transport unless the
    /// format is known and the payload is exactly as long as an unpadded frame
    /// of this size.
    pub fn send_video_frame(
        &self,
        data: Vec<u8>,
        width: u32,
        height: u32,
        fps_n: u32,
        fps_d: u32,
        four_cc: u32,
    ) -> (result: Result<NdiVideoFrame, NdiError>)
        ensures
            match self@.send_video_frame(data@, width, height, fps_n, fps_d, four_cc) {
                Ok(view) => result matches Ok(frame) && frame@ == view,
                Err(e) => result == Err::<NdiVideoFrame, NdiError>(e),
            },
    {
        if self.sender.is_none() {
            return Err(NdiError::NotInitialized(Component::Sender));
        }
        let format = match PixelFormat::from_code(four_cc) {
            None => {
                return Err(NdiError::UnsupportedFormat(four_cc));
            },
            Some(f) => f,
        };
        let stride = format.stride(width);
        proof {
            lemma_frame_size_fits(format, stride, height);
        }
        NdiVideoFrame::with_stride(width, height, fps_n, fps_d, 0, four_cc, stride, data)
    }

    /// Makes a frame of the test pattern in packed 4:2:2 for the transport to
    /// send. On an open session the pattern's two bytes per pixel must be within
    /// what this machine can address; a closed session refuses whatever the
    /// size.
    pub fn send_test_pattern(&self, width: u32, height: u32, fps_n: u32, fps_d: u32) -> (result:
        Result<NdiVideoFrame, NdiError>)
        requires
            self@.open ==> width * height * 2 <= usize::MAX,
        ensures
            match self@.send_test_pattern(width, height, fps_n, fps_d) {
                Ok(view) => result matches Ok(frame) && frame@ == view,
                Err(e) => result == Err::<NdiVideoFrame, NdiError>(e),
            },
    {
        if self.sender.is_none() {
            return Err(NdiError::NotInitialized(Component::Sender));
        }
        let data = test_pattern(width, height);
        let stride = PixelFormat::UYVY.stride(width);
        proof {
            lemma_frame_size_fits(PixelFormat::UYVY, stride, height);
            assert(2 * width * height == width * height * 2) by (nonlinear_arith);
        }
        NdiVideoFrame::with_stride(width, height, fps_n, fps_d, 0, FOURCC_UYVY, stride, data)
    }

    /// Checks an audio payload against its geometry and makes the frame that
    /// the transport is to send. A payload that is one byte short or long is
    /// refused, never cut or filled.
    pub fn send_audio(&self, data: Vec<u8>, sample_rate: u32, channels: u32, samples: u32) -> (result:
        Result<NdiAudioFrame, NdiError>)
        ensures
            match self@.send_audio(data@, sample_rate, channels, samples) {
                Ok(view) => result matches Ok(frame) && frame@ == view,
                Err(e) => result == Err::<NdiAudioFrame, NdiError>(e),
            },
    {
        if self.sender.is_none() {
            return Err(NdiError::NotInitialized(Component::Sender));
        }
        NdiAudioFrame::new(sample_rate, channels, samples, 0, data)
    }

    /// Makes the metadata frame that the transport is to send. Any text goes.
    pub fn send_metadata(&self, text: String) -> (result: Result<NdiMetadataFrame, NdiError>)
        ensures
            match self@.send_metadata(text@) {
                Ok(view) => result matches Ok(frame) && frame@ == view,
                Err(e) => result == Err::<NdiMetadataFrame, NdiError>(e),
            },
    {
        if self.sender.is_none() {
            return Err(NdiError::NotInitialized(Component::Sender));
        }
        Ok(NdiMetadataFrame::new(0, text))
    }

    /// Closes the session and gives up the handle. Closing a closed session
    /// changes nothing.
    pub fn close(&mut self)
        ensures
            final(self)@ == old(self)@.close(),
            final(self).spec_handle() is None,
    {
        self.sender = None;
    }
}

} // verus!
