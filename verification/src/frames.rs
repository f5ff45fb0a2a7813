//! The units that a capture yields and a send takes: video, audio and
//! metadata frames, each owning its payload.

use vstd::prelude::*;
use vstd::slice::slice_to_vec;
use crate::codec::audio_buffer_size;
use crate::codec::format_name;
use crate::codec::spec_audio_buffer_size;
use crate::codec::spec_format_name;
use crate::codec::PixelFormat;
use crate::error::NdiError;

verus! {

/// The kind of unit that one capture returned.
#[derive(Clone, Copy, Debug, PartialEq, Eq, Structural)]
pub enum FrameType {
    /// Nothing arrived before the time ran out.
    Nothing,
    Video,
    Audio,
    Metadata,
    /// The capture failed.
    Error,
}

impl FrameType {
    /// The kind that a frame-type number of the transport stands for: 0 to 3
    /// are nothing, video, audio and metadata; every other number, the
    /// transport's own error and status numbers among them, is an error.
    pub open spec fn spec_from_code(code: u32) -> FrameType {
        if code == 0 {
            FrameType::Nothing
        } else if code == 1 {
            FrameType::Video
        } else if code == 2 {
            FrameType::Audio
        } else if code == 3 {
            FrameType::Metadata
        } else {
            FrameType::Error
        }
    }

    /// The number of a kind.
    pub open spec fn spec_code(self) -> u32 {
        match self {
            FrameType::Nothing => 0,
            FrameType::Video => 1,
            FrameType::Audio => 2,
            FrameType::Metadata => 3,
            FrameType::Error => 4,
        }
    }

    pub fn from_code(code: u32) -> (kind: FrameType)
        ensures
            kind == FrameType::spec_from_code(code),
    {
        if code == 0 {
            FrameType::Nothing
        } else if code == 1 {
            FrameType::Video
        } else if code == 2 {
            FrameType::Audio
        } else if code == 3 {
            FrameType::Metadata
        } else {
            FrameType::Error
        }
    }

    pub fn code(self) -> (code: u32)
        ensures
            code == self.spec_code(),
            FrameType::spec_from_code(code) == self,
    {
        match self {
            FrameType::Nothing => 0,
            FrameType::Video => 1,
            FrameType::Audio => 2,
            FrameType::Metadata => 3,
            FrameType::Error => 4,
        }
    }
}

/// What a video frame is, as a value.
pub struct VideoFrameView {
    pub width: u32,
    pub height: u32,
    pub frame_rate_n: u32,
    pub frame_rate_d: u32,
    pub timecode: i64,
    pub format: PixelFormat,
    pub stride: u64,
    pub data: Seq<u8>,
}

impl VideoFrameView {
    /// No row is shorter than the format needs for the width.
    pub open spec fn well_formed(self) -> bool {
        self.stride >= self.format.spec_stride(self.width as int)
    }
}

/// One video frame with its geometry and an owned payload.
#[derive(Debug, PartialEq, Eq)]
pub struct NdiVideoFrame {
    width: u32,
    height: u32,
    frame_rate_n: u32,
    frame_rate_d: u32,
    timecode: i64,
    format: PixelFormat,
    stride: u64,
    data: Vec<u8>,
}

impl View for NdiVideoFrame {
    type V = VideoFrameView;

    closed spec fn view(&self) -> VideoFrameView {
        VideoFrameView {
            width: self.width,
            height: self.height,
            frame_rate_n: self.frame_rate_n,
            frame_rate_d: self.frame_rate_d,
            timecode: self.timecode,
            format: self.format,
            stride: self.stride,
            data: self.data@,
        }
    }
}

impl NdiVideoFrame {
    #[verifier::type_invariant]
    spec fn inv(self) -> bool {
        self.stride >= self.format.spec_stride(self.width as int)
    }

    /// The frame that `new` builds when it accepts its arguments.
    pub open spec fn spec_new(
        width: u32,
        height: u32,
        frame_rate_n: u32,
        frame_rate_d: u32,
        timecode: i64,
        data: Seq<u8>,
        format: PixelFormat,
    ) -> VideoFrameView {
        VideoFrameView {
            width,
            height,
            frame_rate_n,
            frame_rate_d,
            timecode,
            format,
            stride: format.spec_stride(width as int) as u64,
            data,
        }
    }

    /// A frame whose payload has a declared size. The rows are taken to have no
    /// padding. The FourCC code must name a known format, and the payload must
    /// be exactly as long as declared.
    pub fn new(
        width: u32,
        height: u32,
        frame_rate_n: u32,
        frame_rate_d: u32,
        timecode: i64,
        data_size: usize,
        data: Vec<u8>,
        four_cc: u32,
    ) -> (result: Result<NdiVideoFrame, NdiError>)
        ensures
            match PixelFormat::spec_from_code(four_cc) {
                None => result == Err::<NdiVideoFrame, NdiError>(
                    NdiError::UnsupportedFormat(four_cc),
                ),
                Some(f) => if data@.len() == data_size {
                    result matches Ok(frame) && frame@ == NdiVideoFrame::spec_new(
                        width,
                        height,
                        frame_rate_n,
                        frame_rate_d,
                        timecode,
                        data@,
                        f,
                    )
                } else {
                    result == Err::<NdiVideoFrame, NdiError>(
                        NdiError::BufferSizeMismatch {
                            expected: data_size as u128,
                            actual: data@.len() as u128,
                        },
                    )
                },
            },
    {
        match PixelFormat::from_code(four_cc) {
            None => Err(NdiError::UnsupportedFormat(four_cc)),
            Some(format) => {
                if data.len() != data_size {
                    Err(
                        NdiError::BufferSizeMismatch {
                            expected: data_size as u128,
                            actual: data.len() as u128,
                        },
                    )
                } else {
                    Ok(
                        NdiVideoFrame {
                            width,
                            height,
                            frame_rate_n,
                            frame_rate_d,
                            timecode,
                            format,
                            stride: format.stride(width),
                            data,
                        },
                    )
                }
            },
        }
    }

    /// A frame whose rows lie `stride` bytes apart. The FourCC code must name a
    /// known format, the rows must be long enough for the width, and the
    /// payload must be exactly what the format's layout takes.
    pub fn with_stride(
        width: u32,
        height: u32,
        frame_rate_n: u32,
        frame_rate_d: u32,
        timecode: i64,
        four_cc: u32,
        stride: u64,
        data: Vec<u8>,
    ) -> (result: Result<NdiVideoFrame, NdiError>)
        ensures
            match PixelFormat::spec_from_code(four_cc) {
                None => result == Err::<NdiVideoFrame, NdiError>(
                    NdiError::UnsupportedFormat(four_cc),
                ),
                Some(f) => if stride < f.spec_stride(width as int) {
                    result == Err::<NdiVideoFrame, NdiError>(
                        NdiError::BufferSizeMismatch {
                            expected: f.spec_stride(width as int) as u128,
                            actual: stride as u128,
                        },
                    )
                } else if data@.len() != f.spec_frame_size(stride as int, height as int) {
                    result == Err::<NdiVideoFrame, NdiError>(
                        NdiError::BufferSizeMismatch {
                            expected: f.spec_frame_size(stride as int, height as int) as u128,
                            actual: data@.len() as u128,
                        },
                    )
                } else {
                    result matches Ok(frame) && frame@ == (VideoFrameView {
                        width,
                        height,
                        frame_rate_n,
                        frame_rate_d,
                        timecode,
                        format: f,
                        stride,
                        data: data@,
                    })
                },
            },
    {
        match PixelFormat::from_code(four_cc) {
            None => Err(NdiError::UnsupportedFormat(four_cc)),
            Some(format) => {
                let least = format.stride(width);
                if stride < least {
                    return Err(
                        NdiError::BufferSizeMismatch {
                            expected: least as u128,
                            actual: stride as u128,
                        },
                    );
                }
                let expected = format.frame_size(stride, height);
                if data.len() as u128 != expected {
                    return Err(
                        NdiError::BufferSizeMismatch { expected, actual: data.len() as u128 },
                    );
                }
                Ok(
                    NdiVideoFrame {
                        width,
                        height,
                        frame_rate_n,
                        frame_rate_d,
                        timecode,
                        format,
                        stride,
                        data,
                    },
                )
            },
        }
    }

    pub fn width(&self) -> (width: u32)
        ensures
            width == self@.width,
    {
        self.width
    }

    pub fn height(&self) -> (height: u32)
        ensures
            height == self@.height,
    {
        self.height
    }

    pub fn frame_rate_n(&self) -> (n: u32)
        ensures
            n == self@.frame_rate_n,
    {
        self.frame_rate_n
    }

    pub fn frame_rate_d(&self) -> (d: u32)
        ensures
            d == self@.frame_rate_d,
    {
        self.frame_rate_d
    }

    pub fn timecode(&self) -> (timecode: i64)
        ensures
            timecode == self@.timecode,
    {
        self.timecode
    }

    pub fn pixel_format(&self) -> (format: PixelFormat)
        ensures
            format == self@.format,
    {
        self.format
    }

    pub fn four_cc(&self) -> (code: u32)
        ensures
            code == self@.format.spec_code(),
    {
        self.format.code()
    }

    /// The distance between rows, never less than the width needs.
    pub fn stride(&self) -> (stride: u64)
        ensures
            stride == self@.stride,
            self@.well_formed(),
    {
        proof {
            use_type_invariant(self);
        }
        self.stride
    }

    /// The length of the payload in bytes.
    pub fn data_size(&self) -> (size: usize)
        ensures
            size == self@.data.len(),
    {
        self.data.len()
    }

    /// The payload.
    pub fn data(&self) -> (data: &[u8])
        ensures
            data@ == self@.data,
    {
        self.data.as_slice()
    }

    /// A copy of the payload.
    pub fn get_data(&self) -> (data: Vec<u8>)
        ensures
            data@ == self@.data,
    {
        slice_to_vec(self.data.as_slice())
    }

    /// Gives up the frame for its payload.
    pub fn into_data(self) -> (data: Vec<u8>)
        ensures
            data@ == self@.data,
    {
        self.data
    }

    /// The name of the frame's pixel format.
    pub fn get_four_cc_name(&self) -> (name: String)
        ensures
            name@ == self@.format.spec_name(),
            name@ == spec_format_name(self@.format.spec_code()),
    {
        format_name(self.format.code())
    }
}

/// What an audio frame is, as a value.
pub struct AudioFrameView {
    pub sample_rate: u32,
    pub num_channels: u32,
    pub num_samples: u32,
    pub timecode: i64,
    pub data: Seq<u8>,
}

impl AudioFrameView {
    /// The payload holds one 32-bit sample per channel and sample.
    pub open spec fn well_formed(self) -> bool {
        self.data.len() == spec_audio_buffer_size(
            self.num_channels as int,
            self.num_samples as int,
        )
    }
}

/// One audio frame: 32-bit floating samples with their geometry.
#[derive(Debug, PartialEq, Eq)]
pub struct NdiAudioFrame {
    sample_rate: u32,
    num_channels: u32,
    num_samples: u32,
    timecode: i64,
    data: Vec<u8>,
}

impl View for NdiAudioFrame {
    type V = AudioFrameView;

    closed spec fn view(&self) -> AudioFrameView {
        AudioFrameView {
            sample_rate: self.sample_rate,
            num_channels: self.num_channels,
            num_samples: self.num_samples,
            timecode: self.timecode,
            data: self.data@,
        }
    }
}

impl NdiAudioFrame {
    #[verifier::type_invariant]
    spec fn inv(self) -> bool {
        self.data@.len() == spec_audio_buffer_size(
            self.num_channels as int,
            self.num_samples as int,
        )
    }

    /// A frame over `data`, which must hold exactly four bytes per channel and
    /// sample. A payload of any other length is refused, never cut or filled.
    pub fn new(
        sample_rate: u32,
        num_channels: u32,
        num_samples: u32,
        timecode: i64,
        data: Vec<u8>,
    ) -> (result: Result<NdiAudioFrame, NdiError>)
        ensures
            if data@.len() == spec_audio_buffer_size(num_channels as int, num_samples as int) {
                result matches Ok(frame) && frame@ == (AudioFrameView {
                    sample_rate,
                    num_channels,
                    num_samples,
                    timecode,
                    data: data@,
                })
            } else {
                result == Err::<NdiAudioFrame, NdiError>(
                    NdiError::BufferSizeMismatch {
                        expected: spec_audio_buffer_size(
                            num_channels as int,
                            num_samples as int,
                        ) as u128,
                        actual: data@.len() as u128,
                    },
                )
            },
    {
        let expected = audio_buffer_size(num_channels, num_samples);
        if data.len() as u128 != expected {
            return Err(NdiError::BufferSizeMismatch { expected, actual: data.len() as u128 });
        }
        Ok(
            NdiAudioFrame {
                sample_rate,
                num_channels,
                num_samples,
                timecode,
                data,
            },
        )
    }

    pub fn sample_rate(&self) -> (rate: u32)
        ensures
            rate == self@.sample_rate,
    {
        self.sample_rate
    }

    pub fn num_channels(&self) -> (channels: u32)
        ensures
            channels == self@.num_channels,
    {
        self.num_channels
    }

    pub fn num_samples(&self) -> (samples: u32)
        ensures
            samples == self@.num_samples,
    {
        self.num_samples
    }

    pub fn timecode(&self) -> (timecode: i64)
        ensures
            timecode == self@.timecode,
    {
        self.timecode
    }

    /// The length of the payload in bytes: four for each channel and sample.
    pub fn data_size(&self) -> (size: usize)
        ensures
            size == self@.data.len(),
            self@.well_formed(),
    {
        proof {
            use_type_invariant(self);
        }
        self.data.len()
    }

    /// The payload.
    pub fn data(&self) -> (data: &[u8])
        ensures
            data@ == self@.data,
    {
        self.data.as_slice()
    }

    /// A copy of the payload.
    pub fn get_data(&self) -> (data: Vec<u8>)
        ensures
            data@ == self@.data,
    {
        slice_to_vec(self.data.as_slice())
    }

    /// Gives up the frame for its payload.
    pub fn into_data(self) -> (data: Vec<u8>)
        ensures
            data@ == self@.data,
    {
        self.data
    }
}

/// What a metadata frame is, as a value.
pub struct MetadataFrameView {
    pub timecode: i64,
    pub data: Seq<char>,
}

/// One metadata frame: a text with its timecode.
#[derive(Debug, PartialEq, Eq)]
pub struct NdiMetadataFrame {
    pub timecode: i64,
    pub data: String,
}

impl View for NdiMetadataFrame {
    type V = MetadataFrameView;

    open spec fn view(&self) -> MetadataFrameView {
        MetadataFrameView { timecode: self.timecode, data: self.data@ }
    }
}

impl NdiMetadataFrame {
    pub fn new(timecode: i64, data: String) -> (frame: NdiMetadataFrame)
        ensures
            frame@ == (MetadataFrameView { timecode, data: data@ }),
    {
        NdiMetadataFrame { timecode, data }
    }
}

/// What one capture returned, as a value.
pub enum CapturedUnitView {
    Nothing,
    Video(VideoFrameView),
    Audio(AudioFrameView),
    Metadata(MetadataFrameView),
    Error,
}

impl CapturedUnitView {
    pub open spec fn frame_type(self) -> FrameType {
        match self {
            CapturedUnitView::Nothing => FrameType::Nothing,
            CapturedUnitView::Video(_) => FrameType::Video,
            CapturedUnitView::Audio(_) => FrameType::Audio,
            CapturedUnitView::Metadata(_) => FrameType::Metadata,
            CapturedUnitView::Error => FrameType::Error,
        }
    }
}

/// What one capture returned: a frame of one kind, nothing because the time
/// ran out, or a failure. The last two carry no payload and are told apart, so
/// that a caller can wait again after the one and reconnect after the other.
#[derive(Debug, PartialEq, Eq)]
pub enum CapturedUnit {
    Nothing,
    Video(NdiVideoFrame),
    Audio(NdiAudioFrame),
    Metadata(NdiMetadataFrame),
    Error,
}

impl View for CapturedUnit {
    type V = CapturedUnitView;

    open spec fn view(&self) -> CapturedUnitView {
        match self {
            CapturedUnit::Nothing => CapturedUnitView::Nothing,
            CapturedUnit::Video(frame) => CapturedUnitView::Video(frame@),
            CapturedUnit::Audio(frame) => CapturedUnitView::Audio(frame@),
            CapturedUnit::Metadata(frame) => CapturedUnitView::Metadata(frame@),
            CapturedUnit::Error => CapturedUnitView::Error,
        }
    }
}

impl CapturedUnit {
    pub fn frame_type(&self) -> (kind: FrameType)
        ensures
            kind == self@.frame_type(),
    {
        match self {
            CapturedUnit::Nothing => FrameType::Nothing,
            CapturedUnit::Video(_) => FrameType::Video,
            CapturedUnit::Audio(_) => FrameType::Audio,
            CapturedUnit::Metadata(_) => FrameType::Metadata,
            CapturedUnit::Error => FrameType::Error,
        }
    }
}

} // verus!
