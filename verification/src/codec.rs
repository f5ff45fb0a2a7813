//! Pixel-format tables and buffer-size arithmetic shared by the sessions.

use vstd::prelude::*;
use vstd::string::*;
use crate::error::NdiError;
use crate::text::push_hex;
use crate::text::spec_hex;
use crate::text::str_equal;

verus! {

/// FourCC code of packed 4:2:2 YUV.
pub const FOURCC_UYVY: u32 = 0x59565955;

/// FourCC code of packed 4:2:2 YUV followed by an alpha plane.
pub const FOURCC_UYVA: u32 = 0x41565955;

/// FourCC code of semi-planar 4:2:2 YUV with 16 bits per component.
pub const FOURCC_P216: u32 = 0x36313250;

/// FourCC code of semi-planar 4:2:2 YUV with alpha, 16 bits per component.
pub const FOURCC_PA16: u32 = 0x36314150;

/// FourCC code of planar 4:2:0 YUV, chroma planes in V, U order.
pub const FOURCC_YV12: u32 = 0x32315659;

/// FourCC code of planar 4:2:0 YUV, chroma planes in U, V order.
pub const FOURCC_I420: u32 = 0x30323449;

/// FourCC code of semi-planar 4:2:0 YUV.
pub const FOURCC_NV12: u32 = 0x3231564E;

/// FourCC code of packed blue, green, red, alpha.
pub const FOURCC_BGRA: u32 = 0x41524742;

/// FourCC code of packed red, green, blue, alpha.
pub const FOURCC_RGBA: u32 = 0x41424752;

/// FourCC code of packed blue, green, red with an ignored fourth byte.
pub const FOURCC_BGRX: u32 = 0x58524742;

/// FourCC code of packed red, green, blue with an ignored fourth byte.
pub const FOURCC_RGBX: u32 = 0x58424752;

/// The pixel formats whose memory layout is known.
#[derive(Clone, Copy, Debug, PartialEq, Eq, Structural)]
pub enum PixelFormat {
    UYVY,
    UYVA,
    P216,
    PA16,
    YV12,
    I420,
    NV12,
    BGRA,
    RGBA,
    BGRX,
    RGBX,
}

impl PixelFormat {
    /// The FourCC code that identifies the format on the wire.
    pub open spec fn spec_code(self) -> u32 {
        match self {
            PixelFormat::UYVY => FOURCC_UYVY,
            PixelFormat::UYVA => FOURCC_UYVA,
            PixelFormat::P216 => FOURCC_P216,
            PixelFormat::PA16 => FOURCC_PA16,
            PixelFormat::YV12 => FOURCC_YV12,
            PixelFormat::I420 => FOURCC_I420,
            PixelFormat::NV12 => FOURCC_NV12,
            PixelFormat::BGRA => FOURCC_BGRA,
            PixelFormat::RGBA => FOURCC_RGBA,
            PixelFormat::BGRX => FOURCC_BGRX,
            PixelFormat::RGBX => FOURCC_RGBX,
        }
    }

    /// The format that a FourCC code identifies, if any.
    pub open spec fn spec_from_code(code: u32) -> Option<PixelFormat> {
        if code == FOURCC_UYVY {
            Some(PixelFormat::UYVY)
        } else if code == FOURCC_UYVA {
            Some(PixelFormat::UYVA)
        } else if code == FOURCC_P216 {
            Some(PixelFormat::P216)
        } else if code == FOURCC_PA16 {
            Some(PixelFormat::PA16)
        } else if code == FOURCC_YV12 {
            Some(PixelFormat::YV12)
        } else if code == FOURCC_I420 {
            Some(PixelFormat::I420)
        } else if code == FOURCC_NV12 {
            Some(PixelFormat::NV12)
        } else if code == FOURCC_BGRA {
            Some(PixelFormat::BGRA)
        } else if code == FOURCC_RGBA {
            Some(PixelFormat::RGBA)
        } else if code == FOURCC_BGRX {
            Some(PixelFormat::BGRX)
        } else if code == FOURCC_RGBX {
            Some(PixelFormat::RGBX)
        } else {
            None
        }
    }

    /// Bytes that one pixel takes in a row of the first plane.
    pub open spec fn spec_bytes_per_pixel(self) -> int {
        match self {
            PixelFormat::UYVY | PixelFormat::UYVA => 2,
            PixelFormat::P216 | PixelFormat::PA16 => 2,
            PixelFormat::YV12 | PixelFormat::I420 | PixelFormat::NV12 => 1,
            PixelFormat::BGRA | PixelFormat::RGBA | PixelFormat::BGRX | PixelFormat::RGBX => 4,
        }
    }

    /// Whether all of a frame lies in one plane of packed pixels.
    pub open spec fn spec_is_packed(self) -> bool {
        match self {
            PixelFormat::UYVY => true,
            PixelFormat::BGRA | PixelFormat::RGBA | PixelFormat::BGRX | PixelFormat::RGBX => true,
            _ => false,
        }
    }

    /// The smallest row size, in bytes, of a frame `width` pixels wide.
    pub open spec fn spec_stride(self, width: int) -> int {
        width * self.spec_bytes_per_pixel()
    }

    /// The bytes of the planes that the format puts behind the first one, for
    /// a frame of `height` rows whose first plane has rows `stride` bytes apart.
    /// A packed format has no such plane.
    pub open spec fn spec_rest_size(self, stride: int, height: int) -> int {
        match self {
            PixelFormat::UYVY => 0,
            PixelFormat::BGRA | PixelFormat::RGBA | PixelFormat::BGRX | PixelFormat::RGBX => 0,
            PixelFormat::UYVA => (stride / 2) * height,
            PixelFormat::P216 => stride * height,
            PixelFormat::PA16 => 2 * (stride * height),
            PixelFormat::YV12 | PixelFormat::I420 => 2 * ((stride / 2) * (height / 2)),
            PixelFormat::NV12 => stride * (height / 2),
        }
    }

    /// The bytes that a frame of `height` rows takes when the rows of its first
    /// plane are `stride` bytes apart: the first plane, then the planes that the
    /// format puts behind it.
    pub open spec fn spec_frame_size(self, stride: int, height: int) -> int {
        stride * height + self.spec_rest_size(stride, height)
    }

    /// The bytes of a frame without row padding.
    pub open spec fn spec_buffer_size(self, width: int, height: int) -> int {
        self.spec_frame_size(self.spec_stride(width), height)
    }

    pub fn code(self) -> (code: u32)
        ensures
            code == self.spec_code(),
            PixelFormat::spec_from_code(code) == Some(self),
    {
        match self {
            PixelFormat::UYVY => FOURCC_UYVY,
            PixelFormat::UYVA => FOURCC_UYVA,
            PixelFormat::P216 => FOURCC_P216,
            PixelFormat::PA16 => FOURCC_PA16,
            PixelFormat::YV12 => FOURCC_YV12,
            PixelFormat::I420 => FOURCC_I420,
            PixelFormat::NV12 => FOURCC_NV12,
            PixelFormat::BGRA => FOURCC_BGRA,
            PixelFormat::RGBA => FOURCC_RGBA,
            PixelFormat::BGRX => FOURCC_BGRX,
            PixelFormat::RGBX => FOURCC_RGBX,
        }
    }

    pub fn from_code(code: u32) -> (format: Option<PixelFormat>)
        ensures
            format == PixelFormat::spec_from_code(code),
            format matches Some(f) ==> f.spec_code() == code,
    {
        if code == FOURCC_UYVY {
            Some(PixelFormat::UYVY)
        } else if code == FOURCC_UYVA {
            Some(PixelFormat::UYVA)
        } else if code == FOURCC_P216 {
            Some(PixelFormat::P216)
        } else if code == FOURCC_PA16 {
            Some(PixelFormat::PA16)
        } else if code == FOURCC_YV12 {
            Some(PixelFormat::YV12)
        } else if code == FOURCC_I420 {
            Some(PixelFormat::I420)
        } else if code == FOURCC_NV12 {
            Some(PixelFormat::NV12)
        } else if code == FOURCC_BGRA {
            Some(PixelFormat::BGRA)
        } else if code == FOURCC_RGBA {
            Some(PixelFormat::RGBA)
        } else if code == FOURCC_BGRX {
            Some(PixelFormat::BGRX)
        } else if code == FOURCC_RGBX {
            Some(PixelFormat::RGBX)
        } else {
            None
        }
    }
}

impl PixelFormat {
    /// The four characters that name the format.
    pub open spec fn spec_name(self) -> Seq<char> {
        match self {
            PixelFormat::UYVY => "UYVY"@,
            PixelFormat::UYVA => "UYVA"@,
            PixelFormat::P216 => "P216"@,
            PixelFormat::PA16 => "PA16"@,
            PixelFormat::YV12 => "YV12"@,
            PixelFormat::I420 => "I420"@,
            PixelFormat::NV12 => "NV12"@,
            PixelFormat::BGRA => "BGRA"@,
            PixelFormat::RGBA => "RGBA"@,
            PixelFormat::BGRX => "BGRX"@,
            PixelFormat::RGBX => "RGBX"@,
        }
    }

    /// The format that a name stands for, if any.
    pub open spec fn spec_from_name(name: Seq<char>) -> Option<PixelFormat> {
        if name == "UYVY"@ {
            Some(PixelFormat::UYVY)
        } else if name == "UYVA"@ {
            Some(PixelFormat::UYVA)
        } else if name == "P216"@ {
            Some(PixelFormat::P216)
        } else if name == "PA16"@ {
            Some(PixelFormat::PA16)
        } else if name == "YV12"@ {
            Some(PixelFormat::YV12)
        } else if name == "I420"@ {
            Some(PixelFormat::I420)
        } else if name == "NV12"@ {
            Some(PixelFormat::NV12)
        } else if name == "BGRA"@ {
            Some(PixelFormat::BGRA)
        } else if name == "RGBA"@ {
            Some(PixelFormat::RGBA)
        } else if name == "BGRX"@ {
            Some(PixelFormat::BGRX)
        } else if name == "RGBX"@ {
            Some(PixelFormat::RGBX)
        } else {
            None
        }
    }

    pub fn name(self) -> (name: &'static str)
        ensures
            name@ == self.spec_name(),
    {
        match self {
            PixelFormat::UYVY => "UYVY",
            PixelFormat::UYVA => "UYVA",
            PixelFormat::P216 => "P216",
            PixelFormat::PA16 => "PA16",
            PixelFormat::YV12 => "YV12",
            PixelFormat::I420 => "I420",
            PixelFormat::NV12 => "NV12",
            PixelFormat::BGRA => "BGRA",
            PixelFormat::RGBA => "RGBA",
            PixelFormat::BGRX => "BGRX",
            PixelFormat::RGBX => "RGBX",
        }
    }

    pub fn from_name(name: &str) -> (format: Option<PixelFormat>)
        ensures
            format == PixelFormat::spec_from_name(name@),
            format matches Some(f) ==> f.spec_name() == name@,
            format is None ==> forall|f: PixelFormat| f.spec_name() != name@,
    {
        if str_equal(name, "UYVY") {
            Some(PixelFormat::UYVY)
        } else if str_equal(name, "UYVA") {
            Some(PixelFormat::UYVA)
        } else if str_equal(name, "P216") {
            Some(PixelFormat::P216)
        } else if str_equal(name, "PA16") {
            Some(PixelFormat::PA16)
        } else if str_equal(name, "YV12") {
            Some(PixelFormat::YV12)
        } else if str_equal(name, "I420") {
            Some(PixelFormat::I420)
        } else if str_equal(name, "NV12") {
            Some(PixelFormat::NV12)
        } else if str_equal(name, "BGRA") {
            Some(PixelFormat::BGRA)
        } else if str_equal(name, "RGBA") {
            Some(PixelFormat::RGBA)
        } else if str_equal(name, "BGRX") {
            Some(PixelFormat::BGRX)
        } else if str_equal(name, "RGBX") {
            Some(PixelFormat::RGBX)
        } else {
            None
        }
    }

    pub fn bytes_per_pixel(self) -> (bytes: u32)
        ensures
            bytes == self.spec_bytes_per_pixel(),
            1 <= bytes <= 4,
    {
        match self {
            PixelFormat::UYVY | PixelFormat::UYVA => 2,
            PixelFormat::P216 | PixelFormat::PA16 => 2,
            PixelFormat::YV12 | PixelFormat::I420 | PixelFormat::NV12 => 1,
            PixelFormat::BGRA | PixelFormat::RGBA | PixelFormat::BGRX | PixelFormat::RGBX => 4,
        }
    }

    pub fn is_packed(self) -> (packed: bool)
        ensures
            packed == self.spec_is_packed(),
    {
        match self {
            PixelFormat::UYVY => true,
            PixelFormat::BGRA | PixelFormat::RGBA | PixelFormat::BGRX | PixelFormat::RGBX => true,
            _ => false,
        }
    }

    /// The smallest row size of a frame `width` pixels wide. A frame may have
    /// longer rows, never shorter ones.
    pub fn stride(self, width: u32) -> (stride: u64)
        ensures
            stride == self.spec_stride(width as int),
            stride == width * self.spec_bytes_per_pixel(),
    {
        let bytes: u64 = self.bytes_per_pixel() as u64;
        assert(width * bytes <= 0xFFFF_FFFF * 4) by (nonlinear_arith)
            requires
                width <= 0xFFFF_FFFF,
                bytes <= 4,
        ;
        width as u64 * bytes
    }

    /// The bytes of a frame of `height` rows that lie `stride` bytes apart.
    pub fn frame_size(self, stride: u64, height: u32) -> (size: u128)
        ensures
            size == self.spec_frame_size(stride as int, height as int),
    {
        let rows: u128 = height as u128;
        let row: u128 = stride as u128;
        let half_row: u128 = row / 2;
        let half_rows: u128 = rows / 2;
        assert(row * rows <= 0xFFFF_FFFF_FFFF_FFFF * 0xFFFF_FFFF) by (nonlinear_arith)
            requires
                row <= 0xFFFF_FFFF_FFFF_FFFF,
                rows <= 0xFFFF_FFFF,
        ;
        assert(half_row * rows <= 0xFFFF_FFFF_FFFF_FFFF * 0xFFFF_FFFF) by (nonlinear_arith)
            requires
                half_row <= 0xFFFF_FFFF_FFFF_FFFF,
                rows <= 0xFFFF_FFFF,
        ;
        assert(half_row * half_rows <= 0xFFFF_FFFF_FFFF_FFFF * 0xFFFF_FFFF) by (nonlinear_arith)
            requires
                half_row <= 0xFFFF_FFFF_FFFF_FFFF,
                half_rows <= 0xFFFF_FFFF,
        ;
        assert(row * half_rows <= 0xFFFF_FFFF_FFFF_FFFF * 0xFFFF_FFFF) by (nonlinear_arith)
            requires
                row <= 0xFFFF_FFFF_FFFF_FFFF,
                half_rows <= 0xFFFF_FFFF,
        ;
        let plane: u128 = row * rows;
        let rest: u128 = match self {
            PixelFormat::UYVY => 0,
            PixelFormat::BGRA | PixelFormat::RGBA | PixelFormat::BGRX | PixelFormat::RGBX => 0,
            PixelFormat::UYVA => half_row * rows,
            PixelFormat::P216 => plane,
            PixelFormat::PA16 => 2 * plane,
            PixelFormat::YV12 | PixelFormat::I420 => 2 * (half_row * half_rows),
            PixelFormat::NV12 => row * half_rows,
        };
        plane + rest
    }

    /// The bytes of a frame whose rows have no padding: the stride times the
    /// height, and what the planes behind the first take.
    pub fn buffer_size(self, width: u32, height: u32) -> (size: u128)
        ensures
            size == self.spec_buffer_size(width as int, height as int),
            size == self.spec_stride(width as int) * height + self.spec_rest_size(
                self.spec_stride(width as int),
                height as int,
            ),
            self.spec_is_packed() ==> size == self.spec_stride(width as int) * height,
    {
        self.frame_size(self.stride(width), height)
    }
}

/// The name of a FourCC code: the format's four characters, or for a code that
/// names no known format the word `Unknown` with the code in eight hexadecimal
/// digits.
pub open spec fn spec_format_name(code: u32) -> Seq<char> {
    match PixelFormat::spec_from_code(code) {
        Some(f) => f.spec_name(),
        None => "Unknown (0x"@ + spec_hex(code as nat, 8) + ")"@,
    }
}

/// The bytes of `channels` channels of `samples` samples of 32 bits each.
pub open spec fn spec_audio_buffer_size(channels: int, samples: int) -> int {
    channels * samples * 4
}

/// Appends the name of a FourCC code to `out`.
pub fn push_format_name(out: &mut String, code: u32)
    ensures
        final(out)@ == old(out)@ + spec_format_name(code),
{
    match PixelFormat::from_code(code) {
        Some(f) => {
            out.append(f.name());
        },
        None => {
            out.append("Unknown (0x");
            push_hex(out, code, 8);
            out.append(")");
        },
    }
}

/// The name of a FourCC code. Naming is advisory: it never fails.
pub fn format_name(code: u32) -> (name: String)
    ensures
        name@ == spec_format_name(code),
{
    let mut name = String::new();
    push_format_name(&mut name, code);
    name
}

/// Bytes per pixel in a row of the first plane, for a FourCC code.
pub fn bytes_per_pixel(four_cc: u32) -> (result: Result<u32, NdiError>)
    ensures
        result == match PixelFormat::spec_from_code(four_cc) {
            Some(f) => Ok::<u32, NdiError>(f.spec_bytes_per_pixel() as u32),
            None => Err::<u32, NdiError>(NdiError::UnsupportedFormat(four_cc)),
        },
{
    match PixelFormat::from_code(four_cc) {
        Some(f) => Ok(f.bytes_per_pixel()),
        None => Err(NdiError::UnsupportedFormat(four_cc)),
    }
}

/// The smallest row size for a FourCC code. An unknown code is refused.
pub fn stride(width: u32, four_cc: u32) -> (result: Result<u64, NdiError>)
    ensures
        result == match PixelFormat::spec_from_code(four_cc) {
            Some(f) => Ok::<u64, NdiError>(f.spec_stride(width as int) as u64),
            None => Err::<u64, NdiError>(NdiError::UnsupportedFormat(four_cc)),
        },
        result matches Ok(s) ==> PixelFormat::spec_from_code(four_cc) matches Some(f) && s == width
            * f.spec_bytes_per_pixel(),
{
    match PixelFormat::from_code(four_cc) {
        Some(f) => Ok(f.stride(width)),
        None => Err(NdiError::UnsupportedFormat(four_cc)),
    }
}

/// The bytes of an unpadded frame for a FourCC code. An unknown code is
/// refused: no size is ever guessed.
pub fn video_buffer_size(width: u32, height: u32, four_cc: u32) -> (result: Result<u128, NdiError>)
    ensures
        result == match PixelFormat::spec_from_code(four_cc) {
            Some(f) => Ok::<u128, NdiError>(f.spec_buffer_size(width as int, height as int) as u128),
            None => Err::<u128, NdiError>(NdiError::UnsupportedFormat(four_cc)),
        },
        result matches Ok(n) ==> PixelFormat::spec_from_code(four_cc) matches Some(f) && n
            == f.spec_buffer_size(width as int, height as int) && (f.spec_is_packed() ==> n
            == f.spec_stride(width as int) * height),
{
    match PixelFormat::from_code(four_cc) {
        Some(f) => Ok(f.buffer_size(width, height)),
        None => Err(NdiError::UnsupportedFormat(four_cc)),
    }
}

/// The bytes of an audio buffer: 32-bit samples, `samples` for each of
/// `channels` channels.
pub fn audio_buffer_size(channels: u32, samples: u32) -> (size: u128)
    ensures
        size == channels * samples * 4,
        size == spec_audio_buffer_size(channels as int, samples as int),
{
    assert(channels * samples <= 0xFFFF_FFFF * 0xFFFF_FFFF) by (nonlinear_arith)
        requires
            channels <= 0xFFFF_FFFF,
            samples <= 0xFFFF_FFFF,
    ;
    channels as u128 * samples as u128 * 4
}

/// A frame's size is never negative and fits the 128 bits in which sizes are
/// held, whatever the stride and the height; and the planes behind the first
/// never take a negative number of bytes.
pub proof fn lemma_frame_size_fits(format: PixelFormat, stride: u64, height: u32)
    ensures
        0 <= format.spec_frame_size(stride as int, height as int) <= u128::MAX,
        0 <= format.spec_rest_size(stride as int, height as int),
        format.spec_frame_size(stride as int, height as int) >= stride * height,
{
    let row = stride as int;
    let rows = height as int;
    assert(0 <= row * rows <= 0xFFFF_FFFF_FFFF_FFFF * 0xFFFF_FFFF) by (nonlinear_arith)
        requires
            0 <= row <= 0xFFFF_FFFF_FFFF_FFFF,
            0 <= rows <= 0xFFFF_FFFF,
    ;
    assert(0 <= (row / 2) * rows <= 0xFFFF_FFFF_FFFF_FFFF * 0xFFFF_FFFF) by (nonlinear_arith)
        requires
            0 <= row / 2 <= 0xFFFF_FFFF_FFFF_FFFF,
            0 <= rows <= 0xFFFF_FFFF,
    ;
    assert(0 <= (row / 2) * (rows / 2) <= 0xFFFF_FFFF_FFFF_FFFF * 0xFFFF_FFFF)
        by (nonlinear_arith)
        requires
            0 <= row / 2 <= 0xFFFF_FFFF_FFFF_FFFF,
            0 <= rows / 2 <= 0xFFFF_FFFF,
    ;
    assert(0 <= row * (rows / 2) <= 0xFFFF_FFFF_FFFF_FFFF * 0xFFFF_FFFF) by (nonlinear_arith)
        requires
            0 <= row <= 0xFFFF_FFFF_FFFF_FFFF,
            0 <= rows / 2 <= 0xFFFF_FFFF,
    ;
}

/// How the payload of a frame lies in memory: the distance between the rows of
/// its first plane, and its length in bytes.
#[derive(Clone, Copy, Debug, PartialEq, Eq, Structural)]
pub struct VideoLayout {
    pub stride: u64,
    pub size: u128,
}

/// The layout of a received frame, from what the transport says of it.
///
/// The FourCC code must name a known format. Where the transport gives the
/// distance between rows, it must not be less than the width needs, and the
/// size follows from the format's planes. Where it gives no distance but a
/// size, that size stands and the rows are taken to have no padding. Where it
/// gives neither, two bytes per pixel are assumed, which is right for packed
/// 4:2:2 alone: for every other format the frame is refused.
pub open spec fn spec_received_layout(
    width: u32,
    height: u32,
    four_cc: u32,
    line_stride: Option<u32>,
    data_size: Option<u32>,
) -> Result<VideoLayout, NdiError> {
    match PixelFormat::spec_from_code(four_cc) {
        None => Err(NdiError::UnsupportedFormat(four_cc)),
        Some(f) => match line_stride {
            Some(s) => if s >= f.spec_stride(width as int) {
                Ok(
                    VideoLayout {
                        stride: s as u64,
                        size: f.spec_frame_size(s as int, height as int) as u128,
                    },
                )
            } else {
                Err(
                    NdiError::BufferSizeMismatch {
                        expected: f.spec_stride(width as int) as u128,
                        actual: s as u128,
                    },
                )
            },
            None => match data_size {
                Some(n) => Ok(
                    VideoLayout { stride: f.spec_stride(width as int) as u64, size: n as u128 },
                ),
                None => if f == PixelFormat::UYVY {
                    Ok(
                        VideoLayout {
                            stride: (2 * width) as u64,
                            size: (width * height * 2) as u128,
                        },
                    )
                } else {
                    Err(NdiError::UnsupportedFormat(four_cc))
                },
            },
        },
    }
}

/// Computes the layout of a received frame.
pub fn received_layout(
    width: u32,
    height: u32,
    four_cc: u32,
    line_stride: Option<u32>,
    data_size: Option<u32>,
) -> (result: Result<VideoLayout, NdiError>)
    ensures
        result == spec_received_layout(width, height, four_cc, line_stride, data_size),
        result matches Ok(layout) ==> PixelFormat::spec_from_code(four_cc) matches Some(f)
            && layout.stride >= f.spec_stride(width as int),
{
    let format = match PixelFormat::from_code(four_cc) {
        None => {
            return Err(NdiError::UnsupportedFormat(four_cc));
        },
        Some(f) => f,
    };
    let least = format.stride(width);
    match line_stride {
        Some(s) => {
            if s as u64 >= least {
                Ok(VideoLayout { stride: s as u64, size: format.frame_size(s as u64, height) })
            } else {
                Err(NdiError::BufferSizeMismatch { expected: least as u128, actual: s as u128 })
            }
        },
        None => match data_size {
            Some(n) => Ok(VideoLayout { stride: least, size: n as u128 }),
            None => {
                if format == PixelFormat::UYVY {
                    assert(width * 2 * height == width * height * 2) by (nonlinear_arith);
                    Ok(VideoLayout { stride: least, size: format.frame_size(least, height) })
                } else {
                    Err(NdiError::UnsupportedFormat(four_cc))
                }
            },
        },
    }
}

} // verus!
