use ndirust::codec::audio_buffer_size;
use ndirust::codec::bytes_per_pixel;
use ndirust::codec::format_name;
use ndirust::codec::received_layout;
use ndirust::codec::stride;
use ndirust::codec::video_buffer_size;
use ndirust::codec::PixelFormat;
use ndirust::codec::VideoLayout;
use ndirust::codec::FOURCC_BGRA;
use ndirust::codec::FOURCC_BGRX;
use ndirust::codec::FOURCC_I420;
use ndirust::codec::FOURCC_NV12;
use ndirust::codec::FOURCC_P216;
use ndirust::codec::FOURCC_PA16;
use ndirust::codec::FOURCC_RGBA;
use ndirust::codec::FOURCC_RGBX;
use ndirust::codec::FOURCC_UYVA;
use ndirust::codec::FOURCC_UYVY;
use ndirust::codec::FOURCC_YV12;
use ndirust::error::NdiError;

fn all_formats() -> Vec<PixelFormat> {
    vec![
        PixelFormat::UYVY,
        PixelFormat::UYVA,
        PixelFormat::P216,
        PixelFormat::PA16,
        PixelFormat::YV12,
        PixelFormat::I420,
        PixelFormat::NV12,
        PixelFormat::BGRA,
        PixelFormat::RGBA,
        PixelFormat::BGRX,
        PixelFormat::RGBX,
    ]
}

#[test]
fn uyvy_four_by_two_takes_sixteen_bytes() {
    assert_eq!(video_buffer_size(4, 2, FOURCC_UYVY), Ok(16));
    assert_eq!(stride(4, FOURCC_UYVY), Ok(8));
    assert_eq!(PixelFormat::from_name("UYVY"), Some(PixelFormat::UYVY));
    assert_eq!(PixelFormat::UYVY.buffer_size(4, 2), 16);
}

#[test]
fn fourcc_codes_have_their_known_values() {
    assert_eq!(FOURCC_UYVY, 0x59565955);
    assert_eq!(FOURCC_UYVA, 0x41565955);
    assert_eq!(FOURCC_P216, 0x36313250);
    assert_eq!(FOURCC_PA16, 0x36314150);
    assert_eq!(FOURCC_YV12, 0x32315659);
    assert_eq!(FOURCC_I420, 0x30323449);
    assert_eq!(FOURCC_NV12, 0x3231564E);
    assert_eq!(FOURCC_BGRA, 0x41524742);
    assert_eq!(FOURCC_RGBA, 0x41424752);
    assert_eq!(FOURCC_BGRX, 0x58524742);
    assert_eq!(FOURCC_RGBX, 0x58424752);
}

#[test]
fn fourcc_codes_spell_their_names() {
    for format in all_formats() {
        let name = format.name();
        let bytes = name.as_bytes();
        assert_eq!(bytes.len(), 4);
        let spelled = u32::from_le_bytes([bytes[0], bytes[1], bytes[2], bytes[3]]);
        assert_eq!(format.code(), spelled, "{}", name);
    }
}

#[test]
fn codes_and_names_round_trip() {
    for format in all_formats() {
        assert_eq!(PixelFormat::from_code(format.code()), Some(format));
        assert_eq!(PixelFormat::from_name(format.name()), Some(format));
        assert_eq!(format_name(format.code()), format.name());
    }
}

#[test]
fn unknown_codes_and_names_name_no_format() {
    assert_eq!(PixelFormat::from_code(0), None);
    assert_eq!(PixelFormat::from_code(0xFFFF_FFFF), None);
    assert_eq!(PixelFormat::from_code(0x41565559), None);
    assert_eq!(PixelFormat::from_name("uyvy"), None);
    assert_eq!(PixelFormat::from_name("UYV"), None);
    assert_eq!(PixelFormat::from_name("UYVYY"), None);
    assert_eq!(PixelFormat::from_name(""), None);
}

#[test]
fn format_names_of_known_codes() {
    assert_eq!(format_name(0x59565955), "UYVY");
    assert_eq!(format_name(0x41565955), "UYVA");
    assert_eq!(format_name(0x36313250), "P216");
    assert_eq!(format_name(0x36314150), "PA16");
    assert_eq!(format_name(0x32315659), "YV12");
    assert_eq!(format_name(0x30323449), "I420");
    assert_eq!(format_name(0x3231564E), "NV12");
    assert_eq!(format_name(0x41524742), "BGRA");
    assert_eq!(format_name(0x41424752), "RGBA");
    assert_eq!(format_name(0x58524742), "BGRX");
    assert_eq!(format_name(0x58424752), "RGBX");
}

#[test]
fn unknown_code_is_named_by_its_hex_value() {
    assert_eq!(format_name(0xFFFF_FFFF), "Unknown (0xFFFFFFFF)");
    assert!(format_name(0xFFFF_FFFF).contains("FFFFFFFF"));
    assert_eq!(format_name(0), "Unknown (0x00000000)");
    assert_eq!(format_name(0x1234_ABCD), "Unknown (0x1234ABCD)");
    assert_eq!(format_name(0x0000_00A0), "Unknown (0x000000A0)");
    assert_eq!(format_name(0x9000_0009), "Unknown (0x90000009)");
}

#[test]
fn format_name_agrees_with_the_standard_formatter() {
    let codes: Vec<u32> = vec![1, 0xF, 0x10, 0xDEAD_BEEF, 0x7FFF_FFFF, 0x8000_0000, 0x0BAD_F00D];
    for code in codes {
        assert_eq!(format_name(code), format!("Unknown (0x{:08X})", code));
    }
}

#[test]
fn bytes_per_pixel_of_every_format() {
    assert_eq!(bytes_per_pixel(FOURCC_UYVY), Ok(2));
    assert_eq!(bytes_per_pixel(FOURCC_UYVA), Ok(2));
    assert_eq!(bytes_per_pixel(FOURCC_P216), Ok(2));
    assert_eq!(bytes_per_pixel(FOURCC_PA16), Ok(2));
    assert_eq!(bytes_per_pixel(FOURCC_YV12), Ok(1));
    assert_eq!(bytes_per_pixel(FOURCC_I420), Ok(1));
    assert_eq!(bytes_per_pixel(FOURCC_NV12), Ok(1));
    assert_eq!(bytes_per_pixel(FOURCC_BGRA), Ok(4));
    assert_eq!(bytes_per_pixel(FOURCC_RGBA), Ok(4));
    assert_eq!(bytes_per_pixel(FOURCC_BGRX), Ok(4));
    assert_eq!(bytes_per_pixel(FOURCC_RGBX), Ok(4));
    assert_eq!(bytes_per_pixel(5), Err(NdiError::UnsupportedFormat(5)));
}

#[test]
fn strides_of_every_format() {
    assert_eq!(stride(1920, FOURCC_UYVY), Ok(3840));
    assert_eq!(stride(1920, FOURCC_UYVA), Ok(3840));
    assert_eq!(stride(1920, FOURCC_P216), Ok(3840));
    assert_eq!(stride(1920, FOURCC_PA16), Ok(3840));
    assert_eq!(stride(1920, FOURCC_YV12), Ok(1920));
    assert_eq!(stride(1920, FOURCC_I420), Ok(1920));
    assert_eq!(stride(1920, FOURCC_NV12), Ok(1920));
    assert_eq!(stride(1920, FOURCC_BGRA), Ok(7680));
    assert_eq!(stride(1920, FOURCC_RGBA), Ok(7680));
    assert_eq!(stride(1920, FOURCC_BGRX), Ok(7680));
    assert_eq!(stride(1920, FOURCC_RGBX), Ok(7680));
    assert_eq!(stride(0, FOURCC_BGRA), Ok(0));
    assert_eq!(stride(u32::MAX, FOURCC_BGRA), Ok(4 * (u32::MAX as u64)));
}

#[test]
fn stride_of_an_unknown_format_is_refused() {
    assert_eq!(stride(4, 0), Err(NdiError::UnsupportedFormat(0)));
    assert_eq!(stride(4, 0xFFFF_FFFF), Err(NdiError::UnsupportedFormat(0xFFFF_FFFF)));
}

#[test]
fn buffer_sizes_of_every_format() {
    assert_eq!(video_buffer_size(4, 2, FOURCC_UYVY), Ok(16));
    assert_eq!(video_buffer_size(4, 2, FOURCC_UYVA), Ok(24));
    assert_eq!(video_buffer_size(4, 2, FOURCC_P216), Ok(32));
    assert_eq!(video_buffer_size(4, 2, FOURCC_PA16), Ok(48));
    assert_eq!(video_buffer_size(4, 2, FOURCC_YV12), Ok(12));
    assert_eq!(video_buffer_size(4, 2, FOURCC_I420), Ok(12));
    assert_eq!(video_buffer_size(4, 2, FOURCC_NV12), Ok(12));
    assert_eq!(video_buffer_size(4, 2, FOURCC_BGRA), Ok(32));
    assert_eq!(video_buffer_size(4, 2, FOURCC_RGBA), Ok(32));
    assert_eq!(video_buffer_size(4, 2, FOURCC_BGRX), Ok(32));
    assert_eq!(video_buffer_size(4, 2, FOURCC_RGBX), Ok(32));
}

#[test]
fn buffer_sizes_of_full_frames() {
    assert_eq!(video_buffer_size(1920, 1080, FOURCC_UYVY), Ok(4_147_200));
    assert_eq!(video_buffer_size(1920, 1080, FOURCC_BGRA), Ok(8_294_400));
    assert_eq!(video_buffer_size(1920, 1080, FOURCC_I420), Ok(3_110_400));
    assert_eq!(video_buffer_size(1920, 1080, FOURCC_NV12), Ok(3_110_400));
    assert_eq!(video_buffer_size(1920, 1080, FOURCC_P216), Ok(8_294_400));
    assert_eq!(video_buffer_size(1920, 1080, FOURCC_PA16), Ok(12_441_600));
    assert_eq!(video_buffer_size(1920, 1080, FOURCC_UYVA), Ok(6_220_800));
}

#[test]
fn buffer_sizes_with_odd_dimensions() {
    // 3 x 3 planar 4:2:0: 9 bytes of luma, two chroma planes of 1 x 1.
    assert_eq!(video_buffer_size(3, 3, FOURCC_I420), Ok(11));
    assert_eq!(video_buffer_size(3, 3, FOURCC_YV12), Ok(11));
    // 3 x 3 semi-planar: 9 bytes of luma, one row of 3 chroma bytes.
    assert_eq!(video_buffer_size(3, 3, FOURCC_NV12), Ok(12));
    assert_eq!(video_buffer_size(3, 3, FOURCC_UYVY), Ok(18));
    assert_eq!(video_buffer_size(3, 3, FOURCC_UYVA), Ok(27));
}

#[test]
fn buffer_size_of_an_empty_frame_is_zero() {
    for format in all_formats() {
        assert_eq!(format.buffer_size(0, 0), 0);
        assert_eq!(format.buffer_size(0, 10), 0);
        assert_eq!(format.buffer_size(10, 0), 0);
    }
}

#[test]
fn buffer_size_of_an_unknown_format_is_refused() {
    assert_eq!(video_buffer_size(4, 2, 0), Err(NdiError::UnsupportedFormat(0)));
    assert_eq!(video_buffer_size(4, 2, 0x41565559), Err(NdiError::UnsupportedFormat(0x41565559)));
    assert_eq!(video_buffer_size(0, 0, 1), Err(NdiError::UnsupportedFormat(1)));
}

#[test]
fn buffer_sizes_of_the_largest_frames_do_not_overflow() {
    let side = u32::MAX as u128;
    assert_eq!(video_buffer_size(u32::MAX, u32::MAX, FOURCC_UYVY), Ok(2 * side * side));
    assert_eq!(video_buffer_size(u32::MAX, u32::MAX, FOURCC_BGRA), Ok(4 * side * side));
    assert_eq!(video_buffer_size(u32::MAX, u32::MAX, FOURCC_PA16), Ok(6 * side * side));
    assert_eq!(audio_buffer_size(u32::MAX, u32::MAX), 4 * side * side);
}

#[test]
fn packed_size_is_stride_times_height() {
    let sizes: Vec<(u32, u32)> = vec![(0, 0), (1, 1), (4, 2), (7, 5), (640, 480), (1920, 1080)];
    for format in all_formats() {
        for (w, h) in sizes.iter() {
            let row = format.stride(*w);
            let size = format.buffer_size(*w, *h);
            assert_eq!(row, (*w as u64) * (format.bytes_per_pixel() as u64));
            assert!(size >= (row as u128) * (*h as u128));
            if format.is_packed() {
                assert_eq!(size, (row as u128) * (*h as u128));
            }
            assert_eq!(video_buffer_size(*w, *h, format.code()), Ok(size));
            assert_eq!(stride(*w, format.code()), Ok(row));
        }
    }
}

#[test]
fn planar_size_exceeds_stride_times_height() {
    assert_eq!(PixelFormat::I420.stride(4), 4);
    assert_eq!(PixelFormat::I420.buffer_size(4, 2), 12);
    assert!(!PixelFormat::I420.is_packed());
    assert!(!PixelFormat::UYVA.is_packed());
    assert!(PixelFormat::UYVY.is_packed());
    assert!(PixelFormat::RGBX.is_packed());
}

#[test]
fn planar_frame_of_one_row_has_only_its_first_plane() {
    assert_eq!(PixelFormat::I420.buffer_size(6, 1), 6);
    assert_eq!(PixelFormat::NV12.buffer_size(6, 1), 6);
    assert_eq!(PixelFormat::YV12.buffer_size(1, 9), 9);
    assert_eq!(PixelFormat::P216.buffer_size(6, 1), 24);
    assert_eq!(PixelFormat::UYVA.buffer_size(6, 1), 18);
}

#[test]
fn frame_size_with_padded_rows() {
    assert_eq!(PixelFormat::UYVY.frame_size(10, 2), 20);
    assert_eq!(PixelFormat::BGRA.frame_size(20, 3), 60);
    assert_eq!(PixelFormat::I420.frame_size(6, 4), 24 + 2 * (3 * 2));
    assert_eq!(PixelFormat::NV12.frame_size(6, 4), 24 + 6 * 2);
    assert_eq!(PixelFormat::UYVA.frame_size(10, 2), 20 + 5 * 2);
    assert_eq!(PixelFormat::P216.frame_size(10, 2), 40);
    assert_eq!(PixelFormat::PA16.frame_size(10, 2), 60);
}

#[test]
fn audio_size_is_four_bytes_per_sample() {
    assert_eq!(audio_buffer_size(2, 480), 3840);
    assert_eq!(audio_buffer_size(1, 1), 4);
    assert_eq!(audio_buffer_size(0, 480), 0);
    assert_eq!(audio_buffer_size(2, 0), 0);
    assert_eq!(audio_buffer_size(8, 1602), 51_264);
    for c in 0..5u32 {
        for s in 0..7u32 {
            assert_eq!(audio_buffer_size(c, s), (c as u128) * (s as u128) * 4);
        }
    }
}

#[test]
fn received_layout_takes_the_stride_given() {
    assert_eq!(
        received_layout(4, 2, FOURCC_UYVY, Some(8), None),
        Ok(VideoLayout { stride: 8, size: 16 })
    );
    assert_eq!(
        received_layout(4, 2, FOURCC_UYVY, Some(12), Some(999)),
        Ok(VideoLayout { stride: 12, size: 24 })
    );
    assert_eq!(
        received_layout(4, 2, FOURCC_I420, Some(8), None),
        Ok(VideoLayout { stride: 8, size: 16 + 2 * 4 })
    );
}

#[test]
fn received_layout_refuses_a_stride_below_the_row() {
    assert_eq!(
        received_layout(4, 2, FOURCC_UYVY, Some(7), None),
        Err(NdiError::BufferSizeMismatch { expected: 8, actual: 7 })
    );
    assert_eq!(
        received_layout(4, 2, FOURCC_BGRA, Some(0), Some(32)),
        Err(NdiError::BufferSizeMismatch { expected: 16, actual: 0 })
    );
}

#[test]
fn received_layout_takes_the_size_given_without_a_stride() {
    assert_eq!(
        received_layout(4, 2, FOURCC_BGRA, None, Some(40)),
        Ok(VideoLayout { stride: 16, size: 40 })
    );
    assert_eq!(
        received_layout(4, 2, FOURCC_I420, None, Some(0)),
        Ok(VideoLayout { stride: 4, size: 0 })
    );
}

#[test]
fn received_layout_falls_back_for_packed_yuv_only() {
    assert_eq!(
        received_layout(4, 2, FOURCC_UYVY, None, None),
        Ok(VideoLayout { stride: 8, size: 16 })
    );
    assert_eq!(
        received_layout(1920, 1080, FOURCC_UYVY, None, None),
        Ok(VideoLayout { stride: 3840, size: 1920 * 1080 * 2 })
    );
    assert_eq!(
        received_layout(4, 2, FOURCC_BGRA, None, None),
        Err(NdiError::UnsupportedFormat(FOURCC_BGRA))
    );
    assert_eq!(
        received_layout(4, 2, FOURCC_UYVA, None, None),
        Err(NdiError::UnsupportedFormat(FOURCC_UYVA))
    );
    assert_eq!(
        received_layout(4, 2, FOURCC_I420, None, None),
        Err(NdiError::UnsupportedFormat(FOURCC_I420))
    );
}

#[test]
fn received_layout_refuses_an_unknown_format() {
    assert_eq!(received_layout(4, 2, 9, Some(8), Some(16)), Err(NdiError::UnsupportedFormat(9)));
    assert_eq!(received_layout(4, 2, 9, None, Some(16)), Err(NdiError::UnsupportedFormat(9)));
    assert_eq!(received_layout(4, 2, 9, None, None), Err(NdiError::UnsupportedFormat(9)));
}
