//! What holds of the codec and of the sessions, for every input.

use vstd::prelude::*;
use crate::codec::lemma_frame_size_fits;
use crate::codec::spec_received_layout;
use crate::codec::PixelFormat;

use crate::discovery::FinderView;
use crate::discovery::NdiSource;
use crate::error::Component;
use crate::error::NdiError;
use crate::frames::CapturedUnitView;
use crate::receiver::spec_capture;
use crate::receiver::spec_capture_audio;
use crate::receiver::spec_capture_video;
use crate::receiver::spec_position;
use crate::receiver::NativeAudio;
use crate::receiver::NativeFrame;
use crate::receiver::NativeVideo;
use crate::receiver::ReceiverState;
use crate::receiver::ReceiverView;
use crate::sender::spec_outgoing_audio;
use crate::sender::spec_outgoing_video;
use crate::sender::SenderView;

verus! {

/// The smallest stride of every format is the width times the bytes of a
/// pixel, and so never less than a row needs.
pub proof fn law_stride_covers_row(width: u32, format: PixelFormat)
    ensures
        format.spec_stride(width as int) == width * format.spec_bytes_per_pixel(),
        format.spec_stride(width as int) >= width * format.spec_bytes_per_pixel(),
        format.spec_stride(width as int) >= width,
{
    assert(width * format.spec_bytes_per_pixel() >= width * 1) by (nonlinear_arith)
        requires
            format.spec_bytes_per_pixel() >= 1,
            width >= 0,
    ;
}

/// An unpadded frame takes the stride times the height, for every format and
/// size at which the format puts nothing behind the first plane.
pub proof fn law_size_is_stride_by_height(width: u32, height: u32, format: PixelFormat)
    requires
        format.spec_rest_size(format.spec_stride(width as int), height as int) == 0,
    ensures
        format.spec_buffer_size(width as int, height as int) == format.spec_stride(width as int)
            * height,
{
}

/// A packed format puts nothing behind the first plane, whatever the size: an
/// unpadded frame in it always takes the stride times the height.
pub proof fn law_packed_has_one_plane(width: u32, height: u32, format: PixelFormat)
    requires
        format.spec_is_packed(),
    ensures
        format.spec_rest_size(format.spec_stride(width as int), height as int) == 0,
        format.spec_buffer_size(width as int, height as int) == format.spec_stride(width as int)
            * height,
{
}

/// For every format, an unpadded frame takes at least the stride times the
/// height: the first plane is always there, and what follows it only adds. It
/// takes exactly that much only where nothing follows.
pub proof fn law_size_holds_first_plane(width: u32, height: u32, format: PixelFormat)
    ensures
        format.spec_buffer_size(width as int, height as int) >= format.spec_stride(width as int)
            * height,
        format.spec_buffer_size(width as int, height as int) == format.spec_stride(width as int)
            * height <==> format.spec_rest_size(format.spec_stride(width as int), height as int)
            == 0,
{
    law_stride_covers_row(width, format);
    lemma_frame_size_fits(format, format.spec_stride(width as int) as u64, height);
}

/// Every format is found again under its own FourCC code.
pub proof fn law_code_round_trip(format: PixelFormat)
    ensures
        PixelFormat::spec_from_code(format.spec_code()) == Some(format),
{
}

/// A FourCC code that names a format is that format's code.
pub proof fn law_code_is_unique(code: u32, format: PixelFormat)
    requires
        PixelFormat::spec_from_code(code) == Some(format),
    ensures
        format.spec_code() == code,
{
}

/// Every format is found again under its own name.
pub proof fn law_name_round_trip(format: PixelFormat)
    ensures
        PixelFormat::spec_from_name(format.spec_name()) == Some(format),
        format.spec_name().len() == 4,
{
    reveal_strlit("UYVY");
    reveal_strlit("UYVA");
    reveal_strlit("P216");
    reveal_strlit("PA16");
    reveal_strlit("YV12");
    reveal_strlit("I420");
    reveal_strlit("NV12");
    reveal_strlit("BGRA");
    reveal_strlit("RGBA");
    reveal_strlit("BGRX");
    reveal_strlit("RGBX");
    let name = format.spec_name();
    assert(name == "UYVY"@ ==> name[3] == 'Y' && name[0] == 'U');
    assert(name == "UYVA"@ ==> name[3] == 'A' && name[0] == 'U');
    assert(name == "P216"@ ==> name[1] == '2');
    assert(name == "PA16"@ ==> name[1] == 'A' && name[0] == 'P');
    assert(name == "YV12"@ ==> name[0] == 'Y');
    assert(name == "I420"@ ==> name[0] == 'I');
    assert(name == "NV12"@ ==> name[0] == 'N');
    assert(name == "BGRA"@ ==> name[0] == 'B' && name[3] == 'A');
    assert(name == "RGBA"@ ==> name[0] == 'R' && name[3] == 'A');
    assert(name == "BGRX"@ ==> name[0] == 'B' && name[3] == 'X');
    assert(name == "RGBX"@ ==> name[0] == 'R' && name[3] == 'X');
}

/// A FourCC code spells the format's name: its four bytes, lowest first, are
/// the four characters of the name.
pub proof fn law_code_spells_name(format: PixelFormat)
    ensures
        format.spec_name().len() == 4,
        format.spec_code() == (format.spec_name()[0] as int) + 0x100 * (
        format.spec_name()[1] as int) + 0x1_0000 * (format.spec_name()[2] as int) + 0x100_0000 * (
        format.spec_name()[3] as int),
{
    reveal_strlit("UYVY");
    reveal_strlit("UYVA");
    reveal_strlit("P216");
    reveal_strlit("PA16");
    reveal_strlit("YV12");
    reveal_strlit("I420");
    reveal_strlit("NV12");
    reveal_strlit("BGRA");
    reveal_strlit("RGBA");
    reveal_strlit("BGRX");
    reveal_strlit("RGBX");
}

/// An audio payload goes out exactly when it holds four bytes for each
/// channel and sample; every other length is refused as a size mismatch.
pub proof fn law_audio_payload_must_match(
    data: Seq<u8>,
    sample_rate: u32,
    channels: u32,
    samples: u32,
)
    ensures
        spec_outgoing_audio(data, sample_rate, channels, samples) is Ok <==> data.len() == channels
            * samples * 4,
        spec_outgoing_audio(data, sample_rate, channels, samples) matches Err(e) ==> e
            is BufferSizeMismatch,
        spec_outgoing_audio(data, sample_rate, channels, samples) matches Ok(frame)
            ==> frame.well_formed() && frame.data == data,
{
}

/// A video payload goes out exactly when its format is known and it is as
/// long as an unpadded frame of its geometry; the frame that goes out holds
/// the payload unchanged and has the format's smallest stride.
pub proof fn law_video_payload_must_match(
    data: Seq<u8>,
    width: u32,
    height: u32,
    fps_n: u32,
    fps_d: u32,
    four_cc: u32,
)
    ensures
        spec_outgoing_video(data, width, height, fps_n, fps_d, four_cc) is Ok <==> (
        PixelFormat::spec_from_code(four_cc) matches Some(f) && data.len() == f.spec_buffer_size(
            width as int,
            height as int,
        )),
        spec_outgoing_video(data, width, height, fps_n, fps_d, four_cc) matches Ok(frame)
            ==> frame.well_formed() && frame.data == data,
        PixelFormat::spec_from_code(four_cc) is None ==> spec_outgoing_video(
            data,
            width,
            height,
            fps_n,
            fps_d,
            four_cc,
        ) == Err::<crate::frames::VideoFrameView, NdiError>(NdiError::UnsupportedFormat(four_cc)),
{
    match PixelFormat::spec_from_code(four_cc) {
        Some(f) => {
            law_stride_covers_row(width, f);
        },
        None => {},
    }
}

/// A frame that a capture accepts holds the transport's payload unchanged, has
/// a known format, and has no row shorter than its width needs.
pub proof fn law_captured_video_is_well_formed(video: NativeVideo)
    ensures
        spec_capture_video(video) matches Ok(frame) ==> {
            &&& frame.well_formed()
            &&& frame.data == video.data@
            &&& Some(frame.format) == PixelFormat::spec_from_code(video.four_cc)
            &&& frame.width == video.width
            &&& frame.height == video.height
        },
        PixelFormat::spec_from_code(video.four_cc) is None ==> spec_capture_video(video) == Err::<
            crate::frames::VideoFrameView,
            NdiError,
        >(NdiError::UnsupportedFormat(video.four_cc)),
{
    match PixelFormat::spec_from_code(video.four_cc) {
        Some(f) => {
            law_stride_covers_row(video.width, f);
        },
        None => {},
    }
}

/// An audio frame that a capture accepts holds the transport's payload
/// unchanged, four bytes for each channel and sample.
pub proof fn law_captured_audio_is_well_formed(audio: NativeAudio)
    ensures
        spec_capture_audio(audio) is Ok <==> audio.data@.len() == audio.num_channels
            * audio.num_samples * 4,
        spec_capture_audio(audio) matches Ok(frame) ==> frame.well_formed() && frame.data
            == audio.data@,
{
}

/// A capture on an open session whose time ran out yields the unit that holds
/// nothing, never a failure; and the time that a capture waits is the caller's
/// own, or the default where none was given.
pub proof fn law_timeout_yields_nothing(
    session: ReceiverView,
    native: NativeFrame,
    timeout_ms: Option<u32>,
)
    requires
        session.is_open(),
        native.frame_type == 0,
    ensures
        session.receive_frame(native) == Ok::<CapturedUnitView, NdiError>(
            CapturedUnitView::Nothing,
        ),
        timeout_ms matches Some(t) ==> session.capture_timeout(timeout_ms) == Ok::<u32, NdiError>(
            t,
        ),
{
}

/// What one capture yields is of the kind that the transport's number names,
/// whenever the capture is accepted and the unit of that kind is there.
pub proof fn law_capture_keeps_kind(native: NativeFrame)
    ensures
        spec_capture(native) matches Ok(unit) ==> unit.frame_type()
            == crate::frames::FrameType::spec_from_code(native.frame_type) || unit
            is Error,
{
}

/// `spec_position` finds the first source of the name: none before it has the
/// name, and where it finds nothing, none has.
pub proof fn law_position_is_first(sources: Seq<NdiSource>, name: Seq<char>, from: int)
    requires
        0 <= from,
    ensures
        match spec_position(sources, name, from) {
            Some(i) => {
                &&& from <= i < sources.len()
                &&& sources[i].name@ == name
                &&& forall|j: int| from <= j < i ==> (#[trigger] sources[j]).name@ != name
            },
            None => forall|j: int| from <= j < sources.len() ==> (#[trigger] sources[j]).name@ != name,
        },
    decreases sources.len() - from,
{
    if from < sources.len() && sources[from].name@ != name {
        law_position_is_first(sources, name, from + 1);
    }
}

/// What a request to connect answers on an open session: a scan that
/// reported no source is a timeout of the discovery; a scan that reported
/// sources, none of them under the name, has not found it; otherwise the
/// session is bound to the name and the first source under it is the answer.
pub proof fn law_connect_outcomes(session: ReceiverView, name: Seq<char>, sources: Seq<NdiSource>)
    requires
        session.is_open(),
    ensures
        sources.len() == 0 ==> session.connect_result(name, sources) == Err::<int, NdiError>(
            NdiError::DiscoveryTimeout,
        ),
        sources.len() > 0 && (forall|j: int|
            0 <= j < sources.len() ==> (#[trigger] sources[j]).name@ != name)
            ==> session.connect_result(name, sources) == Err::<int, NdiError>(
            NdiError::SourceNotFound,
        ),
        (exists|j: int| 0 <= j < sources.len() && (#[trigger] sources[j]).name@ == name)
            ==> session.connect_result(name, sources) is Ok && session.connect(name, sources)
            == ReceiverView::Connected(name),
        session.connect_result(name, sources) is Err ==> session.connect(name, sources) == session,
{
    law_position_is_first(sources, name, 0);
}

/// A scan of an open session that ran out of time is no failure: its snapshot
/// is empty. A scan that reported names yields a source for each, in order.
pub proof fn law_scan_snapshot(session: FinderView, names: Seq<String>)
    requires
        session.open,
    ensures
        session.find_sources(None) == Ok::<Seq<NdiSource>, NdiError>(Seq::empty()),
        session.find_sources(Some(names)) matches Ok(sources) && sources.len() == names.len()
            && forall|i: int|
            0 <= i < names.len() ==> (#[trigger] sources[i]).name == names[i] && sources[i].address
                is None,
{
}

/// A receive session is created unbound, is bound after a connection that
/// succeeds, and is closed after it was closed, wherever it stood.
pub proof fn law_receiver_stations(session: ReceiverView, name: Seq<char>, sources: Seq<NdiSource>)
    ensures
        ReceiverView::Created.state() == ReceiverState::Created,
        session.close().state() == ReceiverState::Closed,
        session.connect_result(name, sources) is Ok ==> session.connect(name, sources).state()
            == ReceiverState::Connected && session.connect(name, sources).connected_source()
            == Some(name),
        session.connect_result(name, sources) is Err ==> session.connect(name, sources).state()
            == session.state(),
{
}

/// Closing a discovery session twice is closing it once, and a closed session
/// refuses every operation as not initialized.
pub proof fn law_closed_finder_refuses(
    session: FinderView,
    timeout_ms: Option<u32>,
    names: Option<Seq<String>>,
)
    ensures
        session.close().close() == session.close(),
        !session.close().open,
        session.close().scan_timeout(timeout_ms) == Err::<u32, NdiError>(
            NdiError::NotInitialized(Component::Finder),
        ),
        session.close().find_sources(names) == Err::<Seq<NdiSource>, NdiError>(
            NdiError::NotInitialized(Component::Finder),
        ),
{
}

/// Closing a receive session twice is closing it once, and a closed session
/// refuses every operation as not initialized and stays closed.
pub proof fn law_closed_receiver_refuses(
    session: ReceiverView,
    name: Seq<char>,
    sources: Seq<NdiSource>,
    timeout_ms: Option<u32>,
    native: NativeFrame,
)
    ensures
        session.close().close() == session.close(),
        !session.close().is_open(),
        session.close().connected_source() is None,
        session.close().connect_scan_timeout() == Err::<u32, NdiError>(
            NdiError::NotInitialized(Component::Receiver),
        ),
        session.close().connect_result(name, sources) == Err::<int, NdiError>(
            NdiError::NotInitialized(Component::Receiver),
        ),
        session.close().connect(name, sources) == session.close(),
        session.close().capture_timeout(timeout_ms) == Err::<u32, NdiError>(
            NdiError::NotInitialized(Component::Receiver),
        ),
        session.close().receive_frame(native) == Err::<CapturedUnitView, NdiError>(
            NdiError::NotInitialized(Component::Receiver),
        ),
{
}

/// Closing a send session twice is closing it once, a closed session keeps
/// its name, and it refuses every send as not initialized, whatever the
/// payload.
pub proof fn law_closed_sender_refuses(
    session: SenderView,
    data: Seq<u8>,
    width: u32,
    height: u32,
    fps_n: u32,
    fps_d: u32,
    four_cc: u32,
    sample_rate: u32,
    channels: u32,
    samples: u32,
    text: Seq<char>,
)
    ensures
        session.close().close() == session.close(),
        !session.close().open,
        session.close().name == session.name,
        session.close().send_video_frame(data, width, height, fps_n, fps_d, four_cc) == Err::<
            crate::frames::VideoFrameView,
            NdiError,
        >(NdiError::NotInitialized(Component::Sender)),
        session.close().send_test_pattern(width, height, fps_n, fps_d) == Err::<
            crate::frames::VideoFrameView,
            NdiError,
        >(NdiError::NotInitialized(Component::Sender)),
        session.close().send_audio(data, sample_rate, channels, samples) == Err::<
            crate::frames::AudioFrameView,
            NdiError,
        >(NdiError::NotInitialized(Component::Sender)),
        session.close().send_metadata(text) == Err::<crate::frames::MetadataFrameView, NdiError>(
            NdiError::NotInitialized(Component::Sender),
        ),
{
}

/// Where a received frame gives the distance between its rows, its layout has
/// that distance and the size that the format's planes take; a distance that
/// is too short for the width is refused.
pub proof fn law_received_stride_decides(
    width: u32,
    height: u32,
    format: PixelFormat,
    stride: u32,
    data_size: Option<u32>,
)
    ensures
        stride >= format.spec_stride(width as int) ==> (spec_received_layout(
            width,
            height,
            format.spec_code(),
            Some(stride),
            data_size,
        ) matches Ok(layout) && layout.stride == stride && layout.size == format.spec_frame_size(
            stride as int,
            height as int,
        )),
        stride < format.spec_stride(width as int) ==> spec_received_layout(
            width,
            height,
            format.spec_code(),
            Some(stride),
            data_size,
        ) is Err,
{
    lemma_frame_size_fits(format, stride as u64, height);
}

} // verus!
