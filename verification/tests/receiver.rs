use ndirust::codec::PixelFormat;
use ndirust::codec::FOURCC_BGRA;
use ndirust::codec::FOURCC_I420;
use ndirust::codec::FOURCC_UYVY;
use ndirust::discovery::NdiSource;
use ndirust::engine::Runtime;
use ndirust::error::Component;
use ndirust::error::InitStage;
use ndirust::error::NdiError;
use ndirust::frames::CapturedUnit;
use ndirust::frames::FrameType;
use ndirust::receiver::capture_audio;
use ndirust::receiver::capture_video;
use ndirust::receiver::find_source;
use ndirust::receiver::NativeAudio;
use ndirust::receiver::NativeFrame;
use ndirust::receiver::NativeMetadata;
use ndirust::receiver::NativeVideo;
use ndirust::receiver::NdiReceiver;
use ndirust::receiver::ReceiverState;

fn open_receiver() -> NdiReceiver<u8> {
    let mut runtime = Runtime::new();
    runtime.record_start(true).unwrap();
    NdiReceiver::new(&runtime, Some(9u8)).unwrap()
}

fn sources(names: &[&str]) -> Vec<NdiSource> {
    names.iter().map(|n| NdiSource::new(String::from(*n))).collect()
}

fn video(data: &[u8]) -> NativeVideo<'_> {
    NativeVideo {
        width: 4,
        height: 2,
        frame_rate_n: 30000,
        frame_rate_d: 1001,
        timecode: 1234,
        four_cc: FOURCC_UYVY,
        line_stride: Some(8),
        data_size: None,
        data,
    }
}

fn unit_of(kind: u32) -> NativeFrame<'static> {
    NativeFrame { frame_type: kind, video: None, audio: None, metadata: None }
}

#[test]
fn receiver_needs_runtime_and_handle() {
    let idle = Runtime::new();
    assert_eq!(
        NdiReceiver::new(&idle, Some(1u8)).err(),
        Some(NdiError::InitError(InitStage::Runtime))
    );
    let mut runtime = Runtime::new();
    runtime.record_start(true).unwrap();
    assert_eq!(
        NdiReceiver::<u8>::new(&runtime, None).err(),
        Some(NdiError::InitError(InitStage::Handle(Component::Receiver)))
    );
}

#[test]
fn new_receiver_is_open_and_unbound() {
    let receiver = open_receiver();
    assert!(receiver.is_open());
    assert_eq!(receiver.handle(), Some(&9u8));
    assert_eq!(receiver.get_connected_source(), None);
}

#[test]
fn connect_fails_with_timeout_when_discovery_is_empty() {
    let mut receiver = open_receiver();
    assert_eq!(receiver.connect_to_source("X", &Vec::new()), Err(NdiError::DiscoveryTimeout));
    assert_eq!(receiver.get_connected_source(), None);
    assert!(receiver.is_open());
}

#[test]
fn connect_fails_when_no_source_has_the_name() {
    let mut receiver = open_receiver();
    let found = sources(&["A", "B", "x", "X ", " X", "XX"]);
    assert_eq!(receiver.connect_to_source("X", &found), Err(NdiError::SourceNotFound));
    assert_eq!(receiver.get_connected_source(), None);
}

#[test]
fn connect_binds_to_the_named_source() {
    let mut receiver = open_receiver();
    let found = sources(&["A", "X", "B"]);
    assert_eq!(receiver.connect_to_source("X", &found), Ok(1));
    assert_eq!(receiver.get_connected_source(), Some(String::from("X")));
    assert!(receiver.is_open());
    assert_eq!(receiver.handle(), Some(&9u8));
}

#[test]
fn connect_takes_the_first_of_equal_names() {
    let mut receiver = open_receiver();
    let found = sources(&["A", "X", "X", "B", "X"]);
    assert_eq!(receiver.connect_to_source("X", &found), Ok(1));
    assert_eq!(receiver.connect_to_source("A", &found), Ok(0));
    assert_eq!(receiver.connect_to_source("B", &found), Ok(3));
}

#[test]
fn reconnecting_replaces_the_binding() {
    let mut receiver = open_receiver();
    let found = sources(&["A", "B"]);
    assert_eq!(receiver.connect_to_source("A", &found), Ok(0));
    assert_eq!(receiver.get_connected_source(), Some(String::from("A")));
    assert_eq!(receiver.connect_to_source("B", &found), Ok(1));
    assert_eq!(receiver.get_connected_source(), Some(String::from("B")));
}

#[test]
fn failed_connect_keeps_the_binding() {
    let mut receiver = open_receiver();
    let found = sources(&["A", "B"]);
    assert_eq!(receiver.connect_to_source("A", &found), Ok(0));
    assert_eq!(receiver.connect_to_source("C", &found), Err(NdiError::SourceNotFound));
    assert_eq!(receiver.get_connected_source(), Some(String::from("A")));
    assert_eq!(receiver.connect_to_source("A", &Vec::new()), Err(NdiError::DiscoveryTimeout));
    assert_eq!(receiver.get_connected_source(), Some(String::from("A")));
}

#[test]
fn receiver_goes_through_its_stations() {
    let mut receiver = open_receiver();
    assert_eq!(receiver.state(), ReceiverState::Created);
    assert_eq!(receiver.connect_to_source("A", &sources(&["B"])), Err(NdiError::SourceNotFound));
    assert_eq!(receiver.state(), ReceiverState::Created);
    assert_eq!(receiver.connect_to_source("A", &sources(&["A"])), Ok(0));
    assert_eq!(receiver.state(), ReceiverState::Connected);
    assert_eq!(receiver.connect_to_source("B", &sources(&["B"])), Ok(0));
    assert_eq!(receiver.state(), ReceiverState::Connected);
    receiver.close();
    assert_eq!(receiver.state(), ReceiverState::Closed);
    receiver.close();
    assert_eq!(receiver.state(), ReceiverState::Closed);
}

#[test]
fn receiver_lends_its_handle() {
    let mut receiver = open_receiver();
    if let Some(handle) = receiver.handle_mut() {
        *handle = 21;
    }
    assert_eq!(receiver.handle(), Some(&21u8));
    assert_eq!(receiver.state(), ReceiverState::Created);
    receiver.close();
    assert_eq!(receiver.handle_mut(), None);
}

#[test]
fn find_source_gives_the_first_place() {
    let found = sources(&["A", "B", "A", ""]);
    assert_eq!(find_source(&found, "A"), Some(0));
    assert_eq!(find_source(&found, "B"), Some(1));
    assert_eq!(find_source(&found, ""), Some(3));
    assert_eq!(find_source(&found, "C"), None);
    assert_eq!(find_source(&Vec::new(), "A"), None);
}

#[test]
fn scan_before_a_connection_waits_three_seconds() {
    let receiver = open_receiver();
    assert_eq!(receiver.connect_scan_timeout(), Ok(3000));
}

#[test]
fn capture_waits_the_default_or_the_given_time() {
    let receiver = open_receiver();
    assert_eq!(receiver.capture_timeout(None), Ok(1000));
    assert_eq!(receiver.capture_timeout(Some(16)), Ok(16));
    assert_eq!(receiver.capture_timeout(Some(0)), Ok(0));
}

#[test]
fn capture_without_data_yields_nothing() {
    let receiver = open_receiver();
    let unit = receiver.receive_frame(&unit_of(0)).unwrap();
    assert_eq!(unit, CapturedUnit::Nothing);
    assert_eq!(unit.frame_type(), FrameType::Nothing);
}

#[test]
fn capture_of_a_failure_yields_the_error_unit() {
    let receiver = open_receiver();
    assert_eq!(receiver.receive_frame(&unit_of(4)), Ok(CapturedUnit::Error));
    assert_eq!(receiver.receive_frame(&unit_of(100)), Ok(CapturedUnit::Error));
    assert_eq!(receiver.receive_frame(&unit_of(5)), Ok(CapturedUnit::Error));
    assert_eq!(receiver.receive_frame(&unit_of(u32::MAX)), Ok(CapturedUnit::Error));
    assert!(receiver.is_open());
}

#[test]
fn capture_of_a_kind_without_its_unit_is_a_failure() {
    let receiver = open_receiver();
    assert_eq!(receiver.receive_frame(&unit_of(1)), Ok(CapturedUnit::Error));
    assert_eq!(receiver.receive_frame(&unit_of(2)), Ok(CapturedUnit::Error));
    assert_eq!(receiver.receive_frame(&unit_of(3)), Ok(CapturedUnit::Error));
}

#[test]
fn capture_of_video_copies_the_payload() {
    let receiver = open_receiver();
    let mut buffer: Vec<u8> = (0u8..16).collect();
    let unit = {
        let native = NativeFrame {
            frame_type: 1,
            video: Some(video(&buffer)),
            audio: None,
            metadata: None,
        };
        receiver.receive_frame(&native).unwrap()
    };
    buffer[0] = 200;
    buffer.clear();
    assert_eq!(unit.frame_type(), FrameType::Video);
    match unit {
        CapturedUnit::Video(frame) => {
            assert_eq!(frame.width(), 4);
            assert_eq!(frame.height(), 2);
            assert_eq!(frame.frame_rate_n(), 30000);
            assert_eq!(frame.frame_rate_d(), 1001);
            assert_eq!(frame.timecode(), 1234);
            assert_eq!(frame.pixel_format(), PixelFormat::UYVY);
            assert_eq!(frame.four_cc(), FOURCC_UYVY);
            assert_eq!(frame.stride(), 8);
            assert_eq!(frame.data_size(), 16);
            assert_eq!(frame.get_data(), (0u8..16).collect::<Vec<u8>>());
        }
        other => panic!("not a video frame: {:?}", other),
    }
}

#[test]
fn capture_of_video_with_padded_rows() {
    let data = vec![1u8; 24];
    let mut native = video(&data);
    native.line_stride = Some(12);
    let frame = capture_video(&native).unwrap();
    assert_eq!(frame.stride(), 12);
    assert_eq!(frame.data_size(), 24);
}

#[test]
fn capture_of_planar_video_counts_every_plane() {
    let data = vec![1u8; 12];
    let mut native = video(&data);
    native.four_cc = FOURCC_I420;
    native.line_stride = Some(4);
    let frame = capture_video(&native).unwrap();
    assert_eq!(frame.pixel_format(), PixelFormat::I420);
    assert_eq!(frame.data_size(), 12);
    let short = vec![1u8; 8];
    let mut cut = video(&short);
    cut.four_cc = FOURCC_I420;
    cut.line_stride = Some(4);
    assert_eq!(
        capture_video(&cut),
        Err(NdiError::BufferSizeMismatch { expected: 12, actual: 8 })
    );
}

#[test]
fn capture_of_video_refuses_a_payload_of_another_length() {
    let receiver = open_receiver();
    let data = vec![0u8; 15];
    let native =
        NativeFrame { frame_type: 1, video: Some(video(&data)), audio: None, metadata: None };
    assert_eq!(
        receiver.receive_frame(&native),
        Err(NdiError::BufferSizeMismatch { expected: 16, actual: 15 })
    );
    assert!(receiver.is_open());
}

#[test]
fn capture_of_video_refuses_an_unknown_format() {
    let receiver = open_receiver();
    let data = vec![0u8; 16];
    let mut unknown = video(&data);
    unknown.four_cc = 0xFFFF_FFFF;
    let native = NativeFrame { frame_type: 1, video: Some(unknown), audio: None, metadata: None };
    assert_eq!(receiver.receive_frame(&native), Err(NdiError::UnsupportedFormat(0xFFFF_FFFF)));
}

#[test]
fn capture_of_video_refuses_rows_shorter_than_the_width() {
    let data = vec![0u8; 14];
    let mut native = video(&data);
    native.line_stride = Some(7);
    assert_eq!(
        capture_video(&native),
        Err(NdiError::BufferSizeMismatch { expected: 8, actual: 7 })
    );
}

#[test]
fn capture_of_video_with_an_explicit_size() {
    let data = vec![4u8; 40];
    let mut native = video(&data);
    native.four_cc = FOURCC_BGRA;
    native.line_stride = None;
    native.data_size = Some(40);
    let frame = capture_video(&native).unwrap();
    assert_eq!(frame.data_size(), 40);
    assert_eq!(frame.stride(), 16);
    assert_eq!(frame.pixel_format(), PixelFormat::BGRA);
    native.data_size = Some(41);
    assert_eq!(
        capture_video(&native),
        Err(NdiError::BufferSizeMismatch { expected: 41, actual: 40 })
    );
}

#[test]
fn capture_of_video_without_any_size_assumes_packed_yuv() {
    let data = vec![4u8; 16];
    let mut native = video(&data);
    native.line_stride = None;
    native.data_size = None;
    let frame = capture_video(&native).unwrap();
    assert_eq!(frame.data_size(), 16);
    assert_eq!(frame.stride(), 8);
    let mut other = video(&data);
    other.four_cc = FOURCC_BGRA;
    other.line_stride = None;
    other.data_size = None;
    assert_eq!(capture_video(&other), Err(NdiError::UnsupportedFormat(FOURCC_BGRA)));
}

#[test]
fn capture_of_audio_copies_the_payload() {
    let receiver = open_receiver();
    let buffer: Vec<u8> = (0u8..24).collect();
    let native = NativeFrame {
        frame_type: 2,
        video: None,
        audio: Some(NativeAudio {
            sample_rate: 48000,
            num_channels: 2,
            num_samples: 3,
            timecode: -5,
            data: &buffer,
        }),
        metadata: None,
    };
    match receiver.receive_frame(&native).unwrap() {
        CapturedUnit::Audio(frame) => {
            assert_eq!(frame.sample_rate(), 48000);
            assert_eq!(frame.num_channels(), 2);
            assert_eq!(frame.num_samples(), 3);
            assert_eq!(frame.timecode(), -5);
            assert_eq!(frame.data_size(), 24);
            assert_eq!(frame.get_data(), buffer);
        }
        other => panic!("not an audio frame: {:?}", other),
    }
}

#[test]
fn capture_of_audio_refuses_a_payload_of_another_length() {
    let buffer = vec![0u8; 23];
    let native = NativeAudio {
        sample_rate: 48000,
        num_channels: 2,
        num_samples: 3,
        timecode: 0,
        data: &buffer,
    };
    assert_eq!(
        capture_audio(&native),
        Err(NdiError::BufferSizeMismatch { expected: 24, actual: 23 })
    );
}

#[test]
fn capture_of_metadata_keeps_the_text() {
    let receiver = open_receiver();
    let native = NativeFrame {
        frame_type: 3,
        video: None,
        audio: None,
        metadata: Some(NativeMetadata { timecode: 8, data: "<tally/>" }),
    };
    match receiver.receive_frame(&native).unwrap() {
        CapturedUnit::Metadata(frame) => {
            assert_eq!(frame.timecode, 8);
            assert_eq!(frame.data, "<tally/>");
        }
        other => panic!("not a metadata frame: {:?}", other),
    }
}

#[test]
fn capture_reads_only_the_unit_of_its_kind() {
    let receiver = open_receiver();
    let data = vec![0u8; 16];
    let native = NativeFrame {
        frame_type: 0,
        video: Some(video(&data)),
        audio: None,
        metadata: Some(NativeMetadata { timecode: 8, data: "x" }),
    };
    assert_eq!(receiver.receive_frame(&native), Ok(CapturedUnit::Nothing));
}

#[test]
fn receiver_closes_twice() {
    let mut receiver = open_receiver();
    receiver.close();
    receiver.close();
    assert!(!receiver.is_open());
    assert_eq!(receiver.handle(), None);
}

#[test]
fn closed_receiver_refuses_everything() {
    let mut receiver = open_receiver();
    let found = sources(&["A"]);
    assert_eq!(receiver.connect_to_source("A", &found), Ok(0));
    receiver.close();
    let closed = Err(NdiError::NotInitialized(Component::Receiver));
    assert_eq!(receiver.get_connected_source(), None);
    assert_eq!(receiver.connect_scan_timeout(), closed);
    assert_eq!(receiver.capture_timeout(None), closed);
    assert_eq!(receiver.capture_timeout(Some(1)), closed);
    assert_eq!(
        receiver.connect_to_source("A", &found),
        Err(NdiError::NotInitialized(Component::Receiver))
    );
    assert_eq!(
        receiver.connect_to_source("A", &Vec::new()),
        Err(NdiError::NotInitialized(Component::Receiver))
    );
    assert_eq!(
        receiver.receive_frame(&unit_of(0)),
        Err(NdiError::NotInitialized(Component::Receiver))
    );
    let data = vec![0u8; 16];
    let native =
        NativeFrame { frame_type: 1, video: Some(video(&data)), audio: None, metadata: None };
    assert_eq!(
        receiver.receive_frame(&native),
        Err(NdiError::NotInitialized(Component::Receiver))
    );
    assert_eq!(receiver.get_connected_source(), None);
}
