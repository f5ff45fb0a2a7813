//! The receive session: bound to at most one source, it turns what the
//! transport captured into frames that own their payload.

use vstd::prelude::*;
use vstd::slice::slice_to_vec;
use crate::codec::lemma_frame_size_fits;
use crate::codec::received_layout;
use crate::codec::spec_audio_buffer_size;
use crate::codec::spec_received_layout;
use crate::codec::PixelFormat;
use crate::discovery::NdiSource;
use crate::engine::spec_timeout;
use crate::engine::Runtime;
use crate::engine::CONNECT_SCAN_TIMEOUT_MS;
use crate::engine::DEFAULT_TIMEOUT_MS;
use crate::error::Component;
use crate::error::InitStage;
use crate::error::NdiError;
use crate::frames::AudioFrameView;
use crate::frames::CapturedUnit;
use crate::frames::CapturedUnitView;
use crate::frames::FrameType;
use crate::frames::MetadataFrameView;
use crate::frames::NdiAudioFrame;
use crate::frames::NdiMetadataFrame;
use crate::frames::NdiVideoFrame;
use crate::frames::VideoFrameView;

verus! {

/// A video frame as the transport hands it over. The payload is the
/// transport's own memory, good until the next capture.
pub struct NativeVideo<'a> {
    pub width: u32,
    pub height: u32,
    pub frame_rate_n: u32,
    pub frame_rate_d: u32,
    pub timecode: i64,
    pub four_cc: u32,
    /// The distance between rows, where the transport gives one.
    pub line_stride: Option<u32>,
    /// The length of the payload, where the transport gives one.
    pub data_size: Option<u32>,
    pub data: &'a [u8],
}

/// An audio frame as the transport hands it over.
pub struct NativeAudio<'a> {
    pub sample_rate: u32,
    pub num_channels: u32,
    pub num_samples: u32,
    pub timecode: i64,
    pub data: &'a [u8],
}

/// A metadata frame as the transport hands it over.
pub struct NativeMetadata<'a> {
    pub timecode: i64,
    pub data: &'a str,
}

/// The outcome of one capture of the transport: the number of the kind of
/// unit, and the unit of each kind that it filled in.
pub struct NativeFrame<'a> {
    pub frame_type: u32,
    pub video: Option<NativeVideo<'a>>,
    pub audio: Option<NativeAudio<'a>>,
    pub metadata: Option<NativeMetadata<'a>>,
}

/// The frame that a captured video frame becomes, or why it is refused: its
/// layout must be known, and its payload exactly as long as the layout says.
pub open spec fn spec_capture_video(video: NativeVideo) -> Result<VideoFrameView, NdiError> {
    match spec_received_layout(
        video.width,
        video.height,
        video.four_cc,
        video.line_stride,
        video.data_size,
    ) {
        Err(e) => Err(e),
        Ok(layout) => if video.data@.len() == layout.size {
            Ok(
                VideoFrameView {
                    width: video.width,
                    height: video.height,
                    frame_rate_n: video.frame_rate_n,
                    frame_rate_d: video.frame_rate_d,
                    timecode: video.timecode,
                    format: PixelFormat::spec_from_code(video.four_cc)->Some_0,
                    stride: layout.stride,
                    data: video.data@,
                },
            )
        } else {
            Err(
                NdiError::BufferSizeMismatch {
                    expected: layout.size,
                    actual: video.data@.len() as u128,
                },
            )
        },
    }
}

/// The frame that a captured audio frame becomes, or why it is refused: its
/// payload must hold four bytes per channel and sample.
pub open spec fn spec_capture_audio(audio: NativeAudio) -> Result<AudioFrameView, NdiError> {
    if audio.data@.len() == spec_audio_buffer_size(
        audio.num_channels as int,
        audio.num_samples as int,
    ) {
        Ok(
            AudioFrameView {
                sample_rate: audio.sample_rate,
                num_channels: audio.num_channels,
                num_samples: audio.num_samples,
                timecode: audio.timecode,
                data: audio.data@,
            },
        )
    } else {
        Err(
            NdiError::BufferSizeMismatch {
                expected: spec_audio_buffer_size(
                    audio.num_channels as int,
                    audio.num_samples as int,
                ) as u128,
                actual: audio.data@.len() as u128,
            },
        )
    }
}

/// What a capture yields. The kind decides: nothing and failure carry no
/// payload; a kind whose unit the transport did not fill in is a failure; a
/// unit that is there is checked and copied.
pub open spec fn spec_capture(native: NativeFrame) -> Result<CapturedUnitView, NdiError> {
    match FrameType::spec_from_code(native.frame_type) {
        FrameType::Nothing => Ok(CapturedUnitView::Nothing),
        FrameType::Error => Ok(CapturedUnitView::Error),
        FrameType::Video => match native.video {
            None => Ok(CapturedUnitView::Error),
            Some(video) => match spec_capture_video(video) {
                Ok(frame) => Ok(CapturedUnitView::Video(frame)),
                Err(e) => Err(e),
            },
        },
        FrameType::Audio => match native.audio {
            None => Ok(CapturedUnitView::Error),
            Some(audio) => match spec_capture_audio(audio) {
                Ok(frame) => Ok(CapturedUnitView::Audio(frame)),
                Err(e) => Err(e),
            },
        },
        FrameType::Metadata => match native.metadata {
            None => Ok(CapturedUnitView::Error),
            Some(metadata) => Ok(
                CapturedUnitView::Metadata(
                    MetadataFrameView { timecode: metadata.timecode, data: metadata.data@ },
                ),
            ),
        },
    }
}

/// Turns a captured video frame into one that owns a copy of the payload.
pub fn capture_video(video: &NativeVideo) -> (result: Result<NdiVideoFrame, NdiError>)
    ensures
        match spec_capture_video(*video) {
            Ok(view) => result matches Ok(frame) && frame@ == view,
            Err(e) => result == Err::<NdiVideoFrame, NdiError>(e),
        },
{
    let layout = match received_layout(
        video.width,
        video.height,
        video.four_cc,
        video.line_stride,
        video.data_size,
    ) {
        Ok(layout) => layout,
        Err(e) => {
            return Err(e);
        },
    };
    if video.data.len() as u128 != layout.size {
        return Err(
            NdiError::BufferSizeMismatch {
                expected: layout.size,
                actual: video.data.len() as u128,
            },
        );
    }
    proof {
        lemma_frame_size_fits(
            PixelFormat::spec_from_code(video.four_cc)->Some_0,
            layout.stride,
            video.height,
        );
    }
    match video.line_stride {
        Some(_) => NdiVideoFrame::with_stride(
            video.width,
            video.height,
            video.frame_rate_n,
            video.frame_rate_d,
            video.timecode,
            video.four_cc,
            layout.stride,
            slice_to_vec(video.data),
        ),
        None => NdiVideoFrame::new(
            video.width,
            video.height,
            video.frame_rate_n,
            video.frame_rate_d,
            video.timecode,
            video.data.len(),
            slice_to_vec(video.data),
            video.four_cc,
        ),
    }
}

/// Turns a captured audio frame into one that owns a copy of the payload.
pub fn capture_audio(audio: &NativeAudio) -> (result: Result<NdiAudioFrame, NdiError>)
    ensures
        match spec_capture_audio(*audio) {
            Ok(view) => result matches Ok(frame) && frame@ == view,
            Err(e) => result == Err::<NdiAudioFrame, NdiError>(e),
        },
{
    NdiAudioFrame::new(
        audio.sample_rate,
        audio.num_channels,
        audio.num_samples,
        audio.timecode,
        slice_to_vec(audio.data),
    )
}

/// The three stations of a receive session.
#[derive(Clone, Copy, Debug, PartialEq, Eq, Structural)]
pub enum ReceiverState {
    /// Open, bound to no source.
    Created,
    /// Open, bound to a source.
    Connected,
    /// Closed for good.
    Closed,
}

/// Where a receive session stands.
pub enum ReceiverView {
    /// Open, bound to no source.
    Created,
    /// Open, bound to the source of this name.
    Connected(Seq<char>),
    /// Closed for good.
    Closed,
}

/// The first place in `sources` that holds a source of this name, from `from`
/// on.
pub open spec fn spec_position(sources: Seq<NdiSource>, name: Seq<char>, from: int) -> Option<int>
    decreases sources.len() - from,
{
    if from < 0 || from >= sources.len() {
        None
    } else if sources[from].name@ == name {
        Some(from)
    } else {
        spec_position(sources, name, from + 1)
    }
}

impl ReceiverView {
    pub open spec fn is_open(self) -> bool {
        !(self is Closed)
    }

    /// The station at which the session stands.
    pub open spec fn state(self) -> ReceiverState {
        match self {
            ReceiverView::Created => ReceiverState::Created,
            ReceiverView::Connected(_) => ReceiverState::Connected,
            ReceiverView::Closed => ReceiverState::Closed,
        }
    }

    /// The name of the source that the session is bound to.
    pub open spec fn connected_source(self) -> Option<Seq<char>> {
        match self {
            ReceiverView::Connected(name) => Some(name),
            _ => None,
        }
    }

    /// What a request to connect answers: the place of the source to bind to.
    /// A closed session refuses; a scan without any source is a timeout; a scan
    /// without a source of this name has not found it.
    pub open spec fn connect_result(self, name: Seq<char>, sources: Seq<NdiSource>) -> Result<
        int,
        NdiError,
    > {
        if !self.is_open() {
            Err(NdiError::NotInitialized(Component::Receiver))
        } else if sources.len() == 0 {
            Err(NdiError::DiscoveryTimeout)
        } else {
            match spec_position(sources, name, 0) {
                Some(i) => Ok(i),
                None => Err(NdiError::SourceNotFound),
            }
        }
    }

    /// Where the session stands after a request to connect: bound to the new
    /// source where it was found, as before where not.
    pub open spec fn connect(self, name: Seq<char>, sources: Seq<NdiSource>) -> ReceiverView {
        if self.connect_result(name, sources) is Ok {
            ReceiverView::Connected(name)
        } else {
            self
        }
    }

    /// The milliseconds that the scan before a connection waits.
    pub open spec fn connect_scan_timeout(self) -> Result<u32, NdiError> {
        if self.is_open() {
            Ok(CONNECT_SCAN_TIMEOUT_MS)
        } else {
            Err(NdiError::NotInitialized(Component::Receiver))
        }
    }

    /// The milliseconds that a capture waits.
    pub open spec fn capture_timeout(self, timeout_ms: Option<u32>) -> Result<u32, NdiError> {
        if self.is_open() {
            Ok(spec_timeout(timeout_ms))
        } else {
            Err(NdiError::NotInitialized(Component::Receiver))
        }
    }

    /// What a capture yields.
    pub open spec fn receive_frame(self, native: NativeFrame) -> Result<CapturedUnitView, NdiError> {
        if self.is_open() {
            spec_capture(native)
        } else {
            Err(NdiError::NotInitialized(Component::Receiver))
        }
    }

    pub open spec fn close(self) -> ReceiverView {
        ReceiverView::Closed
    }
}

/// The first place in `sources` that holds a source of this name.
pub fn find_source(sources: &Vec<NdiSource>, name: &str) -> (found: Option<usize>)
    ensures
        match found {
            Some(i) => {
                &&& i < sources@.len()
                &&& sources@[i as int].name@ == name@
                &&& forall|j: int| 0 <= j < i ==> (#[trigger] sources@[j]).name@ != name@
            },
            None => forall|j: int| 0 <= j < sources@.len() ==> (#[trigger] sources@[j]).name@ != name@,
        },
        spec_position(sources@, name@, 0) == match found {
            Some(i) => Some(i as int),
            None => None::<int>,
        },
{
    let wanted = name.to_owned();
    let mut i: usize = 0;
    while i < sources.len()
        invariant
            i <= sources@.len(),
            wanted@ == name@,
            forall|j: int| 0 <= j < i ==> (#[trigger] sources@[j]).name@ != name@,
            spec_position(sources@, name@, 0) == spec_position(sources@, name@, i as int),
        decreases sources@.len() - i,
    {
        if sources[i].name == wanted {
            return Some(i);
        }
        i += 1;
    }
    None
}

/// A receive session. It owns the transport's handle from its creation until
/// it is closed, and knows the name of the source it is bound to.
#[derive(Debug)]
pub struct NdiReceiver<H> {
    receiver: Option<H>,
    connected_source: Option<String>,
}

impl<H> View for NdiReceiver<H> {
    type V = ReceiverView;

    closed spec fn view(&self) -> ReceiverView {
        match self.receiver {
            None => ReceiverView::Closed,
            Some(_) => match self.connected_source {
                Some(name) => ReceiverView::Connected(name@),
                None => ReceiverView::Created,
            },
        }
    }
}

impl<H> NdiReceiver<H> {
    /// The handle that the session owns while it is open.
    pub closed spec fn spec_handle(&self) -> Option<H> {
        self.receiver
    }

    /// Opens a receive session over the handle that the transport gave. The
    /// runtime must run, and there must be a handle. The session is bound to no
    /// source yet.
    pub fn new(runtime: &Runtime, handle: Option<H>) -> (result: Result<NdiReceiver<H>, NdiError>)
        ensures
            if !runtime.spec_is_started() {
                result == Err::<NdiReceiver<H>, NdiError>(NdiError::InitError(InitStage::Runtime))
            } else if handle is None {
                result == Err::<NdiReceiver<H>, NdiError>(
                    NdiError::InitError(InitStage::Handle(Component::Receiver)),
                )
            } else {
                result matches Ok(receiver) && receiver@ == ReceiverView::Created
                    && receiver.spec_handle() == handle
            },
    {
        if !runtime.is_started() {
            return Err(NdiError::InitError(InitStage::Runtime));
        }
        match handle {
            None => Err(NdiError::InitError(InitStage::Handle(Component::Receiver))),
            Some(h) => Ok(NdiReceiver { receiver: Some(h), connected_source: None }),
        }
    }

    pub fn is_open(&self) -> (open: bool)
        ensures
            open == self@.is_open(),
    {
        self.receiver.is_some()
    }

    /// The station at which the session stands.
    pub fn state(&self) -> (state: ReceiverState)
        ensures
            state == self@.state(),
    {
        if self.receiver.is_none() {
            ReceiverState::Closed
        } else if self.connected_source.is_some() {
            ReceiverState::Connected
        } else {
            ReceiverState::Created
        }
    }

    /// The handle, for the host to connect and capture with. A closed session
    /// has none.
    pub fn handle(&self) -> (handle: Option<&H>)
        ensures
            handle is Some == self@.is_open(),
            handle matches Some(h) ==> self.spec_handle() == Some(*h),
    {
        self.receiver.as_ref()
    }

    /// The handle, for the host to change. The session stays as it is.
    pub fn handle_mut(&mut self) -> (handle: Option<&mut H>)
        ensures
            handle is Some == old(self)@.is_open(),
            final(self)@ == old(self)@,
            handle matches Some(h) ==> old(self).spec_handle() == Some(*h),
            handle matches Some(h) ==> final(self).spec_handle() == Some(*final(h)),
    {
        self.receiver.as_mut()
    }

    /// The name of the source that the session is bound to.
    pub fn get_connected_source(&self) -> (name: Option<String>)
        ensures
            match self@.connected_source() {
                Some(n) => name matches Some(s) && s@ == n,
                None => name is None,
            },
    {
        if self.receiver.is_none() {
            return None;
        }
        match &self.connected_source {
            Some(name) => Some(name.clone()),
            None => None,
        }
    }

    /// The milliseconds that the scan before a connection is to wait. A closed
    /// session connects to nothing.
    pub fn connect_scan_timeout(&self) -> (result: Result<u32, NdiError>)
        ensures
            result == self@.connect_scan_timeout(),
    {
        if self.receiver.is_none() {
            Err(NdiError::NotInitialized(Component::Receiver))
        } else {
            Ok(CONNECT_SCAN_TIMEOUT_MS)
        }
    }

    /// Binds the session to the source named `source_name` among those that a
    /// scan reported, and says at which place of the report it stands, for the
    /// host to connect the transport to it. The names must be equal character
    /// for character; of several sources under the name the first is taken. A
    /// session that was bound before is bound anew.
    ///
    /// A closed session refuses. An empty report is a timeout of the
    /// discovery; a report without the name has not found the source. Whatever
    /// fails leaves the session as it was.
    pub fn connect_to_source(&mut self, source_name: &str, sources: &Vec<NdiSource>) -> (result:
        Result<usize, NdiError>)
        ensures
            final(self)@ == old(self)@.connect(source_name@, sources@),
            final(self).spec_handle() == old(self).spec_handle(),
            match old(self)@.connect_result(source_name@, sources@) {
                Ok(i) => result == Ok::<usize, NdiError>(i as usize),
                Err(e) => result == Err::<usize, NdiError>(e),
            },
            result matches Ok(i) ==> {
                &&& i < sources@.len()
                &&& sources@[i as int].name@ == source_name@
                &&& forall|j: int| 0 <= j < i ==> (#[trigger] sources@[j]).name@ != source_name@
            },
    {
        if self.receiver.is_none() {
            return Err(NdiError::NotInitialized(Component::Receiver));
        }
        if sources.len() == 0 {
            return Err(NdiError::DiscoveryTimeout);
        }
        match find_source(sources, source_name) {
            Some(i) => {
                self.connected_source = Some(source_name.to_owned());
                Ok(i)
            },
            None => Err(NdiError::SourceNotFound),
        }
    }

    /// The milliseconds that a capture is to wait: the caller's, or the
    /// default. A closed session captures nothing.
    pub fn capture_timeout(&self, timeout_ms: Option<u32>) -> (result: Result<u32, NdiError>)
        ensures
            result == self@.capture_timeout(timeout_ms),
    {
        if self.receiver.is_none() {
            return Err(NdiError::NotInitialized(Component::Receiver));
        }
        match timeout_ms {
            Some(t) => Ok(t),
            None => Ok(DEFAULT_TIMEOUT_MS),
        }
    }

    /// The unit that one capture of the transport yields. The kind is read from
    /// the frame-type number; the payload of a video or audio frame is checked
    /// against its geometry and copied, so that the unit outlives the
    /// transport's memory. That the time ran out is no failure: it yields the
    /// unit that holds nothing.
    ///
    /// A closed session refuses. A frame in an unknown format, or with a
    /// payload of another length than its geometry gives, is refused with the
    /// reason; the session stays open.
    pub fn receive_frame(&self, native: &NativeFrame) -> (result: Result<CapturedUnit, NdiError>)
        ensures
            match self@.receive_frame(*native) {
                Ok(view) => result matches Ok(unit) && unit@ == view,
                Err(e) => result == Err::<CapturedUnit, NdiError>(e),
            },
    {
        if self.receiver.is_none() {
            return Err(NdiError::NotInitialized(Component::Receiver));
        }
        match FrameType::from_code(native.frame_type) {
            FrameType::Nothing => Ok(CapturedUnit::Nothing),
            FrameType::Error => Ok(CapturedUnit::Error),
            FrameType::Video => match &native.video {
                None => Ok(CapturedUnit::Error),
                Some(video) => match capture_video(video) {
                    Ok(frame) => Ok(CapturedUnit::Video(frame)),
                    Err(e) => Err(e),
                },
            },
            FrameType::Audio => match &native.audio {
                None => Ok(CapturedUnit::Error),
                Some(audio) => match capture_audio(audio) {
                    Ok(frame) => Ok(CapturedUnit::Audio(frame)),
                    Err(e) => Err(e),
                },
            },
            FrameType::Metadata => match &native.metadata {
                None => Ok(CapturedUnit::Error),
                Some(metadata) => Ok(
                    CapturedUnit::Metadata(
                        NdiMetadataFrame::new(metadata.timecode, metadata.data.to_owned()),
                    ),
                ),
            },
        }
    }

    /// Closes the session: gives up the handle and forgets the source. Closing
    /// a closed session changes nothing.
    pub fn close(&mut self)
        ensures
            final(self)@ == old(self)@.close(),
            final(self).spec_handle() is None,
    {
        self.connected_source = None;
        self.receiver = None;
    }
}

} // verus!
