//! The decode session state machine for the OpenH264 backend interface.
//!
//! The native backend is a foreign collaborator reached through a capability
//! interface (initialize, decode, destroy, set/get-option). This module
//! holds everything about that interface that can be decided from plain
//! values: the data layout its calls exchange, how a status word maps onto
//! the error taxonomy, the session lifecycle (ready, or terminally failed),
//! and how a reported picture buffer becomes a decoded frame with scoped
//! pixel access. The calls themselves live outside this crate; their status
//! words and buffer contents are handed in as values and judged here.
#![allow(nonstandard_style)]

use vstd::arithmetic::mul::lemma_mul_upper_bound;
use vstd::prelude::*;

use crate::pixelformat::PixelFormat;
use crate::timing::Timestamp;
use crate::videodecoder::{units_view, DecodeError, DecodeErrorKind, InitError};

verus! {

// Status bits of the native decode call's status word.
/// The call completed without error.
pub const DS_ERROR_FREE: u32 = 0;

/// The backend buffered the input and needs more data before a picture.
pub const DS_FRAME_PENDING: u32 = 1;

/// A reference frame was lost.
pub const DS_REF_LOST: u32 = 2;

/// The bitstream could not be parsed.
pub const DS_BITSTREAM_ERROR: u32 = 4;

/// A dependent layer was lost.
pub const DS_DEP_LAYER_LOST: u32 = 8;

/// No parameter sets were seen before slice data.
pub const DS_NO_PARAM_SETS: u32 = 16;

/// Errors were concealed; output continues.
pub const DS_DATA_ERROR_CONCEALED: u32 = 32;

/// An argument of the call was invalid.
pub const DS_INVALID_ARGUMENT: u32 = 4096;

/// The backend expected its initial options before this call.
pub const DS_INITIAL_OPT_EXPECTED: u32 = 8192;

/// The backend ran out of memory.
pub const DS_OUT_OF_MEMORY: u32 = 16384;

/// The destination buffer is too small for the picture.
pub const DS_DST_BUF_NEED_EXPAND: u32 = 32768;

/// Planar 4:2:0 output, in the native interface's format numbering.
pub const VIDEO_FORMAT_I420: u32 = 23;

/// Error concealment by slice motion-vector copy across an IDR, freezing on
/// a resolution change.
pub const ERROR_CON_SLICE_MV_COPY_CROSS_IDR_FREEZE_RES_CHANGE: u32 = 7;

/// Plain AVC bitstream framing, as a configuration-record-prefixed
/// elementary stream.
pub const VIDEO_BITSTREAM_AVC: u32 = 0;

/// The buffer-status value that announces one ready picture.
pub const BUFFER_STATUS_READY: i32 = 1;

// Plain-value models of the native interface's data layout. The native
// definitions carry these exact fields; this core reads and writes them as
// ordinary values.
/// Rate thresholds of one spatial layer.
#[derive(Clone, Copy, Debug)]
pub struct Struct_Unnamed5 {
    pub iWidth: i32,
    pub iHeight: i32,
    pub iThresholdOfInitRate: i32,
    pub iThresholdOfMaxRate: i32,
    pub iThresholdOfMinRate: i32,
    pub iMinThresholdFrameRate: i32,
    pub iSkipFrameRate: i32,
    pub iSkipFrameStep: i32,
}

/// Geometry of a decoded picture held in system memory: its size, format
/// tag, and the byte stride of the luma and chroma planes.
#[derive(Clone, Copy, Debug)]
pub struct Struct_TagSysMemBuffer {
    pub iWidth: i32,
    pub iHeight: i32,
    pub iFormat: i32,
    pub iStride: [i32; 2],
}

/// The kinds of buffer a decode call can describe. The native interface
/// overlays them in one untyped union; this core keeps them as a tagged
/// variant, with system memory the one kind in use.
#[derive(Clone, Copy, Debug)]
pub enum BufferData {
    SystemMemory(Struct_TagSysMemBuffer),
}

/// The buffer-description union of the native interface, as a tagged value.
#[derive(Clone, Copy, Debug)]
pub struct Union_Unnamed6 {
    pub data: BufferData,
}

impl Union_Unnamed6 {
    /// The description read as a system-memory buffer, the one
    /// representation this core supports.
    pub fn sSystemBuffer(&self) -> (b: &Struct_TagSysMemBuffer)
        ensures
            self.data matches BufferData::SystemMemory(s) && *b == s,
    {
        match &self.data {
            BufferData::SystemMemory(b) => b,
        }
    }
}

/// What a decode call reports about its output picture: whether one is
/// ready, the timestamps the backend tracked for it, and its buffer
/// description.
#[derive(Clone, Copy, Debug)]
pub struct Struct_TagBufferInfo {
    pub iBufferStatus: i32,
    pub uiInBsTimeStamp: u64,
    pub uiOutYuvTimeStamp: u64,
    pub UsrData: Union_Unnamed6,
}

/// A backend library version.
#[derive(Clone, Copy, PartialEq, Eq, Structural, Debug)]
pub struct Struct__tagVersion {
    pub uMajor: u32,
    pub uMinor: u32,
    pub uRevision: u32,
    pub uReserved: u32,
}

/// A request to recover from loss using a long-term reference frame.
#[derive(Clone, Copy, Debug)]
pub struct Struct_Unnamed16 {
    pub uiFeedbackType: u32,
    pub uiIDRPicId: u32,
    pub iLastCorrectFrameNum: i32,
    pub iCurrentFrameNum: i32,
}

/// Feedback on marking a frame as a long-term reference.
#[derive(Clone, Copy, Debug)]
pub struct Struct_Unnamed17 {
    pub uiFeedbackType: u32,
    pub uiIDRPicId: u32,
    pub iLTRFrameNum: i32,
}

/// Long-term-reference configuration.
#[derive(Clone, Copy, Debug)]
pub struct Struct_Unnamed18 {
    pub bEnableLongTermReference: u8,
    pub iLTRRefNum: i32,
}

/// How a picture is split into slices.
#[derive(Clone, Copy, Debug)]
pub struct Struct_Unnamed19 {
    pub uiSliceMbNum: [u32; 35],
    pub uiSliceNum: u32,
    pub uiSliceSizeConstraint: u32,
}

/// A slice mode together with its argument.
#[derive(Clone, Copy, Debug)]
pub struct Struct_Unnamed25 {
    pub uiSliceMode: u32,
    pub sSliceArgument: Struct_Unnamed19,
}

/// Properties of the incoming bitstream: the structure's size, for
/// versioning, and the bitstream framing.
#[derive(Clone, Copy, PartialEq, Eq, Structural, Debug)]
pub struct Struct_Unnamed30 {
    pub size: u32,
    pub eVideoBsType: u32,
}

/// The decoding configuration handed to the backend at initialization.
#[derive(Debug)]
pub struct Struct_TagSVCDecodingParam {
    /// Path for a restructured-bitstream dump, unused by this core.
    pub pFileNameRestructed: Option<String>,
    pub eOutputColorFormat: u32,
    pub uiCpuLoad: u32,
    pub uiTargetDqLayer: u8,
    pub eEcActiveIdc: u32,
    pub bParseOnly: u8,
    pub sVideoProperty: Struct_Unnamed30,
}

/// A bitrate of one layer.
#[derive(Clone, Copy, Debug)]
pub struct Struct_TagBitrateInfo {
    pub iLayer: u32,
    pub iBitrate: i32,
}

/// A profile of one layer.
#[derive(Clone, Copy, Debug)]
pub struct Struct_TagProfileInfo {
    pub iLayer: i32,
    pub uiProfileIdc: u32,
}

/// A level of one layer.
#[derive(Clone, Copy, Debug)]
pub struct Struct_TagLevelInfo {
    pub iLayer: i32,
    pub uiLevelIdc: u32,
}

/// Whether a frame was delivered, and what was dropped if not.
#[derive(Clone, Copy, Debug)]
pub struct Struct_TagDeliveryStatus {
    pub bDeliveryFlag: u8,
    pub iDropFrameType: i32,
    pub iDropFrameSize: i32,
}

/// What the installed decoder is capable of.
#[derive(Clone, Copy, Debug)]
pub struct Struct_TagDecoderCapability {
    pub iProfileIdc: i32,
    pub iProfileIop: i32,
    pub iLevelIdc: i32,
    pub iMaxMbps: i32,
    pub iMaxFs: i32,
    pub iMaxCpb: i32,
    pub iMaxDpb: i32,
    pub iMaxBr: i32,
    pub bRedPicCap: u8,
}

/// What the status word of a decode call alone says about it.
#[derive(Clone, Copy, PartialEq, Eq, Structural, Debug)]
pub enum StatusClass {
    /// The call succeeded; whether a picture is ready is the buffer
    /// description's say.
    ErrorFree,
    /// The backend buffered input and needs more data: not an error.
    Pending,
    /// The call failed with this kind.
    Failed(DecodeErrorKind),
}

/// Maps a native status word onto the error taxonomy. A pending bit wins
/// over everything; among error bits, resource exhaustion and per-call
/// argument faults are reported before stream damage; a status that sets
/// none of the documented bits and is not error-free is read as stream
/// damage rather than trusted.
pub open spec fn spec_classify_status(status: u32) -> StatusClass {
    if status & DS_FRAME_PENDING != 0 {
        StatusClass::Pending
    } else if status & DS_OUT_OF_MEMORY != 0 {
        StatusClass::Failed(DecodeErrorKind::OutOfMemory)
    } else if status & DS_DST_BUF_NEED_EXPAND != 0 {
        StatusClass::Failed(DecodeErrorKind::BufferTooSmall)
    } else if status & DS_INVALID_ARGUMENT != 0 {
        StatusClass::Failed(DecodeErrorKind::InvalidArgument)
    } else if status & DS_INITIAL_OPT_EXPECTED != 0 || status & DS_NO_PARAM_SETS != 0 {
        StatusClass::Failed(DecodeErrorKind::MissingParameterSets)
    } else if status & DS_REF_LOST != 0 {
        StatusClass::Failed(DecodeErrorKind::ReferenceLost)
    } else if status & DS_DEP_LAYER_LOST != 0 {
        StatusClass::Failed(DecodeErrorKind::DependentLayerLost)
    } else if status & DS_BITSTREAM_ERROR != 0 {
        StatusClass::Failed(DecodeErrorKind::BitstreamError)
    } else if status == DS_ERROR_FREE || status == DS_DATA_ERROR_CONCEALED {
        StatusClass::ErrorFree
    } else {
        StatusClass::Failed(DecodeErrorKind::BitstreamError)
    }
}

/// Maps a native status word onto the error taxonomy; see
/// [`spec_classify_status`] for the reading order.
pub fn classify_status(status: u32) -> (c: StatusClass)
    ensures
        c == spec_classify_status(status),
{
    if status & DS_FRAME_PENDING != 0 {
        StatusClass::Pending
    } else if status & DS_OUT_OF_MEMORY != 0 {
        StatusClass::Failed(DecodeErrorKind::OutOfMemory)
    } else if status & DS_DST_BUF_NEED_EXPAND != 0 {
        StatusClass::Failed(DecodeErrorKind::BufferTooSmall)
    } else if status & DS_INVALID_ARGUMENT != 0 {
        StatusClass::Failed(DecodeErrorKind::InvalidArgument)
    } else if status & DS_INITIAL_OPT_EXPECTED != 0 || status & DS_NO_PARAM_SETS != 0 {
        StatusClass::Failed(DecodeErrorKind::MissingParameterSets)
    } else if status & DS_REF_LOST != 0 {
        StatusClass::Failed(DecodeErrorKind::ReferenceLost)
    } else if status & DS_DEP_LAYER_LOST != 0 {
        StatusClass::Failed(DecodeErrorKind::DependentLayerLost)
    } else if status & DS_BITSTREAM_ERROR != 0 {
        StatusClass::Failed(DecodeErrorKind::BitstreamError)
    } else if status == DS_ERROR_FREE || status == DS_DATA_ERROR_CONCEALED {
        StatusClass::ErrorFree
    } else {
        StatusClass::Failed(DecodeErrorKind::BitstreamError)
    }
}

/// Whether an error of this kind leaves the session usable. Faults of the
/// call itself — a bad argument, a too-small destination buffer — concern
/// only that call; every other kind reflects damaged decoder state and is
/// terminal for the session.
pub open spec fn spec_is_transient(kind: DecodeErrorKind) -> bool {
    kind == DecodeErrorKind::InvalidArgument || kind == DecodeErrorKind::BufferTooSmall
}

/// Whether an error of this kind leaves the session usable; see
/// [`spec_is_transient`].
pub fn is_transient(kind: DecodeErrorKind) -> (r: bool)
    ensures
        r == spec_is_transient(kind),
{
    match kind {
        DecodeErrorKind::InvalidArgument => true,
        DecodeErrorKind::BufferTooSmall => true,
        _ => false,
    }
}

/// A decode session's lifecycle position: serving decode calls, or
/// terminally failed with the error every further call reports.
#[derive(Clone, Copy, PartialEq, Eq, Structural, Debug)]
pub enum SessionState {
    Ready,
    Failed(DecodeError),
}

/// Everything the native decode call reported, as plain values: its status
/// word, how long it ran, the buffer description it filled, and — when a
/// picture was emitted — each plane's bytes.
pub struct DecodeResponse {
    /// The status word of the decode call.
    pub status: u32,
    /// How long the call ran, in the unit of the caller's deadline.
    pub elapsed: i64,
    /// The buffer description the call filled.
    pub info: Struct_TagBufferInfo,
    /// The emitted picture's planes, one byte buffer per plane; empty when
    /// no picture was emitted.
    pub planes: Vec<Vec<u8>>,
}

impl DecodeResponse {
    /// Whether the buffer description announces one ready picture.
    pub open spec fn spec_frame_ready(self) -> bool {
        self.info.iBufferStatus == BUFFER_STATUS_READY
    }

    /// Whether a ready picture's reported geometry is usable: planar 4:2:0,
    /// positive size, non-negative strides, and one luma plus two chroma
    /// plane buffers whose lengths equal their stride times the picture
    /// height exactly.
    pub open spec fn spec_geometry_ok(self) -> bool {
        match self.info.UsrData.data {
            BufferData::SystemMemory(b) => {
                &&& b.iFormat == VIDEO_FORMAT_I420 as i32
                &&& 0 < b.iWidth
                &&& 0 < b.iHeight
                &&& 0 <= b.iStride[0]
                &&& 0 <= b.iStride[1]
                &&& self.planes@.len() == 3
                &&& self.planes@[0]@.len() == b.iStride[0] * b.iHeight
                &&& self.planes@[1]@.len() == b.iStride[1] * b.iHeight
                &&& self.planes@[2]@.len() == b.iStride[1] * b.iHeight
            },
        }
    }
}

/// A decoded picture: its geometry and one byte buffer per plane. Plane `p`
/// holds exactly `stride(p) * height` bytes.
pub struct OpenH264Image {
    width: u32,
    height: u32,
    format: PixelFormat,
    strides: Vec<usize>,
    planes: Vec<Vec<u8>>,
}

impl OpenH264Image {
    /// Every image carries one stride and one plane buffer per plane of its
    /// format, and each plane's length is exactly its stride times the
    /// image height.
    #[verifier::type_invariant]
    spec fn wf(self) -> bool {
        &&& self.strides@.len() == self.format.spec_plane_count()
        &&& self.planes@.len() == self.format.spec_plane_count()
        &&& forall|p: int|
            0 <= p < self.planes@.len() ==> (#[trigger] self.planes@[p])@.len() == self.strides@[p]
                * self.height
    }

    /// The image width in pixels.
    pub closed spec fn spec_width(self) -> u32 {
        self.width
    }

    /// The image height in pixels.
    pub closed spec fn spec_height(self) -> u32 {
        self.height
    }

    /// The image's pixel format.
    pub closed spec fn spec_format(self) -> PixelFormat {
        self.format
    }

    /// The byte stride of each plane.
    pub closed spec fn spec_strides(self) -> Seq<usize> {
        self.strides@
    }

    /// The bytes of each plane.
    pub closed spec fn spec_planes(self) -> Seq<Seq<u8>> {
        units_view(self.planes@)
    }

    /// Builds an image from its parts. Succeeds exactly when the parts are
    /// consistent: one stride and one plane buffer per plane of the format,
    /// each plane holding exactly its stride times the height in bytes.
    pub fn new(
        format: PixelFormat,
        width: u32,
        height: u32,
        strides: Vec<usize>,
        planes: Vec<Vec<u8>>,
    ) -> (r: Option<OpenH264Image>)
        ensures
            r is Some <==> {
                &&& strides@.len() == format.spec_plane_count()
                &&& planes@.len() == format.spec_plane_count()
                &&& forall|p: int|
                    0 <= p < planes@.len() ==> (#[trigger] planes@[p])@.len() == strides@[p]
                        * height
            },
            r matches Some(img) ==> {
                &&& img.spec_format() == format
                &&& img.spec_width() == width
                &&& img.spec_height() == height
                &&& img.spec_strides() == strides@
                &&& img.spec_planes() == units_view(planes@)
            },
    {
        let count = format.plane_count();
        if strides.len() != count || planes.len() != count {
            return None;
        }
        let mut p: usize = 0;
        while p < count
            invariant
                count == format.spec_plane_count(),
                strides@.len() == count,
                planes@.len() == count,
                p <= count,
                forall|q: int|
                    0 <= q < p ==> (#[trigger] planes@[q])@.len() == strides@[q] * height,
            decreases count - p,
        {
            proof {
                lemma_mul_upper_bound(
                    strides@[p as int] as int,
                    usize::MAX as int,
                    height as int,
                    u32::MAX as int,
                );
            }
            if planes[p].len() as u128 != (strides[p] as u128) * (height as u128) {
                assert(planes@[p as int]@.len() != strides@[p as int] * height);
                return None;
            }
            p = p + 1;
        }
        Some(OpenH264Image { width, height, format, strides, planes })
    }

    /// The image width in pixels.
    pub fn width(&self) -> (r: u32)
        ensures
            r == self.spec_width(),
    {
        self.width
    }

    /// The image height in pixels.
    pub fn height(&self) -> (r: u32)
        ensures
            r == self.spec_height(),
    {
        self.height
    }

    /// The image's pixel format.
    pub fn pixel_format(&self) -> (r: PixelFormat)
        ensures
            r == self.spec_format(),
    {
        self.format
    }

    /// Bits per sample beyond the format tag; the backend interface does
    /// not report one, so this is always zero.
    pub fn bit_depth(&self) -> (r: u32)
        ensures
            r == 0,
    {
        0
    }

    /// The byte stride of plane `index`.
    pub fn stride(&self, index: usize) -> (r: usize)
        requires
            index < self.spec_format().spec_plane_count(),
        ensures
            r == self.spec_strides()[index as int],
    {
        proof {
            use_type_invariant(&*self);
        }
        self.strides[index]
    }

    /// The bytes of plane `index`: exactly `stride(index) * height` of
    /// them.
    pub fn plane(&self, index: usize) -> (r: &Vec<u8>)
        requires
            index < self.spec_format().spec_plane_count(),
        ensures
            r@ == self.spec_planes()[index as int],
            r@.len() == self.spec_strides()[index as int] * self.spec_height(),
    {
        proof {
            use_type_invariant(&*self);
        }
        &self.planes[index]
    }

    /// Bits consumed per sample; the backend interface does not report one,
    /// so this is always zero.
    pub fn bps(&self) -> (r: i32)
        ensures
            r == 0,
    {
        0
    }
}

/// A decoded frame as the pipeline sees it: the picture, and the
/// presentation timestamp of the access unit that produced it, carried
/// through unchanged. Pixel access is scoped through [`Self::lock`].
pub struct DecodedVideoFrame {
    image: OpenH264Image,
    presentation_time: Timestamp,
}

impl DecodedVideoFrame {
    /// The decoded picture.
    pub closed spec fn spec_image(self) -> OpenH264Image {
        self.image
    }

    /// The presentation timestamp of the access unit this frame came from.
    pub closed spec fn spec_presentation_time(self) -> Timestamp {
        self.presentation_time
    }

    /// The frame width in pixels.
    pub fn width(&self) -> (r: u32)
        ensures
            r == self.spec_image().spec_width(),
    {
        self.image.width()
    }

    /// The frame height in pixels.
    pub fn height(&self) -> (r: u32)
        ensures
            r == self.spec_image().spec_height(),
    {
        self.image.height()
    }

    /// The byte stride of plane `index`.
    pub fn stride(&self, index: usize) -> (r: usize)
        requires
            index < self.spec_image().spec_format().spec_plane_count(),
        ensures
            r == self.spec_image().spec_strides()[index as int],
    {
        self.image.stride(index)
    }

    /// The frame's pixel format.
    pub fn pixel_format(&self) -> (r: PixelFormat)
        ensures
            r == self.spec_image().spec_format(),
    {
        self.image.format
    }

    /// The presentation timestamp of the access unit this frame came from,
    /// bit-for-bit.
    pub fn presentation_time(&self) -> (r: Timestamp)
        ensures
            r == self.spec_presentation_time(),
    {
        self.presentation_time
    }

    /// Opens scoped access to the pixel data. The guard borrows the frame,
    /// so no pixel view can outlive the guard, and no guard can outlive its
    /// frame.
    pub fn lock(&self) -> (g: DecodedVideoFrameLockGuard<'_>)
        ensures
            g.spec_image() == self.spec_image(),
    {
        DecodedVideoFrameLockGuard { image: &self.image }
    }
}

/// Scoped access to a frame's pixel memory. Every pixel view borrows the
/// guard, so none survives the guard's scope.
pub struct DecodedVideoFrameLockGuard<'a> {
    image: &'a OpenH264Image,
}

impl<'a> DecodedVideoFrameLockGuard<'a> {
    /// The picture this guard exposes.
    pub closed spec fn spec_image(self) -> OpenH264Image {
        *self.image
    }

    /// The pixel bytes of plane `plane_index`: exactly
    /// `stride(plane_index) * height` of them, valid only while the guard
    /// lives.
    pub fn pixels(&self, plane_index: usize) -> (r: &Vec<u8>)
        requires
            plane_index < self.spec_image().spec_format().spec_plane_count(),
        ensures
            r@ == self.spec_image().spec_planes()[plane_index as int],
            r@.len() == self.spec_image().spec_strides()[plane_index as int]
                * self.spec_image().spec_height(),
    {
        self.image.plane(plane_index)
    }
}

/// The outcome of submitting one access unit: a decoded frame, a request
/// for more data, a decode error, or a blown deadline.
pub enum DecodeOutcome {
    /// One decoded picture is ready.
    Frame(DecodedVideoFrame),
    /// The backend buffered the input and needs more data: not an error.
    Pending,
    /// The call failed; the error says how and carries the native status.
    Error(DecodeError),
    /// The call ran past the caller's deadline; the session is unchanged.
    Timeout,
}

/// One decode session over a native backend instance. The session tracks
/// the backend's lifecycle: it starts ready, and a fatal decode error moves
/// it to a terminal failed state from which every further decode call
/// reports the same error. Recovery means building a new session.
#[derive(Debug)]
pub struct OpenH264Codec {
    state: SessionState,
}

impl OpenH264Codec {
    /// The session's lifecycle position.
    pub closed spec fn spec_state(self) -> SessionState {
        self.state
    }

    /// Whether the session can serve a decode call.
    pub open spec fn is_ready(self) -> bool {
        self.spec_state() is Ready
    }

    /// The terminal error of a failed session, or nothing while ready.
    pub open spec fn terminal(self) -> Option<DecodeError> {
        match self.spec_state() {
            SessionState::Ready => None,
            SessionState::Failed(e) => Some(e),
        }
    }

    /// Concludes initialization from the status codes of the two native
    /// setup calls: handle creation, then parameter configuration. Both
    /// must report zero; any failure is fatal for this attempt — the core
    /// never retries — and surfaces the first nonzero status. The caller
    /// then primes the new session's backend once with the configuration
    /// record, before the first real access unit; the priming call's result
    /// is diagnostic only and never surfaces as decoded output.
    pub fn init(create_status: i64, configure_status: i64) -> (r: Result<OpenH264Codec, InitError>)
        ensures
            r is Ok <==> (create_status == 0 && configure_status == 0),
            r matches Ok(s) ==> s.is_ready(),
            create_status != 0 ==> r == Result::<OpenH264Codec, InitError>::Err(
                InitError { status: create_status },
            ),
            create_status == 0 && configure_status != 0 ==> r == Result::<
                OpenH264Codec,
                InitError,
            >::Err(InitError { status: configure_status }),
    {
        if create_status != 0 {
            Err(InitError { status: create_status })
        } else if configure_status != 0 {
            Err(InitError { status: configure_status })
        } else {
            Ok(OpenH264Codec { state: SessionState::Ready })
        }
    }

    /// The decoding configuration this core always requests: planar 4:2:0
    /// output, the maximum target layer, motion-vector-copy error
    /// concealment with a freeze on resolution change, and plain AVC
    /// framing of the elementary stream.
    pub fn decoding_param() -> (p: Struct_TagSVCDecodingParam)
        ensures
            p.pFileNameRestructed is None,
            p.eOutputColorFormat == VIDEO_FORMAT_I420,
            p.uiCpuLoad == 0,
            p.uiTargetDqLayer == u8::MAX,
            p.eEcActiveIdc == ERROR_CON_SLICE_MV_COPY_CROSS_IDR_FREEZE_RES_CHANGE,
            p.bParseOnly == 0,
            p.sVideoProperty.size == 8,
            p.sVideoProperty.eVideoBsType == VIDEO_BITSTREAM_AVC,
    {
        Struct_TagSVCDecodingParam {
            pFileNameRestructed: None,
            eOutputColorFormat: VIDEO_FORMAT_I420,
            uiCpuLoad: 0,
            uiTargetDqLayer: u8::MAX,
            eEcActiveIdc: ERROR_CON_SLICE_MV_COPY_CROSS_IDR_FREEZE_RES_CHANGE,
            bParseOnly: 0,
            sVideoProperty: Struct_Unnamed30 { size: 8, eVideoBsType: VIDEO_BITSTREAM_AVC },
        }
    }

    /// The terminal error of a failed session, or nothing while the
    /// session is ready. A caller consults this before submitting an
    /// access unit to the native layer: once the session has failed, the
    /// native layer must not be reached again, and this error is the
    /// outcome of every further decode.
    pub fn terminal_error(&self) -> (r: Option<DecodeError>)
        ensures
            r == self.terminal(),
    {
        match self.state {
            SessionState::Ready => None,
            SessionState::Failed(e) => Some(e),
        }
    }

    /// Folds the native decode call's report for one access unit into the
    /// session and judges the outcome.
    ///
    /// A failed session reports its terminal error, unchanged, whatever the
    /// response says. A call past the deadline is a timeout and leaves the
    /// session untouched. Otherwise the status word decides: pending means
    /// more data is needed; an error surfaces with its kind and status, and
    /// moves the session to the terminal failed state unless the kind is
    /// transient; an error-free status yields a frame exactly when the
    /// buffer description announces one with usable geometry, carrying the
    /// caller's presentation timestamp through bit-for-bit — a ready
    /// picture with unusable geometry is a transient invalid-argument
    /// error.
    pub fn decode(
        &mut self,
        response: DecodeResponse,
        presentation_time: Timestamp,
        deadline: i64,
    ) -> (out: DecodeOutcome)
        ensures
            old(self).terminal() matches Some(e) ==> out == DecodeOutcome::Error(e) && *final(self)
                == *old(self),
            old(self).is_ready() && response.elapsed > deadline ==> out is Timeout && *final(self)
                == *old(self),
            old(self).is_ready() && response.elapsed <= deadline ==> match spec_classify_status(
                response.status,
            ) {
                StatusClass::Pending => out is Pending && *final(self) == *old(self),
                StatusClass::Failed(kind) => {
                    let err = DecodeError { kind, status: response.status };
                    &&& out == DecodeOutcome::Error(err)
                    &&& spec_is_transient(kind) ==> *final(self) == *old(self)
                    &&& !spec_is_transient(kind) ==> final(self).terminal() == Some(err)
                },
                StatusClass::ErrorFree => {
                    if !response.spec_frame_ready() {
                        out is Pending && *final(self) == *old(self)
                    } else if !response.spec_geometry_ok() {
                        out == DecodeOutcome::Error(
                            DecodeError {
                                kind: DecodeErrorKind::InvalidArgument,
                                status: response.status,
                            },
                        ) && *final(self) == *old(self)
                    } else {
                        &&& out matches DecodeOutcome::Frame(f)
                        &&& spec_frame_of_response(response, presentation_time, f)
                        &&& *final(self) == *old(self)
                    }
                },
            },
            out matches DecodeOutcome::Frame(f) ==> f.spec_presentation_time()
                == presentation_time,
            out is Frame ==> old(self).is_ready() && final(self).is_ready(),
            final(self).spec_state() == spec_decode_state(
                old(self).spec_state(),
                response,
                deadline,
            ),
    {
        match self.state {
            SessionState::Failed(e) => {
                return DecodeOutcome::Error(e);
            },
            SessionState::Ready => {},
        }
        if response.elapsed > deadline {
            return DecodeOutcome::Timeout;
        }
        match classify_status(response.status) {
            StatusClass::Pending => DecodeOutcome::Pending,
            StatusClass::Failed(kind) => {
                let err = DecodeError { kind, status: response.status };
                if !is_transient(kind) {
                    self.state = SessionState::Failed(err);
                }
                DecodeOutcome::Error(err)
            },
            StatusClass::ErrorFree => {
                if response.info.iBufferStatus != BUFFER_STATUS_READY {
                    return DecodeOutcome::Pending;
                }
                let b = *response.info.UsrData.sSystemBuffer();
                if !geometry_usable(&response) {
                    return DecodeOutcome::Error(
                        DecodeError {
                            kind: DecodeErrorKind::InvalidArgument,
                            status: response.status,
                        },
                    );
                }
                let s0 = b.iStride[0] as usize;
                let s1 = b.iStride[1] as usize;
                let mut strides: Vec<usize> = Vec::new();
                strides.push(s0);
                strides.push(s1);
                strides.push(s1);
                proof {
                    assert(strides@ =~= seq![s0, s1, s1]);
                    assert(response.planes@[0]@.len() == s0 * (b.iHeight as u32));
                    assert(response.planes@[1]@.len() == s1 * (b.iHeight as u32));
                    assert(response.planes@[2]@.len() == s1 * (b.iHeight as u32));
                }
                let image = OpenH264Image {
                    width: b.iWidth as u32,
                    height: b.iHeight as u32,
                    format: PixelFormat::I420,
                    strides,
                    planes: response.planes,
                };
                DecodeOutcome::Frame(
                    DecodedVideoFrame { image, presentation_time },
                )
            },
        }
    }
}

/// Checks a ready picture's reported geometry against the delivered plane
/// buffers; see [`DecodeResponse::spec_geometry_ok`].
fn geometry_usable(response: &DecodeResponse) -> (r: bool)
    ensures
        r == response.spec_geometry_ok(),
{
    let b = *response.info.UsrData.sSystemBuffer();
    if !(b.iFormat == VIDEO_FORMAT_I420 as i32 && 0 < b.iWidth && 0 < b.iHeight && 0
        <= b.iStride[0] && 0 <= b.iStride[1]) {
        return false;
    }
    if response.planes.len() != 3 {
        return false;
    }
    let h = b.iHeight as u64;
    let s0 = b.iStride[0] as u64;
    let s1 = b.iStride[1] as u64;
    proof {
        lemma_mul_upper_bound(s0 as int, i32::MAX as int, h as int, i32::MAX as int);
        lemma_mul_upper_bound(s1 as int, i32::MAX as int, h as int, i32::MAX as int);
    }
    response.planes[0].len() as u64 == s0 * h && response.planes[1].len() as u64 == s1 * h
        && response.planes[2].len() as u64 == s1 * h
}

/// The session state after a decode call folds in one response under the
/// given deadline: a failed session never moves; a ready one fails exactly
/// on a non-transient error classified from a status word that arrived
/// within the deadline.
pub open spec fn spec_decode_state(
    s: SessionState,
    response: DecodeResponse,
    deadline: i64,
) -> SessionState {
    match s {
        SessionState::Failed(_) => s,
        SessionState::Ready => {
            if response.elapsed > deadline {
                s
            } else {
                match spec_classify_status(response.status) {
                    StatusClass::Failed(kind) => {
                        if !spec_is_transient(kind) {
                            SessionState::Failed(DecodeError { kind, status: response.status })
                        } else {
                            s
                        }
                    },
                    _ => s,
                }
            }
        },
    }
}

/// The session state after folding a whole run of decode calls, oldest
/// first; each element pairs a response with its deadline.
pub open spec fn spec_run(s: SessionState, calls: Seq<(DecodeResponse, i64)>) -> SessionState
    decreases calls.len(),
{
    if calls.len() == 0 {
        s
    } else {
        spec_run(spec_decode_state(s, calls.first().0, calls.first().1), calls.drop_first())
    }
}

/// A failed session is terminal: however many further decode calls are
/// made, with whatever responses and deadlines, the session stays failed
/// with the same error — which, by the decode contract, is the outcome it
/// reports every time, without the native layer being consulted.
pub proof fn lemma_failed_session_stays_failed(e: DecodeError, calls: Seq<(DecodeResponse, i64)>)
    ensures
        spec_run(SessionState::Failed(e), calls) == SessionState::Failed(e),
    decreases calls.len(),
{
    if calls.len() > 0 {
        lemma_failed_session_stays_failed(e, calls.drop_first());
    }
}

/// How a frame relates to the decode response and the access unit's
/// timestamp it was built from: the geometry the backend reported, the
/// plane bytes it delivered, and the timestamp, each carried through
/// unchanged.
pub open spec fn spec_frame_of_response(
    r: DecodeResponse,
    t: Timestamp,
    f: DecodedVideoFrame,
) -> bool {
    match r.info.UsrData.data {
        BufferData::SystemMemory(b) => {
            &&& f.spec_image().spec_width() == b.iWidth
            &&& f.spec_image().spec_height() == b.iHeight
            &&& f.spec_image().spec_format() == PixelFormat::I420
            &&& f.spec_image().spec_strides() == seq![
                b.iStride[0] as usize,
                b.iStride[1] as usize,
                b.iStride[1] as usize,
            ]
            &&& f.spec_image().spec_planes() == units_view(r.planes@)
            &&& f.spec_presentation_time() == t
        },
    }
}

} // verus!
