use media::openh264::{
    BufferData, DecodeOutcome, DecodeResponse, OpenH264Codec, Struct_TagBufferInfo,
    Struct_TagSysMemBuffer, Union_Unnamed6, DS_BITSTREAM_ERROR, DS_DEP_LAYER_LOST,
    DS_DST_BUF_NEED_EXPAND, DS_FRAME_PENDING, DS_INVALID_ARGUMENT, DS_NO_PARAM_SETS,
    DS_INITIAL_OPT_EXPECTED, DS_OUT_OF_MEMORY, DS_REF_LOST,
    ERROR_CON_SLICE_MV_COPY_CROSS_IDR_FREEZE_RES_CHANGE,
    VIDEO_BITSTREAM_AVC, VIDEO_FORMAT_I420,
};
use media::timing::Timestamp;
use media::videodecoder::DecodeErrorKind;

fn response(status: u32, ready: bool, planes: Vec<Vec<u8>>) -> DecodeResponse {
    response_with_geometry(status, ready, 4, 2, [4, 2], planes)
}

fn response_with_geometry(
    status: u32,
    ready: bool,
    width: i32,
    height: i32,
    strides: [i32; 2],
    planes: Vec<Vec<u8>>,
) -> DecodeResponse {
    DecodeResponse {
        status,
        elapsed: 1,
        info: Struct_TagBufferInfo {
            iBufferStatus: if ready { 1 } else { 0 },
            uiInBsTimeStamp: 0,
            uiOutYuvTimeStamp: 0,
            UsrData: Union_Unnamed6 {
                data: BufferData::SystemMemory(Struct_TagSysMemBuffer {
                    iWidth: width,
                    iHeight: height,
                    iFormat: VIDEO_FORMAT_I420 as i32,
                    iStride: strides,
                }),
            },
        },
        planes,
    }
}

fn good_planes() -> Vec<Vec<u8>> {
    // Width 4, height 2, strides [4, 2]: 8 luma bytes, 4 per chroma plane.
    vec![
        vec![10, 11, 12, 13, 14, 15, 16, 17],
        vec![20, 21, 22, 23],
        vec![30, 31, 32, 33],
    ]
}

fn ts(ticks: i64) -> Timestamp {
    Timestamp { ticks }
}

#[test]
fn init_succeeds_on_zero_statuses() {
    let session = OpenH264Codec::init(0, 0).unwrap();
    assert_eq!(session.terminal_error(), None);
}

#[test]
fn init_fails_on_create_status() {
    let err = OpenH264Codec::init(3, 0).unwrap_err();
    assert_eq!(err.status, 3);
}

#[test]
fn init_fails_on_configure_status() {
    let err = OpenH264Codec::init(0, -12).unwrap_err();
    assert_eq!(err.status, -12);
}

#[test]
fn decoding_param_values() {
    let p = OpenH264Codec::decoding_param();
    assert_eq!(p.pFileNameRestructed, None);
    assert_eq!(p.eOutputColorFormat, VIDEO_FORMAT_I420);
    assert_eq!(p.uiCpuLoad, 0);
    assert_eq!(p.uiTargetDqLayer, u8::MAX);
    assert_eq!(
        p.eEcActiveIdc,
        ERROR_CON_SLICE_MV_COPY_CROSS_IDR_FREEZE_RES_CHANGE
    );
    assert_eq!(p.bParseOnly, 0);
    assert_eq!(p.sVideoProperty.size, 8);
    assert_eq!(p.sVideoProperty.eVideoBsType, VIDEO_BITSTREAM_AVC);
}

#[test]
fn frame_carries_timestamp_through() {
    let mut session = OpenH264Codec::init(0, 0).unwrap();
    let out = session.decode(response(0, true, good_planes()), ts(987654321), 100);
    match out {
        DecodeOutcome::Frame(f) => assert_eq!(f.presentation_time().ticks, 987654321),
        _ => panic!("a ready picture with good geometry yields a frame"),
    }
}

#[test]
fn frame_reports_geometry_and_format() {
    let mut session = OpenH264Codec::init(0, 0).unwrap();
    let out = session.decode(response(0, true, good_planes()), ts(0), 100);
    match out {
        DecodeOutcome::Frame(f) => {
            assert_eq!(f.width(), 4);
            assert_eq!(f.height(), 2);
            assert_eq!(f.stride(0), 4);
            assert_eq!(f.stride(1), 2);
            assert_eq!(f.stride(2), 2);
            assert_eq!(f.pixel_format().plane_count(), 3);
        }
        _ => panic!("a ready picture with good geometry yields a frame"),
    }
}

#[test]
fn lock_guard_views_have_stride_times_height_bytes() {
    let mut session = OpenH264Codec::init(0, 0).unwrap();
    let out = session.decode(response(0, true, good_planes()), ts(0), 100);
    match out {
        DecodeOutcome::Frame(f) => {
            let guard = f.lock();
            for p in 0..3 {
                assert_eq!(
                    guard.pixels(p).len(),
                    f.stride(p) * (f.height() as usize)
                );
            }
            assert_eq!(guard.pixels(0), &vec![10, 11, 12, 13, 14, 15, 16, 17]);
            assert_eq!(guard.pixels(1), &vec![20, 21, 22, 23]);
            assert_eq!(guard.pixels(2), &vec![30, 31, 32, 33]);
        }
        _ => panic!("a ready picture with good geometry yields a frame"),
    }
}

#[test]
fn pending_status_is_not_an_error() {
    let mut session = OpenH264Codec::init(0, 0).unwrap();
    let out = session.decode(response(DS_FRAME_PENDING, false, vec![]), ts(5), 100);
    assert!(matches!(out, DecodeOutcome::Pending));
    // The session keeps serving calls.
    assert_eq!(session.terminal_error(), None);
}

#[test]
fn error_free_without_picture_is_pending() {
    let mut session = OpenH264Codec::init(0, 0).unwrap();
    let out = session.decode(response(0, false, vec![]), ts(5), 100);
    assert!(matches!(out, DecodeOutcome::Pending));
    assert_eq!(session.terminal_error(), None);
}

#[test]
fn deadline_exceeded_is_timeout_without_state_change() {
    let mut session = OpenH264Codec::init(0, 0).unwrap();
    let mut late = response(0, true, good_planes());
    late.elapsed = 101;
    let out = session.decode(late, ts(5), 100);
    assert!(matches!(out, DecodeOutcome::Timeout));
    // The next call, within its deadline, still decodes.
    let out = session.decode(response(0, true, good_planes()), ts(6), 100);
    assert!(matches!(out, DecodeOutcome::Frame(_)));
}

#[test]
fn each_error_bit_maps_to_its_kind() {
    let cases = [
        (DS_BITSTREAM_ERROR, DecodeErrorKind::BitstreamError),
        (DS_REF_LOST, DecodeErrorKind::ReferenceLost),
        (DS_DEP_LAYER_LOST, DecodeErrorKind::DependentLayerLost),
        (DS_NO_PARAM_SETS, DecodeErrorKind::MissingParameterSets),
        (DS_INITIAL_OPT_EXPECTED, DecodeErrorKind::MissingParameterSets),
        (DS_OUT_OF_MEMORY, DecodeErrorKind::OutOfMemory),
        (DS_INVALID_ARGUMENT, DecodeErrorKind::InvalidArgument),
        (DS_DST_BUF_NEED_EXPAND, DecodeErrorKind::BufferTooSmall),
    ];
    for (status, kind) in cases {
        let mut session = OpenH264Codec::init(0, 0).unwrap();
        let out = session.decode(response(status, false, vec![]), ts(5), 100);
        match out {
            DecodeOutcome::Error(e) => {
                assert_eq!(e.kind, kind);
                // The native status is preserved alongside the kind.
                assert_eq!(e.status, status);
            }
            _ => panic!("an error status yields an error outcome"),
        }
    }
}

#[test]
fn transient_errors_leave_the_session_ready() {
    for status in [DS_INVALID_ARGUMENT, DS_DST_BUF_NEED_EXPAND] {
        let mut session = OpenH264Codec::init(0, 0).unwrap();
        let out = session.decode(response(status, false, vec![]), ts(5), 100);
        assert!(matches!(out, DecodeOutcome::Error(_)));
        assert_eq!(session.terminal_error(), None);
        let out = session.decode(response(0, true, good_planes()), ts(6), 100);
        assert!(matches!(out, DecodeOutcome::Frame(_)));
    }
}

#[test]
fn fatal_error_is_terminal_and_repeats_identically() {
    let mut session = OpenH264Codec::init(0, 0).unwrap();
    let out = session.decode(response(DS_BITSTREAM_ERROR, false, vec![]), ts(5), 100);
    let first = match out {
        DecodeOutcome::Error(e) => e,
        _ => panic!("a bitstream error yields an error outcome"),
    };
    assert_eq!(session.terminal_error(), Some(first));
    // Every further decode returns the same terminal error, whatever the
    // response says — here one that would otherwise yield a frame.
    for _ in 0..3 {
        let out = session.decode(response(0, true, good_planes()), ts(6), 100);
        match out {
            DecodeOutcome::Error(e) => assert_eq!(e, first),
            _ => panic!("a failed session reports its terminal error"),
        }
    }
    assert_eq!(session.terminal_error(), Some(first));
}

#[test]
fn bad_geometry_is_transient_invalid_argument() {
    let mut session = OpenH264Codec::init(0, 0).unwrap();
    // Plane lengths that contradict the reported strides.
    let out = session.decode(
        response(0, true, vec![vec![0; 7], vec![0; 4], vec![0; 4]]),
        ts(5),
        100,
    );
    match out {
        DecodeOutcome::Error(e) => assert_eq!(e.kind, DecodeErrorKind::InvalidArgument),
        _ => panic!("unusable geometry yields an invalid-argument error"),
    }
    assert_eq!(session.terminal_error(), None);
}

#[test]
fn undocumented_status_reads_as_bitstream_damage() {
    let mut session = OpenH264Codec::init(0, 0).unwrap();
    let out = session.decode(response(64, false, vec![]), ts(5), 100);
    match out {
        DecodeOutcome::Error(e) => assert_eq!(e.kind, DecodeErrorKind::BitstreamError),
        _ => panic!("an unknown status yields an error outcome"),
    }
}

#[test]
fn three_units_with_pending_middle_keep_their_timestamps() {
    let mut session = OpenH264Codec::init(0, 0).unwrap();
    let out1 = session.decode(response(0, true, good_planes()), ts(100), 50);
    let out2 = session.decode(response(DS_FRAME_PENDING, false, vec![]), ts(200), 50);
    let out3 = session.decode(response(0, true, good_planes()), ts(300), 50);
    match out1 {
        DecodeOutcome::Frame(f) => assert_eq!(f.presentation_time().ticks, 100),
        _ => panic!("unit 1 yields a frame"),
    }
    assert!(matches!(out2, DecodeOutcome::Pending));
    match out3 {
        DecodeOutcome::Frame(f) => assert_eq!(f.presentation_time().ticks, 300),
        _ => panic!("unit 3 yields a frame"),
    }
}

#[test]
fn pending_bit_wins_over_error_bits() {
    let mut session = OpenH264Codec::init(0, 0).unwrap();
    let out = session.decode(
        response(DS_FRAME_PENDING | DS_BITSTREAM_ERROR, false, vec![]),
        ts(5),
        100,
    );
    assert!(matches!(out, DecodeOutcome::Pending));
    assert_eq!(session.terminal_error(), None);
}
