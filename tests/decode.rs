use gdcm_conv::{
    classify_status, decode_multi_frame_compressed, decode_single_frame_compressed, DecodeError,
    GDCMPhotometricInterpretation, GDCMTransferSyntax, PixelData, RawDecodeResult, RequestFault,
};

const MONO2: GDCMPhotometricInterpretation = GDCMPhotometricInterpretation::MONOCHROME2;
const LOSSLESS: GDCMTransferSyntax = GDCMTransferSyntax::JPEGLosslessProcess14;

#[test]
fn status_codes_are_classified() {
    assert_eq!(classify_status(1), DecodeError::AllocationFailure);
    assert_eq!(classify_status(2), DecodeError::StreamReadFailure);
    assert_eq!(classify_status(77), DecodeError::Unknown(77));
    assert_eq!(classify_status(u32::MAX), DecodeError::Unknown(u32::MAX));
}

#[test]
fn failed_native_call_gives_its_error() {
    let raw = RawDecodeResult { pixel_data: 0, status: 1, size: 0 };
    assert_eq!(raw.into_pixel_data().unwrap_err().0, DecodeError::AllocationFailure);
    let raw = RawDecodeResult { pixel_data: 0, status: 2, size: 0 };
    assert_eq!(raw.into_pixel_data().unwrap_err().0, DecodeError::StreamReadFailure);
    let raw = RawDecodeResult { pixel_data: 0, status: 77, size: 0 };
    assert_eq!(raw.into_pixel_data().unwrap_err().0, DecodeError::Unknown(77));
}

#[test]
fn success_without_buffer_is_invalid_pointer() {
    let raw = RawDecodeResult { pixel_data: 0, status: 0, size: 16 };
    assert_eq!(raw.into_pixel_data().unwrap_err().0, DecodeError::InvalidPointer);
    assert_eq!(PixelData::new(0, 4).unwrap_err().0, DecodeError::InvalidPointer);
}

#[test]
fn success_with_buffer_is_owned() {
    let raw = RawDecodeResult { pixel_data: 0x1000, status: 0, size: 64 };
    let data = raw.into_pixel_data().unwrap();
    assert_eq!(data.size(), 64);
    assert!(data.is_held());
    assert_eq!(data.region(), Some((0x1000, 64)));
}

#[test]
fn buffer_is_released_once() {
    let mut data = PixelData::new(0x2000, 8).unwrap();
    assert_eq!(data.release(), Some(0x2000));
    assert!(!data.is_held());
    assert_eq!(data.region(), None);
    assert_eq!(data.release(), None);
    assert_eq!(data.release(), None);
    assert_eq!(data.size(), 8);
}

#[test]
fn colour_request_is_refused() {
    let frame: &[u8] = &[1, 2, 3];
    let err = decode_multi_frame_compressed(&[frame], &[4, 4, 1], MONO2, LOSSLESS, 3, 8, 8, 7, 0)
        .unwrap_err();
    assert_eq!(err.0, DecodeError::InvalidRequest(RequestFault::UnsupportedSamplesPerPixel));
    let err = decode_single_frame_compressed(frame, 4, 4, GDCMPhotometricInterpretation::RGB, LOSSLESS, 3, 8, 8, 7, 0)
        .unwrap_err();
    assert_eq!(err.0, DecodeError::InvalidRequest(RequestFault::UnsupportedSamplesPerPixel));
}

#[test]
fn request_without_frames_is_refused() {
    let frames: [&[u8]; 0] = [];
    let err = decode_multi_frame_compressed(&frames, &[4, 4, 0], MONO2, LOSSLESS, 1, 8, 8, 7, 0)
        .unwrap_err();
    assert_eq!(err.0, DecodeError::InvalidRequest(RequestFault::NoFrames));
}

#[test]
fn frame_count_must_match() {
    let a: &[u8] = &[1, 2];
    let b: &[u8] = &[3];
    let err = decode_multi_frame_compressed(&[a, b], &[4, 4, 3], MONO2, LOSSLESS, 1, 8, 8, 7, 0)
        .unwrap_err();
    assert_eq!(err.0, DecodeError::InvalidRequest(RequestFault::FrameCountMismatch));
}

#[test]
fn empty_frame_is_refused() {
    let a: &[u8] = &[1, 2];
    let b: &[u8] = &[];
    let err = decode_multi_frame_compressed(&[a, b], &[4, 4, 2], MONO2, LOSSLESS, 1, 8, 8, 7, 0)
        .unwrap_err();
    assert_eq!(err.0, DecodeError::InvalidRequest(RequestFault::EmptyFrame));
    let err = decode_single_frame_compressed(b, 4, 4, MONO2, LOSSLESS, 1, 8, 8, 7, 0).unwrap_err();
    assert_eq!(err.0, DecodeError::InvalidRequest(RequestFault::EmptyFrame));
}

#[test]
fn multi_frame_request_is_flattened() {
    let a: &[u8] = &[1, 2, 3];
    let b: &[u8] = &[4, 5];
    let call = decode_multi_frame_compressed(
        &[a, b],
        &[16, 8, 2],
        GDCMPhotometricInterpretation::MONOCHROME1,
        GDCMTransferSyntax::RLELossless,
        1,
        16,
        12,
        11,
        1,
    )
    .unwrap();
    assert_eq!(call.frame_lens, vec![3, 2]);
    assert_eq!(call.dims, [16, 8, 2]);
    assert_eq!(call.pi_type, 1);
    assert_eq!(call.ts_type, 18);
    assert_eq!(call.samples_per_pixel, 1);
    assert_eq!(call.bits_allocated, 16);
    assert_eq!(call.bits_stored, 12);
    assert_eq!(call.high_bit, 11);
    assert_eq!(call.pixel_representation, 1);
    assert_eq!(call.expected_len(), Some(16 * 8 * 2 * 2));
}

#[test]
fn single_frame_is_the_one_frame_request() {
    let frame: &[u8] = &[9, 8, 7, 6];
    let single = decode_single_frame_compressed(frame, 32, 16, MONO2, LOSSLESS, 1, 8, 8, 7, 0).unwrap();
    let multi = decode_multi_frame_compressed(&[frame], &[32, 16, 1], MONO2, LOSSLESS, 1, 8, 8, 7, 0)
        .unwrap();
    assert_eq!(single.frame_lens, multi.frame_lens);
    assert_eq!(single.dims, multi.dims);
    assert_eq!(single.pi_type, multi.pi_type);
    assert_eq!(single.ts_type, multi.ts_type);
    assert_eq!(single.samples_per_pixel, multi.samples_per_pixel);
    assert_eq!(single.bits_allocated, multi.bits_allocated);
    assert_eq!(single.bits_stored, multi.bits_stored);
    assert_eq!(single.high_bit, multi.high_bit);
    assert_eq!(single.pixel_representation, multi.pixel_representation);
}

#[test]
fn lossless_1024_by_768_single_frame() {
    let frame: Vec<u8> = vec![0xff, 0xd8, 0xff, 0xc3, 0x00, 0x0b];
    let call = decode_multi_frame_compressed(&[frame.as_slice()], &[1024, 768, 1], MONO2, LOSSLESS, 1, 8, 8, 7, 0)
        .unwrap();
    assert_eq!(call.expected_len(), Some(786432));
    let raw = RawDecodeResult { pixel_data: 0x4000, status: 0, size: 786432 };
    let data = raw.into_pixel_data().unwrap();
    assert_eq!(data.size(), 1024 * 768);
}

#[test]
fn expected_len_of_sample_widths() {
    let frame: &[u8] = &[1];
    let call = decode_multi_frame_compressed(&[frame], &[10, 20, 1], MONO2, LOSSLESS, 1, 16, 16, 15, 0).unwrap();
    assert_eq!(call.expected_len(), Some(400));
    let call = decode_multi_frame_compressed(&[frame], &[10, 20, 1], MONO2, LOSSLESS, 1, 12, 12, 11, 0).unwrap();
    assert_eq!(call.expected_len(), None);
    let call = decode_multi_frame_compressed(&[frame], &[u32::MAX, u32::MAX, 1], MONO2, LOSSLESS, 1, 16, 16, 15, 0)
        .unwrap();
    assert_eq!(call.expected_len(), None);
    let call = decode_multi_frame_compressed(&[frame], &[u32::MAX, u32::MAX, 1], MONO2, LOSSLESS, 1, 8, 8, 7, 0)
        .unwrap();
    assert_eq!(call.expected_len(), Some((u32::MAX as u64) * (u32::MAX as u64)));
}
