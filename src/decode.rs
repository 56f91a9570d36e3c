//! The decode bridge's decisions: the checks and flattening of a request into
//! the arguments of one native decode call, and the translation of what the
//! call returned into owned pixel data or an error.
use vstd::prelude::*;

use crate::error::{classify_status, status_error, DecodeError, Error, RequestFault};
use crate::identifiers::{GDCMPhotometricInterpretation, GDCMTransferSyntax};
use crate::pixel_data::{BufferState, PixelData};

verus! {

/// The arguments of one native decode call, but for the frames' addresses,
/// which run parallel to `frame_lens`.
#[derive(Debug)]
pub struct DecodeCall {
    /// The byte length of each frame, in order.
    pub frame_lens: Vec<usize>,
    /// Width, height and frame count.
    pub dims: [u32; 3],
    /// Wire code of the photometric interpretation.
    pub pi_type: u32,
    /// Wire code of the transfer syntax.
    pub ts_type: u32,
    pub samples_per_pixel: u16,
    pub bits_allocated: u16,
    pub bits_stored: u16,
    pub high_bit: u16,
    pub pixel_representation: u16,
}

/// The abstract value of a [`DecodeCall`].
pub struct DecodeCallView {
    pub frame_lens: Seq<usize>,
    pub dims: Seq<u32>,
    pub pi_type: u32,
    pub ts_type: u32,
    pub samples_per_pixel: u16,
    pub bits_allocated: u16,
    pub bits_stored: u16,
    pub high_bit: u16,
    pub pixel_representation: u16,
}

impl View for DecodeCall {
    type V = DecodeCallView;

    open spec fn view(&self) -> DecodeCallView {
        DecodeCallView {
            frame_lens: self.frame_lens@,
            dims: self.dims@,
            pi_type: self.pi_type,
            ts_type: self.ts_type,
            samples_per_pixel: self.samples_per_pixel,
            bits_allocated: self.bits_allocated,
            bits_stored: self.bits_stored,
            high_bit: self.high_bit,
            pixel_representation: self.pixel_representation,
        }
    }
}

/// The byte lengths of a sequence of frames.
pub open spec fn frame_lens_of(frames: Seq<&[u8]>) -> Seq<usize> {
    frames.map_values(|f: &[u8]| f@.len() as usize)
}

/// Why a request with these frame lengths, frame count and samples per pixel
/// is refused, if it is; checked in this order.
pub open spec fn request_fault(lens: Seq<usize>, frame_count: u32, samples_per_pixel: u16) -> Option<RequestFault> {
    if lens.len() == 0 {
        Some(RequestFault::NoFrames)
    } else if frame_count as int != lens.len() {
        Some(RequestFault::FrameCountMismatch)
    } else if samples_per_pixel != 1 {
        Some(RequestFault::UnsupportedSamplesPerPixel)
    } else if exists|i: int| 0 <= i < lens.len() && lens[i] == 0 {
        Some(RequestFault::EmptyFrame)
    } else {
        None
    }
}

/// The native call that a request of frames with these lengths becomes, or
/// why the request is refused.
pub open spec fn planned_call(
    lens: Seq<usize>,
    dims: Seq<u32>,
    pi: GDCMPhotometricInterpretation,
    ts: GDCMTransferSyntax,
    samples_per_pixel: u16,
    bits_allocated: u16,
    bits_stored: u16,
    high_bit: u16,
    pixel_representation: u16,
) -> Result<DecodeCallView, RequestFault> {
    match request_fault(lens, dims[2], samples_per_pixel) {
        Some(f) => Err(f),
        None => Ok(
            DecodeCallView {
                frame_lens: lens,
                dims,
                pi_type: pi.spec_code(),
                ts_type: ts.spec_code(),
                samples_per_pixel,
                bits_allocated,
                bits_stored,
                high_bit,
                pixel_representation,
            },
        ),
    }
}

/// The native call that the decode of one frame of `len` bytes becomes, or why
/// it is refused.
pub open spec fn single_frame_call(
    len: usize,
    width: u32,
    height: u32,
    pi: GDCMPhotometricInterpretation,
    ts: GDCMTransferSyntax,
    samples_per_pixel: u16,
    bits_allocated: u16,
    bits_stored: u16,
    high_bit: u16,
    pixel_representation: u16,
) -> Result<DecodeCallView, RequestFault> {
    if samples_per_pixel != 1 {
        Err(RequestFault::UnsupportedSamplesPerPixel)
    } else if len == 0 {
        Err(RequestFault::EmptyFrame)
    } else {
        Ok(
            DecodeCallView {
                frame_lens: seq![len],
                dims: seq![width, height, 1],
                pi_type: pi.spec_code(),
                ts_type: ts.spec_code(),
                samples_per_pixel,
                bits_allocated,
                bits_stored,
                high_bit,
                pixel_representation,
            },
        )
    }
}

/// Whether `r` is the call `planned`, or the refusal that it names.
pub open spec fn call_matches(r: Result<DecodeCall, Error>, planned: Result<DecodeCallView, RequestFault>) -> bool {
    match planned {
        Ok(v) => r matches Ok(c) && c@ == v,
        Err(f) => r matches Err(e) && e == Error(DecodeError::InvalidRequest(f)),
    }
}

/// Checks a request of several frames of one geometry and flattens it into the
/// arguments of the native decode call. `dims` is width, height and frame
/// count. Nothing is handed to the codec when the request is refused.
pub fn decode_multi_frame_compressed(
    i_buffers: &[&[u8]],
    dims: &[u32; 3],
    pi_type: GDCMPhotometricInterpretation,
    ts_type: GDCMTransferSyntax,
    samples_per_pixel: u16,
    bits_allocated: u16,
    bits_stored: u16,
    high_bit: u16,
    pixel_representation: u16,
) -> (r: Result<DecodeCall, Error>)
    ensures
        call_matches(
            r,
            planned_call(
                frame_lens_of(i_buffers@),
                dims@,
                pi_type,
                ts_type,
                samples_per_pixel,
                bits_allocated,
                bits_stored,
                high_bit,
                pixel_representation,
            ),
        ),
{
    let ghost lens_spec = frame_lens_of(i_buffers@);
    let mut frame_lens: Vec<usize> = Vec::new();
    let mut has_empty = false;
    let mut i: usize = 0;
    while i < i_buffers.len()
        invariant
            i <= i_buffers@.len(),
            lens_spec == frame_lens_of(i_buffers@),
            frame_lens@ == lens_spec.take(i as int),
            has_empty == exists|k: int| 0 <= k < i && lens_spec[k] == 0,
        decreases i_buffers@.len() - i,
    {
        let len = i_buffers[i].len();
        proof {
            assert(lens_spec[i as int] == len);
        }
        if len == 0 {
            has_empty = true;
        }
        frame_lens.push(len);
        i = i + 1;
        proof {
            assert(frame_lens@ =~= lens_spec.take(i as int));
        }
    }
    proof {
        assert(frame_lens@ =~= lens_spec);
    }
    let fault = if i_buffers.len() == 0 {
        Some(RequestFault::NoFrames)
    } else if dims[2] as usize != i_buffers.len() {
        Some(RequestFault::FrameCountMismatch)
    } else if samples_per_pixel != 1 {
        Some(RequestFault::UnsupportedSamplesPerPixel)
    } else if has_empty {
        Some(RequestFault::EmptyFrame)
    } else {
        None
    };
    match fault {
        Some(f) => Err(Error(DecodeError::InvalidRequest(f))),
        None => Ok(
            DecodeCall {
                frame_lens,
                dims: *dims,
                pi_type: pi_type.code(),
                ts_type: ts_type.code(),
                samples_per_pixel,
                bits_allocated,
                bits_stored,
                high_bit,
                pixel_representation,
            },
        ),
    }
}

/// Checks the decode of one frame and flattens it into the arguments of the
/// native decode call: the request of that one frame with a frame count of 1.
pub fn decode_single_frame_compressed(
    i_buffer: &[u8],
    width: u32,
    height: u32,
    pi_type: GDCMPhotometricInterpretation,
    ts_type: GDCMTransferSyntax,
    samples_per_pixel: u16,
    bits_allocated: u16,
    bits_stored: u16,
    high_bit: u16,
    pixel_representation: u16,
) -> (r: Result<DecodeCall, Error>)
    ensures
        call_matches(
            r,
            single_frame_call(
                i_buffer@.len() as usize,
                width,
                height,
                pi_type,
                ts_type,
                samples_per_pixel,
                bits_allocated,
                bits_stored,
                high_bit,
                pixel_representation,
            ),
        ),
{
    let i_buffers: [&[u8]; 1] = [i_buffer];
    let dims: [u32; 3] = [width, height, 1];
    proof {
        assert(frame_lens_of(i_buffers@) =~= seq![i_buffer@.len() as usize]);
        assert(dims@ =~= seq![width, height, 1u32]);
        lemma_single_frame_is_one_frame_request(
            i_buffer@.len() as usize,
            width,
            height,
            pi_type,
            ts_type,
            samples_per_pixel,
            bits_allocated,
            bits_stored,
            high_bit,
            pixel_representation,
        );
    }
    decode_multi_frame_compressed(
        i_buffers.as_slice(),
        &dims,
        pi_type,
        ts_type,
        samples_per_pixel,
        bits_allocated,
        bits_stored,
        high_bit,
        pixel_representation,
    )
}

/// What the native decode call returned: the decoded buffer's address (zero
/// for none), a status code (zero for success) and the buffer's byte size.
#[derive(Debug, Clone, Copy)]
pub struct RawDecodeResult {
    pub pixel_data: usize,
    pub status: u32,
    pub size: usize,
}

/// The error of a native call that returned this status and no usable buffer.
pub open spec fn raw_error(status: u32) -> DecodeError {
    if status == 0 {
        DecodeError::InvalidPointer
    } else {
        status_error(status)
    }
}

impl RawDecodeResult {
    /// Turns what the codec returned into owned pixel data, or the error that
    /// it stands for: a success without a buffer is an invalid pointer, a
    /// non-zero status is classified.
    pub fn into_pixel_data(self) -> (r: Result<PixelData, Error>)
        ensures
            match r {
                Ok(p) => self.status == 0 && self.pixel_data != 0 && p@ == (BufferState {
                    address: self.pixel_data,
                    size: self.size,
                    held: true,
                }),
                Err(e) => !(self.status == 0 && self.pixel_data != 0) && e == Error(
                    raw_error(self.status),
                ),
            },
    {
        if self.status == 0 {
            PixelData::new(self.pixel_data, self.size)
        } else {
            Err(Error(classify_status(self.status)))
        }
    }
}

/// The byte count of decoded single-sample frames of these dimensions (width,
/// height, frame count) and bits allocated, for the supported 8 and 16 bits.
pub open spec fn expected_size(dims: Seq<u32>, bits_allocated: u16) -> int {
    dims[0] * dims[1] * dims[2] * (bits_allocated / 8)
}

impl DecodeCall {
    /// The number of bytes that a successful decode of this call returns:
    /// width times height times frame count times the bytes of a sample.
    /// Nothing for bits allocated other than 8 or 16, or a size past `u64`.
    pub fn expected_len(&self) -> (r: Option<u64>)
        ensures
            r == (if (self.bits_allocated == 8 || self.bits_allocated == 16)
                && expected_size(self.dims@, self.bits_allocated) <= u64::MAX {
                Some(expected_size(self.dims@, self.bits_allocated) as u64)
            } else {
                None::<u64>
            }),
    {
        if self.bits_allocated != 8 && self.bits_allocated != 16 {
            return None;
        }
        let width: u64 = self.dims[0] as u64;
        let height: u64 = self.dims[1] as u64;
        proof {
            assert(width * height <= 0xffff_ffff * 0xffff_ffff) by (nonlinear_arith)
                requires width <= 0xffff_ffff, height <= 0xffff_ffff;
        }
        let pixels: u64 = width * height;
        let sample: u64 = (self.bits_allocated / 8) as u64;
        match pixels.checked_mul(self.dims[2] as u64) {
            Some(n) => match n.checked_mul(sample) {
                Some(total) => {
                    proof {
                        assert(total == self.dims@[0] * self.dims@[1] * self.dims@[2] * (self.bits_allocated / 8)) by (nonlinear_arith)
                            requires total == n * sample, n == pixels * self.dims@[2], pixels == self.dims@[0] * self.dims@[1], sample == self.bits_allocated / 8;
                    }
                    Some(total)
                },
                None => {
                    proof {
                        assert(n * sample == self.dims@[0] * self.dims@[1] * self.dims@[2] * (self.bits_allocated / 8)) by (nonlinear_arith)
                            requires n == pixels * self.dims@[2], pixels == self.dims@[0] * self.dims@[1], sample == self.bits_allocated / 8;
                    }
                    None
                },
            },
            None => {
                proof {
                    assert(pixels * self.dims@[2] * sample >= pixels * self.dims@[2]) by (nonlinear_arith)
                        requires sample >= 1, pixels >= 0, self.dims@[2] >= 0;
                    assert(pixels * self.dims@[2] * sample == self.dims@[0] * self.dims@[1] * self.dims@[2] * (self.bits_allocated / 8)) by (nonlinear_arith)
                        requires pixels == self.dims@[0] * self.dims@[1], sample == self.bits_allocated / 8;
                }
                None
            },
        }
    }
}

/// The decode of one frame is the several-frame request of that one frame with
/// dimensions `[width, height, 1]`: the same native call, or the same refusal,
/// for the same metadata. As the codec is a function of its arguments, both
/// paths give the same bytes.
pub proof fn lemma_single_frame_is_one_frame_request(
    len: usize,
    width: u32,
    height: u32,
    pi: GDCMPhotometricInterpretation,
    ts: GDCMTransferSyntax,
    samples_per_pixel: u16,
    bits_allocated: u16,
    bits_stored: u16,
    high_bit: u16,
    pixel_representation: u16,
)
    ensures
        single_frame_call(
            len,
            width,
            height,
            pi,
            ts,
            samples_per_pixel,
            bits_allocated,
            bits_stored,
            high_bit,
            pixel_representation,
        ) == planned_call(
            seq![len],
            seq![width, height, 1],
            pi,
            ts,
            samples_per_pixel,
            bits_allocated,
            bits_stored,
            high_bit,
            pixel_representation,
        ),
{
    let lens = seq![len];
    if len == 0 {
        assert(lens[0] == 0);
    }
}

/// A request with other than one sample per pixel is refused as an invalid
/// request, before any native call: no call arguments exist for it.
pub proof fn lemma_colour_is_refused(
    r: Result<DecodeCall, Error>,
    lens: Seq<usize>,
    dims: Seq<u32>,
    pi: GDCMPhotometricInterpretation,
    ts: GDCMTransferSyntax,
    samples_per_pixel: u16,
    bits_allocated: u16,
    bits_stored: u16,
    high_bit: u16,
    pixel_representation: u16,
)
    requires
        samples_per_pixel != 1,
        dims.len() == 3,
        call_matches(
            r,
            planned_call(
                lens,
                dims,
                pi,
                ts,
                samples_per_pixel,
                bits_allocated,
                bits_stored,
                high_bit,
                pixel_representation,
            ),
        ),
    ensures
        r matches Err(e) && e.0 is InvalidRequest,
{
}

} // verus!
