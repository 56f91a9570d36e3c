//! Decoding of compressed DICOM pixel data through the GDCM native codec.
//!
//! The library holds the decisions around the native call: the identifier
//! registry of transfer syntaxes and photometric interpretations, the checks
//! and flattening of a decode request, the classification of the call's
//! status, and the ownership record of the buffer that the codec allocates.

pub mod decode;
pub mod encode_image;
pub mod error;
pub mod identifiers;
pub mod pixel_data;

pub use decode::{decode_multi_frame_compressed, decode_single_frame_compressed, DecodeCall, RawDecodeResult};
pub use error::classify_status;
pub use error::{DecodeError, Error, RequestFault};
pub use identifiers::{GDCMPhotometricInterpretation, GDCMTransferSyntax};
pub use pixel_data::PixelData;
