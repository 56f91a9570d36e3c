//! The closed sets of transfer syntaxes and photometric interpretations that the
//! native codec knows, their wire codes, and their standard identifiers.
use vstd::prelude::*;
use vstd::string::*;

use crate::error::{DecodeError, Error};

verus! {

/// Whether two strings hold the same characters.
pub fn same_text(a: &str, b: &str) -> (r: bool)
    ensures
        r == (a@ == b@),
{
    let n = a.unicode_len();
    let m = b.unicode_len();
    if n != m {
        return false;
    }
    let mut i: usize = 0;
    while i < n
        invariant
            n == a@.len(),
            m == b@.len(),
            n == m,
            i <= n,
            forall|k: int| 0 <= k < i ==> a@[k] == b@[k],
        decreases n - i,
    {
        if a.get_char(i) != b.get_char(i) {
            return false;
        }
        i = i + 1;
    }
    assert(a@ =~= b@);
    true
}

/// The photometric interpretation of pixel samples, as the native codec numbers it.
#[allow(non_camel_case_types)]
#[derive(Debug, Clone, Copy, PartialEq, Eq, Structural)]
pub enum GDCMPhotometricInterpretation {
    /// An unknown interpretation, without a defined term.
    UNKNOWN,
    MONOCHROME1,
    MONOCHROME2,
    PALETTE_COLOR,
    RGB,
    HSV,
    /// Retired.
    ARGB,
    CMYK,
    YBR_FULL,
    YBR_FULL_422,
    YBR_PARTIAL_422,
    YBR_PARTIAL_420,
    YBR_ICT,
    YBR_RCT,
    /// The end marker of the codec's table, without a defined term.
    PI_END,
}

impl GDCMPhotometricInterpretation {
    /// The number of variants, and so of wire codes.
    pub const COUNT: u32 = 15;

    /// The code that the native codec knows this value by.
    pub open spec fn spec_code(self) -> u32 {
        match self {
            GDCMPhotometricInterpretation::UNKNOWN => 0,
            GDCMPhotometricInterpretation::MONOCHROME1 => 1,
            GDCMPhotometricInterpretation::MONOCHROME2 => 2,
            GDCMPhotometricInterpretation::PALETTE_COLOR => 3,
            GDCMPhotometricInterpretation::RGB => 4,
            GDCMPhotometricInterpretation::HSV => 5,
            GDCMPhotometricInterpretation::ARGB => 6,
            GDCMPhotometricInterpretation::CMYK => 7,
            GDCMPhotometricInterpretation::YBR_FULL => 8,
            GDCMPhotometricInterpretation::YBR_FULL_422 => 9,
            GDCMPhotometricInterpretation::YBR_PARTIAL_422 => 10,
            GDCMPhotometricInterpretation::YBR_PARTIAL_420 => 11,
            GDCMPhotometricInterpretation::YBR_ICT => 12,
            GDCMPhotometricInterpretation::YBR_RCT => 13,
            GDCMPhotometricInterpretation::PI_END => 14,
        }
    }

    /// The defined term of this value, if the standard gives it one.
    pub open spec fn spec_term(self) -> Option<Seq<char>> {
        match self {
            GDCMPhotometricInterpretation::UNKNOWN => None,
            GDCMPhotometricInterpretation::MONOCHROME1 => Some("MONOCHROME1"@),
            GDCMPhotometricInterpretation::MONOCHROME2 => Some("MONOCHROME2"@),
            GDCMPhotometricInterpretation::PALETTE_COLOR => Some("PALETTE COLOR"@),
            GDCMPhotometricInterpretation::RGB => Some("RGB"@),
            GDCMPhotometricInterpretation::HSV => Some("HSV"@),
            GDCMPhotometricInterpretation::ARGB => Some("ARGB"@),
            GDCMPhotometricInterpretation::CMYK => Some("CMYK"@),
            GDCMPhotometricInterpretation::YBR_FULL => Some("YBR_FULL"@),
            GDCMPhotometricInterpretation::YBR_FULL_422 => Some("YBR_FULL_422"@),
            GDCMPhotometricInterpretation::YBR_PARTIAL_422 => Some("YBR_PARTIAL_422"@),
            GDCMPhotometricInterpretation::YBR_PARTIAL_420 => Some("YBR_PARTIAL_420"@),
            GDCMPhotometricInterpretation::YBR_ICT => Some("YBR_ICT"@),
            GDCMPhotometricInterpretation::YBR_RCT => Some("YBR_RCT"@),
            GDCMPhotometricInterpretation::PI_END => None,
        }
    }

    /// The code that the native codec knows this value by.
    pub fn code(&self) -> (r: u32)
        ensures
            r == self.spec_code(),
    {
        match self {
            GDCMPhotometricInterpretation::UNKNOWN => 0,
            GDCMPhotometricInterpretation::MONOCHROME1 => 1,
            GDCMPhotometricInterpretation::MONOCHROME2 => 2,
            GDCMPhotometricInterpretation::PALETTE_COLOR => 3,
            GDCMPhotometricInterpretation::RGB => 4,
            GDCMPhotometricInterpretation::HSV => 5,
            GDCMPhotometricInterpretation::ARGB => 6,
            GDCMPhotometricInterpretation::CMYK => 7,
            GDCMPhotometricInterpretation::YBR_FULL => 8,
            GDCMPhotometricInterpretation::YBR_FULL_422 => 9,
            GDCMPhotometricInterpretation::YBR_PARTIAL_422 => 10,
            GDCMPhotometricInterpretation::YBR_PARTIAL_420 => 11,
            GDCMPhotometricInterpretation::YBR_ICT => 12,
            GDCMPhotometricInterpretation::YBR_RCT => 13,
            GDCMPhotometricInterpretation::PI_END => 14,
        }
    }

    /// The value that a wire code stands for.
    pub fn from_code(code: u32) -> (r: Option<Self>)
        ensures
            match r {
                Some(v) => v.spec_code() == code,
                None => code >= Self::COUNT,
            },
    {
        match code {
            0 => Some(GDCMPhotometricInterpretation::UNKNOWN),
            1 => Some(GDCMPhotometricInterpretation::MONOCHROME1),
            2 => Some(GDCMPhotometricInterpretation::MONOCHROME2),
            3 => Some(GDCMPhotometricInterpretation::PALETTE_COLOR),
            4 => Some(GDCMPhotometricInterpretation::RGB),
            5 => Some(GDCMPhotometricInterpretation::HSV),
            6 => Some(GDCMPhotometricInterpretation::ARGB),
            7 => Some(GDCMPhotometricInterpretation::CMYK),
            8 => Some(GDCMPhotometricInterpretation::YBR_FULL),
            9 => Some(GDCMPhotometricInterpretation::YBR_FULL_422),
            10 => Some(GDCMPhotometricInterpretation::YBR_PARTIAL_422),
            11 => Some(GDCMPhotometricInterpretation::YBR_PARTIAL_420),
            12 => Some(GDCMPhotometricInterpretation::YBR_ICT),
            13 => Some(GDCMPhotometricInterpretation::YBR_RCT),
            14 => Some(GDCMPhotometricInterpretation::PI_END),
            _ => None,
        }
    }

    /// The defined term of this value; none for a value that has no standard one.
    pub fn to_str(&self) -> (r: Option<&'static str>)
        ensures
            match r {
                Some(s) => self.spec_term() == Some(s@),
                None => self.spec_term() is None,
            },
    {
        match self {
            GDCMPhotometricInterpretation::UNKNOWN => None,
            GDCMPhotometricInterpretation::MONOCHROME1 => Some("MONOCHROME1"),
            GDCMPhotometricInterpretation::MONOCHROME2 => Some("MONOCHROME2"),
            GDCMPhotometricInterpretation::PALETTE_COLOR => Some("PALETTE COLOR"),
            GDCMPhotometricInterpretation::RGB => Some("RGB"),
            GDCMPhotometricInterpretation::HSV => Some("HSV"),
            GDCMPhotometricInterpretation::ARGB => Some("ARGB"),
            GDCMPhotometricInterpretation::CMYK => Some("CMYK"),
            GDCMPhotometricInterpretation::YBR_FULL => Some("YBR_FULL"),
            GDCMPhotometricInterpretation::YBR_FULL_422 => Some("YBR_FULL_422"),
            GDCMPhotometricInterpretation::YBR_PARTIAL_422 => Some("YBR_PARTIAL_422"),
            GDCMPhotometricInterpretation::YBR_PARTIAL_420 => Some("YBR_PARTIAL_420"),
            GDCMPhotometricInterpretation::YBR_ICT => Some("YBR_ICT"),
            GDCMPhotometricInterpretation::YBR_RCT => Some("YBR_RCT"),
            GDCMPhotometricInterpretation::PI_END => None,
        }
    }

    /// Whether `r` is what looking up `s` among the defined terms gives: the value
    /// whose defined term it is, or an invalid identifier that keeps `s` when there is none.
    pub open spec fn term_lookup(r: Result<Self, Error>, s: Seq<char>) -> bool {
        match r {
            Ok(v) => v.spec_term() == Some(s),
            Err(e) => (e.0 matches DecodeError::InvalidIdentifier(t) && t@ == s)
                && forall|v: Self| #[trigger] v.spec_term() != Some(s),
        }
    }

    /// The value that a defined term names.
    pub fn to_code(s: &str) -> (r: Result<Self, Error>)
        ensures
            Self::term_lookup(r, s@),
    {
        let mut code: u32 = 0;
        while code < Self::COUNT
            invariant
                code <= Self::COUNT,
                forall|v: Self| #[trigger] v.spec_code() < code ==> v.spec_term() != Some(s@),
            decreases Self::COUNT - code,
        {
            match Self::from_code(code) {
                Some(v) => match v.to_str() {
                    Some(t) => {
                        if same_text(t, s) {
                            return Ok(v);
                        }
                    },
                    None => {},
                },
                None => {},
            }
            code = code + 1;
        }
        proof {
            assert forall|v: Self| #[trigger] v.spec_term() != Some(s@) by {
                assert(v.spec_code() < Self::COUNT);
            }
        }
        Err(Error(DecodeError::InvalidIdentifier(s.to_owned())))
    }
}

/// The transfer syntax of encoded pixel data, as the native codec numbers it.
#[allow(non_camel_case_types)]
#[derive(Debug, Clone, Copy, PartialEq, Eq, Structural)]
pub enum GDCMTransferSyntax {
    ImplicitVRLittleEndian,
    /// A private GE encoding, without a standard identifier.
    ImplicitVRBigEndianPrivateGE,
    ExplicitVRLittleEndian,
    DeflatedExplicitVRLittleEndian,
    ExplicitVRBigEndian,
    JPEGBaselineProcess1,
    JPEGExtendedProcess2_4,
    JPEGExtendedProcess3_5,
    JPEGSpectralSelectionProcess6_8,
    JPEGFullProgressionProcess10_12,
    JPEGLosslessProcess14,
    JPEGLosslessProcess14_1,
    JPEGLSLossless,
    JPEGLSNearLossless,
    JPEG2000Lossless,
    JPEG2000,
    JPEG2000Part2Lossless,
    JPEG2000Part2,
    RLELossless,
    MPEG2MainProfile,
    /// An ACR-NEMA encoding, without a standard identifier.
    ImplicitVRBigEndianACRNEMA,
    /// A non-conformant Papyrus encoding, without a standard identifier.
    WeirdPapryus,
    /// A private CT encoding, without a standard identifier.
    CT_private_ELE,
    JPIPReferenced,
    MPEG2MainProfileHighLevel,
    MPEG4AVCH264HighProfileLevel4_1,
    MPEG4AVCH264BDcompatibleHighProfileLevel4_1,
    /// The end marker of the codec's table, without an identifier.
    TS_END,
}

impl GDCMTransferSyntax {
    /// The number of variants, and so of wire codes.
    pub const COUNT: u32 = 28;

    /// The code that the native codec knows this value by.
    pub open spec fn spec_code(self) -> u32 {
        match self {
            GDCMTransferSyntax::ImplicitVRLittleEndian => 0,
            GDCMTransferSyntax::ImplicitVRBigEndianPrivateGE => 1,
            GDCMTransferSyntax::ExplicitVRLittleEndian => 2,
            GDCMTransferSyntax::DeflatedExplicitVRLittleEndian => 3,
            GDCMTransferSyntax::ExplicitVRBigEndian => 4,
            GDCMTransferSyntax::JPEGBaselineProcess1 => 5,
            GDCMTransferSyntax::JPEGExtendedProcess2_4 => 6,
            GDCMTransferSyntax::JPEGExtendedProcess3_5 => 7,
            GDCMTransferSyntax::JPEGSpectralSelectionProcess6_8 => 8,
            GDCMTransferSyntax::JPEGFullProgressionProcess10_12 => 9,
            GDCMTransferSyntax::JPEGLosslessProcess14 => 10,
            GDCMTransferSyntax::JPEGLosslessProcess14_1 => 11,
            GDCMTransferSyntax::JPEGLSLossless => 12,
            GDCMTransferSyntax::JPEGLSNearLossless => 13,
            GDCMTransferSyntax::JPEG2000Lossless => 14,
            GDCMTransferSyntax::JPEG2000 => 15,
            GDCMTransferSyntax::JPEG2000Part2Lossless => 16,
            GDCMTransferSyntax::JPEG2000Part2 => 17,
            GDCMTransferSyntax::RLELossless => 18,
            GDCMTransferSyntax::MPEG2MainProfile => 19,
            GDCMTransferSyntax::ImplicitVRBigEndianACRNEMA => 20,
            GDCMTransferSyntax::WeirdPapryus => 21,
            GDCMTransferSyntax::CT_private_ELE => 22,
            GDCMTransferSyntax::JPIPReferenced => 23,
            GDCMTransferSyntax::MPEG2MainProfileHighLevel => 24,
            GDCMTransferSyntax::MPEG4AVCH264HighProfileLevel4_1 => 25,
            GDCMTransferSyntax::MPEG4AVCH264BDcompatibleHighProfileLevel4_1 => 26,
            GDCMTransferSyntax::TS_END => 27,
        }
    }

    /// The UID of this value, if the standard gives it one.
    pub open spec fn spec_uid(self) -> Option<Seq<char>> {
        match self {
            GDCMTransferSyntax::ImplicitVRLittleEndian => Some("1.2.840.10008.1.2"@),
            GDCMTransferSyntax::ImplicitVRBigEndianPrivateGE => None,
            GDCMTransferSyntax::ExplicitVRLittleEndian => Some("1.2.840.10008.1.2.1"@),
            GDCMTransferSyntax::DeflatedExplicitVRLittleEndian => Some("1.2.840.10008.1.2.1.99"@),
            GDCMTransferSyntax::ExplicitVRBigEndian => Some("1.2.840.10008.1.2.2"@),
            GDCMTransferSyntax::JPEGBaselineProcess1 => Some("1.2.840.10008.1.2.4.50"@),
            GDCMTransferSyntax::JPEGExtendedProcess2_4 => Some("1.2.840.10008.1.2.4.51"@),
            GDCMTransferSyntax::JPEGExtendedProcess3_5 => Some("1.2.840.10008.1.2.4.52"@),
            GDCMTransferSyntax::JPEGSpectralSelectionProcess6_8 => Some("1.2.840.10008.1.2.4.53"@),
            GDCMTransferSyntax::JPEGFullProgressionProcess10_12 => Some("1.2.840.10008.1.2.4.55"@),
            GDCMTransferSyntax::JPEGLosslessProcess14 => Some("1.2.840.10008.1.2.4.57"@),
            GDCMTransferSyntax::JPEGLosslessProcess14_1 => Some("1.2.840.10008.1.2.4.70"@),
            GDCMTransferSyntax::JPEGLSLossless => Some("1.2.840.10008.1.2.4.80"@),
            GDCMTransferSyntax::JPEGLSNearLossless => Some("1.2.840.10008.1.2.4.81"@),
            GDCMTransferSyntax::JPEG2000Lossless => Some("1.2.840.10008.1.2.4.90"@),
            GDCMTransferSyntax::JPEG2000 => Some("1.2.840.10008.1.2.4.91"@),
            GDCMTransferSyntax::JPEG2000Part2Lossless => Some("1.2.840.10008.1.2.4.92"@),
            GDCMTransferSyntax::JPEG2000Part2 => Some("1.2.840.10008.1.2.4.93"@),
            GDCMTransferSyntax::RLELossless => Some("1.2.840.10008.1.2.5"@),
            GDCMTransferSyntax::MPEG2MainProfile => Some("1.2.840.10008.1.2.4.100"@),
            GDCMTransferSyntax::ImplicitVRBigEndianACRNEMA => None,
            GDCMTransferSyntax::WeirdPapryus => None,
            GDCMTransferSyntax::CT_private_ELE => None,
            GDCMTransferSyntax::JPIPReferenced => Some("1.2.840.10008.1.2.4.95"@),
            GDCMTransferSyntax::MPEG2MainProfileHighLevel => Some("1.2.840.10008.1.2.4.101"@),
            GDCMTransferSyntax::MPEG4AVCH264HighProfileLevel4_1 => Some("1.2.840.10008.1.2.4.102"@),
            GDCMTransferSyntax::MPEG4AVCH264BDcompatibleHighProfileLevel4_1 => Some("1.2.840.10008.1.2.4.103"@),
            GDCMTransferSyntax::TS_END => None,
        }
    }

    /// The code that the native codec knows this value by.
    pub fn code(&self) -> (r: u32)
        ensures
            r == self.spec_code(),
    {
        match self {
            GDCMTransferSyntax::ImplicitVRLittleEndian => 0,
            GDCMTransferSyntax::ImplicitVRBigEndianPrivateGE => 1,
            GDCMTransferSyntax::ExplicitVRLittleEndian => 2,
            GDCMTransferSyntax::DeflatedExplicitVRLittleEndian => 3,
            GDCMTransferSyntax::ExplicitVRBigEndian => 4,
            GDCMTransferSyntax::JPEGBaselineProcess1 => 5,
            GDCMTransferSyntax::JPEGExtendedProcess2_4 => 6,
            GDCMTransferSyntax::JPEGExtendedProcess3_5 => 7,
            GDCMTransferSyntax::JPEGSpectralSelectionProcess6_8 => 8,
            GDCMTransferSyntax::JPEGFullProgressionProcess10_12 => 9,
            GDCMTransferSyntax::JPEGLosslessProcess14 => 10,
            GDCMTransferSyntax::JPEGLosslessProcess14_1 => 11,
            GDCMTransferSyntax::JPEGLSLossless => 12,
            GDCMTransferSyntax::JPEGLSNearLossless => 13,
            GDCMTransferSyntax::JPEG2000Lossless => 14,
            GDCMTransferSyntax::JPEG2000 => 15,
            GDCMTransferSyntax::JPEG2000Part2Lossless => 16,
            GDCMTransferSyntax::JPEG2000Part2 => 17,
            GDCMTransferSyntax::RLELossless => 18,
            GDCMTransferSyntax::MPEG2MainProfile => 19,
            GDCMTransferSyntax::ImplicitVRBigEndianACRNEMA => 20,
            GDCMTransferSyntax::WeirdPapryus => 21,
            GDCMTransferSyntax::CT_private_ELE => 22,
            GDCMTransferSyntax::JPIPReferenced => 23,
            GDCMTransferSyntax::MPEG2MainProfileHighLevel => 24,
            GDCMTransferSyntax::MPEG4AVCH264HighProfileLevel4_1 => 25,
            GDCMTransferSyntax::MPEG4AVCH264BDcompatibleHighProfileLevel4_1 => 26,
            GDCMTransferSyntax::TS_END => 27,
        }
    }

    /// The value that a wire code stands for.
    pub fn from_code(code: u32) -> (r: Option<Self>)
        ensures
            match r {
                Some(v) => v.spec_code() == code,
                None => code >= Self::COUNT,
            },
    {
        match code {
            0 => Some(GDCMTransferSyntax::ImplicitVRLittleEndian),
            1 => Some(GDCMTransferSyntax::ImplicitVRBigEndianPrivateGE),
            2 => Some(GDCMTransferSyntax::ExplicitVRLittleEndian),
            3 => Some(GDCMTransferSyntax::DeflatedExplicitVRLittleEndian),
            4 => Some(GDCMTransferSyntax::ExplicitVRBigEndian),
            5 => Some(GDCMTransferSyntax::JPEGBaselineProcess1),
            6 => Some(GDCMTransferSyntax::JPEGExtendedProcess2_4),
            7 => Some(GDCMTransferSyntax::JPEGExtendedProcess3_5),
            8 => Some(GDCMTransferSyntax::JPEGSpectralSelectionProcess6_8),
            9 => Some(GDCMTransferSyntax::JPEGFullProgressionProcess10_12),
            10 => Some(GDCMTransferSyntax::JPEGLosslessProcess14),
            11 => Some(GDCMTransferSyntax::JPEGLosslessProcess14_1),
            12 => Some(GDCMTransferSyntax::JPEGLSLossless),
            13 => Some(GDCMTransferSyntax::JPEGLSNearLossless),
            14 => Some(GDCMTransferSyntax::JPEG2000Lossless),
            15 => Some(GDCMTransferSyntax::JPEG2000),
            16 => Some(GDCMTransferSyntax::JPEG2000Part2Lossless),
            17 => Some(GDCMTransferSyntax::JPEG2000Part2),
            18 => Some(GDCMTransferSyntax::RLELossless),
            19 => Some(GDCMTransferSyntax::MPEG2MainProfile),
            20 => Some(GDCMTransferSyntax::ImplicitVRBigEndianACRNEMA),
            21 => Some(GDCMTransferSyntax::WeirdPapryus),
            22 => Some(GDCMTransferSyntax::CT_private_ELE),
            23 => Some(GDCMTransferSyntax::JPIPReferenced),
            24 => Some(GDCMTransferSyntax::MPEG2MainProfileHighLevel),
            25 => Some(GDCMTransferSyntax::MPEG4AVCH264HighProfileLevel4_1),
            26 => Some(GDCMTransferSyntax::MPEG4AVCH264BDcompatibleHighProfileLevel4_1),
            27 => Some(GDCMTransferSyntax::TS_END),
            _ => None,
        }
    }

    /// The UID of this value; none for a value that has no standard one.
    pub fn to_str(&self) -> (r: Option<&'static str>)
        ensures
            match r {
                Some(s) => self.spec_uid() == Some(s@),
                None => self.spec_uid() is None,
            },
    {
        match self {
            GDCMTransferSyntax::ImplicitVRLittleEndian => Some("1.2.840.10008.1.2"),
            GDCMTransferSyntax::ImplicitVRBigEndianPrivateGE => None,
            GDCMTransferSyntax::ExplicitVRLittleEndian => Some("1.2.840.10008.1.2.1"),
            GDCMTransferSyntax::DeflatedExplicitVRLittleEndian => Some("1.2.840.10008.1.2.1.99"),
            GDCMTransferSyntax::ExplicitVRBigEndian => Some("1.2.840.10008.1.2.2"),
            GDCMTransferSyntax::JPEGBaselineProcess1 => Some("1.2.840.10008.1.2.4.50"),
            GDCMTransferSyntax::JPEGExtendedProcess2_4 => Some("1.2.840.10008.1.2.4.51"),
            GDCMTransferSyntax::JPEGExtendedProcess3_5 => Some("1.2.840.10008.1.2.4.52"),
            GDCMTransferSyntax::JPEGSpectralSelectionProcess6_8 => Some("1.2.840.10008.1.2.4.53"),
            GDCMTransferSyntax::JPEGFullProgressionProcess10_12 => Some("1.2.840.10008.1.2.4.55"),
            GDCMTransferSyntax::JPEGLosslessProcess14 => Some("1.2.840.10008.1.2.4.57"),
            GDCMTransferSyntax::JPEGLosslessProcess14_1 => Some("1.2.840.10008.1.2.4.70"),
            GDCMTransferSyntax::JPEGLSLossless => Some("1.2.840.10008.1.2.4.80"),
            GDCMTransferSyntax::JPEGLSNearLossless => Some("1.2.840.10008.1.2.4.81"),
            GDCMTransferSyntax::JPEG2000Lossless => Some("1.2.840.10008.1.2.4.90"),
            GDCMTransferSyntax::JPEG2000 => Some("1.2.840.10008.1.2.4.91"),
            GDCMTransferSyntax::JPEG2000Part2Lossless => Some("1.2.840.10008.1.2.4.92"),
            GDCMTransferSyntax::JPEG2000Part2 => Some("1.2.840.10008.1.2.4.93"),
            GDCMTransferSyntax::RLELossless => Some("1.2.840.10008.1.2.5"),
            GDCMTransferSyntax::MPEG2MainProfile => Some("1.2.840.10008.1.2.4.100"),
            GDCMTransferSyntax::ImplicitVRBigEndianACRNEMA => None,
            GDCMTransferSyntax::WeirdPapryus => None,
            GDCMTransferSyntax::CT_private_ELE => None,
            GDCMTransferSyntax::JPIPReferenced => Some("1.2.840.10008.1.2.4.95"),
            GDCMTransferSyntax::MPEG2MainProfileHighLevel => Some("1.2.840.10008.1.2.4.101"),
            GDCMTransferSyntax::MPEG4AVCH264HighProfileLevel4_1 => Some("1.2.840.10008.1.2.4.102"),
            GDCMTransferSyntax::MPEG4AVCH264BDcompatibleHighProfileLevel4_1 => Some("1.2.840.10008.1.2.4.103"),
            GDCMTransferSyntax::TS_END => None,
        }
    }

    /// Whether `r` is what looking up `s` among the UIDs gives: the value
    /// whose UID it is, or an invalid identifier that keeps `s` when there is none.
    pub open spec fn uid_lookup(r: Result<Self, Error>, s: Seq<char>) -> bool {
        match r {
            Ok(v) => v.spec_uid() == Some(s),
            Err(e) => (e.0 matches DecodeError::InvalidIdentifier(t) && t@ == s)
                && forall|v: Self| #[trigger] v.spec_uid() != Some(s),
        }
    }

    /// The value that a UID names.
    pub fn to_code(s: &str) -> (r: Result<Self, Error>)
        ensures
            Self::uid_lookup(r, s@),
    {
        let mut code: u32 = 0;
        while code < Self::COUNT
            invariant
                code <= Self::COUNT,
                forall|v: Self| #[trigger] v.spec_code() < code ==> v.spec_uid() != Some(s@),
            decreases Self::COUNT - code,
        {
            match Self::from_code(code) {
                Some(v) => match v.to_str() {
                    Some(t) => {
                        if same_text(t, s) {
                            return Ok(v);
                        }
                    },
                    None => {},
                },
                None => {},
            }
            code = code + 1;
        }
        proof {
            assert forall|v: Self| #[trigger] v.spec_uid() != Some(s@) by {
                assert(v.spec_code() < Self::COUNT);
            }
        }
        Err(Error(DecodeError::InvalidIdentifier(s.to_owned())))
    }
}

/// No two values share a defined term.
pub proof fn lemma_term_unique(v: GDCMPhotometricInterpretation, w: GDCMPhotometricInterpretation)
    requires
        v.spec_term() is Some,
        w.spec_term() == v.spec_term(),
    ensures
        w == v,
{
    reveal_strlit("MONOCHROME1");
    reveal_strlit("MONOCHROME2");
    reveal_strlit("PALETTE COLOR");
    reveal_strlit("RGB");
    reveal_strlit("HSV");
    reveal_strlit("ARGB");
    reveal_strlit("CMYK");
    reveal_strlit("YBR_FULL");
    reveal_strlit("YBR_FULL_422");
    reveal_strlit("YBR_PARTIAL_422");
    reveal_strlit("YBR_PARTIAL_420");
    reveal_strlit("YBR_ICT");
    reveal_strlit("YBR_RCT");
    assert(
        "MONOCHROME1"@.len() == 11 &&
        "MONOCHROME2"@.len() == 11 &&
        "PALETTE COLOR"@.len() == 13 &&
        "RGB"@.len() == 3 &&
        "HSV"@.len() == 3 &&
        "ARGB"@.len() == 4 &&
        "CMYK"@.len() == 4 &&
        "YBR_FULL"@.len() == 8 &&
        "YBR_FULL_422"@.len() == 12 &&
        "YBR_PARTIAL_422"@.len() == 15 &&
        "YBR_PARTIAL_420"@.len() == 15 &&
        "YBR_ICT"@.len() == 7 &&
        "YBR_RCT"@.len() == 7
    );
    let a = v.spec_term()->0;
    let b = w.spec_term()->0;
    match v {
        GDCMPhotometricInterpretation::UNKNOWN => {},
        GDCMPhotometricInterpretation::MONOCHROME1 => assert(b.len() == 11 && b[10] == a[10] && b[9] == a[9] && b[8] == a[8]),
        GDCMPhotometricInterpretation::MONOCHROME2 => assert(b.len() == 11 && b[10] == a[10] && b[9] == a[9] && b[8] == a[8]),
        GDCMPhotometricInterpretation::PALETTE_COLOR => assert(b.len() == 13 && b[12] == a[12] && b[11] == a[11] && b[10] == a[10]),
        GDCMPhotometricInterpretation::RGB => assert(b.len() == 3 && b[2] == a[2] && b[1] == a[1] && b[0] == a[0]),
        GDCMPhotometricInterpretation::HSV => assert(b.len() == 3 && b[2] == a[2] && b[1] == a[1] && b[0] == a[0]),
        GDCMPhotometricInterpretation::ARGB => assert(b.len() == 4 && b[3] == a[3] && b[2] == a[2] && b[1] == a[1]),
        GDCMPhotometricInterpretation::CMYK => assert(b.len() == 4 && b[3] == a[3] && b[2] == a[2] && b[1] == a[1]),
        GDCMPhotometricInterpretation::YBR_FULL => assert(b.len() == 8 && b[7] == a[7] && b[6] == a[6] && b[5] == a[5]),
        GDCMPhotometricInterpretation::YBR_FULL_422 => assert(b.len() == 12 && b[11] == a[11] && b[10] == a[10] && b[9] == a[9]),
        GDCMPhotometricInterpretation::YBR_PARTIAL_422 => assert(b.len() == 15 && b[14] == a[14] && b[13] == a[13] && b[12] == a[12]),
        GDCMPhotometricInterpretation::YBR_PARTIAL_420 => assert(b.len() == 15 && b[14] == a[14] && b[13] == a[13] && b[12] == a[12]),
        GDCMPhotometricInterpretation::YBR_ICT => assert(b.len() == 7 && b[6] == a[6] && b[5] == a[5] && b[4] == a[4]),
        GDCMPhotometricInterpretation::YBR_RCT => assert(b.len() == 7 && b[6] == a[6] && b[5] == a[5] && b[4] == a[4]),
        GDCMPhotometricInterpretation::PI_END => {},
    }
}

/// No two values share a UID.
pub proof fn lemma_uid_unique(v: GDCMTransferSyntax, w: GDCMTransferSyntax)
    requires
        v.spec_uid() is Some,
        w.spec_uid() == v.spec_uid(),
    ensures
        w == v,
{
    reveal_strlit("1.2.840.10008.1.2");
    reveal_strlit("1.2.840.10008.1.2.1");
    reveal_strlit("1.2.840.10008.1.2.1.99");
    reveal_strlit("1.2.840.10008.1.2.2");
    reveal_strlit("1.2.840.10008.1.2.4.50");
    reveal_strlit("1.2.840.10008.1.2.4.51");
    reveal_strlit("1.2.840.10008.1.2.4.52");
    reveal_strlit("1.2.840.10008.1.2.4.53");
    reveal_strlit("1.2.840.10008.1.2.4.55");
    reveal_strlit("1.2.840.10008.1.2.4.57");
    reveal_strlit("1.2.840.10008.1.2.4.70");
    reveal_strlit("1.2.840.10008.1.2.4.80");
    reveal_strlit("1.2.840.10008.1.2.4.81");
    reveal_strlit("1.2.840.10008.1.2.4.90");
    reveal_strlit("1.2.840.10008.1.2.4.91");
    reveal_strlit("1.2.840.10008.1.2.4.92");
    reveal_strlit("1.2.840.10008.1.2.4.93");
    reveal_strlit("1.2.840.10008.1.2.5");
    reveal_strlit("1.2.840.10008.1.2.4.100");
    reveal_strlit("1.2.840.10008.1.2.4.95");
    reveal_strlit("1.2.840.10008.1.2.4.101");
    reveal_strlit("1.2.840.10008.1.2.4.102");
    reveal_strlit("1.2.840.10008.1.2.4.103");
    assert(
        "1.2.840.10008.1.2"@.len() == 17 &&
        "1.2.840.10008.1.2.1"@.len() == 19 &&
        "1.2.840.10008.1.2.1.99"@.len() == 22 &&
        "1.2.840.10008.1.2.2"@.len() == 19 &&
        "1.2.840.10008.1.2.4.50"@.len() == 22 &&
        "1.2.840.10008.1.2.4.51"@.len() == 22 &&
        "1.2.840.10008.1.2.4.52"@.len() == 22 &&
        "1.2.840.10008.1.2.4.53"@.len() == 22 &&
        "1.2.840.10008.1.2.4.55"@.len() == 22 &&
        "1.2.840.10008.1.2.4.57"@.len() == 22 &&
        "1.2.840.10008.1.2.4.70"@.len() == 22 &&
        "1.2.840.10008.1.2.4.80"@.len() == 22 &&
        "1.2.840.10008.1.2.4.81"@.len() == 22 &&
        "1.2.840.10008.1.2.4.90"@.len() == 22 &&
        "1.2.840.10008.1.2.4.91"@.len() == 22 &&
        "1.2.840.10008.1.2.4.92"@.len() == 22 &&
        "1.2.840.10008.1.2.4.93"@.len() == 22 &&
        "1.2.840.10008.1.2.5"@.len() == 19 &&
        "1.2.840.10008.1.2.4.100"@.len() == 23 &&
        "1.2.840.10008.1.2.4.95"@.len() == 22 &&
        "1.2.840.10008.1.2.4.101"@.len() == 23 &&
        "1.2.840.10008.1.2.4.102"@.len() == 23 &&
        "1.2.840.10008.1.2.4.103"@.len() == 23
    );
    let a = v.spec_uid()->0;
    let b = w.spec_uid()->0;
    match v {
        GDCMTransferSyntax::ImplicitVRLittleEndian => assert(b.len() == 17 && b[16] == a[16] && b[15] == a[15]),
        GDCMTransferSyntax::ImplicitVRBigEndianPrivateGE => {},
        GDCMTransferSyntax::ExplicitVRLittleEndian => assert(b.len() == 19 && b[18] == a[18] && b[17] == a[17]),
        GDCMTransferSyntax::DeflatedExplicitVRLittleEndian => assert(b.len() == 22 && b[21] == a[21] && b[20] == a[20]),
        GDCMTransferSyntax::ExplicitVRBigEndian => assert(b.len() == 19 && b[18] == a[18] && b[17] == a[17]),
        GDCMTransferSyntax::JPEGBaselineProcess1 => assert(b.len() == 22 && b[21] == a[21] && b[20] == a[20]),
        GDCMTransferSyntax::JPEGExtendedProcess2_4 => assert(b.len() == 22 && b[21] == a[21] && b[20] == a[20]),
        GDCMTransferSyntax::JPEGExtendedProcess3_5 => assert(b.len() == 22 && b[21] == a[21] && b[20] == a[20]),
        GDCMTransferSyntax::JPEGSpectralSelectionProcess6_8 => assert(b.len() == 22 && b[21] == a[21] && b[20] == a[20]),
        GDCMTransferSyntax::JPEGFullProgressionProcess10_12 => assert(b.len() == 22 && b[21] == a[21] && b[20] == a[20]),
        GDCMTransferSyntax::JPEGLosslessProcess14 => assert(b.len() == 22 && b[21] == a[21] && b[20] == a[20]),
        GDCMTransferSyntax::JPEGLosslessProcess14_1 => assert(b.len() == 22 && b[21] == a[21] && b[20] == a[20]),
        GDCMTransferSyntax::JPEGLSLossless => assert(b.len() == 22 && b[21] == a[21] && b[20] == a[20]),
        GDCMTransferSyntax::JPEGLSNearLossless => assert(b.len() == 22 && b[21] == a[21] && b[20] == a[20]),
        GDCMTransferSyntax::JPEG2000Lossless => assert(b.len() == 22 && b[21] == a[21] && b[20] == a[20]),
        GDCMTransferSyntax::JPEG2000 => assert(b.len() == 22 && b[21] == a[21] && b[20] == a[20]),
        GDCMTransferSyntax::JPEG2000Part2Lossless => assert(b.len() == 22 && b[21] == a[21] && b[20] == a[20]),
        GDCMTransferSyntax::JPEG2000Part2 => assert(b.len() == 22 && b[21] == a[21] && b[20] == a[20]),
        GDCMTransferSyntax::RLELossless => assert(b.len() == 19 && b[18] == a[18] && b[17] == a[17]),
        GDCMTransferSyntax::MPEG2MainProfile => assert(b.len() == 23 && b[22] == a[22] && b[21] == a[21]),
        GDCMTransferSyntax::ImplicitVRBigEndianACRNEMA => {},
        GDCMTransferSyntax::WeirdPapryus => {},
        GDCMTransferSyntax::CT_private_ELE => {},
        GDCMTransferSyntax::JPIPReferenced => assert(b.len() == 22 && b[21] == a[21] && b[20] == a[20]),
        GDCMTransferSyntax::MPEG2MainProfileHighLevel => assert(b.len() == 23 && b[22] == a[22] && b[21] == a[21]),
        GDCMTransferSyntax::MPEG4AVCH264HighProfileLevel4_1 => assert(b.len() == 23 && b[22] == a[22] && b[21] == a[21]),
        GDCMTransferSyntax::MPEG4AVCH264BDcompatibleHighProfileLevel4_1 => assert(b.len() == 23 && b[22] == a[22] && b[21] == a[21]),
        GDCMTransferSyntax::TS_END => {},
    }
}

/// Reading back the defined term of a value gives that value: `to_code` of what
/// `to_str` returns for `v` is `Ok(v)`.
pub proof fn lemma_term_round_trip(v: GDCMPhotometricInterpretation, r: Result<GDCMPhotometricInterpretation, Error>)
    requires
        v.spec_term() is Some,
        GDCMPhotometricInterpretation::term_lookup(r, v.spec_term()->0),
    ensures
        r == Ok::<GDCMPhotometricInterpretation, Error>(v),
{
    if let Ok(w) = r {
        lemma_term_unique(v, w);
    }
}

/// Reading back the UID of a value gives that value: `to_code` of what
/// `to_str` returns for `v` is `Ok(v)`.
pub proof fn lemma_uid_round_trip(v: GDCMTransferSyntax, r: Result<GDCMTransferSyntax, Error>)
    requires
        v.spec_uid() is Some,
        GDCMTransferSyntax::uid_lookup(r, v.spec_uid()->0),
    ensures
        r == Ok::<GDCMTransferSyntax, Error>(v),
{
    if let Ok(w) = r {
        lemma_uid_unique(v, w);
    }
}

} // verus!
