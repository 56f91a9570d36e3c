use gdcm_conv::identifiers::same_text;
use gdcm_conv::{DecodeError, GDCMPhotometricInterpretation, GDCMTransferSyntax};

#[test]
fn transfer_syntax_uid_round_trip() {
    let mut named = 0;
    for code in 0..GDCMTransferSyntax::COUNT {
        let ts = GDCMTransferSyntax::from_code(code).unwrap();
        if let Some(uid) = ts.to_str() {
            assert_eq!(GDCMTransferSyntax::to_code(uid).unwrap(), ts);
            named += 1;
        }
    }
    assert_eq!(named, 23);
}

#[test]
fn photometric_term_round_trip() {
    let mut named = 0;
    for code in 0..GDCMPhotometricInterpretation::COUNT {
        let pi = GDCMPhotometricInterpretation::from_code(code).unwrap();
        if let Some(term) = pi.to_str() {
            assert_eq!(GDCMPhotometricInterpretation::to_code(term).unwrap(), pi);
            named += 1;
        }
    }
    assert_eq!(named, 13);
}

#[test]
fn unknown_uid_is_refused() {
    let err = GDCMTransferSyntax::to_code("not-a-real-uid").unwrap_err();
    assert_eq!(err.0, DecodeError::InvalidIdentifier("not-a-real-uid".to_string()));
}

#[test]
fn unknown_term_is_refused() {
    let err = GDCMPhotometricInterpretation::to_code("MONOCHROME3").unwrap_err();
    assert_eq!(err.kind(), &DecodeError::InvalidIdentifier("MONOCHROME3".to_string()));
}

#[test]
fn variant_names_of_sentinels_are_not_identifiers() {
    assert!(GDCMTransferSyntax::to_code("ImplicitVRBigEndianPrivateGE").is_err());
    assert!(GDCMTransferSyntax::to_code("TS_END").is_err());
    assert!(GDCMPhotometricInterpretation::to_code("UNKNOWN").is_err());
    assert!(GDCMTransferSyntax::to_code("").is_err());
}

#[test]
fn sentinels_have_no_identifier() {
    assert_eq!(GDCMTransferSyntax::ImplicitVRBigEndianPrivateGE.to_str(), None);
    assert_eq!(GDCMTransferSyntax::ImplicitVRBigEndianACRNEMA.to_str(), None);
    assert_eq!(GDCMTransferSyntax::WeirdPapryus.to_str(), None);
    assert_eq!(GDCMTransferSyntax::CT_private_ELE.to_str(), None);
    assert_eq!(GDCMTransferSyntax::TS_END.to_str(), None);
    assert_eq!(GDCMPhotometricInterpretation::UNKNOWN.to_str(), None);
    assert_eq!(GDCMPhotometricInterpretation::PI_END.to_str(), None);
}

#[test]
fn known_identifiers() {
    assert_eq!(
        GDCMTransferSyntax::to_code("1.2.840.10008.1.2.4.57").unwrap(),
        GDCMTransferSyntax::JPEGLosslessProcess14
    );
    assert_eq!(
        GDCMTransferSyntax::to_code("1.2.840.10008.1.2.4.70").unwrap(),
        GDCMTransferSyntax::JPEGLosslessProcess14_1
    );
    assert_eq!(
        GDCMTransferSyntax::to_code("1.2.840.10008.1.2").unwrap(),
        GDCMTransferSyntax::ImplicitVRLittleEndian
    );
    assert_eq!(GDCMTransferSyntax::RLELossless.to_str(), Some("1.2.840.10008.1.2.5"));
    assert_eq!(
        GDCMPhotometricInterpretation::to_code("MONOCHROME2").unwrap(),
        GDCMPhotometricInterpretation::MONOCHROME2
    );
    assert_eq!(
        GDCMPhotometricInterpretation::to_code("PALETTE COLOR").unwrap(),
        GDCMPhotometricInterpretation::PALETTE_COLOR
    );
}

#[test]
fn wire_codes_follow_declaration_order() {
    assert_eq!(GDCMTransferSyntax::COUNT, 28);
    assert_eq!(GDCMTransferSyntax::ImplicitVRLittleEndian.code(), 0);
    assert_eq!(GDCMTransferSyntax::JPEGLosslessProcess14.code(), 10);
    assert_eq!(GDCMTransferSyntax::TS_END.code(), 27);
    assert_eq!(GDCMPhotometricInterpretation::COUNT, 15);
    assert_eq!(GDCMPhotometricInterpretation::MONOCHROME2.code(), 2);
    assert_eq!(GDCMPhotometricInterpretation::PI_END.code(), 14);
    for code in 0..GDCMTransferSyntax::COUNT {
        assert_eq!(GDCMTransferSyntax::from_code(code).unwrap().code(), code);
    }
    for code in 0..GDCMPhotometricInterpretation::COUNT {
        assert_eq!(GDCMPhotometricInterpretation::from_code(code).unwrap().code(), code);
    }
    assert_eq!(GDCMTransferSyntax::from_code(28), None);
    assert_eq!(GDCMPhotometricInterpretation::from_code(15), None);
}

#[test]
fn text_comparison_is_by_characters() {
    assert!(same_text("1.2.840.10008.1.2", "1.2.840.10008.1.2"));
    assert!(!same_text("1.2.840.10008.1.2", "1.2.840.10008.1.2.1"));
    assert!(!same_text("RGB", "RGC"));
    assert!(same_text("", ""));
    assert!(same_text("é", "é"));
    assert!(!same_text("é", "e"));
}
