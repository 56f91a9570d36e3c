use gdcm_conv::encode_image::{big_endian_samples, encode_pixeldata, Error};

#[test]
fn samples_are_read_high_byte_first() {
    assert_eq!(big_endian_samples(&[0x12, 0x34, 0xff, 0x00]), vec![0x1234, 0xff00]);
    assert_eq!(big_endian_samples(&[]), Vec::<u16>::new());
}

#[test]
fn eight_bit_image() {
    let buffer: Vec<u8> = vec![0, 50, 100, 150, 200, 250];
    let image = encode_pixeldata(&buffer, 3, 2, 8).unwrap();
    let grey = image.as_luma8().unwrap();
    assert_eq!((grey.width(), grey.height()), (3, 2));
    assert_eq!(grey.get_pixel(1, 0).0[0], 50);
    assert_eq!(grey.get_pixel(2, 1).0[0], 250);
}

#[test]
fn sixteen_bit_image() {
    let buffer: Vec<u8> = vec![0x01, 0x02, 0x03, 0x04, 0xab, 0xcd, 0x00, 0x10];
    let image = encode_pixeldata(&buffer, 2, 2, 16).unwrap();
    let grey = image.as_luma16().unwrap();
    assert_eq!((grey.width(), grey.height()), (2, 2));
    assert_eq!(grey.get_pixel(0, 0).0[0], 0x0102);
    assert_eq!(grey.get_pixel(1, 0).0[0], 0x0304);
    assert_eq!(grey.get_pixel(0, 1).0[0], 0xabcd);
    assert_eq!(grey.get_pixel(1, 1).0[0], 0x0010);
}

#[test]
fn other_sample_widths_are_refused() {
    let buffer: Vec<u8> = vec![0; 12];
    let err = encode_pixeldata(&buffer, 2, 2, 12).unwrap_err();
    assert_eq!(err, Error::UnsupportedPixelRepresentation { bits_allocated: 12 });
    assert!(encode_pixeldata(&buffer, 2, 2, 32).is_err());
}
