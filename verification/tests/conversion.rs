use metallian_photos::conversion::{
    convert_heic_to_jpeg, convert_to_jpg, heic_decode, jpeg_from_decoded, pixels_to_imagebuffer,
    ConversionError, DecodedImage,
};

#[test]
fn convert_heic_to_jpeg_returns_err_for_non_heic_input() {
    // Arrange — arbitrary bytes that aren't a valid HEIC image
    let garbage_bytes = b"definitely not an image";

    // Act
    let result = convert_heic_to_jpeg(garbage_bytes);

    // Assert — the pipeline returns an error instead of panicking
    assert!(result.is_err());
}

#[test]
fn convert_heic_to_jpeg_reports_a_decode_failure() {
    assert_eq!(convert_heic_to_jpeg(b"definitely not an image"), Err(ConversionError::Decode));
    assert_eq!(convert_heic_to_jpeg(&[]), Err(ConversionError::Decode));
}

#[test]
fn heic_decode_errors_on_non_heic_bytes() {
    assert!(heic_decode(b"definitely not an image").is_err());
}

#[test]
fn convert_to_image_buffer_returns_an_rgba_image() {
    // Arrange
    let width = 2;
    let height = 2;
    let fake_buffer = vec![0u8; (width * height * 4) as usize];

    // Act
    let output = pixels_to_imagebuffer(width, height, fake_buffer).unwrap();

    // Assert
    assert_eq!(output.width(), width);
    assert_eq!(output.height(), height);
}

#[test]
fn pixels_to_imagebuffer_refuses_a_short_buffer() {
    assert!(pixels_to_imagebuffer(2, 2, vec![0u8; 15]).is_none());
    assert!(pixels_to_imagebuffer(2, 2, vec![0u8; 17]).is_some());
    assert!(pixels_to_imagebuffer(0, 5, Vec::new()).is_some());
    assert!(pixels_to_imagebuffer(u32::MAX, u32::MAX, vec![0u8; 4]).is_none());
}

#[test]
fn convert_to_jpg_returns_a_jpg_image() {
    // Arrange
    let img = pixels_to_imagebuffer(2, 2, vec![0u8; 16]).unwrap();

    // Act
    let output = convert_to_jpg(img).unwrap();

    // Assert
    assert!(!output.is_empty());
    assert_eq!(output[0], 0xFF);
    assert_eq!(output[1], 0xD8);
}

#[test]
fn convert_to_jpg_refuses_an_empty_image() {
    let img = pixels_to_imagebuffer(0, 0, Vec::new()).unwrap();
    assert_eq!(convert_to_jpg(img), Err(ConversionError::Encode));
}

#[test]
fn jpeg_from_decoded_checks_the_buffer_size() {
    let short = DecodedImage { width: 3, height: 3, data: vec![0u8; 35] };
    assert_eq!(jpeg_from_decoded(short), Err(ConversionError::PixelBufferMismatch));
    let exact = DecodedImage { width: 3, height: 3, data: vec![128u8; 36] };
    let jpeg = jpeg_from_decoded(exact).unwrap();
    assert_eq!(&jpeg[..2], &[0xFF, 0xD8]);
}

#[test]
fn conversion_error_messages() {
    assert_eq!(ConversionError::Decode.message(), "Failed to decode the HEIC image");
    assert_eq!(
        ConversionError::PixelBufferMismatch.message(),
        "Pixel buffer did not match image dimensions"
    );
    assert_eq!(ConversionError::Encode.message(), "Unable to convert to jpg");
}

#[test]
fn convert_to_jpg_encodes_every_image_with_sides_up_to_65535() {
    for (w, h) in [(1u32, 1u32), (2, 2), (3, 7), (65535, 1)] {
        let img = pixels_to_imagebuffer(w, h, vec![200u8; (4 * w * h) as usize]).unwrap();
        let jpeg = convert_to_jpg(img).unwrap();
        assert_eq!(&jpeg[..2], &[0xFF, 0xD8]);
    }
    let wide = pixels_to_imagebuffer(65536, 1, vec![0u8; 4 * 65536]).unwrap();
    assert_eq!(convert_to_jpg(wide), Err(ConversionError::Encode));
}
