//! HEIC to JPEG conversion: decode, check the pixel buffer, encode.

use vstd::prelude::*;

verus! {

#[verifier::external_type_specification]
#[verifier::external_body]
#[verifier::reject_recursive_types(E)]
pub struct ExAt<E>(heic::At<E>);

#[verifier::external_type_specification]
#[verifier::external_body]
pub struct ExHeicError(heic::HeicError);

#[verifier::external_type_specification]
#[verifier::external_body]
pub struct ExImageError(image::ImageError);

/// Why a conversion failed.
#[derive(Debug, Clone, Copy, PartialEq, Eq, Structural)]
pub enum ConversionError {
    /// The bytes are not a HEIC image the decoder can read.
    Decode,
    /// The decoded pixel buffer is smaller than its dimensions need.
    PixelBufferMismatch,
    /// The JPEG encoder refused the image.
    Encode,
}

impl ConversionError {
    pub open spec fn spec_message(&self) -> Seq<char> {
        match self {
            ConversionError::Decode => "Failed to decode the HEIC image"@,
            ConversionError::PixelBufferMismatch => "Pixel buffer did not match image dimensions"@,
            ConversionError::Encode => "Unable to convert to jpg"@,
        }
    }

    /// The text that the upload routes answer this error with.
    pub fn message(&self) -> (msg: String)
        ensures
            msg@ == self.spec_message(),
    {
        match self {
            ConversionError::Decode => String::from_str("Failed to decode the HEIC image"),
            ConversionError::PixelBufferMismatch => String::from_str(
                "Pixel buffer did not match image dimensions",
            ),
            ConversionError::Encode => String::from_str("Unable to convert to jpg"),
        }
    }
}

/// A decoded image: RGBA pixels, four bytes per pixel, row by row.
#[derive(Debug)]
pub struct DecodedImage {
    pub width: u32,
    pub height: u32,
    pub data: Vec<u8>,
}

/// What the HEIC decoder gives for the bytes, in RGBA layout: width,
/// height and pixel data, or `None` where it reports an error.
pub uninterp spec fn heic_rgba_decoding(bytes: Seq<u8>) -> Option<(u32, u32, Seq<u8>)>;

/// What the JPEG encoder writes for an RGBA image (after dropping the alpha
/// channel), or `None` where it reports an error.
pub uninterp spec fn jpeg_encoding(width: u32, height: u32, rgba: Seq<u8>) -> Option<Seq<u8>>;

/// Calls `heic::DecoderConfig::decode` with the RGBA layout and moves the
/// fields of its output into a `DecodedImage`. Claims that the outcome is
/// the named decoding of the bytes: an error exactly where the name has
/// none, and otherwise its width, height and pixels, four bytes for each
/// pixel.
#[verifier::external_body]
pub fn heic_decode(image_bytes: &[u8]) -> (res: Result<DecodedImage, heic::At<heic::HeicError>>)
    ensures
        res is Ok <==> heic_rgba_decoding(image_bytes@) is Some,
        res matches Ok(d) ==> (d.width, d.height, d.data@) == heic_rgba_decoding(
            image_bytes@,
        )->0,
        res matches Ok(d) ==> d.data@.len() == 4 * d.width * d.height,
{
    let out = heic::DecoderConfig::new().decode(image_bytes, heic::PixelLayout::Rgba8)?;
    Ok(DecodedImage { width: out.width, height: out.height, data: out.data })
}

/// The buffer holds enough bytes for `width * height` RGBA pixels.
pub open spec fn rgba_fits(width: u32, height: u32, len: nat) -> bool {
    4 * width * height <= len
}

/// RGBA pixels whose buffer fits their dimensions.
pub struct RgbaImage {
    width: u32,
    height: u32,
    data: Vec<u8>,
}

impl RgbaImage {
    #[verifier::type_invariant]
    spec fn fits(self) -> bool {
        rgba_fits(self.width, self.height, self.data@.len())
    }

    pub closed spec fn spec_width(self) -> u32 {
        self.width
    }

    pub closed spec fn spec_height(self) -> u32 {
        self.height
    }

    pub closed spec fn spec_data(self) -> Seq<u8> {
        self.data@
    }

    pub fn width(&self) -> (w: u32)
        ensures
            w == self.spec_width(),
    {
        self.width
    }

    pub fn height(&self) -> (h: u32)
        ensures
            h == self.spec_height(),
    {
        self.height
    }
}

/// Wraps a pixel buffer as an RGBA image of the given dimensions, where the
/// buffer holds at least `4 * width * height` bytes.
pub fn pixels_to_imagebuffer(width: u32, height: u32, buffer: Vec<u8>) -> (image: Option<
    RgbaImage,
>)
    ensures
        image is Some <==> rgba_fits(width, height, buffer@.len()),
        image matches Some(img) ==> img.spec_width() == width && img.spec_height() == height
            && img.spec_data() == buffer@,
{
    let w = width as u128;
    let h = height as u128;
    assert(w * h <= 0xffff_ffff_ffff_ffff_ffff_ffff_ffff_ffff) by (nonlinear_arith)
        requires
            w <= 0xffff_ffff,
            h <= 0xffff_ffff,
    ;
    let pixels = w * h;
    assert(pixels * 4 <= 0xffff_ffff_ffff_ffff_ffff_ffff_ffff_ffff) by (nonlinear_arith)
        requires
            pixels == w * h,
            w <= 0xffff_ffff,
            h <= 0xffff_ffff,
    ;
    assert(4 * width * height == pixels * 4) by (nonlinear_arith)
        requires
            pixels == w * h,
            w == width,
            h == height,
    ;
    if pixels * 4 <= buffer.len() as u128 {
        Some(RgbaImage { width, height, data: buffer })
    } else {
        None
    }
}

/// Forms the RGBA image with `image::ImageBuffer::from_raw` (which the
/// `requires` makes succeed), then calls `DynamicImage::into_rgb8` and
/// `ImageBuffer::write_to` with the JPEG format. Claims that
/// the outcome is the named encoding: an error exactly where the name has
/// none, and otherwise its bytes; that these start with the JPEG start of
/// image marker `FF D8`; and that an image is encoded exactly when both its
/// sides are between 1 and 65535 pixels (writing into a `Vec` cannot fail).
#[verifier::external_body]
fn encode_jpeg(width: u32, height: u32, rgba: Vec<u8>) -> (res: Result<Vec<u8>, image::ImageError>)
    requires
        rgba_fits(width, height, rgba@.len()),
    ensures
        res is Ok <==> jpeg_encoding(width, height, rgba@) is Some,
        res matches Ok(jpeg) ==> jpeg@ == jpeg_encoding(width, height, rgba@)->0,
        res matches Ok(jpeg) ==> jpeg@.len() >= 2 && jpeg@[0] == 0xFF && jpeg@[1] == 0xD8,
        res is Ok <==> (1 <= width <= 65535 && 1 <= height <= 65535),
{
    let image: image::RgbaImage = image::ImageBuffer::from_raw(width, height, rgba).expect("fits");
    let mut jpeg = Vec::new();
    image::DynamicImage::from(image).into_rgb8().write_to(
        &mut std::io::Cursor::new(&mut jpeg),
        image::ImageFormat::Jpeg,
    )?;
    Ok(jpeg)
}

/// The outcome of encoding an RGBA image as JPEG.
pub open spec fn jpeg_outcome(width: u32, height: u32, rgba: Seq<u8>) -> Result<
    Seq<u8>,
    ConversionError,
> {
    match jpeg_encoding(width, height, rgba) {
        Some(jpeg) => Ok(jpeg),
        None => Err(ConversionError::Encode),
    }
}

pub open spec fn is_jpeg_start(bytes: Seq<u8>) -> bool {
    bytes.len() >= 2 && bytes[0] == 0xFF && bytes[1] == 0xD8
}

pub open spec fn result_view(r: Result<Vec<u8>, ConversionError>) -> Result<Seq<u8>, ConversionError> {
    match r {
        Ok(v) => Ok(v@),
        Err(e) => Err(e),
    }
}

/// Encodes an RGBA image as JPEG (its alpha channel dropped).
pub fn convert_to_jpg(image: RgbaImage) -> (res: Result<Vec<u8>, ConversionError>)
    ensures
        result_view(res) == jpeg_outcome(image.spec_width(), image.spec_height(), image.spec_data()),
        res matches Ok(jpeg) ==> is_jpeg_start(jpeg@),
        res is Ok <==> (1 <= image.spec_width() <= 65535 && 1 <= image.spec_height() <= 65535),
{
    proof {
        use_type_invariant(&image);
    }
    let RgbaImage { width, height, data } = image;
    match encode_jpeg(width, height, data) {
        Ok(jpeg) => Ok(jpeg),
        Err(_) => Err(ConversionError::Encode),
    }
}

/// The outcome of converting a decoded image: refused where its buffer is
/// too small for its dimensions, else the JPEG encoding.
pub open spec fn decoded_to_jpeg(width: u32, height: u32, data: Seq<u8>) -> Result<
    Seq<u8>,
    ConversionError,
> {
    if rgba_fits(width, height, data.len()) {
        jpeg_outcome(width, height, data)
    } else {
        Err(ConversionError::PixelBufferMismatch)
    }
}

/// The outcome of converting HEIC bytes to JPEG bytes.
pub open spec fn heic_to_jpeg(bytes: Seq<u8>) -> Result<Seq<u8>, ConversionError> {
    match heic_rgba_decoding(bytes) {
        Some((width, height, data)) => decoded_to_jpeg(width, height, data),
        None => Err(ConversionError::Decode),
    }
}

/// Encodes a decoded image as JPEG, refusing a pixel buffer that is too
/// small for the image's dimensions.
pub fn jpeg_from_decoded(decoded: DecodedImage) -> (res: Result<Vec<u8>, ConversionError>)
    ensures
        result_view(res) == decoded_to_jpeg(decoded.width, decoded.height, decoded.data@),
        res matches Ok(jpeg) ==> jpeg_encoding(decoded.width, decoded.height, decoded.data@) == Some(
            jpeg@,
        ),
        res matches Ok(jpeg) ==> is_jpeg_start(jpeg@),
        rgba_fits(decoded.width, decoded.height, decoded.data@.len()) ==> (res is Ok <==> (1
            <= decoded.width <= 65535 && 1 <= decoded.height <= 65535)),
{
    let DecodedImage { width, height, data } = decoded;
    match pixels_to_imagebuffer(width, height, data) {
        Some(image) => convert_to_jpg(image),
        None => Err(ConversionError::PixelBufferMismatch),
    }
}

/// A converted image keeps the decoded sides: where a decoded image is
/// converted, the JPEG is the encoder's output for the decoded width as its
/// width and the decoded height as its height, over the decoded pixels; and
/// a buffer that fits is converted exactly when the encoder accepts it.
pub proof fn conversion_keeps_the_decoded_sides(width: u32, height: u32, data: Seq<u8>)
    ensures
        decoded_to_jpeg(width, height, data) matches Ok(jpeg) ==> jpeg_encoding(width, height, data)
            == Some(jpeg),
        4 * width * height <= data.len() ==> (decoded_to_jpeg(width, height, data) is Ok
            <==> jpeg_encoding(width, height, data) is Some),
        4 * width * height > data.len() ==> decoded_to_jpeg(width, height, data) == Err::<
            Seq<u8>,
            ConversionError,
        >(ConversionError::PixelBufferMismatch),
{
}

/// HEIC bytes become the encoder's output for the picture the decoder
/// gives, with its width, height and pixels in that order; bytes the
/// decoder refuses are a decoding error.
pub proof fn heic_conversion_encodes_the_decoded_picture(bytes: Seq<u8>)
    ensures
        heic_rgba_decoding(bytes) is None ==> heic_to_jpeg(bytes) == Err::<Seq<u8>, ConversionError>(
            ConversionError::Decode,
        ),
        heic_to_jpeg(bytes) matches Ok(jpeg) ==> heic_rgba_decoding(bytes) matches Some(d)
            && jpeg_encoding(d.0, d.1, d.2) == Some(jpeg),
{
}

/// Convert HEIC bytes to JPEG bytes.
///
/// This is the single entry point the upload pipeline calls. It chains the
/// decode, pixel buffer and encode steps, returning an error instead of
/// panicking: a corrupted or non-HEIC input yields `Err`.
pub fn convert_heic_to_jpeg(heic_bytes: &[u8]) -> (res: Result<Vec<u8>, ConversionError>)
    ensures
        result_view(res) == heic_to_jpeg(heic_bytes@),
        res is Ok ==> heic_rgba_decoding(heic_bytes@) is Some,
        res matches Ok(jpeg) ==> jpeg_encoding(
            (heic_rgba_decoding(heic_bytes@)->0).0,
            (heic_rgba_decoding(heic_bytes@)->0).1,
            (heic_rgba_decoding(heic_bytes@)->0).2,
        ) == Some(jpeg@),
        res matches Ok(jpeg) ==> is_jpeg_start(jpeg@),
        !(res matches Err(ConversionError::PixelBufferMismatch)),
{
    match heic_decode(heic_bytes) {
        Ok(decoded) => jpeg_from_decoded(decoded),
        Err(_) => Err(ConversionError::Decode),
    }
}

} // verus!
