use crate::bitmap::Bitmap;
use vstd::prelude::*;

verus! {

#[verifier::external_type_specification]
#[verifier::external_body]
pub struct ExImageError(image::ImageError);

/// The RGBA pixels that nearest-neighbour resampling of a `width` x `height`
/// RGBA frame to `new_width` x `new_height` yields.
pub uninterp spec fn nearest_resized(
    pixels: Seq<u8>,
    width: nat,
    height: nat,
    new_width: nat,
    new_height: nat,
) -> Seq<u8>;

/// The JPEG file that the codec writes for a `width` x `height` RGBA frame at
/// the given quality (the alpha channel is dropped by the codec).
pub uninterp spec fn jpeg_encoded(pixels: Seq<u8>, width: nat, height: nat, quality: u8) -> Seq<
    u8,
>;

/// The base-64 text of `bytes` in the standard alphabet, padded, without line
/// breaks.
pub uninterp spec fn base64_standard(bytes: Seq<u8>) -> Seq<char>;

/// A character of base-64 text in the standard alphabet, or the `=` padding.
pub open spec fn is_base64_standard_char(c: char) -> bool {
    ('A' <= c <= 'Z') || ('a' <= c <= 'z') || ('0' <= c <= '9') || c == '+' || c == '/' || c
        == '='
}

/// The JPEG codec takes images whose sides are between 1 and 65535 pixels.
pub open spec fn jpeg_size_supported(width: nat, height: nat) -> bool {
    1 <= width <= 65535 && 1 <= height <= 65535
}

/// Resampling a frame `width` pixels wide to `new_width` x `new_height` keeps
/// the codec's buffers within the allocator's size limit: it first resamples
/// the columns into a `width` x `new_height` image of 32-bit float RGBA pixels
/// (16 bytes each), then the rows into a `new_width` x `new_height` image of
/// 8-bit RGBA pixels (4 bytes each).
pub open spec fn resample_fits(width: nat, new_width: nat, new_height: nat) -> bool {
    16 * width * new_height <= isize::MAX && 4 * new_width * new_height <= isize::MAX
}

/// Tells whether a frame `width` pixels wide can be resampled to
/// `new_width` x `new_height` without exceeding the allocation limit.
pub fn preview_size_supported(width: u32, new_width: u32, new_height: u32) -> (r: bool)
    ensures
        r == resample_fits(width as nat, new_width as nat, new_height as nat),
{
    let w = width as u128;
    let tw = new_width as u128;
    let th = new_height as u128;
    assert(16 * w * th <= 16 * u32::MAX * u32::MAX) by (nonlinear_arith)
        requires
            w <= u32::MAX,
            th <= u32::MAX,
    ;
    assert(4 * tw * th <= 4 * u32::MAX * u32::MAX) by (nonlinear_arith)
        requires
            tw <= u32::MAX,
            th <= u32::MAX,
    ;
    let limit = isize::MAX as u128;
    16 * w * th <= limit && 4 * tw * th <= limit
}

/// Relies on `image::imageops::resize` with `FilterType::Nearest`: the output
/// has exactly the requested size and depends on the source frame alone.
/// `ImageBuffer::from_raw` succeeds on a well-formed frame, and the requested
/// size is bounded so that the crate's buffer allocations cannot overflow.
#[verifier::external_body]
pub(crate) fn resize_nearest(src: &Bitmap, new_width: u32, new_height: u32) -> (r: Bitmap)
    requires
        src.wf(),
        new_width > 0,
        new_height > 0,
        resample_fits(src.width as nat, new_width as nat, new_height as nat),
    ensures
        r.wf(),
        r.width == new_width,
        r.height == new_height,
        r.pixels@ == nearest_resized(
            src.pixels@,
            src.width as nat,
            src.height as nat,
            new_width as nat,
            new_height as nat,
        ),
{
    let image = image::RgbaImage::from_raw(src.width, src.height, src.pixels.clone()).unwrap();
    let out = image::imageops::resize(
        &image,
        new_width,
        new_height,
        image::imageops::FilterType::Nearest,
    );
    Bitmap { width: out.width(), height: out.height(), pixels: out.into_raw() }
}

/// Relies on `JpegEncoder::new_with_quality` and `DynamicImage::write_with_encoder`
/// of the image crate: on success the bytes written are the JPEG encoding of the
/// frame at that quality (the encoder clamps the quality into 1..=100). The
/// encoder refuses only a side of 0 or above 65535 (`EncoderError::InvalidSize`);
/// writing into a `Vec` cannot fail.
#[verifier::external_body]
pub(crate) fn encode_jpeg(frame: &Bitmap, quality: u8) -> (r: Result<Vec<u8>, image::ImageError>)
    requires
        frame.wf(),
    ensures
        r is Ok <==> jpeg_size_supported(frame.width as nat, frame.height as nat),
        r is Ok ==> r->Ok_0@ == jpeg_encoded(
            frame.pixels@,
            frame.width as nat,
            frame.height as nat,
            quality,
        ),
{
    let image = image::RgbaImage::from_raw(frame.width, frame.height, frame.pixels.clone()).unwrap();
    let mut bytes: Vec<u8> = Vec::new();
    let encoder = image::codecs::jpeg::JpegEncoder::new_with_quality(&mut bytes, quality);
    let written = image::DynamicImage::ImageRgba8(image).write_with_encoder(encoder);
    match written {
        Ok(()) => Ok(bytes),
        Err(e) => Err(e),
    }
}

/// Relies on the `Display` impl of `image::ImageError` for a readable cause.
#[verifier::external_body]
pub(crate) fn describe_image_error(e: &image::ImageError) -> (r: String) {
    e.to_string()
}

/// Relies on `base64::Engine::encode` with the `STANDARD` engine: padded output
/// of four characters for every started group of three bytes, in the standard
/// alphabet.
#[verifier::external_body]
pub(crate) fn encode_base64(bytes: &Vec<u8>) -> (r: String)
    ensures
        r@ == base64_standard(bytes@),
        r@.len() == 4 * ((bytes@.len() + 2) / 3),
        forall|i: int| 0 <= i < r@.len() ==> is_base64_standard_char(#[trigger] r@[i]),
{
    base64::Engine::encode(&base64::engine::general_purpose::STANDARD, bytes)
}

/// The scheme marker that makes a base-64 payload an inline JPEG data URL.
pub const JPEG_DATA_URL_PREFIX: &'static str = "data:image/jpeg;base64,";

/// The data URL that carries `payload`: the marker, then the payload itself.
pub open spec fn jpeg_data_url(payload: Seq<char>) -> Seq<char> {
    JPEG_DATA_URL_PREFIX@ + payload
}

/// What follows the scheme marker in a data URL.
pub open spec fn data_url_payload(url: Seq<char>) -> Seq<char> {
    url.subrange(JPEG_DATA_URL_PREFIX@.len() as int, url.len() as int)
}

/// Prefixes a base-64 payload with the inline JPEG scheme marker.
pub fn jpeg_data_url_from_base64(payload: &str) -> (r: String)
    ensures
        r@ == jpeg_data_url(payload@),
{
    let mut url = String::from_str(JPEG_DATA_URL_PREFIX);
    url.append(payload);
    url
}

/// The payload of the data URL built from `payload` is `payload` again, behind
/// the scheme marker.
pub proof fn lemma_data_url_payload(payload: Seq<char>)
    ensures
        jpeg_data_url(payload).subrange(0, JPEG_DATA_URL_PREFIX@.len() as int)
            == JPEG_DATA_URL_PREFIX@,
        data_url_payload(jpeg_data_url(payload)) == payload,
{
    assert(jpeg_data_url(payload).subrange(0, JPEG_DATA_URL_PREFIX@.len() as int)
        =~= JPEG_DATA_URL_PREFIX@);
    assert(data_url_payload(jpeg_data_url(payload)) =~= payload);
}

} // verus!
