//! Raster images, QR codes and data URIs: decoding and aspect-preserving
//! downscaling of raster images, rendering of a QR code for an address, and
//! base64 embedding of bytes.
use vstd::prelude::*;
use image::DynamicImage;
use qrcode::QrCode;
use crate::text::{chars_of, text_of};

verus! {

#[verifier::external_type_specification]
#[verifier::external_body]
pub struct ExDynamicImage(image::DynamicImage);

#[verifier::external_type_specification]
#[verifier::external_body]
pub struct ExImageError(image::ImageError);

#[verifier::external_type_specification]
#[verifier::external_body]
pub struct ExQrCode(qrcode::QrCode);

#[verifier::external_type_specification]
#[verifier::external_body]
pub struct ExQrError(qrcode::types::QrError);

/// Why an image could not be produced.
#[derive(Clone, Copy, Debug, PartialEq, Eq, Structural)]
pub enum MediaError {
    /// The bytes are not an image that can be decoded.
    Decode,
    /// The image could not be encoded as PNG.
    Encode,
    /// The data does not fit in any QR code version.
    QrCapacity,
}

/// A decoded raster image with its size in pixels.
struct Raster {
    image: DynamicImage,
    width: u32,
    height: u32,
}

/// The size of the image that `data` decodes to, if it decodes.
pub uninterp spec fn decoded_size(data: Seq<u8>) -> Option<(u32, u32)>;

/// The standard base64 encoding, with padding, of `data`.
pub uninterp spec fn base64_of(data: Seq<u8>) -> Seq<char>;

/// Whether `data` fits in some QR code version.
pub uninterp spec fn qr_fits(data: Seq<u8>) -> bool;

/// Relies on `image::load_from_memory`: the format is guessed from the bytes
/// and the decoded image, with its width and height, depends on them alone.
#[verifier::external_body]
fn decode_raster(data: &[u8]) -> (r: Result<Raster, image::ImageError>)
    ensures
        r is Ok <==> decoded_size(data@) is Some,
        r matches Ok(img) ==> decoded_size(data@) == Some((img.width, img.height)),
{
    let img = image::load_from_memory(data)?;
    Ok(Raster { width: img.width(), height: img.height(), image: img })
}

/// Relies on `DynamicImage::resize_exact` with the Lanczos filter: the new
/// image has exactly the requested width and height.
#[verifier::external_body]
fn resize_raster(img: &Raster, width: u32, height: u32) -> (r: Raster)
    ensures
        r.width == width,
        r.height == height,
{
    let out = img.image.resize_exact(width, height, image::imageops::FilterType::Lanczos3);
    Raster { width: out.width(), height: out.height(), image: out }
}

/// The number of pixels up to which a PNG written here decodes again under
/// `image::load_from_memory`'s default limit of 512 MiB: at most 8 bytes a
/// pixel once `write_to` has converted the colors for PNG, with half of the
/// limit left for the decoder.
pub const MAX_DECODED_PIXELS: u64 = 0x200_0000;

/// Whether an image of this size has pixels and few enough of them for a
/// PNG of it to decode again.
pub open spec fn decodable(width: int, height: int) -> bool {
    0 < width && 0 < height && width * height <= MAX_DECODED_PIXELS
}

/// Whether bytes begin with the PNG signature.
pub open spec fn png_signed(b: Seq<u8>) -> bool {
    b.len() >= 8 && b[0] == 137 && b[1] == 80 && b[2] == 78 && b[3] == 71 && b[4] == 13 && b[5]
        == 10 && b[6] == 26 && b[7] == 10
}

/// Relies on `DynamicImage::write_to` with the PNG format, into memory. The
/// encoder refuses only an empty image; its output starts with the PNG
/// signature and its header records the width and height, which
/// `image::load_from_memory` decodes back when the image is small enough
/// for its default limits. As a `Vec`, the output holds at most
/// `isize::MAX` bytes.
#[verifier::external_body]
fn encode_png(img: &Raster) -> (r: Result<Vec<u8>, image::ImageError>)
    ensures
        decodable(img.width as int, img.height as int) ==> r is Ok,
        r matches Ok(png) ==> png_signed(png@) && png@.len() <= usize::MAX / 2,
        r matches Ok(png) ==> (decodable(img.width as int, img.height as int) ==> decoded_size(
            png@,
        ) == Some((img.width, img.height))),
{
    let mut out: Vec<u8> = Vec::new();
    img.image.write_to(&mut std::io::Cursor::new(&mut out), image::ImageFormat::Png)?;
    Ok(out)
}

/// Relies on base64's standard engine: padded output of four characters
/// for every three bytes begun.
#[verifier::external_body]
fn base64_encode(data: &[u8]) -> (r: String)
    requires
        data@.len() <= usize::MAX / 2,
    ensures
        r@ == base64_of(data@),
        r@.len() == (data@.len() + 2) / 3 * 4,
{
    base64::Engine::encode(&base64::engine::general_purpose::STANDARD, data)
}

/// Relies on `QrCode::new`: it fails exactly when the data exceeds the
/// capacity of every QR version.
#[verifier::external_body]
fn qr_encode(data: &[u8]) -> (r: Result<QrCode, qrcode::types::QrError>)
    ensures
        r is Ok <==> qr_fits(data@),
{
    QrCode::new(data)
}

/// Relies on qrcode's renderer with `side` as both the least and the largest
/// size: modules are square and as large as fits within `side`, and a code
/// has at most 185 modules across with its quiet zone.
#[verifier::external_body]
fn qr_raster(code: &QrCode, side: u32) -> (r: Raster)
    requires
        185 <= side,
    ensures
        r.width == r.height,
        0 < r.width <= side,
{
    let img = code.render::<image::Luma<u8>>().min_dimensions(side, side).max_dimensions(
        side,
        side,
    ).build();
    let out = DynamicImage::ImageLuma8(img);
    Raster { width: out.width(), height: out.height(), image: out }
}

/// At least one.
pub open spec fn at_least_one(n: int) -> int {
    if n < 1 {
        1
    } else {
        n
    }
}

/// The size of a `width` × `height` image scaled so that its longer edge is
/// `target`: the other edge is scaled by the same factor, rounded down, and
/// kept at one pixel at least.
pub open spec fn scaled(width: int, height: int, target: int) -> (int, int) {
    if width > height {
        (target, at_least_one(height * target / width))
    } else {
        (at_least_one(width * target / height), target)
    }
}

/// The size of an image larger than `target` in some edge once its longer
/// edge is brought to `target`.
pub fn scaled_size(width: u32, height: u32, target: u32) -> (r: (u32, u32))
    requires
        width > target || height > target,
    ensures
        r.0 as int == scaled(width as int, height as int, target as int).0,
        r.1 as int == scaled(width as int, height as int, target as int).1,
{
    if width > height {
        assert((height as int) * (target as int) <= 0xFFFF_FFFFint * 0xFFFF_FFFFint) by (nonlinear_arith)
            requires
                height <= 0xFFFF_FFFF,
                target <= 0xFFFF_FFFF,
                height >= 0,
                target >= 0,
        ;
        let short = (height as u64) * (target as u64) / (width as u64);
        assert(short <= target) by (nonlinear_arith)
            requires
                short == (height as int) * (target as int) / (width as int),
                height < width,
        {
            assert((height as int) * (target as int) <= (width as int) * (target as int));
        }
        (target, if short < 1 {
            1
        } else {
            short as u32
        })
    } else {
        assert((width as int) * (target as int) <= 0xFFFF_FFFFint * 0xFFFF_FFFFint) by (nonlinear_arith)
            requires
                width <= 0xFFFF_FFFF,
                target <= 0xFFFF_FFFF,
                width >= 0,
                target >= 0,
        ;
        let short = (width as u64) * (target as u64) / (height as u64);
        assert(short <= target) by (nonlinear_arith)
            requires
                short == (width as int) * (target as int) / (height as int),
                width <= height,
                height > 0,
        {
            assert((width as int) * (target as int) <= (height as int) * (target as int));
        }
        (if short < 1 {
            1
        } else {
            short as u32
        }, target)
    }
}

/// Whether an image size is the given one.
pub open spec fn sized_as(size: Option<(u32, u32)>, dims: (int, int)) -> bool {
    match size {
        Some((w, h)) => w as int == dims.0 && h as int == dims.1,
        None => false,
    }
}

/// What downscaling may give for bytes that decode to a `w` × `h` image
/// larger than `target`: PNG bytes of the scaled size, which fail to encode
/// only when that size is not `decodable`, and whose size is known once
/// decoded when it is.
pub open spec fn downscaled(r: Result<Seq<u8>, MediaError>, w: u32, h: u32, target: u32) -> bool {
    let d = scaled(w as int, h as int, target as int);
    match r {
        Ok(v) => png_signed(v) && v.len() <= usize::MAX / 2 && (decodable(d.0, d.1) ==> sized_as(
            decoded_size(v),
            d,
        )),
        Err(e) => e == MediaError::Encode && !decodable(d.0, d.1),
    }
}

/// The bytes of a result, as a sequence.
pub open spec fn result_bytes<T: View<V = Seq<u8>>>(r: Result<T, MediaError>) -> Result<
    Seq<u8>,
    MediaError,
> {
    match r {
        Ok(v) => Ok(v@),
        Err(e) => Err(e),
    }
}

/// Downscales an image so that neither edge exceeds `target_size`, and
/// encodes the result as PNG; `None` when the image is already within
/// bounds and needs no new encoding.
pub fn downscale(image_data: &[u8], target_size: u32) -> (r: Result<Option<Vec<u8>>, MediaError>)
    ensures
        (match decoded_size(image_data@) {
            None => r == Err::<Option<Vec<u8>>, MediaError>(MediaError::Decode),
            Some((w, h)) => if w <= target_size && h <= target_size {
                r matches Ok(None)
            } else {
                match r {
                    Ok(Some(v)) => downscaled(Ok(v@), w, h, target_size),
                    Ok(None) => false,
                    Err(e) => downscaled(Err(e), w, h, target_size),
                }
            },
        }),
{
    let img = match decode_raster(image_data) {
        Ok(img) => img,
        Err(_) => return Err(MediaError::Decode),
    };
    if img.width <= target_size && img.height <= target_size {
        return Ok(None);
    }
    let (w, h) = scaled_size(img.width, img.height, target_size);
    let resized = resize_raster(&img, w, h);
    match encode_png(&resized) {
        Ok(v) => Ok(Some(v)),
        Err(_) => Err(MediaError::Encode),
    }
}

/// Downscales an image so that neither edge exceeds `target_size`, and
/// encodes the result as PNG. An image already within bounds comes back
/// byte for byte.
pub fn resize_image(image_data: &[u8], target_size: u32) -> (r: Result<Vec<u8>, MediaError>)
    ensures
        (match decoded_size(image_data@) {
            None => r == Err::<Vec<u8>, MediaError>(MediaError::Decode),
            Some((w, h)) => if w <= target_size && h <= target_size {
                r matches Ok(v) && v@ == image_data@
            } else {
                downscaled(result_bytes(r), w, h, target_size)
            },
        }),
{
    match downscale(image_data, target_size) {
        Ok(Some(v)) => Ok(v),
        Ok(None) => Ok(vstd::slice::slice_to_vec(image_data)),
        Err(e) => Err(e),
    }
}

/// The data URI `data:<mime>;base64,<payload>`.
pub open spec fn data_uri_of(mime: Seq<char>, data: Seq<u8>) -> Seq<char> {
    "data:"@ + mime + ";base64,"@ + base64_of(data)
}

/// Embeds bytes as a base64 data URI of the given MIME type.
pub fn data_uri(mime: &str, data: &[u8]) -> (r: String)
    requires
        data@.len() <= usize::MAX / 2,
    ensures
        r@ == data_uri_of(mime@, data@),
{
    let mut out = chars_of("data:");
    let mut m = chars_of(mime);
    out.append(&mut m);
    let mut sep = chars_of(";base64,");
    out.append(&mut sep);
    let payload = base64_encode(data);
    let mut p = chars_of(payload.as_str());
    out.append(&mut p);
    assert(out@ =~= data_uri_of(mime@, data@));
    text_of(&out)
}

/// Whether an image size is a square of at most `side` pixels a side.
pub open spec fn square_within(size: Option<(u32, u32)>, side: u32) -> bool {
    match size {
        Some((w, h)) => w == h && 0 < w <= side,
        None => false,
    }
}

/// The side of the square that a QR code is rendered into.
pub const QR_SIDE: u32 = 200;

/// Whether a text is a PNG data URI of a square image of at most `QR_SIDE`
/// pixels a side.
pub open spec fn qr_artifact(s: Seq<char>) -> bool {
    exists|png: Seq<u8>|
        s == #[trigger] data_uri_of("image/png"@, png) && png_signed(png) && square_within(
            decoded_size(png),
            QR_SIDE,
        )
}

/// A PNG data URI of a QR code for `url`, rendered into a square of at most
/// 200 pixels a side. It fails, with `QrCapacity`, exactly when the address
/// does not fit in a QR code.
pub fn generate_qr_code(url: &str) -> (r: Result<String, MediaError>)
    ensures
        qr_fits(vstd::utf8::encode_utf8(url@)) ==> (r matches Ok(s) && qr_artifact(s@)),
        !qr_fits(vstd::utf8::encode_utf8(url@)) ==> r == Err::<String, MediaError>(
            MediaError::QrCapacity,
        ),
{
    let code = match qr_encode(url.as_bytes()) {
        Ok(c) => c,
        Err(_) => return Err(MediaError::QrCapacity),
    };
    let img = qr_raster(&code, QR_SIDE);
    assert(decodable(img.width as int, img.height as int)) by (nonlinear_arith)
        requires
            img.width == img.height,
            0 < img.width <= 200,
    {
        assert((img.width as int) * (img.height as int) <= 200 * 200);
    }
    match encode_png(&img) {
        Ok(png) => {
            let r = data_uri("image/png", png.as_slice());
            assert(square_within(decoded_size(png@), QR_SIDE));
            assert(data_uri_of("image/png"@, png@) == r@);
            Ok(r)
        },
        Err(_) => Err(MediaError::Encode),
    }
}

} // verus!
