use vstd::prelude::*;
use crate::color::{hex_color_components_from_str, valid_hex_color};

verus! {

/// A decoded image of the image crate, carried between the calls below.
#[verifier::external_type_specification]
#[verifier::external_body]
pub struct ExDynamicImage(image::DynamicImage);

/// The width and height of every rendered icon, in pixels.
pub const ICON_SIZE: u32 = 100;

/// What image's RGBA `blend` makes of the pixel `under` with `over` drawn on
/// top of it.
pub uninterp spec fn rgba_blend(under: (u8, u8, u8, u8), over: (u8, u8, u8, u8)) -> (
    u8,
    u8,
    u8,
    u8,
);

/// The standard padded base64 text of the bytes `b`.
pub uninterp spec fn base64_of(b: Seq<u8>) -> Seq<char>;

/// Whether image's `load_from_memory` decodes the bytes `b`.
pub uninterp spec fn decodes(b: Seq<u8>) -> bool;

/// Whether image's `load_from_memory` decodes the bytes `b` to an image held
/// as 8-bit RGBA.
pub uninterp spec fn decodes_rgba8(b: Seq<u8>) -> bool;

/// Whether an image is held as 8-bit RGBA.
pub uninterp spec fn holds_rgba8(img: image::DynamicImage) -> bool;

/// The width and height of an image.
pub uninterp spec fn image_dims(img: image::DynamicImage) -> (u32, u32);

/// Whether image's PNG writer takes the image: its pixels are 8 or 16 bits
/// per channel, grey or RGB, with or without alpha; its buffer fits its size
/// exactly; and neither dimension is zero.
pub uninterp spec fn png_encodable(img: image::DynamicImage) -> bool;

/// The big-endian 32-bit number at position `i` of `b`.
pub open spec fn be32(b: Seq<u8>, i: int) -> int {
    b[i] as int * 16777216 + b[i + 1] as int * 65536 + b[i + 2] as int * 256 + b[i + 3] as int
}

/// The width that a PNG file declares in its header chunk, which follows the
/// eight-byte signature and the chunk's length and type.
pub open spec fn png_width(b: Seq<u8>) -> int {
    be32(b, 16)
}

/// The height that a PNG file declares in its header chunk.
pub open spec fn png_height(b: Seq<u8>) -> int {
    be32(b, 20)
}

/// Relies on image's `load_from_memory`: the decoded image, `None` where the
/// bytes hold no image of a supported format. This build decodes PNG and
/// JPEG: both decoders reject a zero dimension and yield 8- or 16-bit grey or
/// RGB pixels (with or without alpha), in a buffer made to fit the size.
#[verifier::external_body]
fn decode_image(bytes: &Vec<u8>) -> (r: Option<image::DynamicImage>)
    ensures
        r is Some <==> decodes(bytes@),
        r matches Some(i) ==> png_encodable(i) && (holds_rgba8(i) <==> decodes_rgba8(bytes@))
            && image_dims(i).0 > 0 && image_dims(i).1 > 0,
{
    image::load_from_memory(bytes.as_slice()).ok()
}

/// Relies on image's `DynamicImage::as_rgba8`: the width, the height and the
/// raw bytes (red, green, blue, alpha per pixel) of an image held as 8-bit
/// RGBA, `None` for any other pixel layout.
#[verifier::external_body]
fn rgba8_pixels(img: &image::DynamicImage) -> (r: Option<(u32, u32, Vec<u8>)>)
    ensures
        r is Some <==> holds_rgba8(*img),
        r matches Some((w, h, px)) ==> (w, h) == image_dims(*img) && (png_encodable(*img)
            ==> px@.len() == 4 * w * h),
{
    img.as_rgba8().map(|b| (b.width(), b.height(), b.as_raw().clone()))
}

/// Relies on image's `ImageBuffer::from_raw`: the 8-bit RGBA image of the
/// given size over `px`, `None` where `px` is too short for that size.
#[verifier::external_body]
fn image_from_rgba8(width: u32, height: u32, px: Vec<u8>) -> (r: Option<image::DynamicImage>)
    ensures
        px@.len() == 4 * width * height && width > 0 && height > 0 ==> r is Some,
        r is Some && px@.len() == 4 * width * height && width > 0 && height > 0 ==> png_encodable(
            r->0,
        ),
        r is Some ==> image_dims(r->0) == (width, height),
{
    image::RgbaImage::from_raw(width, height, px).map(image::DynamicImage::ImageRgba8)
}

/// Relies on image's `Pixel::blend` for `Rgba<u8>`: `over` drawn on `under`.
/// A fully transparent `over` leaves `under`; a fully opaque one replaces it.
#[verifier::external_body]
fn blend_pixel(under: (u8, u8, u8, u8), over: (u8, u8, u8, u8)) -> (r: (u8, u8, u8, u8))
    ensures
        r == rgba_blend(under, over),
        over.3 == 0 ==> r == under,
        over.3 == 255 ==> r == over,
{
    let mut p = image::Rgba([under.0, under.1, under.2, under.3]);
    image::Pixel::blend(&mut p, &image::Rgba([over.0, over.1, over.2, over.3]));
    (p.0[0], p.0[1], p.0[2], p.0[3])
}

/// Relies on image's `DynamicImage::resize_exact` with the nearest-neighbour
/// filter: the image scaled to exactly `width` by `height`, in a new buffer of
/// the same pixel layout.
#[verifier::external_body]
fn resize_nearest(img: &image::DynamicImage, width: u32, height: u32) -> (r: image::DynamicImage)
    ensures
        image_dims(r) == (width, height),
        png_encodable(*img) && width > 0 && height > 0 ==> png_encodable(r),
{
    img.resize_exact(width, height, image::imageops::FilterType::Nearest)
}

/// Relies on image's `DynamicImage::write_to` with the PNG format, into a
/// buffer in memory: the encoded file. The writer panics on a buffer that
/// does not fit the image's size, and fails on other pixel layouts or a zero
/// dimension, hence the precondition.
#[verifier::external_body]
fn encode_png(img: &image::DynamicImage) -> (r: Option<Vec<u8>>)
    requires
        png_encodable(*img),
    ensures
        r is Some,
        r is Some ==> png_width(r->0@) == image_dims(*img).0,
        r is Some ==> png_height(r->0@) == image_dims(*img).1,
{
    let mut out = std::io::Cursor::new(Vec::new());
    img.write_to(&mut out, image::ImageOutputFormat::Png).ok()?;
    Some(out.into_inner())
}

/// Relies on base64's `encode`: the standard padded base64 text of `b`.
#[verifier::external_body]
fn base64_encode(b: &Vec<u8>) -> (r: String)
    ensures
        r@ == base64_of(b@),
{
    base64::encode(b)
}

/// The pixel at position `i` of raw RGBA bytes.
pub open spec fn pixel_at(px: Seq<u8>, i: int) -> (u8, u8, u8, u8) {
    (px[4 * i], px[4 * i + 1], px[4 * i + 2], px[4 * i + 3])
}

/// The backdrop colour drawn over a pixel of alpha `alpha`: the more
/// transparent the pixel, the more of the colour shows.
pub open spec fn backdrop(color: (u8, u8, u8), alpha: u8) -> (u8, u8, u8, u8) {
    (color.0, color.1, color.2, (255 - alpha) as u8)
}

/// Puts the colour `color` behind every pixel of the raw RGBA bytes `px`: each
/// pixel is blended with the colour at an alpha that is the pixel's own
/// alpha inverted. Bytes past the last whole pixel stay as they are.
pub fn apply_backdrop(px: &mut Vec<u8>, color: (u8, u8, u8))
    ensures
        final(px)@.len() == old(px)@.len(),
        forall|i: int|
            0 <= i < old(px)@.len() / 4 ==> #[trigger] pixel_at(final(px)@, i) == rgba_blend(
                pixel_at(old(px)@, i),
                backdrop(color, old(px)@[4 * i + 3]),
            ),
        forall|j: int| 4 * (old(px)@.len() / 4) <= j < old(px)@.len() ==> final(px)@[j] == old(
            px,
        )@[j],
{
    let ghost orig = px@;
    let n = px.len() / 4;
    let mut i: usize = 0;
    while i < n
        invariant
            n == orig.len() / 4,
            orig.len() <= usize::MAX,
            px@.len() == orig.len(),
            i <= n,
            forall|k: int|
                0 <= k < i ==> #[trigger] pixel_at(px@, k) == rgba_blend(
                    pixel_at(orig, k),
                    backdrop(color, orig[4 * k + 3]),
                ),
            forall|j: int| 4 * i <= j < orig.len() ==> px@[j] == orig[j],
        decreases n - i,
    {
        assert(4 * i + 3 < orig.len());
        let b = 4 * i;
        let under = (px[b], px[b + 1], px[b + 2], px[b + 3]);
        let over = (color.0, color.1, color.2, 255 - px[b + 3]);
        let out = blend_pixel(under, over);
        let ghost before = px@;
        px.set(b, out.0);
        px.set(b + 1, out.1);
        px.set(b + 2, out.2);
        px.set(b + 3, out.3);
        assert forall|k: int| 0 <= k < i implies #[trigger] pixel_at(px@, k) == pixel_at(before, k) by {
            assert(px@[4 * k] == before[4 * k]);
            assert(px@[4 * k + 1] == before[4 * k + 1]);
            assert(px@[4 * k + 2] == before[4 * k + 2]);
            assert(px@[4 * k + 3] == before[4 * k + 3]);
        }
        assert(pixel_at(px@, i as int) == out);
        i = i + 1;
    }
}

/// Why an icon could not be made.
#[derive(Debug, PartialEq, Eq, Structural)]
pub enum RenderError {
    /// The icon's bytes could not be fetched.
    Fetch,
    /// The bytes hold no image that can be decoded.
    Decode,
    /// The overlay colour is not a hex colour.
    BadColor,
    /// A colour was asked for, and the image has no 8-bit alpha channel.
    NoAlpha,
    /// The rendered image could not be encoded.
    Encode,
}

/// Renders the icon file `raw`: puts `color` behind it where one is given,
/// scales it to the icon size with the nearest-neighbour filter, encodes it as
/// PNG and returns that as base64 text.
pub fn render_icon(raw: &Vec<u8>, color: &Option<String>) -> (r: Result<String, RenderError>)
    ensures
        r matches Ok(s) ==> exists|png: Seq<u8>|
            s@ == base64_of(png) && png_width(png) == ICON_SIZE && png_height(png) == ICON_SIZE,
        !decodes(raw@) ==> r == Err::<String, RenderError>(RenderError::Decode),
        decodes(raw@) && (color matches Some(c) && !valid_hex_color(c@)) ==> r == Err::<
            String,
            RenderError,
        >(RenderError::BadColor),
        decodes(raw@) && (color matches Some(c) && valid_hex_color(c@)) && !decodes_rgba8(raw@)
            ==> r == Err::<String, RenderError>(RenderError::NoAlpha),
        decodes(raw@) && (color is None || (color matches Some(c) && valid_hex_color(c@)
            && decodes_rgba8(raw@))) ==> r is Ok,
        r == Err::<String, RenderError>(RenderError::Decode) ==> !decodes(raw@),
{
    let decoded = match decode_image(raw) {
        Some(img) => img,
        None => return Err(RenderError::Decode),
    };
    let img = match color {
        Some(c) => {
            let (red, green, blue) = match hex_color_components_from_str(c.as_str()) {
                Ok(parts) => parts,
                Err(_) => return Err(RenderError::BadColor),
            };
            let (width, height, mut px) = match rgba8_pixels(&decoded) {
                Some(parts) => parts,
                None => return Err(RenderError::NoAlpha),
            };
            apply_backdrop(&mut px, (red, green, blue));
            match image_from_rgba8(width, height, px) {
                Some(img) => img,
                None => return Err(RenderError::NoAlpha),
            }
        },
        None => decoded,
    };
    let scaled = resize_nearest(&img, ICON_SIZE, ICON_SIZE);
    let png = match encode_png(&scaled) {
        Some(png) => png,
        None => return Err(RenderError::Encode),
    };
    let text = base64_encode(&png);
    assert(text@ == base64_of(png@) && png_width(png@) == ICON_SIZE && png_height(png@)
        == ICON_SIZE);
    Ok(text)
}

} // verus!
