//! The decoded-image model and the trusted calls into the `image` crate.
//!
//! A decoded image is described by its layout `(color, width, height)` and by
//! its raw samples (the bytes that `DynamicImage::as_bytes` exposes, row after
//! row, pixel after pixel). `color` is the position of the image's variant in
//! the declaration of `DynamicImage`: 0 = Luma8, 1 = LumaA8, 2 = Rgb8,
//! 3 = Rgba8, 4 = Luma16, 5 = LumaA16, 6 = Rgb16, 7 = Rgba16, 8 = Rgb32F,
//! 9 = Rgba32F.
use vstd::prelude::*;

verus! {

/// The decoded image type of the `image` crate, carried through opaquely.
#[verifier::external_type_specification]
#[verifier::external_body]
pub struct ExDynamicImage(image::DynamicImage);

/// The error type of the `image` crate.
#[verifier::external_type_specification]
#[verifier::external_body]
pub struct ExImageError(image::ImageError);

/// The raw samples held by a decoded image (its pixel container).
pub uninterp spec fn image_samples(img: image::DynamicImage) -> Seq<u8>;

/// The color variant and the dimensions the image was made with.
pub uninterp spec fn image_layout(img: image::DynamicImage) -> (u8, u32, u32);

/// Whether `image::load_from_memory` may give this outcome for `bytes`:
/// `None` for a failure, otherwise the layout and samples of the decoded
/// image. It is a relation, not a function: which decoder runs depends on
/// process-wide hook registries as well as on the bytes, and some decoders
/// allocate fallibly.
pub uninterp spec fn may_decode_to(
    bytes: Seq<u8>,
    outcome: Option<((u8, u32, u32), Seq<u8>)>,
) -> bool;

/// What `DynamicImage::write_to(.., ImageFormat::Png)` writes for an image of
/// the given layout and samples: `None` when the encoder refuses it. For the
/// 16-bit variants this assumes the encoder's byte-order buffer could be
/// allocated; that allocation is fallible and its failure is an error too.
pub uninterp spec fn png_encoding(layout: (u8, u32, u32), samples: Seq<u8>) -> Option<Seq<u8>>;

/// Whether a color variant has 16-bit channels.
pub open spec fn sixteen_bit(color: u8) -> bool {
    4 <= color <= 7
}

/// Bytes per pixel of each color variant (`ColorType::bytes_per_pixel`).
pub open spec fn bytes_per_pixel(color: u8) -> nat {
    if color == 0 {
        1
    } else if color == 1 || color == 4 {
        2
    } else if color == 2 {
        3
    } else if color == 3 || color == 5 {
        4
    } else if color == 6 {
        6
    } else if color == 7 {
        8
    } else if color == 8 {
        12
    } else {
        16
    }
}

pub open spec fn min_u32(a: u32, b: u32) -> u32 {
    if a <= b {
        a
    } else {
        b
    }
}

/// The rectangle `(x, y, width, height)` that `crop_imm` actually cuts out of an
/// image of `iw` x `ih` pixels: the origin is clamped into the image and the
/// size to what is left of it.
pub open spec fn clamped_rect(iw: u32, ih: u32, x: u32, y: u32, w: u32, h: u32) -> (
    u32,
    u32,
    u32,
    u32,
) {
    let cx = min_u32(x, iw);
    let cy = min_u32(y, ih);
    (cx, cy, min_u32(w, (iw - cx) as u32), min_u32(h, (ih - cy) as u32))
}

/// The samples of the `w` x `h` block at `(x, y)` of an image whose rows hold
/// `stride` pixels of `bpp` bytes each.
pub open spec fn sub_block(samples: Seq<u8>, bpp: nat, stride: nat, x: nat, y: nat, w: nat, h: nat) -> Seq<u8> {
    Seq::new(
        w * h * bpp,
        |k: int|
            {
                let px = k / (bpp as int);
                let b = k % (bpp as int);
                let row = px / (w as int);
                let col = px % (w as int);
                samples[((y + row) * stride + x + col) * bpp + b]
            },
    )
}

/// Layout of the image that `crop_imm(x, y, w, h)` returns.
pub open spec fn cropped_layout(layout: (u8, u32, u32), x: u32, y: u32, w: u32, h: u32) -> (
    u8,
    u32,
    u32,
) {
    let r = clamped_rect(layout.1, layout.2, x, y, w, h);
    (layout.0, r.2, r.3)
}

/// Samples of the image that `crop_imm(x, y, w, h)` returns.
pub open spec fn cropped_samples(
    layout: (u8, u32, u32),
    samples: Seq<u8>,
    x: u32,
    y: u32,
    w: u32,
    h: u32,
) -> Seq<u8> {
    let r = clamped_rect(layout.1, layout.2, x, y, w, h);
    sub_block(
        samples,
        bytes_per_pixel(layout.0),
        layout.1 as nat,
        r.0 as nat,
        r.1 as nat,
        r.2 as nat,
        r.3 as nat,
    )
}

/// Calls `image::load_from_memory`. Claimed: its outcome (a failure, or the
/// decoded image's layout and samples) is one that `may_decode_to` relates to
/// the bytes handed over. Which outcome is left unsaid: the format detection and the
/// choice of decoder consult process-wide hook registries, and some decoders
/// allocate fallibly, so the same bytes need not always give the same result.
#[verifier::external_body]
pub(crate) fn decode_image(bytes: &[u8]) -> (r: Result<image::DynamicImage, image::ImageError>)
    ensures
        r matches Ok(img) ==> may_decode_to(bytes@, Some((image_layout(img), image_samples(img)))),
        r is Err ==> may_decode_to(bytes@, None),
{
    image::load_from_memory(bytes)
}

/// Calls `DynamicImage::width`. Claimed: it is the width in the image's layout.
#[verifier::external_body]
pub(crate) fn image_width(img: &image::DynamicImage) -> (w: u32)
    ensures
        w == image_layout(*img).1,
{
    img.width()
}

/// Calls `DynamicImage::height`. Claimed: it is the height in the image's layout.
#[verifier::external_body]
pub(crate) fn image_height(img: &image::DynamicImage) -> (h: u32)
    ensures
        h == image_layout(*img).2,
{
    img.height()
}

/// Calls `DynamicImage::crop_imm`. Claimed, as its source shows
/// (`crop_dimms` then `SubImage::to_image`): the result keeps the color
/// variant, has the clamped size, and each of its pixels is the source pixel at
/// the clamped offset.
#[verifier::external_body]
pub(crate) fn crop_image(img: &image::DynamicImage, x: u32, y: u32, w: u32, h: u32) -> (r:
    image::DynamicImage)
    ensures
        image_layout(r) == cropped_layout(image_layout(*img), x, y, w, h),
        image_samples(r) == cropped_samples(image_layout(*img), image_samples(*img), x, y, w, h),
{
    img.crop_imm(x, y, w, h)
}

/// Calls `DynamicImage::write_to` with `ImageFormat::Png` into an in-memory
/// cursor. The PNG encoder asserts that the raw buffer holds exactly
/// width x height pixels, which `requires` demands. Claimed: written bytes
/// are `png_encoding` of the image's layout and samples; when that is `None`
/// the call fails; and for 8-bit variants a failure means that it is `None`
/// (for 16-bit variants the call may also fail because its byte-order buffer
/// could not be allocated, which is left unsaid). An 8-bit image of non-zero
/// size is always written: the encoder refuses only float variants and zero
/// dimensions, and writing into memory cannot fail.
#[verifier::external_body]
pub(crate) fn encode_png(img: &image::DynamicImage) -> (r: Result<Vec<u8>, image::ImageError>)
    requires
        image_samples(*img).len() == image_layout(*img).1 as nat * image_layout(*img).2 as nat
            * bytes_per_pixel(image_layout(*img).0),
    ensures
        r matches Ok(bytes) ==> png_encoding(image_layout(*img), image_samples(*img)) == Some(
            bytes@,
        ),
        png_encoding(image_layout(*img), image_samples(*img)) is None ==> r is Err,
        r is Err && !sixteen_bit(image_layout(*img).0) ==> png_encoding(
            image_layout(*img),
            image_samples(*img),
        ) is None,
        image_layout(*img).0 <= 3 && image_layout(*img).1 > 0 && image_layout(*img).2 > 0 ==> r is Ok,
{
    let mut cursor = std::io::Cursor::new(Vec::new());
    match img.write_to(&mut cursor, image::ImageFormat::Png) {
        Ok(()) => Ok(cursor.into_inner()),
        Err(e) => Err(e),
    }
}

} // verus!
