//! Cutting the user's selection out of a screenshot and re-encoding it as PNG.
use vstd::prelude::*;
use vstd::arithmetic::div_mod::{
    lemma_div_pos_is_pos, lemma_fundamental_div_mod, lemma_fundamental_div_mod_converse,
    lemma_mod_pos_bound,
};

use crate::raster::{
    min_u32,
    bytes_per_pixel, clamped_rect, crop_image, cropped_layout, cropped_samples, decode_image,
    encode_png, image_height, image_layout, image_samples, image_width, may_decode_to, png_encoding,
    sixteen_bit,
    sub_block,
};

verus! {

/// A rectangle of pixels inside an image.
#[derive(Clone, Copy, Debug, PartialEq, Eq, Structural)]
pub struct CropRegion {
    pub x: u32,
    pub y: u32,
    pub width: u32,
    pub height: u32,
}

/// Why a screenshot could not be cropped.
#[derive(Debug)]
pub enum CropError {
    /// The screenshot bytes are no image the decoder understands.
    Decode(image::ImageError),
    /// The requested selection has no width or no height.
    EmptyRegion,
    /// The selection starts outside the image.
    OriginOutOfBounds { offset_x: u32, offset_y: u32, image_width: u32, image_height: u32 },
    /// The cropped image could not be written as PNG.
    Encode(image::ImageError),
}

/// The region selected by a request of `width` x `height` pixels at
/// `(offset_x, offset_y)` in an image of `image_width` x `image_height`: an
/// empty request is refused, an origin outside the image is refused, and
/// otherwise the request is cut down to what lies inside the image.
pub open spec fn spec_crop_region(
    offset_x: u32,
    offset_y: u32,
    width: u32,
    height: u32,
    image_width: u32,
    image_height: u32,
) -> Result<CropRegion, CropError> {
    if width == 0 || height == 0 {
        Err(CropError::EmptyRegion)
    } else if offset_x >= image_width || offset_y >= image_height {
        Err(
            CropError::OriginOutOfBounds {
                offset_x,
                offset_y,
                image_width,
                image_height,
            },
        )
    } else {
        Ok(
            CropRegion {
                x: offset_x,
                y: offset_y,
                width: if width <= image_width - offset_x {
                    width
                } else {
                    (image_width - offset_x) as u32
                },
                height: if height <= image_height - offset_y {
                    height
                } else {
                    (image_height - offset_y) as u32
                },
            },
        )
    }
}

/// Whether `r` is what cropping a decoded image of the given layout and
/// samples to the selection yields: a refused region is that error; otherwise
/// the result is the PNG encoding of the selected block, or an encoding error
/// when the encoder refuses the block (or, for 16-bit images, could not
/// allocate its byte-order buffer). An accepted selection of an 8-bit image
/// always yields a PNG.
pub open spec fn crop_follows(
    layout: (u8, u32, u32),
    samples: Seq<u8>,
    offset_x: u32,
    offset_y: u32,
    width: u32,
    height: u32,
    r: Result<Vec<u8>, CropError>,
) -> bool {
    match spec_crop_region(offset_x, offset_y, width, height, layout.1, layout.2) {
        Err(e) => r == Err::<Vec<u8>, CropError>(e),
        Ok(region) => (layout.0 <= 3 ==> r is Ok) && match png_encoding(
            cropped_layout(layout, region.x, region.y, region.width, region.height),
            cropped_samples(layout, samples, region.x, region.y, region.width, region.height),
        ) {
            None => r matches Err(CropError::Encode(_)),
            Some(png) => (r matches Ok(out) && out@ == png) || (sixteen_bit(layout.0)
                && r matches Err(CropError::Encode(_))),
        },
    }
}

/// What cropping the screenshot `bytes` may yield: a decoding error when the
/// bytes may fail to decode, or what cropping to the selection yields for an
/// image that the bytes may decode to.
pub open spec fn crop_outcome(
    bytes: Seq<u8>,
    offset_x: u32,
    offset_y: u32,
    width: u32,
    height: u32,
    r: Result<Vec<u8>, CropError>,
) -> bool {
    ||| r matches Err(CropError::Decode(_)) && may_decode_to(bytes, None)
    ||| exists|layout: (u8, u32, u32), samples: Seq<u8>|
        may_decode_to(bytes, Some((layout, samples))) && #[trigger] crop_follows(
            layout,
            samples,
            offset_x,
            offset_y,
            width,
            height,
            r,
        )
}

/// Decides which part of an `image_width` x `image_height` image a selection
/// of `width` x `height` at `(offset_x, offset_y)` covers.
pub fn crop_region(
    offset_x: u32,
    offset_y: u32,
    width: u32,
    height: u32,
    image_width: u32,
    image_height: u32,
) -> (r: Result<CropRegion, CropError>)
    ensures
        r == spec_crop_region(offset_x, offset_y, width, height, image_width, image_height),
{
    if width == 0 || height == 0 {
        return Err(CropError::EmptyRegion);
    }
    if offset_x >= image_width || offset_y >= image_height {
        return Err(
            CropError::OriginOutOfBounds { offset_x, offset_y, image_width, image_height },
        );
    }
    let room_x: u32 = image_width - offset_x;
    let room_y: u32 = image_height - offset_y;
    let crop_width: u32 = if width <= room_x {
        width
    } else {
        room_x
    };
    let crop_height: u32 = if height <= room_y {
        height
    } else {
        room_y
    };
    Ok(CropRegion { x: offset_x, y: offset_y, width: crop_width, height: crop_height })
}

/// Cuts the selected region out of a decoded image and encodes it as PNG.
pub fn crop_decoded(img: &image::DynamicImage, offset_x: u32, offset_y: u32, width: u32, height: u32) -> (r:
    Result<Vec<u8>, CropError>)
    ensures
        crop_follows(image_layout(*img), image_samples(*img), offset_x, offset_y, width, height, r),
{
    let img_width: u32 = image_width(img);
    let img_height: u32 = image_height(img);
    let region = match crop_region(offset_x, offset_y, width, height, img_width, img_height) {
        Ok(region) => region,
        Err(e) => return Err(e),
    };
    let cropped = crop_image(img, region.x, region.y, region.width, region.height);
    match encode_png(&cropped) {
        Ok(png) => Ok(png),
        Err(e) => Err(CropError::Encode(e)),
    }
}

/// Decodes the screenshot `bin_img`, cuts out the selected region and returns
/// it encoded as PNG.
pub fn crop_and_convert(bin_img: Vec<u8>, offset_x: u32, offset_y: u32, width: u32, height: u32) -> (r:
    Result<Vec<u8>, CropError>)
    ensures
        crop_outcome(bin_img@, offset_x, offset_y, width, height, r),
{
    let img = match decode_image(bin_img.as_slice()) {
        Ok(img) => img,
        Err(e) => return Err(CropError::Decode(e)),
    };
    let r = crop_decoded(&img, offset_x, offset_y, width, height);
    assert(crop_follows(image_layout(img), image_samples(img), offset_x, offset_y, width, height, r));
    r
}

/// A selection that is accepted lies inside the image, keeps its origin, is
/// never larger than requested and is cut only where the image ends.
pub proof fn lemma_region_inside_image(
    offset_x: u32,
    offset_y: u32,
    width: u32,
    height: u32,
    image_width: u32,
    image_height: u32,
)
    requires
        spec_crop_region(offset_x, offset_y, width, height, image_width, image_height) is Ok,
    ensures
        ({
            let r = spec_crop_region(
                offset_x,
                offset_y,
                width,
                height,
                image_width,
                image_height,
            ).unwrap();
            &&& r.x == offset_x && r.y == offset_y
            &&& 0 < r.width <= width && 0 < r.height <= height
            &&& r.x + r.width <= image_width && r.y + r.height <= image_height
            &&& r.width == width || r.x + r.width == image_width
            &&& r.height == height || r.y + r.height == image_height
        }),
{
}

/// A selection is refused exactly when it is empty or starts outside the image.
pub proof fn lemma_region_refused_iff(
    offset_x: u32,
    offset_y: u32,
    width: u32,
    height: u32,
    image_width: u32,
    image_height: u32,
)
    ensures
        spec_crop_region(offset_x, offset_y, width, height, image_width, image_height) is Err
            <==> (width == 0 || height == 0 || offset_x >= image_width || offset_y
            >= image_height),
{
}

/// Cropping to a region inside the image keeps the color variant, has the
/// region's size, and byte `b` of pixel `(i, j)` of the crop is byte `b` of
/// pixel `(x + i, y + j)` of the source.
pub proof fn lemma_crop_keeps_pixels(
    layout: (u8, u32, u32),
    samples: Seq<u8>,
    region: CropRegion,
    i: int,
    j: int,
    b: int,
)
    requires
        region.x + region.width <= layout.1,
        region.y + region.height <= layout.2,
        0 <= i < region.width,
        0 <= j < region.height,
        0 <= b < bytes_per_pixel(layout.0),
    ensures
        cropped_layout(layout, region.x, region.y, region.width, region.height) == (
            layout.0,
            region.width,
            region.height,
        ),
        ({
            let out = cropped_samples(
                layout,
                samples,
                region.x,
                region.y,
                region.width,
                region.height,
            );
            let bpp = bytes_per_pixel(layout.0) as int;
            let w = region.width as int;
            &&& out.len() == region.width * region.height * bpp
            &&& out[(j * w + i) * bpp + b] == samples[((region.y + j) * layout.1 + region.x + i)
                * bpp + b]
        }),
{
    let bpp = bytes_per_pixel(layout.0) as int;
    let w = region.width as int;
    let h = region.height as int;
    let px = j * w + i;
    let k = px * bpp + b;
    assert(px < w * h) by (nonlinear_arith)
        requires
            0 <= i < w,
            0 <= j < h,
            px == j * w + i,
    ;
    assert(k < w * h * bpp) by (nonlinear_arith)
        requires
            0 <= px < w * h,
            0 <= b < bpp,
            k == px * bpp + b,
    ;
    assert(0 <= px) by (nonlinear_arith)
        requires
            0 <= i,
            0 <= j,
            0 <= w,
            px == j * w + i,
    ;
    lemma_fundamental_div_mod_converse(k, bpp, px, b);
    lemma_fundamental_div_mod_converse(px, w, j, i);
}

/// An empty selection is never answered with an image.
pub proof fn lemma_empty_selection_refused(
    bytes: Seq<u8>,
    offset_x: u32,
    offset_y: u32,
    width: u32,
    height: u32,
    r: Result<Vec<u8>, CropError>,
)
    requires
        crop_outcome(bytes, offset_x, offset_y, width, height, r),
        width == 0 || height == 0,
    ensures
        r is Err,
{
    if !(r matches Err(CropError::Decode(_))) {
        let (layout, samples) = choose|layout: (u8, u32, u32), samples: Seq<u8>|
            #[trigger] crop_follows(layout, samples, offset_x, offset_y, width, height, r);
        assert(crop_follows(layout, samples, offset_x, offset_y, width, height, r));
    }
}

/// Position `k` of a block of `w` x `h` pixels of `bpp` bytes is byte `b` of
/// pixel `(col, row)`.
proof fn lemma_block_coords(k: int, bpp: int, w: int, h: int)
    requires
        0 <= k < w * h * bpp,
        bpp > 0,
        w >= 0,
        h >= 0,
    ensures
        w > 0,
        h > 0,
        0 <= k % bpp < bpp,
        0 <= (k / bpp) / w < h,
        0 <= (k / bpp) % w < w,
        k == (((k / bpp) / w) * w + (k / bpp) % w) * bpp + k % bpp,
{
    assert(w > 0 && h > 0) by (nonlinear_arith)
        requires
            0 <= k < w * h * bpp,
            bpp > 0,
            w >= 0,
            h >= 0,
    ;
    let px = k / bpp;
    lemma_fundamental_div_mod(k, bpp);
    lemma_mod_pos_bound(k, bpp);
    lemma_div_pos_is_pos(k, bpp);
    assert(px < w * h) by (nonlinear_arith)
        requires
            k == bpp * px + k % bpp,
            0 <= k % bpp < bpp,
            k < w * h * bpp,
            bpp > 0,
    ;
    lemma_fundamental_div_mod(px, w);
    lemma_mod_pos_bound(px, w);
    lemma_div_pos_is_pos(px, w);
    assert(px / w < h) by (nonlinear_arith)
        requires
            px == w * (px / w) + px % w,
            0 <= px % w,
            px < w * h,
            w > 0,
    ;
    assert(k == ((px / w) * w + px % w) * bpp + k % bpp) by (nonlinear_arith)
        requires
            k == bpp * px + k % bpp,
            px == w * (px / w) + px % w,
    ;
}

/// Cropping a crop is cropping once: with `inner` inside the `outer` crop,
/// the crop of the crop has the layout and samples of the single crop at the
/// summed offset.
pub proof fn lemma_crop_of_crop(
    layout: (u8, u32, u32),
    samples: Seq<u8>,
    outer: CropRegion,
    inner: CropRegion,
)
    requires
        outer.x + outer.width <= layout.1,
        outer.y + outer.height <= layout.2,
        inner.x + inner.width <= outer.width,
        inner.y + inner.height <= outer.height,
    ensures
        ({
            let l1 = cropped_layout(layout, outer.x, outer.y, outer.width, outer.height);
            let s1 = cropped_samples(layout, samples, outer.x, outer.y, outer.width, outer.height);
            let x = (outer.x + inner.x) as u32;
            let y = (outer.y + inner.y) as u32;
            &&& cropped_layout(l1, inner.x, inner.y, inner.width, inner.height) == cropped_layout(
                layout,
                x,
                y,
                inner.width,
                inner.height,
            )
            &&& cropped_samples(l1, s1, inner.x, inner.y, inner.width, inner.height)
                == cropped_samples(layout, samples, x, y, inner.width, inner.height)
        }),
{
    let bpp = bytes_per_pixel(layout.0) as int;
    let iw = layout.1 as int;
    let ow = outer.width as int;
    let oh = outer.height as int;
    let s1 = cropped_samples(layout, samples, outer.x, outer.y, outer.width, outer.height);
    assert(clamped_rect(layout.1, layout.2, outer.x, outer.y, outer.width, outer.height) == (
        outer.x,
        outer.y,
        outer.width,
        outer.height,
    ));
    let x = (outer.x + inner.x) as u32;
    let y = (outer.y + inner.y) as u32;
    assert(clamped_rect(layout.1, layout.2, x, y, inner.width, inner.height) == (
        x,
        y,
        inner.width,
        inner.height,
    ));
    assert(clamped_rect(outer.width, outer.height, inner.x, inner.y, inner.width, inner.height) == (
        inner.x,
        inner.y,
        inner.width,
        inner.height,
    ));
    let lhs = sub_block(
        s1,
        bpp as nat,
        ow as nat,
        inner.x as nat,
        inner.y as nat,
        inner.width as nat,
        inner.height as nat,
    );
    let rhs = sub_block(
        samples,
        bpp as nat,
        iw as nat,
        x as nat,
        y as nat,
        inner.width as nat,
        inner.height as nat,
    );
    assert forall|k: int| 0 <= k < lhs.len() implies lhs[k] == rhs[k] by {
        let w = inner.width as int;
        let h = inner.height as int;
        lemma_block_coords(k, bpp, w, h);
        let b = k % bpp;
        let row = (k / bpp) / w;
        let col = (k / bpp) % w;
        let pos = (inner.y + row) * ow + inner.x + col;
        let j = pos * bpp + b;
        assert(0 <= pos < ow * oh) by (nonlinear_arith)
            requires
                0 <= row < h,
                0 <= col < w,
                inner.y + h <= oh,
                inner.x + w <= ow,
                pos == (inner.y + row) * ow + inner.x + col,
                inner.x >= 0,
                inner.y >= 0,
        ;
        assert(0 <= j < ow * oh * bpp) by (nonlinear_arith)
            requires
                0 <= pos < ow * oh,
                0 <= b < bpp,
                j == pos * bpp + b,
        ;
        lemma_fundamental_div_mod_converse(j, bpp, pos, b);
        lemma_fundamental_div_mod_converse(pos, ow, inner.y + row, inner.x + col);
        assert(lhs[k] == s1[j]);
    }
    assert(lhs =~= rhs);
}

/// A selection made inside an accepted selection's crop is accepted at the
/// summed offset of the whole image, with the same size.
pub proof fn lemma_region_of_region(
    outer_request: (u32, u32, u32, u32),
    inner_request: (u32, u32, u32, u32),
    image_width: u32,
    image_height: u32,
)
    requires
        spec_crop_region(
            outer_request.0,
            outer_request.1,
            outer_request.2,
            outer_request.3,
            image_width,
            image_height,
        ) is Ok,
        spec_crop_region(
            inner_request.0,
            inner_request.1,
            inner_request.2,
            inner_request.3,
            spec_crop_region(
                outer_request.0,
                outer_request.1,
                outer_request.2,
                outer_request.3,
                image_width,
                image_height,
            ).unwrap().width,
            spec_crop_region(
                outer_request.0,
                outer_request.1,
                outer_request.2,
                outer_request.3,
                image_width,
                image_height,
            ).unwrap().height,
        ) is Ok,
    ensures
        ({
            let outer = spec_crop_region(
                outer_request.0,
                outer_request.1,
                outer_request.2,
                outer_request.3,
                image_width,
                image_height,
            ).unwrap();
            let inner = spec_crop_region(
                inner_request.0,
                inner_request.1,
                inner_request.2,
                inner_request.3,
                outer.width,
                outer.height,
            ).unwrap();
            &&& outer.x + inner.x + inner.width <= image_width
            &&& outer.y + inner.y + inner.height <= image_height
            &&& spec_crop_region(
                (outer.x + inner.x) as u32,
                (outer.y + inner.y) as u32,
                inner.width,
                inner.height,
                image_width,
                image_height,
            ) == Ok::<CropRegion, CropError>(
                CropRegion {
                    x: (outer.x + inner.x) as u32,
                    y: (outer.y + inner.y) as u32,
                    width: inner.width,
                    height: inner.height,
                },
            )
        }),
{
}

/// Asking for a selection already cut down to the image is asking for the
/// same thing: it selects the same region, so cropping gives the same answer.
pub proof fn lemma_clamped_request_same_crop(
    layout: (u8, u32, u32),
    samples: Seq<u8>,
    offset_x: u32,
    offset_y: u32,
    width: u32,
    height: u32,
    r: Result<Vec<u8>, CropError>,
)
    requires
        offset_x < layout.1,
        offset_y < layout.2,
    ensures
        ({
            let w = min_u32(width, (layout.1 - offset_x) as u32);
            let h = min_u32(height, (layout.2 - offset_y) as u32);
            &&& spec_crop_region(offset_x, offset_y, w, h, layout.1, layout.2) == spec_crop_region(
                offset_x,
                offset_y,
                width,
                height,
                layout.1,
                layout.2,
            )
            &&& crop_follows(layout, samples, offset_x, offset_y, w, h, r) == crop_follows(
                layout,
                samples,
                offset_x,
                offset_y,
                width,
                height,
                r,
            )
        }),
{
}

/// A selection at the origin at least as large as the image selects the
/// whole image, and cropping to it keeps the layout and every sample of an
/// image whose samples fill exactly its width x height pixels.
pub proof fn lemma_whole_image_crop(
    layout: (u8, u32, u32),
    samples: Seq<u8>,
    width: u32,
    height: u32,
)
    requires
        layout.1 > 0,
        layout.2 > 0,
        width >= layout.1,
        height >= layout.2,
        samples.len() == layout.1 as nat * layout.2 as nat * bytes_per_pixel(layout.0),
    ensures
        spec_crop_region(0, 0, width, height, layout.1, layout.2) == Ok::<CropRegion, CropError>(
            CropRegion { x: 0, y: 0, width: layout.1, height: layout.2 },
        ),
        cropped_layout(layout, 0, 0, layout.1, layout.2) == layout,
        cropped_samples(layout, samples, 0, 0, layout.1, layout.2) == samples,
{
    let bpp = bytes_per_pixel(layout.0) as int;
    let w = layout.1 as int;
    let h = layout.2 as int;
    assert(clamped_rect(layout.1, layout.2, 0, 0, layout.1, layout.2) == (0u32, 0u32, layout.1, layout.2));
    let out = cropped_samples(layout, samples, 0, 0, layout.1, layout.2);
    assert forall|k: int| 0 <= k < out.len() implies out[k] == samples[k] by {
        lemma_block_coords(k, bpp, w, h);
    }
    assert(out =~= samples);
}

/// What a crop answer means for the screenshot bytes: a decoding error only
/// when the bytes may fail to decode; a PNG only as the encoding of the block
/// that an accepted selection picks out of an image the bytes may decode to;
/// a region error only as the refusal of the selection for such an image.
pub proof fn lemma_crop_answer_meaning(
    bytes: Seq<u8>,
    offset_x: u32,
    offset_y: u32,
    width: u32,
    height: u32,
    r: Result<Vec<u8>, CropError>,
)
    requires
        crop_outcome(bytes, offset_x, offset_y, width, height, r),
    ensures
        r matches Err(CropError::Decode(_)) ==> may_decode_to(bytes, None),
        r matches Ok(out) ==> exists|layout: (u8, u32, u32), samples: Seq<u8>|
            #![trigger may_decode_to(bytes, Some((layout, samples)))]
            {
                &&& may_decode_to(bytes, Some((layout, samples)))
                &&& spec_crop_region(offset_x, offset_y, width, height, layout.1, layout.2) matches Ok(
                    region,
                ) && png_encoding(
                    cropped_layout(layout, region.x, region.y, region.width, region.height),
                    cropped_samples(
                        layout,
                        samples,
                        region.x,
                        region.y,
                        region.width,
                        region.height,
                    ),
                ) == Some(out@)
            },
        r matches Err(CropError::EmptyRegion) ==> width == 0 || height == 0,
        r matches Err(CropError::OriginOutOfBounds { offset_x: ox, offset_y: oy, image_width, image_height })
            ==> ox == offset_x && oy == offset_y && (offset_x >= image_width || offset_y
            >= image_height) && exists|samples: Seq<u8>, color: u8|
            #![trigger may_decode_to(bytes, Some(((color, image_width, image_height), samples)))]
            may_decode_to(bytes, Some(((color, image_width, image_height), samples))),
{
    if !(r matches Err(CropError::Decode(_))) {
        let (layout, samples) = choose|layout: (u8, u32, u32), samples: Seq<u8>|
            may_decode_to(bytes, Some((layout, samples))) && #[trigger] crop_follows(
                layout,
                samples,
                offset_x,
                offset_y,
                width,
                height,
                r,
            );
        assert(crop_follows(layout, samples, offset_x, offset_y, width, height, r));
        assert(may_decode_to(bytes, Some((layout, samples))));
        if let Err(CropError::OriginOutOfBounds { offset_x: ox, offset_y: oy, image_width, image_height }) = r {
            assert(image_width == layout.1 && image_height == layout.2);
            assert(layout == (layout.0, image_width, image_height));
            assert(may_decode_to(bytes, Some(((layout.0, image_width, image_height), samples))));
        }
    }
}

} // verus!
