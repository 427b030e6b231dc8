use image::{DynamicImage, GenericImageView, ImageFormat, Rgba, RgbaImage};
use lexicog::crop::{crop_and_convert, crop_region, CropError, CropRegion};

fn sample_png(width: u32, height: u32) -> Vec<u8> {
    let img = RgbaImage::from_fn(width, height, |x, y| Rgba([x as u8, y as u8, (x * 10 + y) as u8, 255]));
    let mut cursor = std::io::Cursor::new(Vec::new());
    DynamicImage::ImageRgba8(img)
        .write_to(&mut cursor, ImageFormat::Png)
        .unwrap();
    cursor.into_inner()
}

#[test]
fn crop_region_inside_image() {
    let r = crop_region(2, 3, 4, 5, 10, 10).unwrap();
    assert_eq!(r, CropRegion { x: 2, y: 3, width: 4, height: 5 });
}

#[test]
fn crop_region_is_clamped_to_image() {
    let r = crop_region(8, 7, 50, 50, 10, 9).unwrap();
    assert_eq!(r, CropRegion { x: 8, y: 7, width: 2, height: 2 });
}

#[test]
fn crop_region_refuses_empty_selection() {
    assert!(matches!(crop_region(0, 0, 0, 5, 10, 10), Err(CropError::EmptyRegion)));
    assert!(matches!(crop_region(0, 0, 5, 0, 10, 10), Err(CropError::EmptyRegion)));
}

#[test]
fn crop_region_refuses_origin_outside() {
    match crop_region(10, 0, 1, 1, 10, 10) {
        Err(CropError::OriginOutOfBounds { offset_x, offset_y, image_width, image_height }) => {
            assert_eq!((offset_x, offset_y, image_width, image_height), (10, 0, 10, 10));
        }
        _ => panic!("expected an out-of-bounds origin"),
    }
    assert!(matches!(
        crop_region(0, 12, 1, 1, 10, 10),
        Err(CropError::OriginOutOfBounds { .. })
    ));
}

#[test]
fn empty_region_checked_before_origin() {
    assert!(matches!(crop_region(100, 100, 0, 0, 10, 10), Err(CropError::EmptyRegion)));
}

#[test]
fn crop_and_convert_cuts_selected_pixels() {
    let png = sample_png(6, 5);
    let out = crop_and_convert(png, 1, 2, 3, 2).unwrap();
    assert_eq!(&out[..8], &[0x89, b'P', b'N', b'G', 0x0d, 0x0a, 0x1a, 0x0a]);
    let img = image::load_from_memory(&out).unwrap();
    assert_eq!(img.dimensions(), (3, 2));
    for j in 0..2u32 {
        for i in 0..3u32 {
            let x = 1 + i;
            let y = 2 + j;
            assert_eq!(img.get_pixel(i, j), Rgba([x as u8, y as u8, (x * 10 + y) as u8, 255]));
        }
    }
}

#[test]
fn crop_and_convert_clamps_to_image_edge() {
    let png = sample_png(6, 5);
    let out = crop_and_convert(png, 4, 3, 100, 100).unwrap();
    let img = image::load_from_memory(&out).unwrap();
    assert_eq!(img.dimensions(), (2, 2));
    assert_eq!(img.get_pixel(1, 1), Rgba([5, 4, 54, 255]));
}

#[test]
fn crop_and_convert_rejects_garbage() {
    let r = crop_and_convert(vec![1, 2, 3, 4, 5], 0, 0, 1, 1);
    assert!(matches!(r, Err(CropError::Decode(_))));
}

#[test]
fn crop_and_convert_rejects_empty_selection() {
    let r = crop_and_convert(sample_png(4, 4), 0, 0, 0, 3);
    assert!(matches!(r, Err(CropError::EmptyRegion)));
}

#[test]
fn crop_and_convert_rejects_origin_outside() {
    let r = crop_and_convert(sample_png(4, 4), 4, 1, 2, 2);
    match r {
        Err(CropError::OriginOutOfBounds { offset_x, offset_y, image_width, image_height }) => {
            assert_eq!((offset_x, offset_y, image_width, image_height), (4, 1, 4, 4));
        }
        _ => panic!("expected an out-of-bounds origin"),
    }
}

#[test]
fn crop_decoded_keeps_sixteen_bit_pixels() {
    let img = image::ImageBuffer::from_fn(5, 4, |x, y| image::Rgb([x as u16 * 1000, y as u16 * 1000, 7u16]));
    let out = lexicog::crop::crop_decoded(&DynamicImage::ImageRgb16(img), 2, 1, 2, 2).unwrap();
    let back = image::load_from_memory(&out).unwrap();
    assert_eq!(back.dimensions(), (2, 2));
    let px = back.as_rgb16().unwrap().get_pixel(1, 1);
    assert_eq!(px.0, [3000, 2000, 7]);
}

#[test]
fn crop_decoded_refuses_float_images_for_png() {
    let img = image::Rgb32FImage::from_pixel(3, 3, image::Rgb([0.5f32, 0.25, 1.0]));
    let r = lexicog::crop::crop_decoded(&DynamicImage::ImageRgb32F(img), 0, 0, 2, 2);
    assert!(matches!(r, Err(CropError::Encode(_))));
}

#[test]
fn crop_of_crop_equals_single_crop() {
    let png = sample_png(9, 7);
    let first = crop_and_convert(png.clone(), 2, 1, 6, 5).unwrap();
    let twice = crop_and_convert(first, 1, 2, 3, 2).unwrap();
    let once = crop_and_convert(png, 3, 3, 3, 2).unwrap();
    let a = image::load_from_memory(&twice).unwrap();
    let b = image::load_from_memory(&once).unwrap();
    assert_eq!(a.dimensions(), b.dimensions());
    assert_eq!(a.as_bytes(), b.as_bytes());
}

#[test]
fn crop_decoded_of_eight_bit_image_always_succeeds() {
    let img = DynamicImage::ImageLuma8(image::GrayImage::from_fn(4, 4, |x, y| image::Luma([(x + 4 * y) as u8])));
    for (x, y, w, h) in [(0u32, 0u32, 1u32, 1u32), (3, 3, 9, 9), (1, 0, 3, 4)] {
        let out = lexicog::crop::crop_decoded(&img, x, y, w, h).unwrap();
        let back = image::load_from_memory(&out).unwrap();
        assert_eq!(back.dimensions(), ((4 - x).min(w), (4 - y).min(h)));
    }
}
