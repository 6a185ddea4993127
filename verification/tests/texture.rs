use render2d::texture::{decode_texture, TextureError};
use std::io::Cursor;

fn png_bytes(img: image::DynamicImage) -> Vec<u8> {
    let mut bytes: Vec<u8> = Vec::new();
    img.write_to(&mut Cursor::new(&mut bytes), image::ImageFormat::Png).unwrap();
    bytes
}

#[test]
fn a_png_decodes_to_its_texels_and_row_layout() {
    let img = image::DynamicImage::ImageRgba8(image::RgbaImage::from_raw(2, 1, vec![1, 2, 3, 4, 5, 6, 7, 8]).unwrap());
    let bytes = png_bytes(img);
    let t = match decode_texture(&bytes, "png") {
        Ok(t) => t,
        Err(_) => panic!("the image should decode"),
    };
    assert_eq!((t.width, t.height), (2, 1));
    assert_eq!(t.pixels, vec![1, 2, 3, 4, 5, 6, 7, 8]);
    assert_eq!((t.layout.offset, t.layout.bytes_per_row, t.layout.rows_per_image), (0, 8, 4));
}

#[test]
fn the_extension_is_matched_without_regard_to_case() {
    let img = image::DynamicImage::ImageRgba8(image::RgbaImage::from_raw(1, 2, vec![9, 9, 9, 9, 0, 0, 0, 0]).unwrap());
    let bytes = png_bytes(img);
    match decode_texture(&bytes, "PNG") {
        Ok(t) => {
            assert_eq!((t.width, t.height), (1, 2));
            assert_eq!(t.pixels, vec![9, 9, 9, 9, 0, 0, 0, 0]);
        }
        Err(_) => panic!("the image should decode"),
    }
}

#[test]
fn a_grey_image_is_widened_to_rgba() {
    let img = image::DynamicImage::ImageLuma8(image::GrayImage::from_raw(2, 1, vec![10, 200]).unwrap());
    let bytes = png_bytes(img);
    match decode_texture(&bytes, "png") {
        Ok(t) => assert_eq!(t.pixels, vec![10, 10, 10, 255, 200, 200, 200, 255]),
        Err(_) => panic!("the image should decode"),
    }
}

#[test]
fn undecodable_images_are_image_errors() {
    let img = image::DynamicImage::ImageRgba8(image::RgbaImage::from_raw(1, 1, vec![1, 2, 3, 4]).unwrap());
    let bytes = png_bytes(img);
    assert!(matches!(decode_texture(&bytes, "nosuchformat"), Err(TextureError::Image(_))));
    assert!(matches!(decode_texture(&bytes, ""), Err(TextureError::Image(_))));
    assert!(matches!(decode_texture(&[0, 1, 2, 3], "png"), Err(TextureError::Image(_))));
    assert!(matches!(decode_texture(&[], "png"), Err(TextureError::Image(_))));
}
