use ebb::handle::Handle;
use ebb::texture::{
    DecodedImage, Extent3d, ImageDataLayout, ImageTexture,
    SamplerDescriptor, Texture, TextureDescriptor, TextureError, TextureFormat,
};
use std::io::Cursor;

/// The bytes of an image file of the given format, `width` by `height`, whose
/// pixel at (x, y) is (x, y, x + y, 255).
fn encoded(width: u32, height: u32, format: image::ImageFormat) -> Vec<u8> {
    let picture = image::RgbaImage::from_fn(width, height, |x, y| {
        image::Rgba([x as u8, y as u8, (x + y) as u8, 255])
    });
    let mut bytes = Vec::new();
    picture
        .write_to(&mut Cursor::new(&mut bytes), format)
        .expect("the image is encoded");
    bytes
}

fn pixels(width: u32, height: u32) -> Vec<u8> {
    let mut out = Vec::new();
    for y in 0..height {
        for x in 0..width {
            out.extend_from_slice(&[x as u8, y as u8, (x + y) as u8, 255]);
        }
    }
    out
}

#[test]
fn png_is_decoded_into_rows_of_four_bytes_per_pixel() {
    let bytes = encoded(3, 2, image::ImageFormat::Png);
    let upload = ImageTexture::load(&bytes).expect("the bytes are a PNG image");
    assert_eq!(upload.size, Extent3d { width: 3, height: 2, depth_or_array_layers: 1 });
    assert_eq!(upload.pixels.len(), 24);
    assert_eq!(upload.pixels, pixels(3, 2));
    assert_eq!(
        upload.layout,
        ImageDataLayout { offset: 0, bytes_per_row: Some(12), rows_per_image: Some(2) }
    );
    assert_ne!(upload.pixels, bytes);
}

#[test]
fn bmp_is_decoded_too() {
    let bytes = encoded(5, 1, image::ImageFormat::Bmp);
    let upload = ImageTexture::load(&bytes).expect("the bytes are a BMP image");
    assert_eq!(upload.size, Extent3d { width: 5, height: 1, depth_or_array_layers: 1 });
    assert_eq!(upload.pixels, pixels(5, 1));
    assert_eq!(upload.layout.bytes_per_row, Some(20));
    assert_eq!(upload.layout.rows_per_image, Some(1));
}

#[test]
fn bytes_that_are_no_image_are_reported() {
    assert_eq!(ImageTexture::load(&vec![]), Err(TextureError::Undecodable));
    assert_eq!(ImageTexture::load(&vec![1, 2, 3, 4, 5, 6, 7, 8]), Err(TextureError::Undecodable));
    assert_eq!(ImageTexture::load(&b"not an image at all".to_vec()), Err(TextureError::Undecodable));
    let mut cut = encoded(3, 2, image::ImageFormat::Png);
    cut.truncate(20);
    assert_eq!(ImageTexture::load(&cut), Err(TextureError::Undecodable));
}

#[test]
fn upload_copies_all_pixels_in_rows_of_four_bytes_per_pixel() {
    let image = DecodedImage { width: 2, height: 3, pixels: pixels(2, 3) };
    let upload = ImageTexture::upload(image).expect("the image is narrow");
    assert_eq!(upload.size, Extent3d { width: 2, height: 3, depth_or_array_layers: 1 });
    assert_eq!(upload.pixels, pixels(2, 3));
    assert_eq!(
        upload.layout,
        ImageDataLayout { offset: 0, bytes_per_row: Some(8), rows_per_image: Some(3) }
    );
    let empty = ImageTexture::upload(DecodedImage { width: 0, height: 0, pixels: vec![] })
        .expect("an empty image is narrow");
    assert_eq!(empty.layout.bytes_per_row, Some(0));
    assert_eq!(empty.layout.rows_per_image, Some(0));
}

#[test]
fn widest_image_whose_row_length_fits() {
    let widest = u32::MAX / 4;
    let upload = ImageTexture::upload(DecodedImage { width: widest, height: 0, pixels: vec![] })
        .expect("the row length fits");
    assert_eq!(upload.layout.bytes_per_row, Some(4294967292));
    assert_eq!(
        ImageTexture::upload(DecodedImage { width: widest + 1, height: 0, pixels: vec![] }),
        Err(TextureError::TooWide)
    );
    assert_eq!(
        ImageTexture::upload(DecodedImage { width: u32::MAX, height: 1, pixels: vec![] }),
        Err(TextureError::TooWide)
    );
}

#[test]
fn failures_are_reported_in_words() {
    assert_eq!(TextureError::Unreadable.message(), "Failed to load image as Texture2D");
    assert_eq!(TextureError::Undecodable.message(), "Failed to load image as Texture2D.");
    assert_eq!(TextureError::TooWide.message(), "Image is too wide for a Texture2D.");
}

#[test]
fn image_texture_hands_out_what_it_was_made_from() {
    let texture =
        ImageTexture::new((640, 480), Handle(1), Handle(2), Handle(3), Handle(4), Handle(5));
    assert_eq!(texture.raw_texture(), Handle(1));
    assert_eq!(texture.raw_view(), Handle(2));
    assert_eq!(texture.raw_sampler(), Handle(3));
    assert_eq!(texture.raw_bind_group_layout(), Handle(4));
    assert_eq!(texture.raw_bind_group(), Handle(5));
    assert_eq!(texture.width(), 640);
    assert_eq!(texture.height(), 480);
    assert_eq!(texture.size(), (640, 480));
    let boxed: Box<dyn Texture> = Box::new(texture);
    assert_eq!(boxed.size(), (640, 480));
    assert_eq!(boxed.raw_bind_group(), Handle(5));
}

#[test]
fn image_texture_is_created_for_sampling_and_copying() {
    assert_eq!(
        ImageTexture::descriptor((640, 480)),
        TextureDescriptor {
            size: Extent3d { width: 640, height: 480, depth_or_array_layers: 1 },
            mip_level_count: 1,
            sample_count: 1,
            format: TextureFormat::Rgba8UnormSrgb,
            texture_binding: true,
            copy_dst: true,
            render_attachment: false,
        }
    );
    assert_eq!(
        ImageTexture::sampler_descriptor(),
        SamplerDescriptor {
            clamp_to_edge: true,
            mag_linear: true,
            min_linear: false,
            mipmap_linear: false,
        }
    );
}

#[test]
fn outcome_of_decoding_becomes_an_upload_or_a_failure() {
    assert_eq!(ImageTexture::from_decoded(None), Err(TextureError::Undecodable));
    let image = DecodedImage { width: 1, height: 2, pixels: pixels(1, 2) };
    let upload = ImageTexture::from_decoded(Some(image)).expect("the image is narrow");
    assert_eq!(upload.size, Extent3d { width: 1, height: 2, depth_or_array_layers: 1 });
    assert_eq!(upload.pixels, pixels(1, 2));
    assert_eq!(
        upload.layout,
        ImageDataLayout { offset: 0, bytes_per_row: Some(4), rows_per_image: Some(2) }
    );
    assert_eq!(
        ImageTexture::from_decoded(Some(DecodedImage { width: u32::MAX, height: 1, pixels: vec![] })),
        Err(TextureError::TooWide)
    );
}
