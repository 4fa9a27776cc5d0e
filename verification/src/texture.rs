//! Textures: what a texture offers to a pipeline, the texture made from an
//! image, and the way from the bytes of an image file to what is copied into
//! the texture.
use crate::handle::Handle;
use vstd::prelude::*;

verus! {

/// A texture that a pipeline can bind.
pub trait Texture {
    /// The bind group that holds the texture and its sampler.
    spec fn bind_group(&self) -> Handle;

    /// The layout of that bind group.
    spec fn bind_group_layout(&self) -> Handle;

    /// The width and the height in pixels.
    spec fn extent(&self) -> (u32, u32);

    /// The bind group that holds the texture and its sampler.
    fn raw_bind_group(&self) -> (group: Handle)
        ensures
            group == self.bind_group(),
    ;

    /// The layout of that bind group.
    fn raw_bind_group_layout(&self) -> (layout: Handle)
        ensures
            layout == self.bind_group_layout(),
    ;

    /// The width in pixels.
    fn width(&self) -> (width: u32)
        ensures
            width == self.extent().0,
    ;

    /// The height in pixels.
    fn height(&self) -> (height: u32)
        ensures
            height == self.extent().1,
    ;

    /// The width and the height in pixels.
    fn size(&self) -> (size: (u32, u32))
        ensures
            size == self.extent(),
    ;
}

/// The extent of a texture.
#[derive(Clone, Copy, Debug, PartialEq, Eq, Structural)]
pub struct Extent3d {
    pub width: u32,
    pub height: u32,
    pub depth_or_array_layers: u32,
}

/// The format of the texels of a texture.
#[derive(Clone, Copy, Debug, PartialEq, Eq, Structural)]
pub enum TextureFormat {
    /// Four 8-bit channels, red to alpha, sRGB encoded.
    Rgba8UnormSrgb,
    /// One 32-bit depth value.
    Depth32Float,
}

/// What a texture is created with. Every texture of the library has two
/// dimensions, one mip level and one sample per texel.
#[derive(Clone, Copy, Debug, PartialEq, Eq, Structural)]
pub struct TextureDescriptor {
    pub size: Extent3d,
    pub mip_level_count: u32,
    pub sample_count: u32,
    pub format: TextureFormat,
    /// The texture can be bound in a shader.
    pub texture_binding: bool,
    /// The texture can be copied to.
    pub copy_dst: bool,
    /// The texture can be rendered to.
    pub render_attachment: bool,
}

/// How a sampler reads between and beyond texels.
#[derive(Clone, Copy, Debug, PartialEq, Eq, Structural)]
pub struct SamplerDescriptor {
    /// Coordinates beyond the texture read the texel at its edge, in all
    /// three directions.
    pub clamp_to_edge: bool,
    /// Magnified texels are blended with their neighbours.
    pub mag_linear: bool,
    /// Minified texels are blended with their neighbours.
    pub min_linear: bool,
    /// Mip levels are blended with their neighbours.
    pub mipmap_linear: bool,
}

/// How the rows of an image lie in the bytes that are copied to a texture.
#[derive(Clone, Copy, Debug, PartialEq, Eq, Structural)]
pub struct ImageDataLayout {
    pub offset: u64,
    pub bytes_per_row: Option<u32>,
    pub rows_per_image: Option<u32>,
}

/// A two-dimensional texture filled from an image, with the sampler and the
/// bind group through which a shader reads it.
pub struct ImageTexture {
    size: Extent3d,
    tex: Handle,
    view: Handle,
    sampler: Handle,
    bind_group_layout: Handle,
    bind_group: Handle,
}

impl ImageTexture {
    /// What the texture of an image of the given size is created with: one
    /// layer of sRGB texels that a shader can read and bytes can be copied to.
    pub fn descriptor(size: (u32, u32)) -> (descriptor: TextureDescriptor)
        ensures
            descriptor == (TextureDescriptor {
                size: Extent3d { width: size.0, height: size.1, depth_or_array_layers: 1 },
                mip_level_count: 1,
                sample_count: 1,
                format: TextureFormat::Rgba8UnormSrgb,
                texture_binding: true,
                copy_dst: true,
                render_attachment: false,
            }),
    {
        TextureDescriptor {
            size: Extent3d { width: size.0, height: size.1, depth_or_array_layers: 1 },
            mip_level_count: 1,
            sample_count: 1,
            format: TextureFormat::Rgba8UnormSrgb,
            texture_binding: true,
            copy_dst: true,
            render_attachment: false,
        }
    }

    /// What the sampler of an image texture is created with: clamped at the
    /// edges, blending when magnified, nearest texel otherwise.
    pub fn sampler_descriptor() -> (descriptor: SamplerDescriptor)
        ensures
            descriptor == (SamplerDescriptor {
                clamp_to_edge: true,
                mag_linear: true,
                min_linear: false,
                mipmap_linear: false,
            }),
    {
        SamplerDescriptor {
            clamp_to_edge: true,
            mag_linear: true,
            min_linear: false,
            mipmap_linear: false,
        }
    }

    /// Creates the texture of the given size from the objects that were made
    /// for it on the device.
    pub fn new(
        size: (u32, u32),
        tex: Handle,
        view: Handle,
        sampler: Handle,
        bind_group_layout: Handle,
        bind_group: Handle,
    ) -> (texture: Self)
        ensures
            texture.extent() == size,
            texture.bind_group() == bind_group,
            texture.bind_group_layout() == bind_group_layout,
            texture.texture() == tex,
            texture.texture_view() == view,
            texture.sampler() == sampler,
    {
        ImageTexture {
            size: Extent3d { width: size.0, height: size.1, depth_or_array_layers: 1 },
            tex,
            view,
            sampler,
            bind_group_layout,
            bind_group,
        }
    }

    /// The texture on the device.
    pub closed spec fn texture(&self) -> Handle {
        self.tex
    }

    /// The view onto the texture.
    pub closed spec fn texture_view(&self) -> Handle {
        self.view
    }

    /// The sampler of the texture.
    pub closed spec fn sampler(&self) -> Handle {
        self.sampler
    }

    /// The texture on the device.
    pub fn raw_texture(&self) -> (tex: Handle)
        ensures
            tex == self.texture(),
    {
        self.tex
    }

    /// The view onto the texture.
    pub fn raw_view(&self) -> (view: Handle)
        ensures
            view == self.texture_view(),
    {
        self.view
    }

    /// The sampler of the texture.
    pub fn raw_sampler(&self) -> (sampler: Handle)
        ensures
            sampler == self.sampler(),
    {
        self.sampler
    }
}

impl Texture for ImageTexture {
    closed spec fn bind_group(&self) -> Handle {
        self.bind_group
    }

    closed spec fn bind_group_layout(&self) -> Handle {
        self.bind_group_layout
    }

    closed spec fn extent(&self) -> (u32, u32) {
        (self.size.width, self.size.height)
    }

    fn raw_bind_group(&self) -> (group: Handle) {
        self.bind_group
    }

    fn raw_bind_group_layout(&self) -> (layout: Handle) {
        self.bind_group_layout
    }

    fn width(&self) -> (width: u32) {
        self.size.width
    }

    fn height(&self) -> (height: u32) {
        self.size.height
    }

    fn size(&self) -> (size: (u32, u32)) {
        (self.width(), self.height())
    }
}

/// An image as a decoder hands it out: its size and its pixels in rows from
/// the top, four bytes per pixel, red to alpha.
#[derive(Clone, Debug, PartialEq, Eq)]
pub struct DecodedImage {
    pub width: u32,
    pub height: u32,
    pub pixels: Vec<u8>,
}

/// What is copied into the texture of an image.
#[derive(Clone, Debug, PartialEq, Eq)]
pub struct TextureUpload {
    pub size: Extent3d,
    pub pixels: Vec<u8>,
    pub layout: ImageDataLayout,
}

/// Why an image gave no texture.
#[derive(Clone, Copy, Debug, PartialEq, Eq, Structural)]
pub enum TextureError {
    /// The file could not be read.
    Unreadable,
    /// The bytes are no image in a format that is known.
    Undecodable,
    /// A row of the image takes more bytes than a row length can say.
    TooWide,
}

impl TextureError {
    /// The words in which the failure is reported.
    pub fn message(&self) -> (words: String)
        ensures
            words@ == match *self {
                TextureError::Unreadable => "Failed to load image as Texture2D"@,
                TextureError::Undecodable => "Failed to load image as Texture2D."@,
                TextureError::TooWide => "Image is too wide for a Texture2D."@,
            },
    {
        match self {
            TextureError::Unreadable => "Failed to load image as Texture2D".to_owned(),
            TextureError::Undecodable => "Failed to load image as Texture2D.".to_owned(),
            TextureError::TooWide => "Image is too wide for a Texture2D.".to_owned(),
        }
    }
}

/// Decodes the bytes of an image file with `image::load_from_memory`, which
/// guesses the format from the bytes, and converts the image with
/// `DynamicImage::to_rgba8`. Which image comes back, and whether one does, is
/// for the decoders to say, which the process can add to: nothing is claimed
/// of the result.
#[verifier::external_body]
fn decode(data: &Vec<u8>) -> (r: Option<DecodedImage>) {
    match image::load_from_memory(data.as_slice()) {
        Ok(img) => Some(
            DecodedImage { width: img.width(), height: img.height(), pixels: img.to_rgba8().into_raw() },
        ),
        Err(_) => None,
    }
}

/// What [`ImageTexture::upload`] answers for a decoded image.
pub open spec fn upload_of(width: u32, height: u32, pixels: Seq<u8>) -> Result<
    (Extent3d, Seq<u8>, ImageDataLayout),
    TextureError,
> {
    if 4 * width > u32::MAX {
        Err(TextureError::TooWide)
    } else {
        Ok(
            (
                Extent3d { width, height, depth_or_array_layers: 1 },
                pixels,
                ImageDataLayout {
                    offset: 0,
                    bytes_per_row: Some((4 * width) as u32),
                    rows_per_image: Some(height),
                },
            ),
        )
    }
}

impl ImageTexture {
    /// Says what is copied into the texture of a decoded image: all its pixels,
    /// from the first byte, in rows of four bytes per pixel, into a texture of the
    /// image's size.
    pub fn upload(image: DecodedImage) -> (r: Result<TextureUpload, TextureError>)
        ensures
            match r {
                Ok(upload) => upload_of(image.width, image.height, image.pixels@) == Ok::<
                    (Extent3d, Seq<u8>, ImageDataLayout),
                    TextureError,
                >((upload.size, upload.pixels@, upload.layout)),
                Err(e) => upload_of(image.width, image.height, image.pixels@) == Err::<
                    (Extent3d, Seq<u8>, ImageDataLayout),
                    TextureError,
                >(e),
            },
    {
        if image.width > u32::MAX / 4 {
            return Err(TextureError::TooWide);
        }
        Ok(
            TextureUpload {
                size: Extent3d { width: image.width, height: image.height, depth_or_array_layers: 1 },
                layout: ImageDataLayout {
                    offset: 0,
                    bytes_per_row: Some(4 * image.width),
                    rows_per_image: Some(image.height),
                },
                pixels: image.pixels,
            },
        )
    }

    /// Says what becomes of the outcome of decoding an image file: no image
    /// gives [`TextureError::Undecodable`], an image gives what
    /// [`ImageTexture::upload`] says of it.
    pub fn from_decoded(decoded: Option<DecodedImage>) -> (r: Result<TextureUpload, TextureError>)
        ensures
            match decoded {
                Some(image) => match r {
                    Ok(upload) => upload_of(image.width, image.height, image.pixels@) == Ok::<
                        (Extent3d, Seq<u8>, ImageDataLayout),
                        TextureError,
                    >((upload.size, upload.pixels@, upload.layout)),
                    Err(e) => upload_of(image.width, image.height, image.pixels@) == Err::<
                        (Extent3d, Seq<u8>, ImageDataLayout),
                        TextureError,
                    >(e),
                },
                None => r == Err::<TextureUpload, TextureError>(TextureError::Undecodable),
            },
    {
        match decoded {
            Some(image) => ImageTexture::upload(image),
            None => Err(TextureError::Undecodable),
        }
    }

    /// Turns the bytes of an image file into what is copied into its texture.
    /// Whatever the decoder makes of the bytes, what is to be copied is all the
    /// pixels of an image, laid out in rows of four bytes per pixel; the only
    /// failures are bytes that are no image and an image that is too wide.
    pub fn load(data: &Vec<u8>) -> (r: Result<TextureUpload, TextureError>)
        ensures
            match r {
                Ok(upload) => upload_of(upload.size.width, upload.size.height, upload.pixels@)
                    == Ok::<(Extent3d, Seq<u8>, ImageDataLayout), TextureError>(
                    (upload.size, upload.pixels@, upload.layout),
                ),
                Err(e) => e == TextureError::Undecodable || e == TextureError::TooWide,
            },
    {
        ImageTexture::from_decoded(decode(data))
    }
}

} // verus!
