//! Textures: the checks on an RGBA image before it is uploaded, and the
//! record of an uploaded texture.
use vstd::prelude::*;

verus! {

/// Bytes in one pixel of an 8 bit RGBA image.
pub const RGBA_BYTES: usize = 4;

/// Why an image cannot be uploaded as a texture.
#[derive(Clone, Copy, Debug, PartialEq, Eq, Structural)]
pub enum TextureError {
    /// The width or the height does not fit a `GLsizei`.
    TooLarge,
    /// The data holds fewer than `width * height` RGBA pixels.
    TooShort,
}

/// Bytes that an 8 bit RGBA image of the given size holds.
pub open spec fn rgba_len(width: nat, height: nat) -> nat {
    RGBA_BYTES as nat * width * height
}

/// What checking an image of `width` by `height` pixels, held in
/// `data_len` bytes, gives.
pub open spec fn image_check(width: u32, height: u32, data_len: usize) -> Result<
    (i32, i32),
    TextureError,
> {
    if width > i32::MAX || height > i32::MAX {
        Err(TextureError::TooLarge)
    } else if data_len < rgba_len(width as nat, height as nat) {
        Err(TextureError::TooShort)
    } else {
        Ok((width as i32, height as i32))
    }
}

/// Check that `data_len` bytes hold an 8 bit RGBA image of `width` by
/// `height` pixels, and give the size as OpenGL takes it. The image is the
/// first `rgba_len(width, height)` bytes; bytes after them are not read.
pub fn check_image(width: u32, height: u32, data_len: usize) -> (r: Result<(i32, i32), TextureError>)
    ensures
        r == image_check(width, height, data_len),
{
    if width > i32::MAX as u32 || height > i32::MAX as u32 {
        return Err(TextureError::TooLarge);
    }
    let w = width as u128;
    let h = height as u128;
    assert(w * h <= 0x4000_0000_0000_0000) by (nonlinear_arith)
        requires
            w <= 0x7fff_ffff,
            h <= 0x7fff_ffff,
    ;
    let needed: u128 = (RGBA_BYTES as u128) * (w * h);
    assert(needed == rgba_len(width as nat, height as nat)) by (nonlinear_arith)
        requires
            needed == 4 * (w * h),
            w == width,
            h == height,
    ;
    if (data_len as u128) < needed {
        return Err(TextureError::TooShort);
    }
    Ok((width as i32, height as i32))
}

/// The pixels of a one by one white texture, used where no other texture
/// is bound.
pub fn blank_pixels() -> (r: Vec<u8>)
    ensures
        r@ == seq![255u8, 255, 255, 255],
        r@.len() == rgba_len(1, 1),
{
    let r: Vec<u8> = vec![255, 255, 255, 255];
    assert(r@ == seq![255u8, 255, 255, 255]);
    r
}

/// What a texture record holds: its size and the name the driver gave it.
pub ghost struct TextureState {
    pub width: u32,
    pub height: u32,
    pub id: u32,
}

/// Represents a texture: a 2D image loaded onto the graphics card's memory.
pub struct Texture {
    pub width: u32,
    pub height: u32,
    id: u32,
}

impl View for Texture {
    type V = TextureState;

    closed spec fn view(&self) -> TextureState {
        TextureState { width: self.width, height: self.height, id: self.id }
    }
}

impl Texture {
    /// The record of a `width` by `height` texture uploaded under the name
    /// `id`.
    pub fn from_id(width: u32, height: u32, id: u32) -> (r: Texture)
        ensures
            r@ == (TextureState { width, height, id }),
    {
        Texture { width, height, id }
    }

    /// The name that the driver gave the texture, to bind it.
    pub fn id(&self) -> (r: u32)
        ensures
            r == self@.id,
    {
        self.id
    }
}

} // verus!
