use rendust::texture::{blank_pixels, check_image, Texture, TextureError};

#[test]
fn image_of_the_right_length_is_accepted() {
    assert_eq!(check_image(2, 3, 24), Ok((2, 3)));
    assert_eq!(check_image(1, 1, 4), Ok((1, 1)));
    assert_eq!(check_image(0, 5, 0), Ok((0, 5)));
}

#[test]
fn image_with_too_little_data_is_refused() {
    assert_eq!(check_image(2, 3, 23), Err(TextureError::TooShort));
    assert_eq!(check_image(2, 3, 6), Err(TextureError::TooShort));
    assert_eq!(check_image(1, 1, 0), Err(TextureError::TooShort));
}

#[test]
fn image_with_extra_data_is_accepted() {
    assert_eq!(check_image(2, 3, 25), Ok((2, 3)));
    assert_eq!(check_image(1, 1, 5), Ok((1, 1)));
    assert_eq!(check_image(0, 0, 16), Ok((0, 0)));
}

#[test]
fn image_too_large_for_gl_is_refused() {
    assert_eq!(check_image(i32::MAX as u32 + 1, 1, 4), Err(TextureError::TooLarge));
    assert_eq!(check_image(1, u32::MAX, 4), Err(TextureError::TooLarge));
}

#[test]
fn largest_image_size_does_not_overflow() {
    let side = i32::MAX as u32;
    assert_eq!(check_image(side, side, 4), Err(TextureError::TooShort));
}

#[test]
fn blank_texture_is_one_white_pixel() {
    let pixels = blank_pixels();
    assert_eq!(pixels, vec![255, 255, 255, 255]);
    assert_eq!(check_image(1, 1, pixels.len()), Ok((1, 1)));
}

#[test]
fn texture_record() {
    let t = Texture::from_id(640, 480, 7);
    assert_eq!((t.width, t.height, t.id()), (640, 480, 7));
}
