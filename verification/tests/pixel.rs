use retro_host::pixel::PixelFormat;
use retro_host::pixel::RETRO_PIXEL_FORMAT_0RGB1555;
use retro_host::pixel::RETRO_PIXEL_FORMAT_RGB565;
use retro_host::pixel::RETRO_PIXEL_FORMAT_XRGB8888;

#[test]
fn format_codes_decode_as_the_abi_defines() {
    assert_eq!(
        PixelFormat::from(RETRO_PIXEL_FORMAT_0RGB1555),
        PixelFormat::RetroPixelFormatRgb1555
    );
    assert_eq!(
        PixelFormat::from(RETRO_PIXEL_FORMAT_XRGB8888),
        PixelFormat::RetroPixelFormatXrgb8888
    );
    assert_eq!(
        PixelFormat::from(RETRO_PIXEL_FORMAT_RGB565),
        PixelFormat::RetroPixelFormatRgb565
    );
}

#[test]
fn unrecognized_codes_decode_to_unknown() {
    assert_eq!(PixelFormat::from(3), PixelFormat::RetroPixelFormatUnknown);
    assert_eq!(PixelFormat::from(u32::MAX), PixelFormat::RetroPixelFormatUnknown);
}

#[test]
fn pixel_sizes_match_the_layouts() {
    assert_eq!(PixelFormat::RetroPixelFormatRgb1555.bytes_per_pixel(), Some(2));
    assert_eq!(PixelFormat::RetroPixelFormatRgb565.bytes_per_pixel(), Some(2));
    assert_eq!(PixelFormat::RetroPixelFormatXrgb8888.bytes_per_pixel(), Some(4));
    assert_eq!(PixelFormat::RetroPixelFormatUnknown.bytes_per_pixel(), None);
}
