use glyphydog::error::Error;
use glyphydog::flags::{LoadFlags, RenderMode, LOAD_NO_HINTING, LOAD_NO_SCALE, LOAD_RENDER};

#[test]
fn known_codes_are_named() {
    assert_eq!(Error::from_raw(0), Some(Error::Success));
    assert_eq!(Error::from_raw(1), Some(Error::CannotOpenResource));
    assert_eq!(Error::from_raw(12), Some(Error::MissingProperty));
    assert_eq!(Error::from_raw(16), Some(Error::InvalidGlyphIndex));
    assert_eq!(Error::from_raw(23), Some(Error::InvalidPixelSize));
    assert_eq!(Error::from_raw(40), Some(Error::InvalidStreamHandle));
    assert_eq!(Error::from_raw(49), Some(Error::TooManyExtensions));
    assert_eq!(Error::from_raw(64), Some(Error::OutOfMemory));
    assert_eq!(Error::from_raw(81), Some(Error::CannotOpenStream));
    assert_eq!(Error::from_raw(99), Some(Error::RasterNegativeHeight));
    assert_eq!(Error::from_raw(112), Some(Error::TooManyCaches));
    assert_eq!(Error::from_raw(157), Some(Error::MissingBitmap));
    assert_eq!(Error::from_raw(164), Some(Error::GlyphTooBig));
    assert_eq!(Error::from_raw(186), Some(Error::CorruptedFontGlyphs));
    assert_eq!(Error::from_raw(187), Some(Error::Max));
}

#[test]
fn codes_between_the_ranges_have_no_name() {
    for code in [-1, 13, 15, 24, 31, 41, 47, 50, 63, 66, 80, 89, 95, 100, 111, 113, 127, 158, 159,
        165, 175, 188, i32::MAX, i32::MIN]
    {
        assert_eq!(Error::from_raw(code), None);
    }
}

#[test]
fn code_and_from_raw_are_inverse() {
    let mut named = 0;
    for code in -10..300 {
        if let Some(error) = Error::from_raw(code) {
            assert_eq!(error.code(), code);
            named += 1;
        }
    }
    assert_eq!(named, 94);
}

#[test]
fn check_names_the_error_of_a_status() {
    assert_eq!(Error::check(0), Ok(()));
    assert_eq!(Error::check(2), Err(Error::UnknownFileFormat));
    assert_eq!(Error::check(35), Err(Error::InvalidFaceHandle));
    assert_eq!(Error::check(187), Err(Error::Max));
}

#[test]
fn load_flags_are_sets_of_bits() {
    let flags = LoadFlags::from_bits(LOAD_NO_HINTING).union(LoadFlags::from_bits(LOAD_RENDER));
    assert_eq!(flags.bits, 6);
    assert!(flags.contains(LoadFlags::from_bits(LOAD_RENDER)));
    assert!(flags.contains(LoadFlags::empty()));
    assert!(!flags.contains(LoadFlags::from_bits(LOAD_NO_SCALE)));
    assert!(!flags.contains(LoadFlags::from_bits(LOAD_NO_SCALE | LOAD_RENDER)));
    assert!(!flags.is_unscaled());
    assert!(LoadFlags::from_bits(LOAD_NO_SCALE | LOAD_RENDER).is_unscaled());
    assert!(LoadFlags::empty().contains(LoadFlags::empty()));
}

#[test]
fn render_modes_select_a_hinting_target() {
    assert_eq!(RenderMode::Normal.load_target(), 0);
    assert_eq!(RenderMode::Light.load_target(), 0x1_0000);
    assert_eq!(RenderMode::Mono.load_target(), 0x2_0000);
    assert_eq!(RenderMode::Lcd.load_target(), 0x3_0000);
    assert_eq!(RenderMode::LcdV.load_target(), 0x4_0000);
    assert_eq!(RenderMode::Lcd.index(), 3);
    assert_eq!(LoadFlags::from_bits(LOAD_RENDER).for_render(RenderMode::Mono).bits, 0x2_0004);
}
