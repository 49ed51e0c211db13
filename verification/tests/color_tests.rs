use soft_raster::color::{RGB, RGBA};

#[test]
fn rgba_packs_as_0rgb() {
    assert_eq!(RGBA::rgba(0x12, 0x34, 0x56, 0x78).to_rgb32(), 0x0012_3456);
    assert_eq!(RGBA::rgba(255, 255, 255, 0).to_rgb32(), 0x00ff_ffff);
    assert_eq!(RGBA::zeroed().to_rgb32(), 0);
}

#[test]
fn rgba_is_zero_only_when_every_channel_is() {
    assert!(RGBA::zeroed().is_zero());
    assert!(!RGBA::rgba(0, 0, 0, 1).is_zero());
    assert!(!RGBA::rgba(1, 0, 0, 0).is_zero());
    assert!(!RGBA::rgba(0, 1, 0, 0).is_zero());
    assert!(!RGBA::rgba(0, 0, 1, 0).is_zero());
}

#[test]
fn rgb_constructors() {
    assert_eq!(RGB::rgb(1, 2, 3), RGB { r: 1, g: 2, b: 3 });
    assert_eq!(RGB::black(), RGB::rgb(0, 0, 0));
    assert_eq!(RGB::zeroed(), RGB::black());
}
