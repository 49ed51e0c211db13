use soft_raster::rcl::general::{
    addIntensity, convertHSVtoRGB, decodeHSV, encodeHSV, initPalette, minusIntensity,
    plusIntensity, putSubsampledPixel, sampleImage, HUE,
};
use soft_raster::rcl::types::{
    RCL_Camera, RCL_HitResult, RCL_PixelInfo, RCL_Ray, RCL_RayConstraints, RCL_Vector2D,
    RCL_angleToDirection, RCL_mapToScreen, RCL_pointIsLeftOfRay,
};
use soft_raster::rcl::units::{
    trigHelper, RCL_absVal, RCL_clamp, RCL_cosInt, RCL_degreesToUnitsAngle, RCL_divRoundDown,
    RCL_likely, RCL_nonZero, RCL_perspectiveScale, RCL_perspectiveScaleInverse, RCL_sinInt,
    RCL_sqrtInt, RCL_unlikely, RCL_wrap, RCL_zeroClamp, RCL_INFINITY,
};

fn v(x: i32, y: i32) -> RCL_Vector2D {
    RCL_Vector2D { x, y }
}

#[test]
fn small_helpers() {
    assert_eq!(RCL_nonZero(0), 1);
    assert_eq!(RCL_nonZero(-7), -7);
    assert_eq!(RCL_zeroClamp(-7), 0);
    assert_eq!(RCL_zeroClamp(7), 7);
    assert!(RCL_likely(true) && !RCL_unlikely(false));
    assert_eq!(RCL_clamp(5, 0, 3), 3);
    assert_eq!(RCL_clamp(-5, 0, 3), 0);
    assert_eq!(RCL_clamp(2, 0, 3), 2);
    // bounds out of order
    assert_eq!(RCL_clamp(5, 3, 0), 0);
    assert_eq!(RCL_clamp(-5, 3, 0), 3);
    assert_eq!(RCL_absVal(-9), 9);
    assert_eq!(RCL_absVal(9), 9);
    assert_eq!(RCL_absVal(i32::MIN), i32::MIN);
}

#[test]
fn wrap_counts_negative_values_down_from_the_top() {
    assert_eq!(RCL_wrap(0, 32), 0);
    assert_eq!(RCL_wrap(31, 32), 31);
    assert_eq!(RCL_wrap(32, 32), 0);
    assert_eq!(RCL_wrap(70, 32), 6);
    assert_eq!(RCL_wrap(-1, 32), 30);
    assert_eq!(RCL_wrap(-8, 32), 23);
    assert_eq!(RCL_wrap(-32, 32), 31);
    assert_eq!(RCL_wrap(-33, 32), 30);
    assert_eq!(RCL_wrap(i32::MIN, 32), 31);
}

#[test]
fn div_round_down_takes_one_off_for_negative_values() {
    assert_eq!(RCL_divRoundDown(64, 32), 2);
    assert_eq!(RCL_divRoundDown(63, 32), 1);
    assert_eq!(RCL_divRoundDown(0, 32), 0);
    assert_eq!(RCL_divRoundDown(-1, 32), -1);
    assert_eq!(RCL_divRoundDown(-32, 32), -2);
    assert_eq!(RCL_divRoundDown(-33, 32), -2);
    assert_eq!(RCL_divRoundDown(7, -2), -3);
    assert_eq!(RCL_divRoundDown(-7, -2), 2);
    assert_eq!(RCL_divRoundDown(i32::MIN, 1), i32::MAX);
}

#[test]
fn cosine_by_bhaskara() {
    assert_eq!(trigHelper(0), 32);
    assert_eq!(trigHelper(4), 22);
    assert_eq!(trigHelper(8), 0);
    assert_eq!(RCL_cosInt(0), 32);
    assert_eq!(RCL_cosInt(4), 22);
    assert_eq!(RCL_cosInt(8), 0);
    assert_eq!(RCL_cosInt(12), -22);
    assert_eq!(RCL_cosInt(16), -32);
    assert_eq!(RCL_cosInt(20), -22);
    assert_eq!(RCL_cosInt(24), 0);
    assert_eq!(RCL_cosInt(28), 22);
    assert_eq!(RCL_cosInt(32), 32);
    assert_eq!(RCL_cosInt(32 + 4), 22);
    assert_eq!(RCL_sinInt(8), 32);
    assert_eq!(RCL_sinInt(16), 0);
    assert_eq!(RCL_sinInt(24), -32);
    // a negative angle wraps one unit short: the sine of zero is the cosine of 23
    assert_eq!(RCL_sinInt(0), RCL_cosInt(23));
    assert_eq!(RCL_sinInt(0), -6);
    for a in -100..100 {
        let c = RCL_cosInt(a);
        assert!((-32..=32).contains(&c));
    }
}

#[test]
fn integer_square_root() {
    for (n, r) in [(0, 0), (1, 1), (2, 1), (3, 1), (4, 2), (15, 3), (16, 4), (17, 4), (99, 9), (100, 10)]
    {
        assert_eq!(RCL_sqrtInt(n), r, "sqrt {}", n);
    }
    assert_eq!(RCL_sqrtInt(i32::MAX), 46340);
    assert_eq!(RCL_sqrtInt(46340 * 46340), 46340);
    assert_eq!(RCL_sqrtInt(46340 * 46340 - 1), 46339);
    // a negative number is read as unsigned
    assert_eq!(RCL_sqrtInt(-1), 65535);
    assert_eq!(RCL_sqrtInt(i32::MIN), 46340);
}

#[test]
fn angles_and_perspective() {
    assert_eq!(RCL_degreesToUnitsAngle(360), 32);
    assert_eq!(RCL_degreesToUnitsAngle(90), 8);
    assert_eq!(RCL_degreesToUnitsAngle(-90), -8);
    assert_eq!(RCL_degreesToUnitsAngle(45), 4);
    assert_eq!(RCL_degreesToUnitsAngle(10), 0);
    assert_eq!(RCL_perspectiveScale(100, 0), 0);
    assert_eq!(RCL_perspectiveScale(100, 32), 100);
    assert_eq!(RCL_perspectiveScale(100, 64), 50);
    assert_eq!(RCL_perspectiveScale(-100, 64), -50);
    assert_eq!(RCL_perspectiveScale(100, 3), 1066);
    assert_eq!(RCL_perspectiveScaleInverse(100, 0), RCL_INFINITY);
    assert_eq!(RCL_perspectiveScaleInverse(100, 50), 64);
    assert_eq!(RCL_perspectiveScaleInverse(100, 100), 32);
}

#[test]
fn vectors() {
    assert_eq!(RCL_Vector2D::dist(v(0, 0), v(30, 40)), 55);
    assert_eq!(RCL_Vector2D::dist(v(10, 10), v(-30, 40)), 55);
    assert_eq!(RCL_Vector2D::dist(v(5, 5), v(5, 5)), 0);
    assert_eq!(v(30, 40).len(), 55);
    assert_eq!(v(0, -7).len(), 7);
    assert_eq!(v(100, 0).normalize(), v(32, 0));
    assert_eq!(v(0, -5).normalize(), v(0, -32));
    assert_eq!(v(0, 0).normalize(), v(0, 0));
    // the octagonal length of (30, 40) is 55
    assert_eq!(v(30, 40).normalize(), v(17, 23));
    assert_eq!(RCL_Vector2D::angleCos(v(10, 0), v(20, 0)), 32);
    assert_eq!(RCL_Vector2D::angleCos(v(10, 0), v(-5, 0)), -32);
    assert_eq!(RCL_Vector2D::angleCos(v(10, 0), v(0, 3)), 0);
    assert_eq!(RCL_Vector2D::zero(), v(0, 0));
}

#[test]
fn directions() {
    assert_eq!(RCL_angleToDirection(0), v(32, 6));
    assert_eq!(RCL_angleToDirection(8), v(0, -32));
    assert_eq!(RCL_angleToDirection(16), v(-32, 0));
    assert_eq!(RCL_angleToDirection(24), v(0, 32));
    let ray = RCL_Ray { start: v(0, 0), direction: v(10, 0) };
    assert!(RCL_pointIsLeftOfRay(v(5, 5), ray));
    assert!(!RCL_pointIsLeftOfRay(v(5, -5), ray));
    assert!(!RCL_pointIsLeftOfRay(v(5, 0), ray));
}

#[test]
fn zeroed_records() {
    let h = RCL_HitResult::zeroed();
    assert_eq!((h.distance, h.direction, h.textureCoord, h.arrayValue, h.type_, h.doorRoll), (0, 0, 0, 0, 0, 0));
    assert_eq!((h.square, h.position), (v(0, 0), v(0, 0)));
    let p = RCL_PixelInfo::zeroed();
    assert!(!p.isWall && !p.isFloor && !p.isHorizon);
    assert_eq!((p.depth, p.wallHeight, p.height, p.hit, p.texCoords, p.position), (0, 0, 0, h, v(0, 0), v(0, 0)));
    let mut c = RCL_RayConstraints { maxHits: 9, maxSteps: 9 };
    c.init();
    assert_eq!(c, RCL_RayConstraints { maxHits: 1, maxSteps: 20 });
    let mut cam = RCL_Camera { position: v(5, 6), direction: 7, resolution: v(320, 200), shear: 3, height: 9 };
    cam.init();
    assert_eq!(cam, RCL_Camera { position: v(0, 0), direction: 0, resolution: v(320, 200), shear: 0, height: 32 });
}

#[test]
fn hit_at_the_horizon() {
    let mut h = RCL_HitResult::zeroed();
    h.square = v(3, 4);
    h.type_ = 9;
    h._RCL_makeInfiniteHit(&RCL_Ray { start: v(1, 1), direction: v(32, -16) });
    assert_eq!(h.distance, 1024);
    assert_eq!(h.position, v(1024, -512));
    assert_eq!(h.square, v(3, 4));
    assert_eq!((h.direction, h.textureCoord, h.arrayValue, h.doorRoll, h.type_), (0, 0, 0, 0, 0));
}

#[test]
fn point_straight_ahead_maps_to_the_middle_column() {
    let cam = RCL_Camera { position: v(0, 0), direction: 8, resolution: v(320, 200), shear: 5, height: 32 };
    // direction 8: cosine 0, sine 32; a point at (0, -64) lies 64 ahead
    let p = RCL_mapToScreen(v(0, -64), 32, &cam);
    assert_eq!(p.depth, 64);
    assert_eq!(p.position, v(160, 105));
    // a point one square higher appears 200 * 16 / 32 rows further up
    let q = RCL_mapToScreen(v(0, -64), 64, &cam);
    assert_eq!(q.position, v(160, 5));
    // a point to the side
    let r = RCL_mapToScreen(v(32, -64), 32, &cam);
    assert_eq!(r.depth, 64);
    assert_eq!(r.position, v(80, 105));
}

#[test]
fn hues_and_intensities() {
    assert_eq!(HUE(0), 8);
    assert_eq!(HUE(15), 248);
    assert_eq!(addIntensity(0x48, 3), 0x4b);
    assert_eq!(addIntensity(0x48, 100), 0x4f);
    assert_eq!(addIntensity(0x48, -3), 0x45);
    assert_eq!(addIntensity(0x48, -100), 0);
    assert_eq!(addIntensity(0x48, 0), 0x48);
    assert_eq!(addIntensity(0xf8, 8), 0xff);
    assert_eq!(addIntensity(0x02, -3), 0);
    assert_eq!(plusIntensity(0x48, 7), 0x4f);
    assert_eq!(plusIntensity(0x48, 8), 0x4f);
    assert_eq!(plusIntensity(0xf8, 0x10), 0xff);
    assert_eq!(minusIntensity(0x48, 8), 0x40);
    assert_eq!(minusIntensity(0x48, 9), 0);
    assert_eq!(minusIntensity(0x08, 9), 0);
}

#[test]
fn hsv_bytes() {
    assert_eq!(encodeHSV(0, 0, 0), 0);
    assert_eq!(encodeHSV(200, 200, 15), 0);
    assert_eq!(encodeHSV(0, 0, 255), 15);
    assert_eq!(encodeHSV(0, 84, 16), 1);
    assert_eq!(encodeHSV(0, 85, 16), 0);
    assert_eq!(encodeHSV(64, 100, 255), 0x2f);
    assert_eq!(encodeHSV(224, 170, 31), 0xf1);
    // the highest saturation does not fit in its bit
    assert_eq!(encodeHSV(32, 255, 46), 0x12);
    assert_eq!(decodeHSV(0), (0, 0, 0));
    assert_eq!(decodeHSV(0x0f), (0, 0, 255));
    assert_eq!(decodeHSV(0x07), (0, 0, 119));
    assert_eq!(decodeHSV(0x2f), (64, 127, 255));
    assert_eq!(decodeHSV(0xf1), (224, 254, 32));
    assert_eq!(decodeHSV(0x80), (0, 254, 16));
    assert_eq!(decodeHSV(0x10), (32, 127, 16));
}

#[test]
fn hsv_to_rgb() {
    assert_eq!(convertHSVtoRGB(0, 0, 0), (0, 0, 0));
    assert_eq!(convertHSVtoRGB(0, 0, 255), (255, 255, 255));
    assert_eq!(convertHSVtoRGB(100, 0, 77), (77, 77, 77));
    // chroma 254 * 254 / 256 = 252, m = 2; hue 0 is step 0: a = 16, x = 0
    assert_eq!(convertHSVtoRGB(0, 254, 254), (254, 2, 2));
    // hue 42 is step 16: a = 0, x = chroma
    assert_eq!(convertHSVtoRGB(42, 254, 254), (254, 254, 2));
    // hue 84 is step 32: a = 16, x = 0
    assert_eq!(convertHSVtoRGB(84, 254, 254), (2, 254, 2));
    // hue 168 is step 64
    assert_eq!(convertHSVtoRGB(168, 254, 254), (2, 2, 254));
    // past the last sixth there is no colour left
    assert_eq!(convertHSVtoRGB(255, 254, 254), (2, 2, 2));
    let palette = initPalette();
    assert_eq!(palette[0], [0, 0, 0]);
    assert_eq!(palette[15], [255, 255, 255]);
    assert_eq!(palette[7], [119, 119, 119]);
    for i in 0..=255u8 {
        let (h, s, v) = decodeHSV(i);
        let (r, g, b) = convertHSVtoRGB(h, s, v);
        assert_eq!(palette[i as usize], [r, g, b]);
    }
}

#[test]
fn images_are_sampled_column_by_column() {
    let mut image = vec![32u8, 32];
    for i in 0..1024u32 {
        image.push((i % 251) as u8);
    }
    assert_eq!(sampleImage(&image, 0, 0), 0);
    assert_eq!(sampleImage(&image, 0, 5), 5);
    assert_eq!(sampleImage(&image, 1, 0), 32);
    assert_eq!(sampleImage(&image, 3, 7), 103);
    assert_eq!(sampleImage(&image, 32 + 3, 64 + 7), 103);
    assert_eq!(sampleImage(&image, -1, 0), ((30 * 32) % 251) as u8);
    let mut screen = vec![0u8; 110 * 88];
    putSubsampledPixel(&mut screen, 3, 2, 9);
    assert_eq!((screen[225], screen[226], screen[227], screen[228]), (0, 9, 9, 0));
}
