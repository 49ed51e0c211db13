use soft_raster::rcl::cast::RCL_Renderer_Global;
use soft_raster::rcl::collision::{checkSquares, collHandle};
use soft_raster::rcl::player::{Player, Sprite};
use soft_raster::rcl::render::RCL_Level;
use soft_raster::rcl::screen::{computeAverageColor, drawImage, RCL_General, Screen};
use soft_raster::rcl::types::{
    RCL_Camera, RCL_HitResult, RCL_PixelInfo, RCL_Ray, RCL_RayConstraints, RCL_Vector2D,
};
use soft_raster::rcl::world::{
    Flat, Grid, PixelLog, RCL_ArrayFunction, RCL_PixelFunction, _RCL_floorCeilFunction,
    _floorHeightNotZeroFunction,
};
use soft_raster::signum::NonZeroSignum;

fn v(x: i32, y: i32) -> RCL_Vector2D {
    RCL_Vector2D { x, y }
}

/// A room of 8 by 8 squares with walls of height 64 around a floor at 0.
fn room() -> Grid {
    let mut g = Grid::new(8, 8, 0, 64);
    for i in 0..8 {
        g.set(i, 0, 64);
        g.set(i, 7, 64);
        g.set(0, i, 64);
        g.set(7, i, 64);
    }
    g
}

fn level() -> RCL_Level<Grid, Flat> {
    RCL_Level { floorHeightFunction: room(), ceilingHeightFunc: None }
}

fn renderer() -> RCL_Renderer_Global<Flat> {
    RCL_Renderer_Global::new()
}

#[test]
fn grids_answer_inside_and_outside() {
    let g = room();
    assert_eq!(g.at(3, 3), 0);
    assert_eq!(g.at(0, 3), 64);
    assert_eq!(g.at(7, 7), 64);
    assert_eq!(g.at(-1, 3), 64);
    assert_eq!(g.at(8, 3), 64);
    assert_eq!(g.at(3, 100), 64);
    let mut h = Grid::new(2, 3, 5, -1);
    h.set(1, 2, 9);
    h.set(2, 2, 7);
    h.set(-1, 0, 7);
    assert_eq!(h.cells, vec![5, 5, 5, 5, 5, 9]);
    assert_eq!((h.at(1, 2), h.at(2, 2)), (9, -1));
    assert_eq!(Flat { height: 4 }.at(100, -100), 4);
}

#[test]
fn combined_functions() {
    let floor = room();
    let ceil = Flat { height: 0x12345 };
    let both = _RCL_floorCeilFunction { floor: &floor, ceiling: Some(&ceil) };
    assert_eq!(both.at(3, 3), 0x2345);
    assert_eq!(both.at(0, 0), (64 << 16) | 0x2345);
    let only: _RCL_floorCeilFunction<Grid, Flat> =
        _RCL_floorCeilFunction { floor: &floor, ceiling: None };
    assert_eq!(only.at(0, 0), 64);
    let marks = _floorHeightNotZeroFunction { floor: &floor };
    assert_eq!(marks.at(3, 3), 0);
    assert_eq!(marks.at(7, 2), 7 | (2 << 8));
    assert_eq!(marks.at(0, 0), 1);
    assert_eq!(marks.at(0, 1), 1 << 8);
}

#[test]
fn ray_hits_the_wall_ahead() {
    let g = renderer();
    let world = room();
    // from the middle of square (3, 3) to the right: the wall is square 7
    let hit = g.RCL_castRay(RCL_Ray { start: v(3 * 32 + 16, 3 * 32 + 16), direction: v(32, 0) }, &world);
    assert_eq!(hit.square, v(7, 3));
    assert_eq!(hit.position.x, 7 * 32);
    assert_eq!(hit.position.y, 3 * 32 + 16);
    assert_eq!(hit.direction, 3);
    assert_eq!(hit.arrayValue, 64);
    assert_eq!(hit.distance, 7 * 32 - (3 * 32 + 16));
    assert_eq!(hit.textureCoord, 15);
    // to the left
    let hit = g.RCL_castRay(RCL_Ray { start: v(3 * 32 + 16, 3 * 32 + 16), direction: v(-32, 0) }, &world);
    assert_eq!(hit.square, v(0, 3));
    assert_eq!(hit.position.x, 32);
    assert_eq!(hit.direction, 1);
    assert_eq!(hit.distance, 3 * 32 + 16 - 32);
    // upwards in y
    let hit = g.RCL_castRay(RCL_Ray { start: v(3 * 32 + 16, 3 * 32 + 16), direction: v(0, 32) }, &world);
    assert_eq!(hit.square, v(3, 7));
    assert_eq!(hit.direction, 2);
    assert_eq!(hit.position, v(3 * 32 + 16, 7 * 32));
}

#[test]
fn ray_in_the_open_hits_nothing() {
    let g = renderer();
    let hit = g.RCL_castRay(RCL_Ray { start: v(0, 0), direction: v(32, 5) }, &Flat { height: 3 });
    assert_eq!(hit.distance, -1);
    assert_eq!(hit.square, v(0, 0));
}

#[test]
fn multi_hit_stops_when_full_or_out_of_steps() {
    let g = renderer();
    let mut world = room();
    world.set(5, 3, 16);
    let ray = RCL_Ray { start: v(3 * 32 + 16, 3 * 32 + 16), direction: v(32, 0) };
    let mut hits = vec![RCL_HitResult::zeroed(); 4];
    let mut n = 9u8;
    let none: Option<&Flat> = None;
    g.RCL_castRayMultiHit(ray, &world, none, &mut hits, &mut n, RCL_RayConstraints { maxHits: 9, maxSteps: 20 });
    // into the pillar, out of it, into the wall, out of the world's rectangle
    assert_eq!(n, 3);
    assert_eq!((hits[0].square, hits[0].arrayValue), (v(5, 3), 16));
    assert_eq!((hits[1].square, hits[1].arrayValue), (v(6, 3), 0));
    assert_eq!((hits[2].square, hits[2].arrayValue), (v(7, 3), 64));
    assert_eq!(hits[3], RCL_HitResult::zeroed());
    assert!(hits[0].distance < hits[1].distance && hits[1].distance < hits[2].distance);
    // two places only
    let mut two = vec![RCL_HitResult::zeroed(); 2];
    g.RCL_castRayMultiHit(ray, &world, none, &mut two, &mut n, RCL_RayConstraints { maxHits: 9, maxSteps: 20 });
    assert_eq!(n, 2);
    assert_eq!(two[1].square, v(6, 3));
    // two steps only: the ray does not get to the pillar
    g.RCL_castRayMultiHit(ray, &world, none, &mut hits, &mut n, RCL_RayConstraints { maxHits: 9, maxSteps: 2 });
    assert_eq!(n, 0);
    // the type function marks the hits
    let types = Flat { height: 77 };
    g.RCL_castRayMultiHit(ray, &world, Some(&types), &mut hits, &mut n, RCL_RayConstraints { maxHits: 9, maxSteps: 3 });
    assert_eq!(n, 1);
    assert_eq!(hits[0].type_, 77);
}

#[test]
fn rolling_doors_mark_their_hits() {
    let mut g = renderer();
    g._RCL_rollFunction = Some(Flat { height: 5 });
    let world = room();
    let hit = g.RCL_castRay(RCL_Ray { start: v(3 * 32 + 16, 3 * 32 + 16), direction: v(32, 0) }, &world);
    assert_eq!((hit.direction, hit.doorRoll), (3, 5));
    let hit = g.RCL_castRay(RCL_Ray { start: v(3 * 32 + 16, 3 * 32 + 16), direction: v(-32, 0) }, &world);
    assert_eq!((hit.direction, hit.doorRoll), (1, -5));
}

fn camera(x: i32, y: i32, direction: i32) -> RCL_Camera {
    RCL_Camera { position: v(x, y), direction, resolution: v(320, 200), shear: 0, height: 32 }
}

fn general() -> RCL_General {
    let mut g = RCL_General::new();
    g.initGeneral();
    g
}

#[test]
fn simple_view_draws_every_pixel_once() {
    let mut g = renderer();
    let lvl = level();
    let mut log = PixelLog { pixels: Vec::new() };
    let mut gen = general();
    let none: Option<&Flat> = None;
    g.RCL_renderSimple(&lvl, &mut log, &mut gen, camera(3 * 32 + 16, 3 * 32 + 16, 0), none);
    assert_eq!(log.pixels.len(), 320 * 200);
    let mut seen = vec![false; 320 * 200];
    for p in &log.pixels {
        assert!((0..320).contains(&p.position.x) && (0..200).contains(&p.position.y));
        let i = (p.position.y * 320 + p.position.x) as usize;
        assert!(!seen[i], "pixel {:?} twice", p.position);
        seen[i] = true;
    }
    // columns come from the left to the right, rows from the top to the bottom
    assert_eq!(log.pixels[0].position, v(0, 0));
    assert_eq!(log.pixels[199].position, v(0, 199));
    assert_eq!(log.pixels[200].position, v(1, 0));
    // the middle column looks at the wall 112 units ahead
    let wall: Vec<&RCL_PixelInfo> =
        log.pixels.iter().filter(|p| p.position.x == 160 && p.isWall).collect();
    assert!(!wall.is_empty());
    assert!(wall.iter().all(|p| p.hit.square.x == 7 && p.depth == p.hit.distance));
    assert_eq!(gen.defaultConstraints, RCL_RayConstraints { maxHits: 1, maxSteps: 20 });
    assert_eq!(g._RCL_middleRow, 100);
    assert_eq!(g._RCL_cameraHeightScreen, 0);
}

#[test]
fn complex_view_draws_every_pixel_once() {
    let mut g = renderer();
    let lvl = RCL_Level { floorHeightFunction: room(), ceilingHeightFunc: Some(Flat { height: 128 }) };
    let mut log = PixelLog { pixels: Vec::new() };
    let mut gen = general();
    let none: Option<&Flat> = None;
    let mut cam = camera(3 * 32 + 16, 3 * 32 + 16, 5);
    cam.shear = 10;
    g.RCL_renderComplex(&lvl, &mut log, &mut gen, cam, none);
    let mut seen = vec![false; 320 * 200];
    for p in &log.pixels {
        if (0..320).contains(&p.position.x) && (0..200).contains(&p.position.y) {
            let i = (p.position.y * 320 + p.position.x) as usize;
            assert!(!seen[i], "pixel {:?} twice", p.position);
            seen[i] = true;
        }
    }
    assert!(seen.iter().all(|s| *s));
    assert_eq!(g._RCL_middleRow, 110);
    assert_eq!(g._RCL_startFloorHeight, -32);
    assert_eq!(g._RCL_startCeil_Height, 96);
    assert_eq!(g._RCL_camera, cam);
}

#[test]
fn column_helpers_draw_runs() {
    let g = renderer();
    let mut log = PixelLog { pixels: Vec::new() };
    let mut gen = general();
    let mut p = RCL_PixelInfo::zeroed();
    p.depth = 7;
    let ray = RCL_Ray { start: v(0, 0), direction: v(1, 0) };
    // downwards from row 3 to row 6, limited to row 5
    let limit = g._RCL_drawHorizontalColumn(
        &mut log, &mut gen, 3, 6, 0, 5, 0, NonZeroSignum::pos(), false, false, 1, &ray, &mut p,
    );
    assert_eq!(limit, 5);
    assert_eq!(log.pixels.iter().map(|q| q.position.y).collect::<Vec<_>>(), vec![4, 5]);
    assert!(log.pixels.iter().all(|q| !q.isWall && q.depth == 7));
    // upwards, nothing to draw
    let limit = g._RCL_drawHorizontalColumn(
        &mut log, &mut gen, 3, 8, 0, 9, 0, NonZeroSignum::neg(), false, false, 1, &ray, &mut p,
    );
    assert_eq!(limit, 8);
    assert_eq!(log.pixels.len(), 2);
    // a wall from row 10 up to row 5
    log.pixels.clear();
    let limit = RCL_Renderer_Global::<Flat>::_RCL_drawWall(
        &mut log, &mut gen, 10, 10, 5, 0, 199, 32, NonZeroSignum::neg(), &mut p,
    );
    assert_eq!(limit, 5);
    assert_eq!(
        log.pixels.iter().map(|q| q.position.y).collect::<Vec<_>>(),
        vec![9, 8, 7, 6, 5]
    );
    assert!(log.pixels.iter().all(|q| q.isWall));
    // the texture coordinate runs down from the top of the texture
    let coords: Vec<i32> = log.pixels.iter().map(|q| q.texCoords.y).collect();
    assert!(coords.windows(2).all(|w| w[0] > w[1]));
    assert!(coords.iter().all(|c| (0..=32).contains(c)));
}

#[test]
fn camera_stops_at_walls() {
    let g = renderer();
    let lvl = level();
    // in the middle of square (6, 3), moving right into the wall at square 7
    let mut cam = camera(6 * 32 + 16, 3 * 32 + 16, 0);
    g.RCL_moveCameraWithCollision(&lvl, &mut cam, v(20, 0), 0, false, false);
    // the leading corner stops one unit before the wall
    assert_eq!(cam.position, v(7 * 32 - 1 - 8, 3 * 32 + 16));
    // a long move ends at the side of the square that the corner started in
    let mut cam = camera(5 * 32 + 16, 3 * 32 + 16, 0);
    g.RCL_moveCameraWithCollision(&lvl, &mut cam, v(100, 0), 0, false, false);
    assert_eq!(cam.position, v(6 * 32 - 1 - 8, 3 * 32 + 16));
    // a free move
    let mut cam = camera(3 * 32 + 16, 3 * 32 + 16, 0);
    g.RCL_moveCameraWithCollision(&lvl, &mut cam, v(10, -5), 0, false, false);
    assert_eq!(cam.position, v(3 * 32 + 26, 3 * 32 + 11));
    // no move, no force: nothing happens
    let mut cam = camera(3, 4, 0);
    g.RCL_moveCameraWithCollision(&lvl, &mut cam, v(0, 0), 0, false, false);
    assert_eq!(cam.position, v(3, 4));
    // to the left
    let mut cam = camera(32 + 16, 3 * 32 + 16, 0);
    g.RCL_moveCameraWithCollision(&lvl, &mut cam, v(-20, 0), 0, false, false);
    assert_eq!(cam.position, v(32 + 1 + 8, 3 * 32 + 16));
}

#[test]
fn camera_settles_between_floor_and_ceiling() {
    let g = renderer();
    let lvl = RCL_Level { floorHeightFunction: room(), ceilingHeightFunc: Some(Flat { height: 128 }) };
    let mut cam = camera(3 * 32 + 16, 3 * 32 + 16, 0);
    cam.height = 100;
    // falling by 200: the camera ends up standing on the floor
    g.RCL_moveCameraWithCollision(&lvl, &mut cam, v(0, 0), -200, true, false);
    assert_eq!(cam.height, 32);
    // rising by 200: the head stays below the ceiling
    g.RCL_moveCameraWithCollision(&lvl, &mut cam, v(0, 0), 200, true, false);
    assert_eq!(cam.height, 128 - 10);
    // without heights the height offset is ignored
    g.RCL_moveCameraWithCollision(&lvl, &mut cam, v(1, 0), -50, false, false);
    assert_eq!(cam.height, 118);
    let mut corner = 5;
    collHandle(false, 3, 1, &mut corner);
    assert_eq!(corner, 5);
    collHandle(true, 3, 1, &mut corner);
    assert_eq!(corner, 3 * 32 + 31);
    collHandle(true, 3, -1, &mut corner);
    assert_eq!(corner, 3 * 32 + 1);
    let (mut h, mut b, mut t) = (0, 10, 100);
    checkSquares(&lvl, 0, 0, &mut h, &mut b, &mut t);
    assert_eq!((h, b, t), (128, 64, 100));
}

#[test]
fn player_walks_turns_and_jumps() {
    let g = renderer();
    let lvl = RCL_Level { floorHeightFunction: room(), ceilingHeightFunc: Some(Flat { height: 1000 }) };
    let mut p = Player::new();
    assert_eq!(p.mCamera.height, 96);
    assert_eq!(p.mCamera.resolution, v(55, 88));
    p.setPositionSquare(3, 3);
    assert_eq!(p.mCamera.position, v(112, 112));
    p.setPosition(1, 2);
    assert_eq!(p.mCamera.position, v(1, 2));
    p.setPosition_dir(112, 112, 32, 8);
    assert_eq!((p.mCamera.height, p.mCamera.direction), (32, 8));
    // one second forwards in the direction 8, which is (0, -32): 128 units
    // would leave the room, so the move ends at the side of the square
    p.update(&g, &lvl, 1, false, 0, false, 0, false, 1000);
    assert_eq!(p.mCamera.position, v(112, 3 * 32 + 1 + 8));
    assert_eq!(p.mHeadBob, 10);
    // a quarter of a second: 32 units back
    p.update(&g, &lvl, -1, false, 0, false, 0, false, 250);
    assert_eq!(p.mCamera.position, v(112, 137));
    assert_eq!(p.mHeadBob, 20);
    // standing still halves the head bob; turning for a second turns by 16
    p.update(&g, &lvl, 0, false, 1, false, 0, false, 1000);
    assert_eq!(p.mHeadBob, 10);
    assert_eq!(p.mCamera.direction, 24);
    p.update(&g, &lvl, 0, false, -1, false, 0, false, 500);
    assert_eq!(p.mCamera.direction, 16);
    // looking up
    p.update(&g, &lvl, 0, false, 0, false, 1, false, 0);
    assert_eq!(p.mCamera.shear, 10);
    p.update(&g, &lvl, 0, false, 0, false, 1, false, 0);
    assert_eq!(p.mCamera.shear, 88);
    p.update(&g, &lvl, 0, false, 0, false, 0, false, 0);
    assert_eq!(p.mCamera.shear, 44);
    // a jump from the ground
    p.mVericalSpeed = 0;
    p.mVericalSpeedPrev = 0;
    p.update(&g, &lvl, 0, false, 0, true, 0, true, 100);
    assert_eq!(p.mVericalSpeedPrev, 500);
    assert_eq!(p.mVericalSpeed, 500 - 4);
    p.update(&g, &lvl, 0, false, 0, true, 0, true, 100);
    assert_eq!(p.mCamera.height, 32 + 496);
    assert_eq!(p.mVericalSpeed, 492);
}

#[test]
fn sprites() {
    static IMAGE: [u8; 3] = [1, 1, 7];
    let s = Sprite::new(&IMAGE, 2, -1, 3, 4);
    assert_eq!(s.mPosition, v(80, -16));
    assert_eq!(s.mHeight, 112);
    assert_eq!(s.mPixelSize, 4);
    assert_eq!(s.mImage, &IMAGE);
    let d = Sprite::Sprite();
    assert!(d.mImage.is_empty());
    assert_eq!((d.mHeight, d.mPixelSize, d.mPosition), (0, 1, v(0, 0)));
}

#[test]
fn screen_draws_and_projects() {
    let mut screen = Screen::new();
    assert_eq!(screen.data.len(), 110 * 88);
    screen.drawPixel(3, 2, 15);
    screen.drawPixel(-1, 2, 15);
    screen.drawPixel(110, 2, 15);
    screen.drawPixel(3, 88, 15);
    assert_eq!(screen.data.iter().filter(|c| **c != 0).count(), 1);
    assert_eq!(screen.data[2 * 110 + 3], 15);
    let mut image = vec![7u8; 110 * 88 * 4 + 2];
    screen.project(&mut image);
    assert_eq!(&image[0..4], &[0, 0, 0, 255]);
    let at = 4 * (2 * 110 + 3);
    assert_eq!(&image[at..at + 4], &[255, 255, 255, 255]);
    assert_eq!(&image[110 * 88 * 4..], &[7, 7]);
}

#[test]
fn images_skip_transparent_pixels() {
    let mut screen = Screen::new();
    // two columns of three pixels
    let image = [2u8, 3, 1, 0x8f, 3, 4, 5, 0x8f];
    drawImage(&mut screen, &image, 10, 20);
    let px = |x: usize, y: usize| screen.data[y * 110 + x];
    assert_eq!((px(10, 20), px(10, 21), px(10, 22)), (1, 0, 3));
    assert_eq!((px(11, 20), px(11, 21), px(11, 22)), (4, 5, 0));
    // partly off the screen
    drawImage(&mut screen, &image, 109, 86);
    assert_eq!(screen.data[86 * 110 + 109], 1);
    assert_eq!(screen.data.iter().filter(|c| **c != 0).count(), 5);
}

#[test]
fn sprites_are_scaled_and_hidden_behind_walls() {
    let mut general = general();
    for i in 0..55 {
        general.zBuffer[i] = 100;
    }
    general.zBuffer[10] = 5;
    let mut screen = Screen::new();
    // 2 by 2 sprite: columns (0x11, 0x12) and (0x8f, 0x14)
    let sprite = [2u8, 2, 0x11, 0x12, 0x8f, 0x14];
    general.drawSpriteSquare(&mut screen, &sprite, 20, 30, 50, 4, 1);
    let px = |s: &Screen, x: usize, y: usize| s.data[y * 110 + x];
    // the sprite covers columns 18 to 21 and rows 28 to 31; column 20 and 21
    // lie behind the wall of depth 5
    assert_eq!((px(&screen, 18, 28), px(&screen, 18, 29), px(&screen, 18, 30), px(&screen, 18, 31)), (0x12, 0x12, 0x13, 0x13));
    assert_eq!(px(&screen, 19, 28), 0x12);
    assert_eq!((px(&screen, 20, 28), px(&screen, 21, 31)), (0, 0));
    assert_eq!(screen.data.iter().filter(|c| **c != 0).count(), 8);
    // in front of everything, the transparent pixels stay clear
    let mut screen = Screen::new();
    general.drawSpriteSquare(&mut screen, &sprite, 20, 30, 1, 4, 0);
    assert_eq!((px(&screen, 20, 28), px(&screen, 20, 30), px(&screen, 21, 31)), (0, 0x14, 0x14));
    assert_eq!(screen.data.iter().filter(|c| **c != 0).count(), 12);
    // too large, or not square: nothing
    let mut screen = Screen::new();
    general.drawSpriteSquare(&mut screen, &sprite, 20, 30, 1, 201, 0);
    general.drawSpriteSquare(&mut screen, &[2u8, 1, 5, 5, 5, 5], 20, 30, 1, 4, 0);
    assert!(screen.data.iter().all(|c| *c == 0));
    // off the screen's corner
    general.drawSpriteSquare(&mut screen, &sprite, 0, 0, 1, 4, 0);
    assert_eq!(px(&screen, 0, 0), 0x14);
    assert_eq!(px(&screen, 1, 1), 0x14);
    assert_eq!(screen.data.iter().filter(|c| **c != 0).count(), 4);
}

#[test]
fn average_colour() {
    // greys of value 4 and 8, and one excluded pixel
    let texture = [3u8, 1, 0x04, 0x08, 0x8f];
    assert_eq!(computeAverageColor(&texture, Some(0x8f)), 6);
    let texture = [1u8, 2, 0x2f, 0x2f];
    assert_eq!(computeAverageColor(&texture, None), 0x2f);
}

#[test]
fn pixel_log_keeps_the_general_state() {
    let mut log = PixelLog { pixels: Vec::new() };
    let mut gen = general();
    let before = gen.defaultConstraints;
    log.pixel(&mut gen, &RCL_PixelInfo::zeroed());
    assert_eq!(log.pixels.len(), 1);
    assert_eq!(gen.defaultConstraints, before);
}

#[test]
fn floor_pixels_get_the_position_of_the_floor() {
    let mut g = renderer();
    g._RCL_middleRow = 100;
    g._RCL_horizontalDepthStep = 1;
    g._RCL_camera = camera(100, 200, 0);
    let distances = g._RCL_precomputeFloorDistances(&g._RCL_camera, 100);
    // the camera is 32 above the floor: 200 rows at distance one
    assert_eq!(distances[99], 0);
    assert_eq!(distances[100], 30000);
    assert_eq!(distances[101], 6416);
    assert_eq!(distances[150], 128);
    assert_eq!(distances[199], 64);
    g._RCL_floorPixelDistances = Some(distances);
    let mut log = PixelLog { pixels: Vec::new() };
    let mut gen = general();
    let mut p = RCL_PixelInfo::zeroed();
    p.hit.position = v(100 + 64, 200 - 128);
    p.hit.distance = 256;
    let ray = RCL_Ray { start: v(0, 0), direction: v(1, 0) };
    let limit = g._RCL_drawHorizontalColumn(
        &mut log, &mut gen, 148, 199, 0, 150, 0, NonZeroSignum::pos(), false, true, 1, &ray, &mut p,
    );
    assert_eq!(limit, 150);
    assert_eq!(log.pixels.len(), 2);
    // at row 150 the floor is 128 away, half of the way to the hit
    assert_eq!(log.pixels[1].position.y, 150);
    assert_eq!(log.pixels[1].texCoords, v(100 + 32, 200 - 64));
    assert_eq!(log.pixels[0].depth, 1);
    assert_eq!(log.pixels[1].depth, 2);
}

#[test]
fn distance_along_the_view() {
    let cam = camera(0, 0, 0);
    // the camera looks along (32, 6); a ray straight along x is a little off
    let ray = RCL_Ray { start: v(0, 0), direction: v(100, 0) };
    let d = RCL_Renderer_Global::<Flat>::RCL_adjustDistance(320, &cam, &ray);
    assert_eq!(d, 320 * 29 / 32);
    let ray = RCL_Ray { start: v(0, 0), direction: v(0, 100) };
    let d = RCL_Renderer_Global::<Flat>::RCL_adjustDistance(320, &cam, &ray);
    assert_eq!(d, 320 * 5 / 32);
    assert_eq!(RCL_Renderer_Global::<Flat>::RCL_adjustDistance(0, &cam, &ray), 1);
}
