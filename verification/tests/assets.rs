use soft_raster::fixed::Fixed;
use soft_raster::mesh::{load_mesh, MeshBasic, MAX_BASIC_MESH_TRIANGLES, MAX_MESH_VERTICES};
use soft_raster::renderer::SoftwareRenderer;
use soft_raster::scalar::Scalar;
use soft_raster::texture::{
    load_texture, sample_coord, u8_to_scalar, u8_to_u16, u8_to_u32, AssetError, Texture,
    MAX_TEXTURE_SIZE,
};

#[test]
fn bytes_combine_big_endian() {
    assert_eq!(u8_to_u16(0x12, 0x34), 0x1234);
    assert_eq!(u8_to_u16(0xff, 0xff), 0xffff);
    assert_eq!(u8_to_u16(0, 1), 1);
    assert_eq!(u8_to_u32(0x12, 0x34, 0x56, 0x78), 0x1234_5678);
    assert_eq!(u8_to_u32(0xff, 0, 0, 0), 0xff00_0000);
    let one: Fixed = u8_to_scalar(0x3f, 0x80, 0, 0);
    assert_eq!(one, Fixed::one());
}

#[test]
fn texture_loads_header_and_pixels() {
    let mut texture = Texture::zero_resolution_texture();
    let binary = [0, 2, 0, 1, 1, 2, 3, 4, 5, 6, 7, 8];
    assert_eq!(load_texture(&mut texture, &binary), Ok(()));
    assert_eq!(texture.resolution_u, 2);
    assert_eq!(texture.resolution_v, 1);
    assert_eq!(texture.pixels, vec![1, 2, 3, 4, 5, 6, 7, 8]);
}

#[test]
fn texture_keeps_bytes_after_the_last_pixel() {
    let mut texture = Texture::zero_resolution_texture();
    let binary = [0, 1, 0, 1, 1, 2, 3, 4, 9, 9];
    assert_eq!(load_texture(&mut texture, &binary), Ok(()));
    assert_eq!(texture.pixels, vec![1, 2, 3, 4, 9, 9]);
}

#[test]
fn texture_errors_leave_the_texture_alone() {
    let mut texture = Texture { pixels: vec![1, 2, 3, 4], resolution_u: 1, resolution_v: 1 };
    assert_eq!(load_texture(&mut texture, &[0, 1, 0]), Err(AssetError::TooShort));
    assert_eq!(load_texture(&mut texture, &[]), Err(AssetError::TooShort));
    assert_eq!(load_texture(&mut texture, &[4, 1, 0, 1]), Err(AssetError::TooLarge));
    assert_eq!(load_texture(&mut texture, &[0, 1, 4, 1]), Err(AssetError::TooLarge));
    assert_eq!(load_texture(&mut texture, &[0, 1, 0, 1, 1, 2, 3]), Err(AssetError::Truncated));
    assert_eq!(texture.pixels, vec![1, 2, 3, 4]);
    assert_eq!((texture.resolution_u, texture.resolution_v), (1, 1));
    // the largest resolution is accepted as far as the header goes
    assert_eq!(MAX_TEXTURE_SIZE, 1024);
    assert_eq!(load_texture(&mut texture, &[4, 0, 4, 0]), Err(AssetError::Truncated));
    // a texture without pixels is fine
    assert_eq!(load_texture(&mut texture, &[0, 0, 0, 7]), Ok(()));
    assert_eq!((texture.resolution_u, texture.resolution_v), (0, 7));
}

#[test]
fn sample_coordinates_are_clamped() {
    let half = Fixed::ratio(1, 2);
    assert_eq!(sample_coord(half, 4), 2);
    assert_eq!(sample_coord(Fixed::zero(), 4), 0);
    assert_eq!(sample_coord(Fixed::one(), 4), 3);
    assert_eq!(sample_coord(Fixed::from_i32(9), 4), 3);
    assert_eq!(sample_coord(Fixed::from_i32(-9), 4), 0);
    assert_eq!(sample_coord(Fixed::ratio(999, 1000), 4), 3);
    assert_eq!(sample_coord(Fixed::ratio(-1, 1000), 4), 0);
    let texture = Texture { pixels: vec![0; 4 * 6], resolution_u: 3, resolution_v: 2 };
    assert_eq!(texture.texel_index(half, half), Some(4));
    assert_eq!(texture.texel_index(Fixed::from_i32(5), Fixed::from_i32(5)), Some(5));
    assert_eq!(Texture::zero_resolution_texture().texel_index(half, half), None);
}

fn be(v: u16) -> [u8; 2] {
    [(v >> 8) as u8, v as u8]
}

fn num(v: f32) -> [u8; 4] {
    v.to_bits().to_be_bytes()
}

fn mesh_file(vertices: &[[f32; 3]], uvs: &[[f32; 2]], triangles: &[[u16; 6]]) -> Vec<u8> {
    let mut b = Vec::new();
    b.extend_from_slice(&be(vertices.len() as u16));
    b.extend_from_slice(&be(uvs.len() as u16));
    b.extend_from_slice(&be(triangles.len() as u16));
    for v in vertices {
        for c in v {
            b.extend_from_slice(&num(*c));
        }
    }
    for v in uvs {
        for c in v {
            b.extend_from_slice(&num(*c));
        }
    }
    for t in triangles {
        for i in t {
            b.extend_from_slice(&be(*i));
        }
    }
    b
}

fn square() -> Vec<u8> {
    mesh_file(
        &[[-1.0, -1.0, 2.0], [1.0, -1.0, 2.0], [1.0, 1.0, 2.0], [-1.0, 1.0, 2.5]],
        &[[0.0, 0.0], [1.0, 0.0], [1.0, 1.0], [0.0, 1.0]],
        &[[0, 1, 2, 0, 1, 2], [0, 2, 3, 0, 2, 3]],
    )
}

#[test]
fn mesh_loads_triangles_in_order() {
    let mut mesh: MeshBasic<Fixed> = MeshBasic::new();
    assert_eq!(mesh.amount_of_triangles(), 0);
    assert_eq!(load_mesh(&mut mesh, &square()), Ok(()));
    assert_eq!(mesh.amount_of_triangles(), 2);
    let t = &mesh.triangles[1];
    assert_eq!(t.vertices[0].x, Fixed::from_i32(-1));
    assert_eq!(t.vertices[1].y, Fixed::from_i32(1));
    assert_eq!(t.vertices[2].z, Fixed::ratio(5, 2));
    assert_eq!(t.vertices[2].w, Fixed::zero());
    assert_eq!(t.uvs[1].u, Fixed::one());
    assert_eq!(t.uvs[2].u, Fixed::zero());
    assert_eq!(t.uvs[2].v, Fixed::one());
    assert_eq!(t.uvs[2].w, Fixed::zero());
}

#[test]
fn mesh_errors_leave_the_mesh_alone() {
    let mut mesh: MeshBasic<Fixed> = MeshBasic::new();
    assert_eq!(load_mesh(&mut mesh, &square()), Ok(()));
    assert_eq!(load_mesh(&mut mesh, &[0, 0, 0, 0, 0]), Err(AssetError::TooShort));
    let cut = &square()[..square().len() - 1];
    assert_eq!(load_mesh(&mut mesh, cut), Err(AssetError::Truncated));
    let bad_vertex = mesh_file(&[[0.0; 3]], &[[0.0; 2]], &[[0, 0, 1, 0, 0, 0]]);
    assert_eq!(load_mesh(&mut mesh, &bad_vertex), Err(AssetError::BadIndex));
    let bad_uv = mesh_file(&[[0.0; 3]], &[[0.0; 2]], &[[0, 0, 0, 0, 0, 0], [0, 0, 0, 0, 7, 0]]);
    assert_eq!(load_mesh(&mut mesh, &bad_uv), Err(AssetError::BadIndex));
    let mut many = vec![0u8; 6];
    many[0..2].copy_from_slice(&be(MAX_MESH_VERTICES as u16 + 1));
    assert_eq!(load_mesh(&mut mesh, &many), Err(AssetError::TooLarge));
    many[0..2].copy_from_slice(&be(0));
    many[2..4].copy_from_slice(&be(MAX_MESH_VERTICES as u16 + 1));
    assert_eq!(load_mesh(&mut mesh, &many), Err(AssetError::TooLarge));
    many[2..4].copy_from_slice(&be(0));
    many[4..6].copy_from_slice(&be(MAX_BASIC_MESH_TRIANGLES as u16 + 1));
    assert_eq!(load_mesh(&mut mesh, &many), Err(AssetError::TooLarge));
    assert_eq!(mesh.amount_of_triangles(), 2);
    // the empty mesh is fine and replaces what was there
    assert_eq!(load_mesh(&mut mesh, &[0, 0, 0, 0, 0, 0]), Ok(()));
    assert_eq!(mesh.amount_of_triangles(), 0);
}

#[test]
fn renderer_loads_its_three_assets_in_order() {
    let mut renderer: SoftwareRenderer<Fixed> = SoftwareRenderer::new(8, 8);
    let texture = [0, 1, 0, 1, 1, 2, 3, 4];
    assert_eq!(renderer.init(&square(), &texture, &[0, 0, 0, 0]), Ok(()));
    assert_eq!(renderer.s_mesh.amount_of_triangles(), 2);
    assert_eq!(renderer.s_texture.pixels, vec![1, 2, 3, 4]);
    assert_eq!(renderer.init(&[], &texture, &texture), Err(AssetError::TooShort));
    assert_eq!(renderer.init(&square(), &[0, 1, 0, 1], &texture), Err(AssetError::Truncated));
    assert_eq!(renderer.init(&square(), &texture, &[9, 9, 0, 0]), Err(AssetError::TooLarge));
}
