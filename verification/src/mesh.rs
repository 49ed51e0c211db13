//! Meshes: lists of textured triangles, and how they are loaded.
//!
//! A mesh file holds three big-endian 16-bit counts (vertices, texture
//! coordinates, triangles), then the vertices as three 32-bit numbers each,
//! then the texture coordinates as two 32-bit numbers each, then for every
//! triangle three 16-bit vertex indices followed by three 16-bit texture
//! coordinate indices.

use crate::scalar::Scalar;
use crate::texture::{
    spec_u8_to_u16, spec_u8_to_u32, u8_to_scalar, u8_to_u16, AssetError,
};
use crate::vector::{Triangle, Vec3d, VecUVW};
use vstd::prelude::*;

verus! {

/// The most triangles that a mesh may hold.
pub const MAX_BASIC_MESH_TRIANGLES: usize = 2048;

/// The most vertices, and the most texture coordinates, that a mesh file
/// may hold.
pub const MAX_MESH_VERTICES: usize = 4096;

/// A list of triangles in drawing order.
#[derive(Debug)]
pub struct MeshBasic<R: Scalar> {
    pub triangles: Vec<Triangle<R>>,
}

impl<R: Scalar> View for MeshBasic<R> {
    type V = Seq<Triangle<R>>;

    open spec fn view(&self) -> Seq<Triangle<R>> {
        self.triangles@
    }
}

impl<R: Scalar> MeshBasic<R> {
    /// The mesh without triangles.
    pub fn new() -> (mesh: MeshBasic<R>)
        ensures
            mesh@.len() == 0,
    {
        MeshBasic { triangles: Vec::new() }
    }

    /// How many triangles the mesh holds.
    pub fn amount_of_triangles(&self) -> (n: usize)
        ensures
            n == self@.len(),
    {
        self.triangles.len()
    }
}

/// The big-endian 16-bit number at offset `off`.
pub open spec fn spec_be16(b: Seq<u8>, off: int) -> int {
    spec_u8_to_u16(b[off], b[off + 1]) as int
}

/// The number whose single-precision pattern stands, big-endian, at `off`.
pub open spec fn spec_scalar_at<R: Scalar>(b: Seq<u8>, off: int) -> R {
    R::spec_from_bits(spec_u8_to_u32(b[off], b[off + 1], b[off + 2], b[off + 3]))
}

/// The number of vertices that the header announces.
pub open spec fn spec_vertex_count(b: Seq<u8>) -> int {
    spec_be16(b, 0)
}

/// The number of texture coordinates that the header announces.
pub open spec fn spec_uv_count(b: Seq<u8>) -> int {
    spec_be16(b, 2)
}

/// The number of triangles that the header announces.
pub open spec fn spec_triangle_count(b: Seq<u8>) -> int {
    spec_be16(b, 4)
}

/// Where vertex `i` starts.
pub open spec fn spec_vertex_offset(i: int) -> int {
    6 + 12 * i
}

/// Where texture coordinate `i` starts.
pub open spec fn spec_uv_offset(b: Seq<u8>, i: int) -> int {
    6 + 12 * spec_vertex_count(b) + 8 * i
}

/// Where the indices of triangle `k` start.
pub open spec fn spec_triangle_offset(b: Seq<u8>, k: int) -> int {
    6 + 12 * spec_vertex_count(b) + 8 * spec_uv_count(b) + 12 * k
}

/// The length of the file that the header announces.
pub open spec fn spec_mesh_len(b: Seq<u8>) -> int {
    spec_triangle_offset(b, spec_triangle_count(b))
}

/// Vertex `i` of the file. Its `w` is zero.
pub open spec fn spec_mesh_vertex<R: Scalar>(b: Seq<u8>, i: int) -> Vec3d<R> {
    Vec3d {
        x: spec_scalar_at(b, spec_vertex_offset(i)),
        y: spec_scalar_at(b, spec_vertex_offset(i) + 4),
        z: spec_scalar_at(b, spec_vertex_offset(i) + 8),
        w: R::spec_zero(),
    }
}

/// Texture coordinate `i` of the file. Its `w` is zero.
pub open spec fn spec_mesh_uv<R: Scalar>(b: Seq<u8>, i: int) -> VecUVW<R> {
    VecUVW {
        u: spec_scalar_at(b, spec_uv_offset(b, i)),
        v: spec_scalar_at(b, spec_uv_offset(b, i) + 4),
        w: R::spec_zero(),
    }
}

/// Index number `j` (0 to 5) of triangle `k`: three vertex indices, then
/// three texture coordinate indices.
pub open spec fn spec_mesh_index(b: Seq<u8>, k: int, j: int) -> int {
    spec_be16(b, spec_triangle_offset(b, k) + 2 * j)
}

/// Whether every index of triangle `k` points into its table.
pub open spec fn spec_indices_ok(b: Seq<u8>, k: int) -> bool {
    &&& spec_mesh_index(b, k, 0) < spec_vertex_count(b)
    &&& spec_mesh_index(b, k, 1) < spec_vertex_count(b)
    &&& spec_mesh_index(b, k, 2) < spec_vertex_count(b)
    &&& spec_mesh_index(b, k, 3) < spec_uv_count(b)
    &&& spec_mesh_index(b, k, 4) < spec_uv_count(b)
    &&& spec_mesh_index(b, k, 5) < spec_uv_count(b)
}

/// Triangle `k` of the file.
pub open spec fn spec_mesh_triangle<R: Scalar>(b: Seq<u8>, k: int) -> Triangle<R> {
    Triangle {
        vertices: [
            spec_mesh_vertex(b, spec_mesh_index(b, k, 0)),
            spec_mesh_vertex(b, spec_mesh_index(b, k, 1)),
            spec_mesh_vertex(b, spec_mesh_index(b, k, 2)),
        ],
        uvs: [
            spec_mesh_uv(b, spec_mesh_index(b, k, 3)),
            spec_mesh_uv(b, spec_mesh_index(b, k, 4)),
            spec_mesh_uv(b, spec_mesh_index(b, k, 5)),
        ],
    }
}

/// What `load_mesh` answers for the data `b`: the error, if any.
pub open spec fn spec_mesh_error(b: Seq<u8>) -> Option<AssetError> {
    if b.len() < 6 {
        Some(AssetError::TooShort)
    } else if spec_vertex_count(b) > MAX_MESH_VERTICES || spec_uv_count(b) > MAX_MESH_VERTICES
        || spec_triangle_count(b) > MAX_BASIC_MESH_TRIANGLES {
        Some(AssetError::TooLarge)
    } else if b.len() < spec_mesh_len(b) {
        Some(AssetError::Truncated)
    } else if exists|k: int| 0 <= k < spec_triangle_count(b) && !spec_indices_ok(b, k) {
        Some(AssetError::BadIndex)
    } else {
        None
    }
}

fn be16(binary: &[u8], off: usize) -> (r: usize)
    requires
        off + 2 <= binary@.len(),
    ensures
        r == spec_be16(binary@, off as int),
        r <= 0xffff,
{
    u8_to_u16(binary[off], binary[off + 1]) as usize
}

fn scalar_at<R: Scalar>(binary: &[u8], off: usize) -> (r: R)
    requires
        off + 4 <= binary@.len(),
    ensures
        r == spec_scalar_at::<R>(binary@, off as int),
{
    u8_to_scalar(binary[off], binary[off + 1], binary[off + 2], binary[off + 3])
}

fn triangle_at<R: Scalar>(
    binary: &[u8],
    k: usize,
    verticies: &Vec<Vec3d<R>>,
    texture_verticies: &Vec<VecUVW<R>>,
) -> (r: Option<Triangle<R>>)
    requires
        binary@.len() >= 6,
        spec_vertex_count(binary@) <= MAX_MESH_VERTICES,
        spec_uv_count(binary@) <= MAX_MESH_VERTICES,
        k < spec_triangle_count(binary@),
        spec_mesh_len(binary@) <= binary@.len(),
        verticies@.len() == spec_vertex_count(binary@),
        texture_verticies@.len() == spec_uv_count(binary@),
        forall|i: int|
            0 <= i < verticies@.len() ==> verticies@[i] == spec_mesh_vertex::<R>(binary@, i),
        forall|i: int|
            0 <= i < texture_verticies@.len() ==> texture_verticies@[i] == spec_mesh_uv::<R>(
                binary@,
                i,
            ),
    ensures
        r is Some <==> spec_indices_ok(binary@, k as int),
        r matches Some(t) ==> t == spec_mesh_triangle::<R>(binary@, k as int),
{
    let header: usize = be16(binary, 0);
    let uvs: usize = be16(binary, 2);
    let count: usize = be16(binary, 4);
    let offset: usize = 6 + 12 * header + 8 * uvs + 12 * k;
    let i0 = be16(binary, offset);
    let i1 = be16(binary, offset + 2);
    let i2 = be16(binary, offset + 4);
    let i3 = be16(binary, offset + 6);
    let i4 = be16(binary, offset + 8);
    let i5 = be16(binary, offset + 10);
    if i0 < verticies.len() && i1 < verticies.len() && i2 < verticies.len()
        && i3 < texture_verticies.len() && i4 < texture_verticies.len() && i5
        < texture_verticies.len() {
        Some(
            Triangle {
                vertices: [verticies[i0], verticies[i1], verticies[i2]],
                uvs: [texture_verticies[i3], texture_verticies[i4], texture_verticies[i5]],
            },
        )
    } else {
        None
    }
}

/// Loads a mesh.
///
/// On success the mesh holds the triangles of the file in their order. On
/// an error the mesh is left as it was.
pub fn load_mesh<R: Scalar>(mesh: &mut MeshBasic<R>, binary: &[u8]) -> (r: Result<(), AssetError>)
    ensures
        r == match spec_mesh_error(binary@) {
            Some(e) => Err::<(), AssetError>(e),
            None => Ok(()),
        },
        r is Err ==> final(mesh)@ == old(mesh)@,
        r is Ok ==> {
            &&& final(mesh)@.len() == spec_triangle_count(binary@)
            &&& forall|k: int|
                0 <= k < final(mesh)@.len() ==> final(mesh)@[k] == spec_mesh_triangle::<R>(
                    binary@,
                    k,
                )
        },
{
    if binary.len() < 6 {
        return Err(AssetError::TooShort);
    }
    let verticies_amount: usize = be16(binary, 0);
    let texture_verticies_amount: usize = be16(binary, 2);
    let amount_of_triangles: usize = be16(binary, 4);
    if verticies_amount > MAX_MESH_VERTICES || texture_verticies_amount > MAX_MESH_VERTICES
        || amount_of_triangles > MAX_BASIC_MESH_TRIANGLES {
        return Err(AssetError::TooLarge);
    }
    let total: usize = 6 + 12 * verticies_amount + 8 * texture_verticies_amount + 12
        * amount_of_triangles;
    if binary.len() < total {
        return Err(AssetError::Truncated);
    }
    let mut verticies: Vec<Vec3d<R>> = Vec::new();
    let mut i: usize = 0;
    while i < verticies_amount
        invariant
            i <= verticies_amount,
            verticies_amount == spec_vertex_count(binary@),
            6 + 12 * verticies_amount <= binary@.len(),
            verticies@.len() == i,
            forall|j: int| 0 <= j < i ==> verticies@[j] == spec_mesh_vertex::<R>(binary@, j),
        decreases verticies_amount - i,
    {
        let offset: usize = 6 + 12 * i;
        verticies.push(
            Vec3d {
                x: scalar_at(binary, offset),
                y: scalar_at(binary, offset + 4),
                z: scalar_at(binary, offset + 8),
                w: R::zero(),
            },
        );
        i += 1;
    }
    let mut texture_verticies: Vec<VecUVW<R>> = Vec::new();
    let mut i: usize = 0;
    while i < texture_verticies_amount
        invariant
            i <= texture_verticies_amount,
            verticies_amount == spec_vertex_count(binary@),
            texture_verticies_amount == spec_uv_count(binary@),
            6 + 12 * verticies_amount + 8 * texture_verticies_amount <= binary@.len(),
            texture_verticies@.len() == i,
            forall|j: int|
                0 <= j < i ==> texture_verticies@[j] == spec_mesh_uv::<R>(binary@, j),
        decreases texture_verticies_amount - i,
    {
        let offset: usize = 6 + 12 * verticies_amount + 8 * i;
        texture_verticies.push(
            VecUVW { u: scalar_at(binary, offset), v: scalar_at(binary, offset + 4), w: R::zero() },
        );
        i += 1;
    }
    let mut triangles: Vec<Triangle<R>> = Vec::new();
    let mut k: usize = 0;
    while k < amount_of_triangles
        invariant
            k <= amount_of_triangles,
            binary@.len() >= 6,
            verticies_amount == spec_vertex_count(binary@),
            texture_verticies_amount == spec_uv_count(binary@),
            amount_of_triangles == spec_triangle_count(binary@),
            verticies_amount <= MAX_MESH_VERTICES,
            texture_verticies_amount <= MAX_MESH_VERTICES,
            amount_of_triangles <= MAX_BASIC_MESH_TRIANGLES,
            spec_mesh_len(binary@) <= binary@.len(),
            verticies@.len() == verticies_amount,
            texture_verticies@.len() == texture_verticies_amount,
            forall|j: int|
                0 <= j < verticies@.len() ==> verticies@[j] == spec_mesh_vertex::<R>(binary@, j),
            forall|j: int|
                0 <= j < texture_verticies@.len() ==> texture_verticies@[j] == spec_mesh_uv::<R>(
                    binary@,
                    j,
                ),
            triangles@.len() == k,
            forall|j: int| 0 <= j < k ==> spec_indices_ok(binary@, j),
            forall|j: int| 0 <= j < k ==> triangles@[j] == spec_mesh_triangle::<R>(binary@, j),
        decreases amount_of_triangles - k,
    {
        match triangle_at(binary, k, &verticies, &texture_verticies) {
            Some(t) => {
                triangles.push(t);
            },
            None => {
                assert(0 <= k < spec_triangle_count(binary@) && !spec_indices_ok(
                    binary@,
                    k as int,
                ));
                return Err(AssetError::BadIndex);
            },
        }
        k += 1;
    }
    mesh.triangles = triangles;
    Ok(())
}

} // verus!
