//! Textures: RGBA pixels in rows, and how they are addressed and loaded.

use crate::arith::spec_clamp;
use crate::scalar::Scalar;
use vstd::prelude::*;

verus! {

/// The largest resolution, along either axis, that a texture may have.
pub const MAX_TEXTURE_SIZE: usize = 1024;

/// Why an asset was not loaded.
#[derive(Copy, Clone, Debug, PartialEq, Eq, Structural)]
pub enum AssetError {
    /// The data ends before the end of its header.
    TooShort,
    /// The header asks for more than the loader's capacity.
    TooLarge,
    /// The data ends before the end of what the header announces.
    Truncated,
    /// An index points past the end of its table.
    BadIndex,
}

/// An image of `resolution_u` by `resolution_v` pixels, four bytes each
/// (red, green, blue, alpha), row after row.
#[derive(Debug)]
pub struct Texture {
    pub pixels: Vec<u8>,
    pub resolution_u: u16,
    pub resolution_v: u16,
}

/// `u1` and `u2` as one big-endian number.
pub open spec fn spec_u8_to_u16(u1: u8, u2: u8) -> u16 {
    (u1 as int * 0x100 + u2 as int) as u16
}

/// The four bytes as one big-endian number.
pub open spec fn spec_u8_to_u32(u1: u8, u2: u8, u3: u8, u4: u8) -> u32 {
    (u1 as int * 0x100_0000 + u2 as int * 0x1_0000 + u3 as int * 0x100 + u4 as int) as u32
}

pub fn u8_to_u16(u1: u8, u2: u8) -> (r: u16)
    ensures
        r == spec_u8_to_u16(u1, u2),
{
    let a: u16 = u1 as u16;
    let b: u16 = u2 as u16;
    assert(((a << 8) | b) == a * 0x100 + b) by (bit_vector)
        requires
            a < 0x100,
            b < 0x100,
    ;
    (a << 8) | b
}

pub fn u8_to_u32(u1: u8, u2: u8, u3: u8, u4: u8) -> (r: u32)
    ensures
        r == spec_u8_to_u32(u1, u2, u3, u4),
{
    let a: u32 = u1 as u32;
    let b: u32 = u2 as u32;
    let c: u32 = u3 as u32;
    let d: u32 = u4 as u32;
    assert(((a << 24) | (b << 16) | (c << 8) | d) == a * 0x100_0000 + b * 0x1_0000 + c * 0x100
        + d) by (bit_vector)
        requires
            a < 0x100,
            b < 0x100,
            c < 0x100,
            d < 0x100,
    ;
    (a << 24) | (b << 16) | (c << 8) | d
}

/// The number that the four bytes encode, big-endian, as an IEEE 754
/// single-precision pattern.
pub fn u8_to_scalar<R: Scalar>(u1: u8, u2: u8, u3: u8, u4: u8) -> (r: R)
    ensures
        r == R::spec_from_bits(spec_u8_to_u32(u1, u2, u3, u4)),
{
    R::from_bits(u8_to_u32(u1, u2, u3, u4))
}

/// The texel column or row that the coordinate `c` (0 to 1 across the
/// texture) falls in: `c` times the resolution, without its fraction,
/// brought into `[0, resolution - 1]`.
pub open spec fn spec_sample_coord<R: Scalar>(c: R, resolution: u16) -> int {
    spec_clamp(
        c.spec_times(R::spec_from_i32(resolution as i32)).spec_trunc_i32() as int,
        0,
        resolution - 1,
    )
}

impl Texture {
    /// The texture holds a pixel for every position of its resolution, and
    /// its resolution is within the loader's capacity.
    pub open spec fn wf(&self) -> bool {
        &&& self.pixels.len() >= 4 * self.resolution_u * self.resolution_v
        &&& self.resolution_u <= MAX_TEXTURE_SIZE
        &&& self.resolution_v <= MAX_TEXTURE_SIZE
    }

    /// The index of the texel in which `(u, v)` falls. Texels are counted
    /// row by row.
    pub open spec fn spec_texel_index<R: Scalar>(&self, u: R, v: R) -> int {
        spec_sample_coord(v, self.resolution_v) * self.resolution_u + spec_sample_coord(
            u,
            self.resolution_u,
        )
    }

    /// The four bytes of the texel in which `(u, v)` falls. A texture
    /// without pixels samples as transparent black.
    pub open spec fn spec_sample<R: Scalar>(&self, u: R, v: R) -> Seq<u8> {
        if self.resolution_u == 0 || self.resolution_v == 0 {
            seq![0u8, 0u8, 0u8, 0u8]
        } else {
            self.pixels@.subrange(
                4 * self.spec_texel_index(u, v),
                4 * self.spec_texel_index(u, v) + 4,
            )
        }
    }

    /// The texture without pixels.
    pub fn zero_resolution_texture() -> (t: Texture)
        ensures
            t.wf(),
            t.resolution_u == 0,
            t.resolution_v == 0,
            t.pixels@.len() == 0,
    {
        Texture { pixels: Vec::new(), resolution_u: 0, resolution_v: 0 }
    }

    /// The index of the texel in which `(u, v)` falls, or `None` for a
    /// texture without pixels.
    pub fn texel_index<R: Scalar>(&self, u: R, v: R) -> (idx: Option<usize>)
        requires
            self.wf(),
        ensures
            idx is None <==> self.resolution_u == 0 || self.resolution_v == 0,
            idx matches Some(i) ==> i == self.spec_texel_index(u, v) && 4 * i + 4
                <= self.pixels.len(),
    {
        if self.resolution_u == 0 || self.resolution_v == 0 {
            return None;
        }
        let tu = sample_coord(u, self.resolution_u);
        let tv = sample_coord(v, self.resolution_v);
        let ru: usize = self.resolution_u as usize;
        assert(tv * ru + tu < self.resolution_v * self.resolution_u) by (nonlinear_arith)
            requires
                0 <= tu < ru,
                0 <= tv < self.resolution_v,
                ru == self.resolution_u,
        ;
        assert(self.resolution_v * self.resolution_u <= 1024 * 1024) by (nonlinear_arith)
            requires
                self.resolution_u <= 1024,
                self.resolution_v <= 1024,
        ;
        assert(4 * self.resolution_u * self.resolution_v == 4 * (self.resolution_v
            * self.resolution_u)) by (nonlinear_arith);
        Some(tv * ru + tu)
    }
}

/// The texel column or row that the coordinate `c` falls in.
pub fn sample_coord<R: Scalar>(c: R, resolution: u16) -> (t: usize)
    requires
        resolution > 0,
    ensures
        t == spec_sample_coord(c, resolution),
        t < resolution,
{
    let raw: i32 = c.times(R::from_i32(resolution as i32)).trunc_i32();
    if raw < 0 {
        0
    } else if raw > resolution as i32 - 1 {
        (resolution - 1) as usize
    } else {
        raw as usize
    }
}

/// What `load_texture` answers for the data `binary`: the error, if any.
pub open spec fn spec_texture_error(binary: Seq<u8>) -> Option<AssetError> {
    if binary.len() < 4 {
        Some(AssetError::TooShort)
    } else {
        let ru = spec_u8_to_u16(binary[0], binary[1]);
        let rv = spec_u8_to_u16(binary[2], binary[3]);
        if ru > MAX_TEXTURE_SIZE || rv > MAX_TEXTURE_SIZE {
            Some(AssetError::TooLarge)
        } else if binary.len() - 4 < 4 * ru * rv {
            Some(AssetError::Truncated)
        } else {
            None
        }
    }
}

/// Loads a texture: two big-endian 16-bit resolutions, then the pixels.
///
/// On success the texture holds the resolutions of the header and every
/// byte that follows it. On an error the texture is left as it was.
pub fn load_texture(texture: &mut Texture, binary: &[u8]) -> (r: Result<(), AssetError>)
    ensures
        r == match spec_texture_error(binary@) {
            Some(e) => Err::<(), AssetError>(e),
            None => Ok(()),
        },
        r is Err ==> *final(texture) == *old(texture),
        r is Ok ==> {
            &&& final(texture).wf()
            &&& final(texture).resolution_u == spec_u8_to_u16(binary@[0], binary@[1])
            &&& final(texture).resolution_v == spec_u8_to_u16(binary@[2], binary@[3])
            &&& final(texture).pixels@ == binary@.subrange(4, binary@.len() as int)
        },
{
    if binary.len() < 4 {
        return Err(AssetError::TooShort);
    }
    let ru = u8_to_u16(binary[0], binary[1]);
    let rv = u8_to_u16(binary[2], binary[3]);
    if ru as usize > MAX_TEXTURE_SIZE || rv as usize > MAX_TEXTURE_SIZE {
        return Err(AssetError::TooLarge);
    }
    assert(4 * ru * rv <= 4 * 1024 * 1024) by (nonlinear_arith)
        requires
            ru <= 1024,
            rv <= 1024,
    ;
    if binary.len() - 4 < 4 * (ru as usize) * (rv as usize) {
        return Err(AssetError::Truncated);
    }
    let mut pixels: Vec<u8> = Vec::new();
    let mut i: usize = 4;
    while i < binary.len()
        invariant
            4 <= i <= binary.len(),
            pixels@ == binary@.subrange(4, i as int),
        decreases binary.len() - i,
    {
        pixels.push(binary[i]);
        i += 1;
    }
    texture.resolution_u = ru;
    texture.resolution_v = rv;
    texture.pixels = pixels;
    Ok(())
}

} // verus!
