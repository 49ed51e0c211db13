//! The renderer: a mesh, its texture and the frame they are drawn into.

use crate::frame::{spec_cleared, Frame};
use crate::mesh::{load_mesh, spec_mesh_error, spec_mesh_triangle, spec_triangle_count, MeshBasic};
use crate::overlay::{render_outline, render_overlay, spec_outline_image, spec_overlay_image};
use crate::pipeline::{render_frame, spec_render_frame, FrameSetup};
use crate::scalar::Scalar;
use crate::texture::{load_texture, spec_texture_error, spec_u8_to_u16, AssetError, Texture};
use vstd::prelude::*;

verus! {

/// Owns everything that a frame is made of. Nothing is shared between two
/// renderers.
#[derive(Debug)]
pub struct SoftwareRenderer<R: Scalar> {
    pub s_mesh: MeshBasic<R>,
    pub s_texture: Texture,
    pub s_made_with: Texture,
    pub frame: Frame<R>,
}

impl<R: Scalar> SoftwareRenderer<R> {
    /// The frame and both textures are well formed, and the frame has a row.
    pub open spec fn wf(&self) -> bool {
        &&& self.frame.wf()
        &&& self.frame.height >= 1
        &&& self.s_texture.wf()
        &&& self.s_made_with.wf()
    }

    /// A renderer without assets for a screen of `width` by `height`
    /// pixels.
    pub fn new(width: u16, height: u16) -> (r: SoftwareRenderer<R>)
        requires
            width <= i16::MAX,
            1 <= height <= i16::MAX,
            4 * (width * height) <= usize::MAX,
        ensures
            r.wf(),
            r.frame.width == width,
            r.frame.height == height,
            r.frame@ == spec_cleared::<R>(width as int, height as int),
            r.s_mesh@.len() == 0,
            r.s_texture.resolution_u == 0,
            r.s_texture.resolution_v == 0,
            r.s_made_with.pixels@.len() == 0,
    {
        SoftwareRenderer {
            s_mesh: MeshBasic::new(),
            s_texture: Texture::zero_resolution_texture(),
            s_made_with: Texture::zero_resolution_texture(),
            frame: Frame::new(width, height),
        }
    }

    /// Loads the mesh, its texture and the picture that is laid over every
    /// frame, in this order. The first asset that fails stops the loading
    /// and gives the error; what was loaded before it stays, and what comes
    /// after it is left as it was.
    pub fn init(&mut self, model: &[u8], texture: &[u8], made_with: &[u8]) -> (r: Result<
        (),
        AssetError,
    >)
        requires
            old(self).wf(),
        ensures
            final(self).wf(),
            final(self).frame == old(self).frame,
            r == (if let Some(e) = spec_mesh_error(model@) {
                Err::<(), AssetError>(e)
            } else if let Some(e) = spec_texture_error(texture@) {
                Err::<(), AssetError>(e)
            } else if let Some(e) = spec_texture_error(made_with@) {
                Err::<(), AssetError>(e)
            } else {
                Ok(())
            }),
            spec_mesh_error(model@) is Some ==> final(self).s_mesh@ == old(self).s_mesh@,
            spec_mesh_error(model@) is None ==> {
                &&& final(self).s_mesh@.len() == spec_triangle_count(model@)
                &&& forall|k: int|
                    0 <= k < final(self).s_mesh@.len() ==> final(self).s_mesh@[k]
                        == spec_mesh_triangle::<R>(model@, k)
            },
            spec_mesh_error(model@) is Some || spec_texture_error(texture@) is Some ==> final(self).s_texture == old(self).s_texture,
            spec_mesh_error(model@) is None && spec_texture_error(texture@) is None ==> {
                &&& final(self).s_texture.resolution_u == spec_u8_to_u16(texture@[0], texture@[1])
                &&& final(self).s_texture.resolution_v == spec_u8_to_u16(texture@[2], texture@[3])
                &&& final(self).s_texture.pixels@ == texture@.subrange(4, texture@.len() as int)
            },
            r is Err ==> final(self).s_made_with == old(self).s_made_with,
            r is Ok ==> {
                &&& final(self).s_made_with.resolution_u == spec_u8_to_u16(
                    made_with@[0],
                    made_with@[1],
                )
                &&& final(self).s_made_with.resolution_v == spec_u8_to_u16(
                    made_with@[2],
                    made_with@[3],
                )
                &&& final(self).s_made_with.pixels@ == made_with@.subrange(
                    4,
                    made_with@.len() as int,
                )
            },
    {
        match load_mesh(&mut self.s_mesh, model) {
            Err(e) => {
                return Err(e);
            },
            Ok(()) => {},
        }
        match load_texture(&mut self.s_texture, texture) {
            Err(e) => {
                return Err(e);
            },
            Ok(()) => {},
        }
        match load_texture(&mut self.s_made_with, made_with) {
            Err(e) => {
                return Err(e);
            },
            Ok(()) => {},
        }
        Ok(())
    }

    /// Renders one frame: the mesh on a cleared target, then the outline
    /// around it, then the picture on top.
    pub fn render(&mut self, setup: &FrameSetup<R>)
        requires
            old(self).wf(),
        ensures
            final(self).wf(),
            final(self).frame.width == old(self).frame.width,
            final(self).frame.height == old(self).frame.height,
            final(self).frame@.inv_depth == spec_render_frame(
                old(self).frame.width,
                old(self).frame.height,
                old(self).s_texture,
                *setup,
                old(self).s_mesh@,
            ).inv_depth,
            final(self).frame@.image == spec_overlay_image(
                spec_outline_image(
                    spec_render_frame(
                        old(self).frame.width,
                        old(self).frame.height,
                        old(self).s_texture,
                        *setup,
                        old(self).s_mesh@,
                    ).image,
                    old(self).frame.width as int,
                    old(self).frame.height as int,
                ),
                old(self).s_made_with.pixels@,
            ),
            final(self).s_mesh == old(self).s_mesh,
            final(self).s_texture == old(self).s_texture,
            final(self).s_made_with == old(self).s_made_with,
    {
        render_frame(&mut self.frame, &self.s_texture, setup, &self.s_mesh.triangles);
        render_outline(&mut self.frame.image, self.frame.width, self.frame.height);
        render_overlay(&mut self.frame.image, &self.s_made_with);
    }
}

} // verus!
