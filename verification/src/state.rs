//! The program state of one running renderer: controls, clock and renderer.

use crate::controls::{spec_pointer_axis, spec_pointer_pixel, Controls};
use crate::mesh::{spec_mesh_error, spec_mesh_triangle, spec_triangle_count};
use crate::overlay::{spec_outline_image, spec_overlay_image};
use crate::pipeline::{spec_render_frame, FrameSetup};
use crate::renderer::SoftwareRenderer;
use crate::scalar::Scalar;
use crate::texture::{spec_texture_error, AssetError};
use crate::timing::{spec_due_ticks, spec_elapsed, spec_next_stamp, Time, Timing};
use vstd::prelude::*;

verus! {

#[derive(Debug)]
pub struct State<R: Scalar> {
    pub timing: Timing,
    pub controls: Controls<R>,
    pub software_renderer: SoftwareRenderer<R>,
}

impl<R: Scalar> State<R> {
    /// The renderer is well formed.
    pub open spec fn wf(&self) -> bool {
        self.software_renderer.wf()
    }

    /// The state at rest for a screen of `width` by `height` pixels.
    pub fn new(width: u16, height: u16) -> (s: State<R>)
        requires
            width <= i16::MAX,
            1 <= height <= i16::MAX,
            4 * (width * height) <= usize::MAX,
        ensures
            s.wf(),
            s.software_renderer.frame.width == width,
            s.software_renderer.frame.height == height,
            s.timing.spec_tick_number() == 0,
            s.timing.spec_last_stamp() == i32::MIN,
            !s.controls.is_pointer_locked,
    {
        State {
            timing: Timing::new(),
            controls: Controls::new(width, height),
            software_renderer: SoftwareRenderer::new(width, height),
        }
    }

    /// Loads the assets of the renderer, as `SoftwareRenderer::init` does.
    pub fn init(&mut self, model: &[u8], texture: &[u8], made_with: &[u8]) -> (r: Result<
        (),
        AssetError,
    >)
        requires
            old(self).wf(),
        ensures
            final(self).wf(),
            final(self).timing == old(self).timing,
            final(self).controls == old(self).controls,
            final(self).software_renderer.frame == old(self).software_renderer.frame,
            r == (if let Some(e) = spec_mesh_error(model@) {
                Err::<(), AssetError>(e)
            } else if let Some(e) = spec_texture_error(texture@) {
                Err::<(), AssetError>(e)
            } else if let Some(e) = spec_texture_error(made_with@) {
                Err::<(), AssetError>(e)
            } else {
                Ok(())
            }),
            r is Ok ==> {
                &&& final(self).software_renderer.s_mesh@.len() == spec_triangle_count(model@)
                &&& forall|k: int|
                    0 <= k < spec_triangle_count(model@) ==> final(self).software_renderer.s_mesh@[k] == spec_mesh_triangle::<R>(model@, k)
                &&& final(self).software_renderer.s_texture.pixels@ == texture@.subrange(
                    4,
                    texture@.len() as int,
                )
                &&& final(self).software_renderer.s_made_with.pixels@ == made_with@.subrange(
                    4,
                    made_with@.len() as int,
                )
            },
    {
        self.software_renderer.init(model, texture, made_with)
    }

    /// Takes in one report of the input devices and asks the clock whether
    /// ticks are due. Where the answer holds a time, a frame is due: the
    /// caller sets up its matrices and calls `render`.
    pub fn tick(
        &mut self,
        time_stamp: i32,
        locked_pointer: bool,
        abs_x: R,
        abs_y: R,
        delta_x: R,
        delta_y: R,
        scale: R,
        mouse_down: bool,
        mouse_up: bool,
    ) -> (due: Option<Time>)
        requires
            old(self).wf(),
            old(self).software_renderer.frame.width >= 1,
        ensures
            final(self).wf(),
            final(self).software_renderer == old(self).software_renderer,
            final(self).controls.is_pointer_locked == locked_pointer,
            final(self).controls.m_prec_x == spec_pointer_axis(
                old(self).controls.is_pointer_locked,
                locked_pointer,
                old(self).controls.m_prec_x,
                abs_x,
                delta_x,
                scale,
            ),
            final(self).controls.m_prec_y == spec_pointer_axis(
                old(self).controls.is_pointer_locked,
                locked_pointer,
                old(self).controls.m_prec_y,
                abs_y,
                delta_y,
                scale,
            ),
            final(self).controls.lmb.spec_is_pressed() == mouse_down,
            final(self).controls.m_rounded_x == spec_pointer_pixel(
                final(self).controls.m_prec_x,
                old(self).software_renderer.frame.width,
            ),
            final(self).controls.m_rounded_y == spec_pointer_pixel(
                final(self).controls.m_prec_y,
                old(self).software_renderer.frame.height,
            ),
            !final(self).controls.arrow_up.spec_is_pressed(),
            !final(self).controls.arrow_down.spec_is_pressed(),
            !final(self).controls.arrow_left.spec_is_pressed(),
            !final(self).controls.arrow_right.spec_is_pressed(),
            !final(self).controls.space.spec_is_pressed(),
            final(self).timing.spec_tick_number() == old(self).timing.spec_tick_number().wrapping_add(
                spec_due_ticks(spec_elapsed(old(self).timing.spec_last_stamp(), time_stamp)),
            ),
            due matches Some(time) ==> time.spec_ticks() == spec_due_ticks(
                spec_elapsed(old(self).timing.spec_last_stamp(), time_stamp),
            ),
            final(self).timing.spec_last_stamp() == spec_next_stamp(
                old(self).timing.spec_last_stamp(),
                time_stamp,
            ),
            due is Some <==> spec_due_ticks(
                spec_elapsed(old(self).timing.spec_last_stamp(), time_stamp),
            ) != 0,
            due matches Some(time) ==> time.spec_tick_number()
                == final(self).timing.spec_tick_number(),
    {
        self.controls.input_loop(
            locked_pointer,
            abs_x,
            abs_y,
            delta_x,
            delta_y,
            scale,
            mouse_down,
            mouse_up,
            false,
            false,
            false,
            false,
            false,
            self.software_renderer.frame.width,
            self.software_renderer.frame.height,
        );
        self.timing.timing_loop(time_stamp)
    }

    /// Renders the frame that `tick` found due, as `SoftwareRenderer::render`
    /// does.
    pub fn render(&mut self, setup: &FrameSetup<R>)
        requires
            old(self).wf(),
        ensures
            final(self).wf(),
            final(self).timing == old(self).timing,
            final(self).controls == old(self).controls,
            final(self).software_renderer.frame.width == old(self).software_renderer.frame.width,
            final(self).software_renderer.frame.height == old(self).software_renderer.frame.height,
            final(self).software_renderer.s_mesh == old(self).software_renderer.s_mesh,
            final(self).software_renderer.s_texture == old(self).software_renderer.s_texture,
            final(self).software_renderer.s_made_with == old(self).software_renderer.s_made_with,
            final(self).software_renderer.frame@.inv_depth == spec_render_frame(
                old(self).software_renderer.frame.width,
                old(self).software_renderer.frame.height,
                old(self).software_renderer.s_texture,
                *setup,
                old(self).software_renderer.s_mesh@,
            ).inv_depth,
            final(self).software_renderer.frame@.image == spec_overlay_image(
                spec_outline_image(
                    spec_render_frame(
                        old(self).software_renderer.frame.width,
                        old(self).software_renderer.frame.height,
                        old(self).software_renderer.s_texture,
                        *setup,
                        old(self).software_renderer.s_mesh@,
                    ).image,
                    old(self).software_renderer.frame.width as int,
                    old(self).software_renderer.frame.height as int,
                ),
                old(self).software_renderer.s_made_with.pixels@,
            ),
    {
        self.software_renderer.render(setup);
    }
}

} // verus!
