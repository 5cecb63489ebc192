//! The parts of the 3D scene loop that are plain integer work: the depth
//! buffer and the frame pacing.
use crate::framebuffer::{DISPLAY_HEIGHT, DISPLAY_WIDTH};
use vstd::prelude::*;

verus! {

/// Calls `embedded_3dgfx::Z_MAX_VALUE`, the depth that the renderer treats
/// as "nothing drawn yet". Claimed: it is `u32::MAX`, as the crate defines
/// it when depths are 32-bit (the type of the result pins that case).
#[verifier::external_body]
fn far_depth() -> (z: u32)
    ensures
        z == u32::MAX,
{
    embedded_3dgfx::Z_MAX_VALUE
}

/// Number of depth entries for one frame.
pub const ZBUFFER_LEN: usize = 76800;

/// Every entry of `z` holds the far depth.
pub open spec fn all_far(z: Seq<u32>) -> bool {
    forall|i: int| 0 <= i < z.len() ==> z[i] == u32::MAX
}

/// A depth buffer for one frame of the display, every entry at the far
/// depth; its length is what the renderer checks against the frame size.
pub fn new_zbuffer() -> (z: Vec<u32>)
    ensures
        z@.len() == ZBUFFER_LEN,
        z@.len() == DISPLAY_WIDTH as int * DISPLAY_HEIGHT as int,
        all_far(z@),
{
    let far = far_depth();
    vec![far; ZBUFFER_LEN]
}

/// Sets every entry of the depth buffer back to the far depth.
pub fn clear_zbuffer(z: &mut Vec<u32>)
    ensures
        final(z)@.len() == old(z)@.len(),
        all_far(final(z)@),
{
    let far = far_depth();
    let n = z.len();
    let mut i: usize = 0;
    while i < n
        invariant
            z@.len() == n,
            far == u32::MAX,
            i <= n,
            forall|j: int| 0 <= j < i ==> z@[j] == u32::MAX,
        decreases n - i,
    {
        z.set(i, far);
        i = i + 1;
    }
}

/// Frames per second of the 3D scene loop.
pub const SCENE_FPS: u8 = 30;

/// Time between frames of the triangle demo, in milliseconds.
pub const TRIANGLE_FRAME_MILLIS: u64 = 30;

/// Time between frames of the standalone cube demo, in milliseconds.
pub const CUBE_FRAME_MILLIS: u64 = 16;

/// The tick period, in whole milliseconds, for running at `fps` frames per
/// second (the fraction is dropped).
pub fn frame_period_millis(fps: u8) -> (ms: u64)
    requires
        fps > 0,
    ensures
        ms == 1000int / (fps as int),
        ms * (fps as int) <= 1000 < (ms + 1) * (fps as int),
{
    let ms = 1000u64 / (fps as u64);
    assert(ms * (fps as int) <= 1000 < (ms + 1) * (fps as int)) by (nonlinear_arith)
        requires
            ms == 1000int / (fps as int),
            fps > 0,
    ;
    ms
}

/// The plugin that sets up the scene (camera, lit cube) and turns the cube a
/// little every frame; its systems work on floating-point transforms and
/// are registered by the application.
#[derive(Clone, Copy, Debug)]
pub struct GamePlugin;

/// The plugin that owns the 3D engine and records the meshes into a command
/// buffer at the end of each frame; registered by the application.
#[derive(Clone, Copy, Debug)]
pub struct RenderPlugin;

} // verus!
