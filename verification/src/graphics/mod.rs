//! Zenit graphics: the renderer's capability flags, cubemap faces, the scene components, and
//! the arithmetic and frame decisions around texture uploads and surface presentation.

use crate::entities::{Component, Entity};
use vstd::arithmetic::power2::pow2;
use vstd::bits::lemma_u32_shr_is_div;
use vstd::prelude::*;

verus! {

/// Various feature flags of the renderer, determined at runtime from the engine's settings and the
/// user's hardware configuration.
#[derive(Debug, Clone, Copy, PartialEq, Eq, Structural)]
pub struct RenderCapabilities {
    /// Specifies whether BC/DXT compression is allowed.
    pub allow_bc_compression: bool,
}

/// Defines each face of a cubemap. Its number is the texture layer index of the face.
#[derive(Debug, Clone, Copy, PartialEq, Eq, Structural, PartialOrd, Ord)]
pub enum CubemapFace {
    /// +X direction
    Right,
    /// -X direction
    Left,
    /// +Y direction
    Up,
    /// -Y direction
    Down,
    /// +Z direction
    Forward,
    /// -Z direction
    Backward,
}

/// The texture layer index of each cubemap face.
pub open spec fn face_layer(face: CubemapFace) -> u8 {
    match face {
        CubemapFace::Right => 0,
        CubemapFace::Left => 1,
        CubemapFace::Up => 2,
        CubemapFace::Down => 3,
        CubemapFace::Forward => 4,
        CubemapFace::Backward => 5,
    }
}

impl CubemapFace {
    /// The face's texture layer index.
    pub fn as_u8(self) -> (r: u8)
        ensures
            r == face_layer(self),
    {
        match self {
            CubemapFace::Right => 0,
            CubemapFace::Left => 1,
            CubemapFace::Up => 2,
            CubemapFace::Down => 3,
            CubemapFace::Forward => 4,
            CubemapFace::Backward => 5,
        }
    }

    /// The face whose texture layer index is `value`; the value itself back if there is none.
    pub fn try_from(value: u8) -> (r: Result<CubemapFace, u8>)
        ensures
            r matches Ok(face) ==> face_layer(face) == value,
            r is Ok <==> value < 6,
            r matches Err(v) ==> v == value,
    {
        match value {
            0 => Ok(CubemapFace::Right),
            1 => Ok(CubemapFace::Left),
            2 => Ok(CubemapFace::Up),
            3 => Ok(CubemapFace::Down),
            4 => Ok(CubemapFace::Forward),
            5 => Ok(CubemapFace::Backward),
            _ => Err(value),
        }
    }
}

/// Converting a face to its layer index and back gives the same face.
pub proof fn lemma_face_layer_round_trip(face: CubemapFace, other: CubemapFace)
    ensures
        face_layer(face) < 6,
        face_layer(face) == face_layer(other) ==> face == other,
{
}

/// Marks the entity as containing potential render items for a scene.
pub struct RenderComponent {
    /// Parent entity with a scene component.
    pub parent: Entity,
}

impl Component for RenderComponent {}

/// The shape of one mip level's upload: its size in texels, and the bytes per row of blocks and
/// the rows of blocks it spans.
#[derive(Debug, Clone, Copy, PartialEq, Eq, Structural)]
pub struct MipLayout {
    pub width: u32,
    pub height: u32,
    pub bytes_per_row: u32,
    pub rows_per_image: u32,
}

/// The larger of two numbers.
pub open spec fn max_nat(a: nat, b: nat) -> nat {
    if a >= b { a } else { b }
}

/// The size of mip level `mip_level` of a `width`×`height` texture: each level halves the size,
/// rounding down, but never below one block.
pub open spec fn mip_extent(size: u32, mip_level: u32, block: u32) -> nat {
    max_nat(size as nat / pow2(mip_level as nat), block as nat)
}

/// Computes how to upload mip level `mip_level` of a `width`×`height` texture whose format
/// stores `block_width`×`block_height` texel blocks of `block_bytes` bytes each.
///
/// ## Panics
/// With overflow checks, panics if `mip_level` is 32 or more, if a block dimension is zero, or
/// if the row size overflows; `requires` leaves those out.
pub fn mip_level_layout(width: u32, height: u32, mip_level: u32, block_width: u32, block_height: u32, block_bytes: u32) -> (r: MipLayout)
    requires
        mip_level < 32,
        block_width > 0,
        block_height > 0,
        block_bytes * (mip_extent(width, mip_level, block_width) / block_width as nat) <= u32::MAX,
    ensures
        r.width == mip_extent(width, mip_level, block_width),
        r.height == mip_extent(height, mip_level, block_height),
        r.bytes_per_row == block_bytes * (mip_extent(width, mip_level, block_width) / block_width as nat),
        r.rows_per_image == mip_extent(height, mip_level, block_height) / block_height as nat,
{
    proof {
        lemma_u32_shr_is_div(width, mip_level);
        lemma_u32_shr_is_div(height, mip_level);
    }
    // Texture size adjusted for the mipmap level
    let shifted_width = width >> mip_level;
    let shifted_height = height >> mip_level;
    let texture_width = if shifted_width >= block_width { shifted_width } else { block_width };
    let texture_height = if shifted_height >= block_height { shifted_height } else { block_height };
    MipLayout {
        width: texture_width,
        height: texture_height,
        bytes_per_row: block_bytes * (texture_width / block_width),
        rows_per_image: texture_height / block_height,
    }
}

/// Hands out the next texture id of an accumulator and advances it.
///
/// ## Panics
/// Panics if the accumulator would overflow; `requires` leaves that out.
pub fn next_texture_id(accumulator: &mut usize) -> (r: usize)
    requires
        *old(accumulator) < usize::MAX,
    ensures
        r == *old(accumulator),
        *final(accumulator) == *old(accumulator) + 1,
{
    let id = *accumulator;
    *accumulator = id + 1;
    id
}

/// What the render system does with a frame it has the data for.
#[derive(Debug, Clone, Copy, PartialEq, Eq, Structural)]
pub enum FramePlan {
    /// Draw and present the frame.
    Render,
    /// Reconfigure the window surface to the window's size and draw nothing this frame.
    Reconfigure,
    /// Draw nothing this frame.
    Skip,
}

/// The plan for a frame: a resize event or a window size that no longer matches the surface
/// configuration calls for reconfiguring; a window with no area is skipped.
pub open spec fn frame_plan(resized: bool, window_width: u32, window_height: u32, surface_width: u32, surface_height: u32) -> FramePlan {
    if resized {
        FramePlan::Reconfigure
    } else if window_width == 0 || window_height == 0 {
        FramePlan::Skip
    } else if window_width != surface_width || window_height != surface_height {
        FramePlan::Reconfigure
    } else {
        FramePlan::Render
    }
}

/// A frame is rendered exactly when no resize arrived, the window has an area, and its size
/// matches the surface configuration in both width and height. A resize, or a window with an
/// area whose width or height differs from the surface's, reconfigures the surface; only a
/// window without an area (and no resize) skips the frame.
pub proof fn lemma_frame_plan_matches_sizes(resized: bool, window_width: u32, window_height: u32, surface_width: u32, surface_height: u32)
    ensures
        frame_plan(resized, window_width, window_height, surface_width, surface_height) == FramePlan::Render
            <==> (!resized && window_width != 0 && window_height != 0 && window_width == surface_width
                && window_height == surface_height),
        resized ==> frame_plan(resized, window_width, window_height, surface_width, surface_height) == FramePlan::Reconfigure,
        window_width != 0 && window_height != 0 && (window_width != surface_width || window_height != surface_height)
            ==> frame_plan(resized, window_width, window_height, surface_width, surface_height) == FramePlan::Reconfigure,
        frame_plan(resized, window_width, window_height, surface_width, surface_height) == FramePlan::Skip
            <==> (!resized && (window_width == 0 || window_height == 0)),
{
}

/// Decides what to do with a frame, given whether a window resize event arrived this frame,
/// the window's inner size and the size the surface is configured with.
pub fn plan_frame(resized: bool, window_width: u32, window_height: u32, surface_width: u32, surface_height: u32) -> (r: FramePlan)
    ensures
        r == frame_plan(resized, window_width, window_height, surface_width, surface_height),
{
    if resized {
        return FramePlan::Reconfigure;
    }
    if window_width == 0 || window_height == 0 {
        return FramePlan::Skip;
    }
    if window_width != surface_width || window_height != surface_height {
        return FramePlan::Reconfigure;
    }
    FramePlan::Render
}

/// The ways fetching the surface's next texture can fail.
#[derive(Debug, Clone, Copy, PartialEq, Eq, Structural)]
pub enum SurfaceFailure {
    Timeout,
    Outdated,
    Lost,
    OutOfMemory,
}

/// What the render system does when fetching the surface's next texture fails.
#[derive(Debug, Clone, Copy)]
pub enum SurfaceRecovery {
    /// Reconfigure the surface and try again next frame.
    Reconfigure,
    /// Try again next frame.
    RetryNextFrame,
    /// Give up with the given message.
    Fatal(&'static str),
}

/// Decides how to recover from a failed surface texture fetch. On Linux a timeout is retried
/// next frame (some Mesa Vulkan drivers time out spuriously); elsewhere it is fatal, as are a
/// lost surface and running out of memory. An outdated surface is reconfigured.
pub fn surface_recovery(failure: SurfaceFailure, on_linux: bool) -> (r: SurfaceRecovery)
    ensures
        failure == SurfaceFailure::Outdated ==> r is Reconfigure,
        failure == SurfaceFailure::Timeout && on_linux ==> r is RetryNextFrame,
        failure == SurfaceFailure::Timeout && !on_linux ==> r == SurfaceRecovery::Fatal("swapchain failure: timeout"),
        failure == SurfaceFailure::Lost ==> r == SurfaceRecovery::Fatal("swapchain failure: surface lost"),
        failure == SurfaceFailure::OutOfMemory ==> r == SurfaceRecovery::Fatal("swapchain failure: out of memory"),
{
    match failure {
        SurfaceFailure::Outdated => SurfaceRecovery::Reconfigure,
        SurfaceFailure::Lost => SurfaceRecovery::Fatal("swapchain failure: surface lost"),
        SurfaceFailure::OutOfMemory => SurfaceRecovery::Fatal("swapchain failure: out of memory"),
        SurfaceFailure::Timeout => {
            if on_linux {
                SurfaceRecovery::RetryNextFrame
            } else {
                SurfaceRecovery::Fatal("swapchain failure: timeout")
            }
        },
    }
}

/// A camera as a frame snapshot sees it: whether it is enabled, and the scene entity it shows.
#[derive(Debug, Clone, Copy, PartialEq, Eq, Structural)]
pub struct CameraTarget {
    pub enabled: bool,
    pub scene_entity: Entity,
}

/// `entity` is one of `scenes`.
pub open spec fn is_scene(scenes: Seq<Entity>, entity: Entity) -> bool {
    exists|i: int| 0 <= i < scenes.len() && scenes[i] == entity
}

/// `i` is the last position of `entity` in `scenes`.
pub open spec fn is_last_scene_index(scenes: Seq<Entity>, entity: Entity, i: int) -> bool {
    &&& 0 <= i < scenes.len()
    &&& scenes[i] == entity
    &&& forall|j: int| i < j < scenes.len() ==> scenes[j] != entity
}

/// The positions of the enabled cameras among the first `n` of `cameras`, in order.
pub open spec fn enabled_cameras(cameras: Seq<CameraTarget>, n: nat) -> Seq<int>
    decreases n,
{
    if n == 0 {
        Seq::empty()
    } else {
        let before = enabled_cameras(cameras, (n - 1) as nat);
        if cameras[n - 1].enabled { before.push(n - 1) } else { before }
    }
}

/// The position of the scene `entity` among `scenes`: the last one, as a map filled in order
/// keeps the last value written under a key.
pub fn scene_index(scenes: &Vec<Entity>, entity: Entity) -> (r: Option<usize>)
    ensures
        r is Some <==> is_scene(scenes@, entity),
        r matches Some(i) ==> is_last_scene_index(scenes@, entity, i as int),
{
    let mut found: Option<usize> = None;
    let mut i: usize = 0;
    while i < scenes.len()
        invariant
            i <= scenes@.len(),
            found is None ==> forall|j: int| 0 <= j < i ==> scenes@[j] != entity,
            found matches Some(f) ==> f < i && scenes@[f as int] == entity
                && forall|j: int| f < j < i ==> scenes@[j] != entity,
        decreases scenes@.len() - i,
    {
        if scenes[i] == entity {
            found = Some(i);
        }
        i = i + 1;
    }
    found
}

/// Pairs each enabled camera, in order, with the position of the scene it shows: the render
/// targets of a frame snapshot.
///
/// ## Panics
/// A frame snapshot panics where an enabled camera shows an entity that is not a scene;
/// `requires` leaves that out.
pub fn collect_targets(scenes: &Vec<Entity>, cameras: &Vec<CameraTarget>) -> (r: Vec<(usize, usize)>)
    requires
        forall|c: int| 0 <= c < cameras@.len() && (#[trigger] cameras@[c]).enabled ==>
            is_scene(scenes@, cameras@[c].scene_entity),
    ensures
        r@.len() == enabled_cameras(cameras@, cameras@.len()).len(),
        forall|k: int| 0 <= k < r@.len() ==> {
            &&& (#[trigger] r@[k]).0 == enabled_cameras(cameras@, cameras@.len())[k]
            &&& is_last_scene_index(scenes@, cameras@[r@[k].0 as int].scene_entity, r@[k].1 as int)
        },
{
    let mut targets: Vec<(usize, usize)> = Vec::new();
    let mut c: usize = 0;
    while c < cameras.len()
        invariant
            c <= cameras@.len(),
            forall|c: int| 0 <= c < cameras@.len() && (#[trigger] cameras@[c]).enabled ==>
                is_scene(scenes@, cameras@[c].scene_entity),
            targets@.len() == enabled_cameras(cameras@, c as nat).len(),
            forall|k: int| 0 <= k < targets@.len() ==> {
                &&& (#[trigger] targets@[k]).0 == enabled_cameras(cameras@, c as nat)[k]
                &&& 0 <= targets@[k].0 < c
                &&& is_last_scene_index(scenes@, cameras@[targets@[k].0 as int].scene_entity, targets@[k].1 as int)
            },
        decreases cameras@.len() - c,
    {
        let camera = cameras[c];
        if camera.enabled {
            match scene_index(scenes, camera.scene_entity) {
                Some(scene) => {
                    targets.push((c, scene));
                },
                None => {
                    assert(false);
                },
            }
        }
        c = c + 1;
    }
    targets
}

} // verus!
