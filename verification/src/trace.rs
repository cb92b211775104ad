//! A pixel-level model of the ray-generation pass.
//!
//! Ray generation shoots one ray per pixel with explicit distance bounds and
//! a cull mask; traversal dispatches to the closest-hit or miss shader group
//! on the intersection outcome, and the groups communicate through a fixed
//! payload: the hit group writes one fixed color, the miss group a distinct
//! background color, and generation stores the payload at the pixel. The
//! model reads an instance through its visibility mask, its footprint in
//! pixel space, and its distance along the ray — the plain facts that decide
//! hit or miss.

use vstd::prelude::*;
use crate::accel::TlasInstance;
use crate::extent::Extent;

verus! {

/// Payload color the closest-hit group writes, packed as eight-bit RGBA.
pub const HIT_COLOR: u32 = 0xff00_00ff;

/// Payload color the miss group writes; distinct from the hit color.
pub const MISS_COLOR: u32 = 0x0000_00ff;

/// Where an instance's geometry lands in pixel space.
#[derive(Clone, Copy, Debug, PartialEq, Eq, Structural)]
pub enum PixelFootprint {
    /// The instance covers the whole view.
    FullView,
    /// The instance covers the pixels with `x0 <= x < x1` and `y0 <= y < y1`.
    Rect { x0: u32, y0: u32, x1: u32, y1: u32 },
    /// The instance covers no pixel.
    Nothing,
}

/// Whether the footprint covers the pixel at `(x, y)`.
pub open spec fn covers(f: PixelFootprint, x: u32, y: u32) -> bool {
    match f {
        PixelFootprint::FullView => true,
        PixelFootprint::Rect { x0, y0, x1, y1 } => x0 <= x < x1 && y0 <= y < y1,
        PixelFootprint::Nothing => false,
    }
}

/// One instance as the trace sees it.
#[derive(Clone, Copy, Debug, PartialEq, Eq, Structural)]
pub struct TraceInstance {
    /// Visibility bitmask, matched against the ray's cull mask.
    pub mask: u32,
    pub footprint: PixelFootprint,
    /// Distance at which the ray meets the instance's geometry.
    pub distance: u32,
}

impl TraceInstance {
    /// The trace-model view of a top-level instance: the same visibility
    /// mask, with the footprint and distance its transform and geometry give
    /// it in pixel space.
    pub fn of_tlas_instance(inst: &TlasInstance, footprint: PixelFootprint, distance: u32) -> (t:
        TraceInstance)
        ensures
            t.mask == inst.mask,
            t.footprint == footprint,
            t.distance == distance,
    {
        TraceInstance { mask: inst.mask, footprint, distance }
    }
}

/// The ray each pixel shoots: its cull mask and near and far distance
/// bounds.
#[derive(Clone, Copy, Debug, PartialEq, Eq, Structural)]
pub struct RayParams {
    pub cull_mask: u32,
    pub t_min: u32,
    pub t_max: u32,
}

/// The ray through pixel `(x, y)` intersects the instance: the masks share a
/// bit, the footprint covers the pixel, and the hit distance lies within the
/// ray's bounds.
pub open spec fn instance_hit(inst: TraceInstance, ray: RayParams, x: u32, y: u32) -> bool {
    &&& inst.mask & ray.cull_mask != 0
    &&& covers(inst.footprint, x, y)
    &&& ray.t_min <= inst.distance <= ray.t_max
}

/// Some instance of the scene intersects the ray through `(x, y)`.
pub open spec fn scene_hits(
    instances: Seq<TraceInstance>,
    ray: RayParams,
    x: u32,
    y: u32,
) -> bool {
    exists|i: int| 0 <= i < instances.len() && instance_hit(#[trigger] instances[i], ray, x, y)
}

/// The payload the pixel at `(x, y)` receives: the hit color on any
/// intersection, the miss color otherwise.
pub open spec fn pixel_payload(
    instances: Seq<TraceInstance>,
    ray: RayParams,
    x: u32,
    y: u32,
) -> u32 {
    if scene_hits(instances, ray, x, y) {
        HIT_COLOR
    } else {
        MISS_COLOR
    }
}

/// Traces the ray through one pixel and returns its payload.
pub fn trace_pixel(instances: &Vec<TraceInstance>, ray: RayParams, x: u32, y: u32) -> (c: u32)
    ensures
        c == pixel_payload(instances@, ray, x, y),
{
    let mut i: usize = 0;
    while i < instances.len()
        invariant
            i <= instances@.len(),
            forall|k: int| 0 <= k < i ==> !instance_hit(#[trigger] instances@[k], ray, x, y),
        decreases instances@.len() - i,
    {
        let inst = instances[i];
        let covered = match inst.footprint {
            PixelFootprint::FullView => true,
            PixelFootprint::Rect { x0, y0, x1, y1 } => x0 <= x && x < x1 && y0 <= y && y < y1,
            PixelFootprint::Nothing => false,
        };
        if inst.mask & ray.cull_mask != 0 && covered && ray.t_min <= inst.distance
            && inst.distance <= ray.t_max {
            return HIT_COLOR;
        }
        i = i + 1;
    }
    MISS_COLOR
}

/// Runs ray generation over every pixel of `extent`, row by row, and returns
/// the rendered payload image: pixel `(x, y)` stands at `y * width + x`.
pub fn render_payloads(instances: &Vec<TraceInstance>, ray: RayParams, extent: Extent) -> (img:
    Vec<u32>)
    requires
        extent.width * extent.height <= usize::MAX,
    ensures
        img@.len() == extent.width * extent.height,
        forall|x: u32, y: u32|
            x < extent.width && y < extent.height ==> #[trigger] img@[y * extent.width + x]
                == pixel_payload(instances@, ray, x, y),
{
    let mut img: Vec<u32> = Vec::new();
    let mut y: u32 = 0;
    while y < extent.height
        invariant
            y <= extent.height,
            extent.width * extent.height <= usize::MAX,
            img@.len() == y * extent.width,
            forall|xx: u32, yy: u32|
                xx < extent.width && yy < y ==> #[trigger] img@[yy * extent.width + xx]
                    == pixel_payload(instances@, ray, xx, yy),
        decreases extent.height - y,
    {
        let mut x: u32 = 0;
        proof {
            assert((y + 1) * extent.width <= extent.width * extent.height) by (nonlinear_arith)
                requires
                    y < extent.height,
            ;
        }
        while x < extent.width
            invariant
                x <= extent.width,
                y < extent.height,
                (y + 1) * extent.width <= extent.width * extent.height <= usize::MAX,
                img@.len() == y * extent.width + x,
                forall|xx: u32, yy: u32|
                    xx < extent.width && yy < y ==> #[trigger] img@[yy * extent.width + xx]
                        == pixel_payload(instances@, ray, xx, yy),
                forall|xx: u32|
                    xx < x ==> #[trigger] img@[y * extent.width + xx]
                        == pixel_payload(instances@, ray, xx, y),
            decreases extent.width - x,
        {
            let c = trace_pixel(instances, ray, x, y);
            img.push(c);
            proof {
                assert forall|xx: u32, yy: u32| xx < extent.width && yy < y implies #[trigger] (yy
                    * extent.width + xx) < y * extent.width by {
                    assert(yy * extent.width + xx < y * extent.width) by (nonlinear_arith)
                        requires
                            xx < extent.width,
                            yy < y,
                    ;
                }
            }
            x = x + 1;
        }
        y = y + 1;
        proof {
            assert(y * extent.width == (y - 1) * extent.width + extent.width) by (nonlinear_arith);
        }
    }
    proof {
        vstd::arithmetic::mul::lemma_mul_is_commutative(
            extent.height as int,
            extent.width as int,
        );
    }
    img
}

/// The two fixed payload colors are distinct, so a rendered image tells hit
/// pixels from missed ones.
pub proof fn lemma_payload_colors_distinct()
    ensures
        HIT_COLOR != MISS_COLOR,
{
}

/// A scene with no geometry misses everywhere: with an empty instance list,
/// every pixel's payload is the miss color, whatever the ray parameters.
pub proof fn lemma_empty_scene_misses(instances: Seq<TraceInstance>, ray: RayParams, x: u32, y: u32)
    requires
        instances.len() == 0,
    ensures
        pixel_payload(instances, ray, x, y) == MISS_COLOR,
{
}

/// One instance covering the whole view, visible to the ray's cull mask and
/// within its distance bounds, is hit by every traced pixel: every pixel's
/// payload is the closest-hit color.
pub proof fn lemma_full_cover_hits(instances: Seq<TraceInstance>, ray: RayParams, x: u32, y: u32)
    requires
        instances.len() == 1,
        instances[0].footprint is FullView,
        instances[0].mask & ray.cull_mask != 0,
        ray.t_min <= instances[0].distance <= ray.t_max,
    ensures
        pixel_payload(instances, ray, x, y) == HIT_COLOR,
{
    assert(instance_hit(instances[0], ray, x, y));
}

} // verus!
