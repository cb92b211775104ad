//! Pipeline construction rules.
//!
//! A compiled shader module is an opaque blob with named entry points; the
//! builder reads only which stage roles it declares, its bindings, and its
//! local work-group side. Assembling a pipeline fails exactly when a needed
//! entry point is missing, and such a failure is fatal: it is surfaced before
//! the frame loop starts. The ray-tracing build also lays out the shader
//! binding table, whose group order is the convention the trace call uses:
//! the generation group at index zero, then miss, then the closest-hit group.

use vstd::prelude::*;

verus! {

/// Roles a shader entry point can fill.
#[derive(Clone, Copy, Debug, PartialEq, Eq, Structural)]
pub enum StageRole {
    Vertex,
    Fragment,
    Compute,
    RayGeneration,
    ClosestHit,
    Miss,
}

/// Kind of one GPU-visible resource binding a shader declares.
#[derive(Clone, Copy, Debug, PartialEq, Eq, Structural)]
pub enum BindingKind {
    /// A writable storage image (the off-screen render target).
    StorageImage,
    /// A sampled read of an image.
    SampledImage,
    /// A sampler object.
    SamplerObject,
    /// A top-level acceleration structure.
    AccelerationStructure,
}

/// One declared binding slot: its index and what it binds.
#[derive(Clone, Copy, Debug, PartialEq, Eq, Structural)]
pub struct BindingSlot {
    pub binding: u32,
    pub kind: BindingKind,
}

/// What the builder reads of a compiled shader module: which entry-point
/// roles it declares, the bindings of its one descriptor set, and the side of
/// its fixed square local work-group (for compute and ray stages).
#[derive(Clone, Debug)]
pub struct ShaderModule {
    pub has_vertex: bool,
    pub has_fragment: bool,
    pub has_compute: bool,
    pub has_ray_generation: bool,
    pub has_closest_hit: bool,
    pub has_miss: bool,
    /// Bindings declared for the compute or ray pass.
    pub compute_bindings: Vec<BindingSlot>,
    /// Bindings declared for the presentation pass.
    pub render_bindings: Vec<BindingSlot>,
    /// Side of the square local work-group shape.
    pub workgroup_side: u32,
}

/// Fatal failure to assemble a pipeline: a needed entry point is missing from
/// the module.
#[derive(Clone, Copy, Debug, PartialEq, Eq, Structural)]
pub struct MissingEntryPointError;

/// A compiled compute pipeline: the layout derived from the module's declared
/// bindings, and the work-group side its dispatches tile by.
#[derive(Clone, Debug)]
pub struct ComputePipeline {
    pub layout: Vec<BindingSlot>,
    pub workgroup_side: u32,
}

/// A compiled graphics pipeline for the full-screen presentation pass.
#[derive(Clone, Debug)]
pub struct GraphicsPipeline {
    pub layout: Vec<BindingSlot>,
    /// Color attachment format; must match the surface format it draws to.
    pub color_format: u32,
}

/// A compiled ray-tracing pipeline.
#[derive(Clone, Debug)]
pub struct RayTracingPipeline {
    pub layout: Vec<BindingSlot>,
    pub workgroup_side: u32,
}

/// One row of the shader binding table.
#[derive(Clone, Copy, Debug, PartialEq, Eq, Structural)]
pub enum ShaderGroup {
    /// A general group wrapping exactly one generation or miss stage.
    General(StageRole),
    /// A hit group wrapping a closest-hit stage.
    TriangleHit(StageRole),
}

/// The shader binding table: rows in group-index order, built once from the
/// pipeline and required before any trace dispatch.
#[derive(Clone, Debug)]
pub struct ShaderBindingTable {
    pub groups: Vec<ShaderGroup>,
}

/// The group-index order every trace call relies on.
pub open spec fn canonical_group_order() -> Seq<ShaderGroup> {
    seq![
        ShaderGroup::General(StageRole::RayGeneration),
        ShaderGroup::General(StageRole::Miss),
        ShaderGroup::TriangleHit(StageRole::ClosestHit),
    ]
}

/// Builds the compute pipeline from the module's compute entry point, with
/// the layout derived from the module's declared bindings. Fails exactly when
/// the module has no compute entry point.
pub fn build_compute(module: &ShaderModule) -> (r: Result<ComputePipeline, MissingEntryPointError>)
    ensures
        r is Ok <==> module.has_compute,
        r matches Ok(p) ==> {
            &&& p.layout@ == module.compute_bindings@
            &&& p.workgroup_side == module.workgroup_side
        },
{
    if module.has_compute {
        Ok(
            ComputePipeline {
                layout: module.compute_bindings.clone(),
                workgroup_side: module.workgroup_side,
            },
        )
    } else {
        Err(MissingEntryPointError)
    }
}

/// Builds the full-screen presentation pipeline from the module's vertex and
/// fragment entry points, targeting the given surface color format. Fails
/// exactly when either entry point is missing.
pub fn build_graphics(module: &ShaderModule, color_format: u32) -> (r: Result<
    GraphicsPipeline,
    MissingEntryPointError,
>)
    ensures
        r is Ok <==> module.has_vertex && module.has_fragment,
        r matches Ok(p) ==> {
            &&& p.layout@ == module.render_bindings@
            &&& p.color_format == color_format
        },
{
    if module.has_vertex && module.has_fragment {
        Ok(
            GraphicsPipeline {
                layout: module.render_bindings.clone(),
                color_format: color_format,
            },
        )
    } else {
        Err(MissingEntryPointError)
    }
}

/// Builds the ray-tracing pipeline and its shader binding table from the
/// module's generation, miss and closest-hit entry points. Fails exactly when
/// any of the three is missing; on success the table rows stand in the
/// canonical group order the trace call indexes by.
pub fn build_ray_tracing(module: &ShaderModule) -> (r: Result<
    (RayTracingPipeline, ShaderBindingTable),
    MissingEntryPointError,
>)
    ensures
        r is Ok <==> module.has_ray_generation && module.has_miss && module.has_closest_hit,
        r matches Ok(p) ==> {
            &&& p.0.layout@ == module.compute_bindings@
            &&& p.0.workgroup_side == module.workgroup_side
            &&& p.1.groups@ == canonical_group_order()
        },
{
    if module.has_ray_generation && module.has_miss && module.has_closest_hit {
        let mut groups: Vec<ShaderGroup> = Vec::new();
        groups.push(ShaderGroup::General(StageRole::RayGeneration));
        groups.push(ShaderGroup::General(StageRole::Miss));
        groups.push(ShaderGroup::TriangleHit(StageRole::ClosestHit));
        proof {
            assert(groups@ =~= canonical_group_order());
        }
        Ok(
            (
                RayTracingPipeline {
                    layout: module.compute_bindings.clone(),
                    workgroup_side: module.workgroup_side,
                },
                ShaderBindingTable { groups },
            ),
        )
    } else {
        Err(MissingEntryPointError)
    }
}

} // verus!
