use raytracer::pipeline::{
    build_compute, build_graphics, build_ray_tracing, BindingKind, BindingSlot,
    MissingEntryPointError, ShaderGroup, ShaderModule, StageRole,
};

fn full_module() -> ShaderModule {
    ShaderModule {
        has_vertex: true,
        has_fragment: true,
        has_compute: true,
        has_ray_generation: true,
        has_closest_hit: true,
        has_miss: true,
        compute_bindings: vec![BindingSlot {
            binding: 0,
            kind: BindingKind::StorageImage,
        }],
        render_bindings: vec![
            BindingSlot {
                binding: 0,
                kind: BindingKind::SampledImage,
            },
            BindingSlot {
                binding: 1,
                kind: BindingKind::SamplerObject,
            },
        ],
        workgroup_side: 10,
    }
}

#[test]
fn compute_pipeline_takes_layout_and_workgroup_from_module() {
    let p = build_compute(&full_module()).unwrap();
    assert_eq!(p.layout, full_module().compute_bindings);
    assert_eq!(p.workgroup_side, 10);
}

#[test]
fn missing_compute_entry_is_fatal() {
    let mut m = full_module();
    m.has_compute = false;
    assert!(matches!(build_compute(&m), Err(MissingEntryPointError)));
}

#[test]
fn graphics_pipeline_targets_surface_format() {
    let p = build_graphics(&full_module(), 42).unwrap();
    assert_eq!(p.color_format, 42);
    assert_eq!(p.layout, full_module().render_bindings);
}

#[test]
fn missing_fragment_entry_is_fatal() {
    let mut m = full_module();
    m.has_fragment = false;
    assert!(matches!(build_graphics(&m, 42), Err(MissingEntryPointError)));
}

#[test]
fn missing_vertex_entry_is_fatal() {
    let mut m = full_module();
    m.has_vertex = false;
    assert!(matches!(build_graphics(&m, 42), Err(MissingEntryPointError)));
}

#[test]
fn binding_table_rows_follow_the_group_index_convention() {
    let (_pipeline, sbt) = build_ray_tracing(&full_module()).unwrap();
    assert_eq!(
        sbt.groups,
        vec![
            ShaderGroup::General(StageRole::RayGeneration),
            ShaderGroup::General(StageRole::Miss),
            ShaderGroup::TriangleHit(StageRole::ClosestHit),
        ]
    );
}

#[test]
fn missing_miss_entry_fails_ray_tracing_build() {
    let mut m = full_module();
    m.has_miss = false;
    assert!(build_ray_tracing(&m).is_err());
}

#[test]
fn missing_closest_hit_entry_fails_ray_tracing_build() {
    let mut m = full_module();
    m.has_closest_hit = false;
    assert!(build_ray_tracing(&m).is_err());
}
