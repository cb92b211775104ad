use raytracer::binder::{create_bind_set, create_render_target, Binder};
use raytracer::extent::Extent;
use raytracer::pipeline::{BindingKind, BindingSlot};

fn compute_layout() -> Vec<BindingSlot> {
    vec![BindingSlot {
        binding: 0,
        kind: BindingKind::StorageImage,
    }]
}

fn render_layout() -> Vec<BindingSlot> {
    vec![
        BindingSlot {
            binding: 0,
            kind: BindingKind::SampledImage,
        },
        BindingSlot {
            binding: 1,
            kind: BindingKind::SamplerObject,
        },
    ]
}

#[test]
fn render_target_view_carries_generation_extent_and_format() {
    let e = Extent { width: 800, height: 600 };
    let (target, view) = create_render_target(e, 7, 3);
    assert_eq!(target.extent, e);
    assert_eq!(target.format, 7);
    assert_eq!(target.generation, 3);
    assert_eq!(view.target_generation, 3);
    assert_eq!(view.extent, e);
    assert_eq!(view.format, 7);
}

#[test]
fn bind_set_references_the_view_it_was_built_over() {
    let e = Extent { width: 320, height: 240 };
    let (_target, view) = create_render_target(e, 7, 11);
    let bind = create_bind_set(&render_layout(), &view);
    assert_eq!(bind.layout, render_layout());
    assert_eq!(bind.target_generation, 11);
    assert_eq!(bind.view_extent, e);
}

#[test]
fn rebuild_creates_target_and_both_bind_sets_together() {
    let mut binder = Binder::new();
    let e = Extent { width: 800, height: 600 };
    binder.rebuild(e, 7, &compute_layout(), &render_layout());
    let g = binder.current.as_ref().unwrap();
    assert_eq!(g.target.extent, e);
    assert_eq!(g.target.format, 7);
    assert_eq!(g.compute_bind.target_generation, g.target.generation);
    assert_eq!(g.compute_bind.view_extent, e);
    assert_eq!(g.render_bind.target_generation, g.target.generation);
    assert_eq!(g.render_bind.view_extent, e);
}

#[test]
fn rebuild_after_resize_retires_the_old_generation() {
    let mut binder = Binder::new();
    binder.rebuild(
        Extent { width: 800, height: 600 },
        7,
        &compute_layout(),
        &render_layout(),
    );
    let first_generation = binder.current.as_ref().unwrap().target.generation;

    binder.rebuild(
        Extent { width: 400, height: 300 },
        7,
        &compute_layout(),
        &render_layout(),
    );
    let g = binder.current.as_ref().unwrap();
    assert!(g.target.generation > first_generation);
    assert_eq!(g.target.extent, Extent { width: 400, height: 300 });
    assert_eq!(g.compute_bind.target_generation, g.target.generation);
    assert_eq!(g.compute_bind.view_extent, g.target.extent);
    assert_eq!(g.render_bind.target_generation, g.target.generation);
    assert_eq!(g.render_bind.view_extent, g.target.extent);
}
