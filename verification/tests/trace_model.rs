use raytracer::accel::TlasInstance;
use raytracer::extent::Extent;
use raytracer::trace::{
    render_payloads, trace_pixel, PixelFootprint, RayParams, TraceInstance, HIT_COLOR, MISS_COLOR,
};

fn ray() -> RayParams {
    RayParams {
        cull_mask: 0xff,
        t_min: 0,
        t_max: 1000,
    }
}

#[test]
fn empty_scene_misses_every_pixel() {
    let scene: Vec<TraceInstance> = Vec::new();
    let img = render_payloads(
        &scene,
        ray(),
        Extent {
            width: 20,
            height: 10,
        },
    );
    assert_eq!(img.len(), 200);
    assert!(img.iter().all(|&c| c == MISS_COLOR));
}

#[test]
fn full_cover_instance_hits_every_pixel() {
    let scene = vec![TraceInstance {
        mask: 0xff,
        footprint: PixelFootprint::FullView,
        distance: 5,
    }];
    let img = render_payloads(
        &scene,
        ray(),
        Extent {
            width: 20,
            height: 10,
        },
    );
    assert_eq!(img.len(), 200);
    assert!(img.iter().all(|&c| c == HIT_COLOR));
}

#[test]
fn hit_and_miss_colors_differ() {
    assert_ne!(HIT_COLOR, MISS_COLOR);
}

#[test]
fn rect_footprint_hits_inside_and_misses_outside() {
    let scene = vec![TraceInstance {
        mask: 0xff,
        footprint: PixelFootprint::Rect {
            x0: 2,
            y0: 1,
            x1: 4,
            y1: 3,
        },
        distance: 5,
    }];
    assert_eq!(trace_pixel(&scene, ray(), 2, 1), HIT_COLOR);
    assert_eq!(trace_pixel(&scene, ray(), 3, 2), HIT_COLOR);
    assert_eq!(trace_pixel(&scene, ray(), 4, 2), MISS_COLOR);
    assert_eq!(trace_pixel(&scene, ray(), 1, 1), MISS_COLOR);
    assert_eq!(trace_pixel(&scene, ray(), 2, 3), MISS_COLOR);
}

#[test]
fn cull_mask_filters_instances() {
    let scene = vec![TraceInstance {
        mask: 0x01,
        footprint: PixelFootprint::FullView,
        distance: 5,
    }];
    let visible = RayParams {
        cull_mask: 0xff,
        t_min: 0,
        t_max: 1000,
    };
    let filtered = RayParams {
        cull_mask: 0x02,
        t_min: 0,
        t_max: 1000,
    };
    assert_eq!(trace_pixel(&scene, visible, 0, 0), HIT_COLOR);
    assert_eq!(trace_pixel(&scene, filtered, 0, 0), MISS_COLOR);
}

#[test]
fn distance_bounds_cut_off_intersections() {
    let scene = vec![TraceInstance {
        mask: 0xff,
        footprint: PixelFootprint::FullView,
        distance: 2000,
    }];
    assert_eq!(trace_pixel(&scene, ray(), 0, 0), MISS_COLOR);
    let far_ray = RayParams {
        cull_mask: 0xff,
        t_min: 0,
        t_max: 3000,
    };
    assert_eq!(trace_pixel(&scene, far_ray, 0, 0), HIT_COLOR);
}

#[test]
fn trace_instance_keeps_the_tlas_instance_mask() {
    let tlas_instance = TlasInstance {
        blas_index: 0,
        custom_index: 0,
        mask: 0x2a,
    };
    let t = TraceInstance::of_tlas_instance(&tlas_instance, PixelFootprint::FullView, 1);
    assert_eq!(t.mask, 0x2a);
}

#[test]
fn zero_extent_renders_no_pixels() {
    let scene: Vec<TraceInstance> = Vec::new();
    let img = render_payloads(
        &scene,
        ray(),
        Extent {
            width: 0,
            height: 0,
        },
    );
    assert!(img.is_empty());
}
