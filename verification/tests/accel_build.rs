use raytracer::accel::{AccelBuilder, BuildPhase, GeometryDescriptor, TlasInstance};

fn triangle_geometry() -> GeometryDescriptor {
    GeometryDescriptor {
        vertex_count: 3,
        vertex_stride: 12,
        index_count: None,
    }
}

#[test]
fn size_is_queried_before_allocation() {
    let mut b = AccelBuilder::new();
    let idx = b.create_blas(triangle_geometry());
    assert_eq!(idx, 0);
    assert_eq!(b.blas_list[0].storage_size, 36);
}

#[test]
fn single_geometry_scene_records_one_blas_and_one_tlas_build() {
    let mut b = AccelBuilder::new();
    let blas = b.create_blas(triangle_geometry());
    b.create_tlas(
        vec![TlasInstance {
            blas_index: blas,
            custom_index: 0,
            mask: 0xff,
        }],
        1,
    );
    b.record_build();
    b.submit();
    b.complete_by_queue_order();

    assert_eq!(b.phase, BuildPhase::Completed);
    assert_eq!(b.blas_builds_recorded, 1);
    assert_eq!(b.tlas_builds_recorded, 1);
}

#[test]
fn build_is_submitted_before_completion() {
    let mut b = AccelBuilder::new();
    b.create_blas(triangle_geometry());
    b.create_tlas(Vec::new(), 1);
    b.record_build();
    assert_eq!(b.phase, BuildPhase::Recorded);
    b.submit();
    assert_eq!(b.phase, BuildPhase::Submitted);
    b.complete_by_queue_order();
    assert_eq!(b.phase, BuildPhase::Completed);
}

#[test]
fn empty_tlas_is_allowed() {
    let mut b = AccelBuilder::new();
    b.create_blas(triangle_geometry());
    b.create_tlas(Vec::new(), 1);
    b.record_build();
    b.submit();
    b.complete_by_queue_order();
    assert!(b.tlas.as_ref().unwrap().instances.is_empty());
    assert_eq!(b.tlas_builds_recorded, 1);
}
