use raytracer::extent::{align_down, dispatch_size, Extent, TILE_SIZE};
use raytracer::surface::{decide_extent, ExtentDecision, ResizePolicy};

#[test]
fn dispatch_counts_for_800_by_600_are_80_by_60_by_1() {
    let e = Extent { width: 800, height: 600 };
    let d = dispatch_size(e, TILE_SIZE);
    assert_eq!(d.x, 80);
    assert_eq!(d.y, 60);
    assert_eq!(d.z, 1);
}

#[test]
fn dispatch_counts_divide_exactly() {
    let e = Extent { width: 1280, height: 720 };
    let d = dispatch_size(e, TILE_SIZE);
    assert_eq!(d.x * TILE_SIZE, e.width);
    assert_eq!(d.y * TILE_SIZE, e.height);
}

#[test]
fn align_down_rounds_804_by_603_to_800_by_600() {
    let aligned = align_down(Extent { width: 804, height: 603 }, TILE_SIZE);
    assert_eq!(aligned, Extent { width: 800, height: 600 });
}

#[test]
fn align_down_keeps_aligned_extent() {
    let e = Extent { width: 800, height: 600 };
    assert_eq!(align_down(e, TILE_SIZE), e);
}

#[test]
fn align_down_of_tiny_extent_is_zero() {
    let aligned = align_down(Extent { width: 7, height: 3 }, TILE_SIZE);
    assert_eq!(aligned, Extent { width: 0, height: 0 });
}

#[test]
fn quantizing_policy_requests_nearest_smaller_aligned_extent() {
    let policy = ResizePolicy { quantize_to_tile: true, tile: TILE_SIZE };
    let d = decide_extent(policy, Extent { width: 804, height: 603 });
    assert_eq!(
        d,
        ExtentDecision::RequestResize(Extent { width: 800, height: 600 })
    );
}

#[test]
fn quantizing_policy_accepts_aligned_extent() {
    let policy = ResizePolicy { quantize_to_tile: true, tile: TILE_SIZE };
    let d = decide_extent(policy, Extent { width: 800, height: 600 });
    assert_eq!(d, ExtentDecision::Accept(Extent { width: 800, height: 600 }));
}

#[test]
fn non_quantizing_policy_accepts_any_extent() {
    let policy = ResizePolicy { quantize_to_tile: false, tile: TILE_SIZE };
    let d = decide_extent(policy, Extent { width: 804, height: 603 });
    assert_eq!(d, ExtentDecision::Accept(Extent { width: 804, height: 603 }));
}
