use raytracer::extent::Extent;
use raytracer::surface::{
    configure, reconfigure, NoSurfaceFormatError, PresentMode, SurfaceCaps, ThroughputPolicy,
};

fn caps(formats: Vec<u32>, immediate: bool, mailbox: bool) -> SurfaceCaps {
    SurfaceCaps {
        formats,
        min_image_count: 2,
        immediate_supported: immediate,
        mailbox_supported: mailbox,
    }
}

#[test]
fn first_reported_format_is_chosen() {
    let c = configure(
        &caps(vec![37, 19, 5], false, false),
        ThroughputPolicy::VsyncCapped,
        Extent { width: 800, height: 600 },
    )
    .unwrap();
    assert_eq!(c.format, 37);
}

#[test]
fn image_count_is_one_more_than_supported_minimum() {
    let c = configure(
        &caps(vec![1], false, false),
        ThroughputPolicy::VsyncCapped,
        Extent { width: 800, height: 600 },
    )
    .unwrap();
    assert_eq!(c.image_count, 3);
}

#[test]
fn vsync_capped_policy_chooses_fifo() {
    let c = configure(
        &caps(vec![1], true, true),
        ThroughputPolicy::VsyncCapped,
        Extent { width: 800, height: 600 },
    )
    .unwrap();
    assert_eq!(c.present_mode, PresentMode::Fifo);
}

#[test]
fn uncapped_policy_prefers_immediate() {
    let c = configure(
        &caps(vec![1], true, true),
        ThroughputPolicy::Uncapped,
        Extent { width: 800, height: 600 },
    )
    .unwrap();
    assert_eq!(c.present_mode, PresentMode::Immediate);
}

#[test]
fn uncapped_policy_falls_back_to_mailbox_then_fifo() {
    let mailbox_only = configure(
        &caps(vec![1], false, true),
        ThroughputPolicy::Uncapped,
        Extent { width: 800, height: 600 },
    )
    .unwrap();
    assert_eq!(mailbox_only.present_mode, PresentMode::Mailbox);

    let neither = configure(
        &caps(vec![1], false, false),
        ThroughputPolicy::Uncapped,
        Extent { width: 800, height: 600 },
    )
    .unwrap();
    assert_eq!(neither.present_mode, PresentMode::Fifo);
}

#[test]
fn no_reported_format_is_a_fatal_error() {
    let r = configure(
        &caps(Vec::new(), true, true),
        ThroughputPolicy::VsyncCapped,
        Extent { width: 800, height: 600 },
    );
    assert_eq!(r, Err(NoSurfaceFormatError));
}

#[test]
fn reconfigure_changes_only_the_extent() {
    let c = configure(
        &caps(vec![7], false, false),
        ThroughputPolicy::VsyncCapped,
        Extent { width: 800, height: 600 },
    )
    .unwrap();
    let r = reconfigure(c, Extent { width: 400, height: 300 });
    assert_eq!(r.extent, Extent { width: 400, height: 300 });
    assert_eq!(r.format, c.format);
    assert_eq!(r.present_mode, c.present_mode);
    assert_eq!(r.image_count, c.image_count);
}
