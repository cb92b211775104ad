use raytracer::device::{
    select, Capabilities, DeviceKind, NoSuitableDeviceError, PhysicalDevice, QueueFamily,
    Selection,
};

fn usable_family() -> QueueFamily {
    QueueFamily {
        graphics: true,
        compute: true,
        present: true,
    }
}

fn full_caps() -> Capabilities {
    Capabilities {
        presentation: true,
        storage_image_write: true,
        acceleration_structure: true,
        ray_tracing_pipeline: true,
        buffer_device_address: true,
    }
}

#[test]
fn discrete_wins_over_integrated() {
    let devices = vec![
        PhysicalDevice {
            kind: DeviceKind::Integrated,
            caps: full_caps(),
            queue_families: vec![usable_family()],
        },
        PhysicalDevice {
            kind: DeviceKind::Discrete,
            caps: full_caps(),
            queue_families: vec![usable_family()],
        },
    ];
    let sel = select(&devices, Capabilities::compute_variant()).unwrap();
    assert_eq!(sel, Selection { device: 1, family: 0 });
}

#[test]
fn equal_rank_ties_break_by_enumeration_order() {
    let devices = vec![
        PhysicalDevice {
            kind: DeviceKind::Discrete,
            caps: full_caps(),
            queue_families: vec![usable_family()],
        },
        PhysicalDevice {
            kind: DeviceKind::Discrete,
            caps: full_caps(),
            queue_families: vec![usable_family()],
        },
    ];
    let sel = select(&devices, Capabilities::compute_variant()).unwrap();
    assert_eq!(sel.device, 0);
}

#[test]
fn device_missing_required_capability_is_discarded() {
    let no_ray = Capabilities {
        acceleration_structure: false,
        ray_tracing_pipeline: false,
        buffer_device_address: false,
        ..full_caps()
    };
    let devices = vec![
        PhysicalDevice {
            kind: DeviceKind::Discrete,
            caps: no_ray,
            queue_families: vec![usable_family()],
        },
        PhysicalDevice {
            kind: DeviceKind::Integrated,
            caps: full_caps(),
            queue_families: vec![usable_family()],
        },
    ];
    let sel = select(&devices, Capabilities::ray_tracing_variant()).unwrap();
    assert_eq!(sel.device, 1);
}

#[test]
fn first_usable_queue_family_is_chosen() {
    let graphics_only = QueueFamily {
        graphics: true,
        compute: false,
        present: true,
    };
    let no_present = QueueFamily {
        graphics: true,
        compute: true,
        present: false,
    };
    let devices = vec![PhysicalDevice {
        kind: DeviceKind::Discrete,
        caps: full_caps(),
        queue_families: vec![graphics_only, no_present, usable_family()],
    }];
    let sel = select(&devices, Capabilities::compute_variant()).unwrap();
    assert_eq!(sel.family, 2);
}

#[test]
fn device_without_usable_family_is_discarded() {
    let no_present = QueueFamily {
        graphics: true,
        compute: true,
        present: false,
    };
    let devices = vec![
        PhysicalDevice {
            kind: DeviceKind::Discrete,
            caps: full_caps(),
            queue_families: vec![no_present],
        },
        PhysicalDevice {
            kind: DeviceKind::Other,
            caps: full_caps(),
            queue_families: vec![usable_family()],
        },
    ];
    let sel = select(&devices, Capabilities::compute_variant()).unwrap();
    assert_eq!(sel, Selection { device: 1, family: 0 });
}

#[test]
fn no_suitable_device_is_a_fatal_selection_error() {
    let no_storage = Capabilities {
        storage_image_write: false,
        ..full_caps()
    };
    let devices = vec![PhysicalDevice {
        kind: DeviceKind::Discrete,
        caps: no_storage,
        queue_families: vec![usable_family()],
    }];
    let r = select(&devices, Capabilities::compute_variant());
    assert_eq!(r, Err(NoSuitableDeviceError));
}

#[test]
fn empty_enumeration_fails() {
    let devices: Vec<PhysicalDevice> = Vec::new();
    assert_eq!(
        select(&devices, Capabilities::compute_variant()),
        Err(NoSuitableDeviceError)
    );
}
