use no_engine::device::{
    evaluate_device, required_device_extensions, select_device, DeviceCandidate, PhysicalDeviceType, QueueFamily,
    SurfaceFormat, COLOR_SPACE_SRGB_NONLINEAR, FORMAT_B8G8R8A8_SRGB, FORMAT_R8G8B8A8_SRGB, PRESENT_MODE_FIFO_RELAXED,
    PRESENT_MODE_MAILBOX,
};

fn good(device_type: PhysicalDeviceType) -> DeviceCandidate {
    DeviceCandidate {
        device_type,
        queue_families: vec![
            QueueFamily { graphics: false, present: true },
            QueueFamily { graphics: true, present: false },
            QueueFamily { graphics: true, present: true },
        ],
        present_modes: vec![0, PRESENT_MODE_FIFO_RELAXED, PRESENT_MODE_MAILBOX],
        surface_formats: vec![
            SurfaceFormat { format: 44, color_space: COLOR_SPACE_SRGB_NONLINEAR },
            SurfaceFormat { format: FORMAT_R8G8B8A8_SRGB, color_space: COLOR_SPACE_SRGB_NONLINEAR },
            SurfaceFormat { format: FORMAT_B8G8R8A8_SRGB, color_space: COLOR_SPACE_SRGB_NONLINEAR },
        ],
        min_image_count: 2,
        max_image_count: 8,
        extensions: required_device_extensions(),
    }
}

#[test]
fn required_extensions_are_listed() {
    assert_eq!(
        required_device_extensions(),
        vec!["VK_KHR_swapchain", "VK_KHR_dynamic_rendering", "VK_EXT_shader_object", "VK_EXT_extended_dynamic_state"]
    );
}

#[test]
fn evaluation_picks_first_family_and_format() {
    let required = required_device_extensions();
    let (family, format) = evaluate_device(&good(PhysicalDeviceType::Cpu), &required).unwrap();
    assert_eq!(family, 2);
    assert_eq!(format, SurfaceFormat { format: FORMAT_R8G8B8A8_SRGB, color_space: COLOR_SPACE_SRGB_NONLINEAR });
}

#[test]
fn unsuitable_devices_are_rejected() {
    let required = required_device_extensions();
    let mut c = good(PhysicalDeviceType::DiscreteGpu);
    c.present_modes = vec![PRESENT_MODE_MAILBOX];
    assert!(evaluate_device(&c, &required).is_none());
    let mut c = good(PhysicalDeviceType::DiscreteGpu);
    c.max_image_count = 2;
    assert!(evaluate_device(&c, &required).is_none());
    let mut c = good(PhysicalDeviceType::DiscreteGpu);
    c.extensions.pop();
    assert!(evaluate_device(&c, &required).is_none());
    let mut c = good(PhysicalDeviceType::DiscreteGpu);
    c.surface_formats = vec![SurfaceFormat { format: FORMAT_B8G8R8A8_SRGB, color_space: 1 }];
    assert!(evaluate_device(&c, &required).is_none());
    let mut c = good(PhysicalDeviceType::DiscreteGpu);
    c.queue_families = vec![QueueFamily { graphics: true, present: false }];
    assert!(select_device(&vec![c], &required).is_none());
    assert!(select_device(&vec![], &required).is_none());
}

#[test]
fn discrete_preferred_last_among_equals() {
    let required = required_device_extensions();
    let mut bad = good(PhysicalDeviceType::DiscreteGpu);
    bad.min_image_count = 1;
    let candidates = vec![
        good(PhysicalDeviceType::IntegratedGpu),
        good(PhysicalDeviceType::DiscreteGpu),
        good(PhysicalDeviceType::DiscreteGpu),
        bad,
        good(PhysicalDeviceType::IntegratedGpu),
    ];
    let choice = select_device(&candidates, &required).unwrap();
    assert_eq!(choice.index, 2);
    assert_eq!(choice.queue_family_index, 2);
    assert_eq!(choice.present_mode, PRESENT_MODE_MAILBOX);
    let choice = select_device(&vec![good(PhysicalDeviceType::Cpu), good(PhysicalDeviceType::IntegratedGpu)], &required).unwrap();
    assert_eq!(choice.index, 1);
}
