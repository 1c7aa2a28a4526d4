use vulkan_frames::device::{
    check_validation_layer_support, debug_report_severity, find_graphics_queue_family,
    find_present_queue_family, find_queue_families, find_supported_format,
    get_max_usable_sample_count, is_device_suitable, pick_physical_device, unique_queue_families,
    DeviceCandidate, FormatCandidate, ImageTiling, QueueFamiliesIndices, QueueFamily, Severity,
    DEBUG_REPORT_DEBUG, DEBUG_REPORT_INFORMATION, DEBUG_REPORT_PERFORMANCE_WARNING,
    DEBUG_REPORT_WARNING, FORMAT_D32_SFLOAT, FORMAT_FEATURE_DEPTH_STENCIL_ATTACHMENT,
    QUEUE_GRAPHICS, SAMPLE_COUNT_1, SAMPLE_COUNT_16, SAMPLE_COUNT_4, SAMPLE_COUNT_64,
    SAMPLE_COUNT_8,
};
use vulkan_frames::swapchain::{
    choose_image_count, choose_swapchain_present_mode, choose_swapchain_properties,
    choose_swapchain_surface_format, Extent2D, SurfaceCapabilities, SurfaceFormat,
    SwapchainSupportDetails, COLOR_SPACE_SRGB_NONLINEAR, FORMAT_B8G8R8A8_UNORM,
    PRESENT_MODE_FIFO, PRESENT_MODE_IMMEDIATE, PRESENT_MODE_MAILBOX,
};

fn family(queue_flags: u32, queue_count: u32, present_support: bool) -> QueueFamily {
    QueueFamily { queue_flags, queue_count, present_support }
}

#[test]
fn graphics_and_present_families() {
    let families = vec![
        family(QUEUE_GRAPHICS, 0, true),
        family(0x4, 2, true),
        family(QUEUE_GRAPHICS | 0x2, 4, false),
        family(QUEUE_GRAPHICS, 1, true),
    ];
    assert_eq!(find_graphics_queue_family(&families), Some(2));
    assert_eq!(find_present_queue_family(&families), Some(1));
    assert_eq!(
        find_queue_families(&families),
        Some(QueueFamiliesIndices { graphics_index: 2, present_index: 1 })
    );
    assert_eq!(find_queue_families(&vec![family(0x4, 1, true)]), None);
    assert_eq!(find_queue_families(&vec![]), None);
}

#[test]
fn shared_family_gives_one_queue() {
    let same = QueueFamiliesIndices { graphics_index: 3, present_index: 3 };
    assert_eq!(unique_queue_families(same), vec![3]);
    let split = QueueFamiliesIndices { graphics_index: 0, present_index: 2 };
    assert_eq!(unique_queue_families(split), vec![0, 2]);
}

fn candidate(anisotropy: bool) -> DeviceCandidate {
    DeviceCandidate {
        queue_families: vec![family(QUEUE_GRAPHICS, 1, true)],
        swapchain_extension: true,
        surface_format_count: 2,
        present_mode_count: 1,
        sampler_anisotropy: anisotropy,
    }
}

#[test]
fn device_suitability() {
    assert!(is_device_suitable(&candidate(true)));
    assert!(!is_device_suitable(&candidate(false)));
    let mut no_ext = candidate(true);
    no_ext.swapchain_extension = false;
    assert!(!is_device_suitable(&no_ext));
    let mut no_formats = candidate(true);
    no_formats.surface_format_count = 0;
    assert!(!is_device_suitable(&no_formats));
    let mut no_present = candidate(true);
    no_present.queue_families = vec![family(QUEUE_GRAPHICS, 1, false)];
    assert!(!is_device_suitable(&no_present));
}

#[test]
fn first_suitable_device_is_picked() {
    assert_eq!(pick_physical_device(&vec![candidate(false), candidate(true), candidate(true)]), Some(1));
    assert_eq!(pick_physical_device(&vec![candidate(false)]), None);
    assert_eq!(pick_physical_device(&vec![]), None);
}

#[test]
fn validation_layers() {
    let available = vec![b"VK_LAYER_A".to_vec(), b"VK_LAYER_LUNARG_standard_validation".to_vec()];
    let required = vec![b"VK_LAYER_LUNARG_standard_validation".to_vec()];
    assert!(check_validation_layer_support(&required, &available));
    let missing = vec![b"VK_LAYER_B".to_vec()];
    assert!(!check_validation_layer_support(&missing, &available));
    let prefix = vec![b"VK_LAYER".to_vec()];
    assert!(!check_validation_layer_support(&prefix, &available));
    assert!(check_validation_layer_support(&vec![], &vec![]));
}

#[test]
fn sample_count_from_smaller_mask() {
    assert_eq!(get_max_usable_sample_count(0x7F, 0x7F), SAMPLE_COUNT_64);
    assert_eq!(get_max_usable_sample_count(0x1F, 0x7F), SAMPLE_COUNT_16);
    assert_eq!(get_max_usable_sample_count(0x0F, 0x1F), SAMPLE_COUNT_8);
    assert_eq!(get_max_usable_sample_count(0x05, 0x0F), SAMPLE_COUNT_4);
    assert_eq!(get_max_usable_sample_count(0x01, 0x7F), SAMPLE_COUNT_1);
}

#[test]
fn supported_format_is_first_match() {
    let f = FORMAT_FEATURE_DEPTH_STENCIL_ATTACHMENT;
    let candidates = vec![
        FormatCandidate { format: FORMAT_D32_SFLOAT, linear_tiling_features: f, optimal_tiling_features: 0 },
        FormatCandidate { format: 130, linear_tiling_features: 0, optimal_tiling_features: f | 1 },
        FormatCandidate { format: 129, linear_tiling_features: f, optimal_tiling_features: f },
    ];
    assert_eq!(find_supported_format(&candidates, ImageTiling::Optimal, f), Some(130));
    assert_eq!(find_supported_format(&candidates, ImageTiling::Linear, f), Some(FORMAT_D32_SFLOAT));
    assert_eq!(find_supported_format(&candidates, ImageTiling::Optimal, 0x400), None);
}

#[test]
fn debug_report_levels() {
    assert_eq!(debug_report_severity(DEBUG_REPORT_DEBUG), Severity::Debug);
    assert_eq!(debug_report_severity(DEBUG_REPORT_INFORMATION), Severity::Info);
    assert_eq!(debug_report_severity(DEBUG_REPORT_WARNING), Severity::Warn);
    assert_eq!(debug_report_severity(DEBUG_REPORT_PERFORMANCE_WARNING), Severity::Warn);
    assert_eq!(debug_report_severity(0x8), Severity::Error);
    assert_eq!(debug_report_severity(DEBUG_REPORT_WARNING | DEBUG_REPORT_DEBUG), Severity::Error);
}

#[test]
fn surface_format_choice() {
    let preferred = SurfaceFormat { format: FORMAT_B8G8R8A8_UNORM, color_space: COLOR_SPACE_SRGB_NONLINEAR };
    let other = SurfaceFormat { format: 37, color_space: 0 };
    let wrong_space = SurfaceFormat { format: FORMAT_B8G8R8A8_UNORM, color_space: 5 };
    assert_eq!(choose_swapchain_surface_format(&vec![other, preferred]), Some(preferred));
    assert_eq!(choose_swapchain_surface_format(&vec![wrong_space, other]), Some(wrong_space));
    assert_eq!(choose_swapchain_surface_format(&vec![]), None);
}

#[test]
fn present_mode_choice() {
    assert_eq!(choose_swapchain_present_mode(&vec![PRESENT_MODE_FIFO, PRESENT_MODE_MAILBOX]), PRESENT_MODE_MAILBOX);
    assert_eq!(choose_swapchain_present_mode(&vec![PRESENT_MODE_IMMEDIATE, PRESENT_MODE_FIFO]), PRESENT_MODE_FIFO);
    assert_eq!(choose_swapchain_present_mode(&vec![]), PRESENT_MODE_FIFO);
}

fn caps(current: Extent2D, min_count: u32, max_count: u32) -> SurfaceCapabilities {
    SurfaceCapabilities {
        min_image_count: min_count,
        max_image_count: max_count,
        current_extent: current,
        min_image_extent: Extent2D { width: 1, height: 1 },
        max_image_extent: Extent2D { width: 4096, height: 4096 },
    }
}

#[test]
fn fixed_surface_extent_wins() {
    let s = SwapchainSupportDetails {
        capabilities: caps(Extent2D { width: 1280, height: 720 }, 2, 0),
        formats: vec![SurfaceFormat { format: 37, color_space: 0 }],
        present_modes: vec![PRESENT_MODE_FIFO],
    };
    let p = choose_swapchain_properties(&s, Extent2D { width: 800, height: 600 }).unwrap();
    assert_eq!(p.extent, Extent2D { width: 1280, height: 720 });
    assert_eq!(p.format, SurfaceFormat { format: 37, color_space: 0 });
    assert_eq!(p.present_mode, PRESENT_MODE_FIFO);
    let empty = SwapchainSupportDetails { formats: vec![], ..s };
    assert_eq!(choose_swapchain_properties(&empty, Extent2D { width: 800, height: 600 }), None);
}

#[test]
fn image_count_choice() {
    let any = Extent2D { width: 1, height: 1 };
    assert_eq!(choose_image_count(&caps(any, 2, 0)), 3);
    assert_eq!(choose_image_count(&caps(any, 2, 8)), 3);
    assert_eq!(choose_image_count(&caps(any, 3, 3)), 3);
    assert_eq!(choose_image_count(&caps(any, u32::MAX, 0)), u32::MAX);
}
