use ash::vk;
use pet_blackhole::swapchain::{
    choose_composite_alpha, choose_extent, choose_present_mode, choose_surface_format, clamp_u32,
    contains, find_memory_type, pick_queue_family, plan_swapchain, swapchain_image_count,
    Extent2D, QueueFamily, SurfaceCapabilities, SurfaceFormat, SwapchainPlan,
    COMPOSITE_ALPHA_INHERIT, COMPOSITE_ALPHA_OPAQUE, COMPOSITE_ALPHA_POST_MULTIPLIED,
    COMPOSITE_ALPHA_PRE_MULTIPLIED, EXTENT_UNDEFINED, FORMAT_B8G8R8A8_UNORM, FORMAT_R8G8B8A8_UNORM,
    MAX_MEMORY_TYPES, PRESENT_MODE_FIFO, PRESENT_MODE_MAILBOX, QUEUE_GRAPHICS,
};

fn extent(width: u32, height: u32) -> Extent2D {
    Extent2D { width, height }
}

fn caps(current: Extent2D, min_count: u32, max_count: u32, alpha: u32) -> SurfaceCapabilities {
    SurfaceCapabilities {
        current_extent: current,
        min_image_extent: extent(100, 50),
        max_image_extent: extent(1000, 800),
        min_image_count: min_count,
        max_image_count: max_count,
        supported_composite_alpha: alpha,
    }
}

#[test]
fn constants_match_vulkan() {
    assert_eq!(FORMAT_R8G8B8A8_UNORM, vk::Format::R8G8B8A8_UNORM.as_raw());
    assert_eq!(FORMAT_B8G8R8A8_UNORM, vk::Format::B8G8R8A8_UNORM.as_raw());
    assert_eq!(PRESENT_MODE_MAILBOX, vk::PresentModeKHR::MAILBOX.as_raw());
    assert_eq!(PRESENT_MODE_FIFO, vk::PresentModeKHR::FIFO.as_raw());
    assert_eq!(COMPOSITE_ALPHA_OPAQUE, vk::CompositeAlphaFlagsKHR::OPAQUE.as_raw());
    assert_eq!(COMPOSITE_ALPHA_PRE_MULTIPLIED, vk::CompositeAlphaFlagsKHR::PRE_MULTIPLIED.as_raw());
    assert_eq!(COMPOSITE_ALPHA_POST_MULTIPLIED, vk::CompositeAlphaFlagsKHR::POST_MULTIPLIED.as_raw());
    assert_eq!(COMPOSITE_ALPHA_INHERIT, vk::CompositeAlphaFlagsKHR::INHERIT.as_raw());
    assert_eq!(QUEUE_GRAPHICS, vk::QueueFlags::GRAPHICS.as_raw());
    assert_eq!(MAX_MEMORY_TYPES, vk::MAX_MEMORY_TYPES);
    assert_eq!(EXTENT_UNDEFINED, u32::MAX);
}

#[test]
fn contains_matches_vulkan_flags() {
    for flags in 0u32..16 {
        for flag in 0u32..16 {
            let expected = vk::CompositeAlphaFlagsKHR::from_raw(flags)
                .contains(vk::CompositeAlphaFlagsKHR::from_raw(flag));
            assert_eq!(contains(flags, flag), expected);
        }
    }
}

#[test]
fn extent_from_surface_or_window() {
    assert_eq!(choose_extent(&caps(extent(640, 480), 2, 0, 1), 5000, 1), extent(640, 480));
    let free = caps(extent(EXTENT_UNDEFINED, EXTENT_UNDEFINED), 2, 0, 1);
    assert_eq!(choose_extent(&free, 560, 560), extent(560, 560));
    assert_eq!(choose_extent(&free, 5000, 10), extent(1000, 50));
    assert_eq!(choose_extent(&free, 0, 900), extent(100, 800));
    assert_eq!(clamp_u32(7, 1, 5), 7u32.clamp(1, 5));
    assert_eq!(clamp_u32(0, 1, 5), 1);
    assert_eq!(clamp_u32(3, 1, 5), 3);
}

#[test]
fn image_count() {
    assert_eq!(swapchain_image_count(2, 0), 3);
    assert_eq!(swapchain_image_count(2, 8), 3);
    assert_eq!(swapchain_image_count(2, 2), 2);
    assert_eq!(swapchain_image_count(3, 3), 3);
}

#[test]
fn composite_alpha_preference() {
    assert_eq!(choose_composite_alpha(0b1111), COMPOSITE_ALPHA_PRE_MULTIPLIED);
    assert_eq!(choose_composite_alpha(0b1101), COMPOSITE_ALPHA_POST_MULTIPLIED);
    assert_eq!(choose_composite_alpha(0b1001), COMPOSITE_ALPHA_INHERIT);
    assert_eq!(choose_composite_alpha(0b0001), COMPOSITE_ALPHA_OPAQUE);
    assert_eq!(choose_composite_alpha(0), COMPOSITE_ALPHA_OPAQUE);
}

fn fmt(format: i32, color_space: i32) -> SurfaceFormat {
    SurfaceFormat { format, color_space }
}

#[test]
fn surface_format_preference() {
    let formats = vec![fmt(50, 0), fmt(FORMAT_R8G8B8A8_UNORM, 1), fmt(FORMAT_B8G8R8A8_UNORM, 2)];
    assert_eq!(choose_surface_format(&formats), fmt(FORMAT_R8G8B8A8_UNORM, 1));
    let formats = vec![fmt(FORMAT_B8G8R8A8_UNORM, 7), fmt(FORMAT_R8G8B8A8_UNORM, 1)];
    assert_eq!(choose_surface_format(&formats), fmt(FORMAT_B8G8R8A8_UNORM, 7));
    let formats = vec![fmt(50, 3), fmt(51, 4)];
    assert_eq!(choose_surface_format(&formats), fmt(50, 3));
}

#[test]
fn present_mode_preference() {
    assert_eq!(choose_present_mode(&vec![2, 0, 1]), PRESENT_MODE_MAILBOX);
    assert_eq!(choose_present_mode(&vec![2, 0, 3]), PRESENT_MODE_FIFO);
    assert_eq!(choose_present_mode(&vec![]), PRESENT_MODE_FIFO);
}

#[test]
fn whole_plan() {
    let c = caps(extent(EXTENT_UNDEFINED, EXTENT_UNDEFINED), 2, 3, 0b1001);
    let plan = plan_swapchain(&c, &vec![fmt(50, 0), fmt(FORMAT_B8G8R8A8_UNORM, 0)], &vec![2], 2000, 20);
    assert_eq!(
        plan,
        SwapchainPlan {
            format: fmt(FORMAT_B8G8R8A8_UNORM, 0),
            present_mode: PRESENT_MODE_FIFO,
            extent: extent(1000, 50),
            image_count: 3,
            composite_alpha: COMPOSITE_ALPHA_INHERIT,
        }
    );
}

fn family(queue_flags: u32, supports_surface: bool) -> QueueFamily {
    QueueFamily { queue_flags, supports_surface }
}

#[test]
fn queue_family_pick() {
    assert_eq!(pick_queue_family(&vec![]), None);
    let devices = vec![
        vec![family(0b10, true), family(0b1, false)],
        vec![family(0b110, true), family(0b111, false), family(0b11, true), family(0b1, true)],
        vec![family(0b1, true)],
    ];
    assert_eq!(pick_queue_family(&devices), Some((1, 2)));
    let devices = vec![vec![family(0b10, true)], vec![family(0b1, false)]];
    assert_eq!(pick_queue_family(&devices), None);
}

#[test]
fn memory_type_pick() {
    let host = 0b110; // visible + coherent
    let flags = vec![0b1, 0b110, 0b111, 0b10];
    assert_eq!(find_memory_type(0b1111, &flags, host), Some(1));
    assert_eq!(find_memory_type(0b1101, &flags, host), Some(2));
    assert_eq!(find_memory_type(0b1001, &flags, host), None);
    assert_eq!(find_memory_type(0, &flags, 0), None);
    assert_eq!(find_memory_type(0b1000, &flags, 0), Some(3));
    let many: Vec<u32> = (0..32).map(|i| if i == 31 { host } else { 0 }).collect();
    assert_eq!(find_memory_type(u32::MAX, &many, host), Some(31));
}
