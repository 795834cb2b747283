use gfx_core::device::QueueFamilyIndices;
use gfx_core::error::GfxError;
use gfx_core::surface::{
    choose_image_count, choose_present_mode, choose_surface_format, create_framebuffers,
    create_swapchain, resolve_extent, ColorSpace, Extent2D, Format, FramebufferCreateInfo,
    PresentMode, SharingMode, SurfaceCapabilities, SurfaceFormat, SwapchainCreateInfo,
};

fn capabilities(min: u32, max: Option<u32>, current: Option<Extent2D>) -> SurfaceCapabilities {
    SurfaceCapabilities {
        min_image_count: min,
        max_image_count: max,
        current_extent: current,
        min_image_extent: Extent2D { width: 1, height: 1 },
        max_image_extent: Extent2D { width: 4096, height: 4096 },
        max_image_array_layers: 1,
        supported_transforms: 0x1ff,
        current_transform: 0x2,
        supported_composite_alpha: 0x1,
        supported_usage_flags: 0x1f,
    }
}

const PREFERRED: SurfaceFormat =
    SurfaceFormat { format: Format::B8G8R8A8UNorm, color_space: ColorSpace::SrgbNonLinear };

const SAME_FAMILY: QueueFamilyIndices = QueueFamilyIndices { graphics: 0, present: 0 };

#[test]
fn image_count_is_three_where_the_limits_allow() {
    assert_eq!(choose_image_count(&capabilities(1, None, None)), 3);
    assert_eq!(choose_image_count(&capabilities(2, Some(8), None)), 3);
    assert_eq!(choose_image_count(&capabilities(3, Some(3), None)), 3);
}

#[test]
fn image_count_is_held_to_the_upper_limit() {
    assert_eq!(choose_image_count(&capabilities(1, Some(2), None)), 2);
    assert_eq!(choose_image_count(&capabilities(1, Some(1), None)), 1);
    assert_eq!(choose_image_count(&capabilities(2, Some(2), None)), 2);
}

#[test]
fn image_count_is_raised_to_the_lower_limit() {
    assert_eq!(choose_image_count(&capabilities(4, None, None)), 4);
    assert_eq!(choose_image_count(&capabilities(5, Some(8), None)), 5);
    assert_eq!(choose_image_count(&capabilities(u32::MAX, None, None)), u32::MAX);
}

#[test]
fn image_count_stays_within_valid_limits() {
    for min in 1..7u32 {
        for max in min..9u32 {
            let count = choose_image_count(&capabilities(min, Some(max), None));
            assert!(min <= count && count <= max && count >= 1);
        }
        let count = choose_image_count(&capabilities(min, None, None));
        assert!(count >= min && count >= 1);
    }
}

#[test]
fn lower_limit_wins_over_a_smaller_upper_limit() {
    assert_eq!(choose_image_count(&capabilities(4, Some(2), None)), 4);
}

#[test]
fn preferred_format_is_found_anywhere_in_the_list() {
    let formats = vec![
        SurfaceFormat { format: Format::Other(37), color_space: ColorSpace::SrgbNonLinear },
        SurfaceFormat { format: Format::B8G8R8A8UNorm, color_space: ColorSpace::Unknown(7) },
        PREFERRED,
        SurfaceFormat { format: Format::Other(50), color_space: ColorSpace::SrgbNonLinear },
    ];
    assert_eq!(choose_surface_format(&formats), Ok(PREFERRED));
}

#[test]
fn no_suitable_format() {
    let formats = vec![
        SurfaceFormat { format: Format::Other(44), color_space: ColorSpace::SrgbNonLinear },
        SurfaceFormat { format: Format::B8G8R8A8UNorm, color_space: ColorSpace::Unknown(0) },
    ];
    assert_eq!(choose_surface_format(&formats), Err(GfxError::NoSuitableFormat));
    assert_eq!(choose_surface_format(&vec![]), Err(GfxError::NoSuitableFormat));
}

#[test]
fn fifo_is_chosen_over_immediate() {
    assert_eq!(
        choose_present_mode(&vec![PresentMode::Fifo, PresentMode::Immediate]),
        Ok(PresentMode::Fifo)
    );
    assert_eq!(
        choose_present_mode(&vec![PresentMode::Immediate, PresentMode::Mailbox, PresentMode::Fifo]),
        Ok(PresentMode::Fifo)
    );
    assert_eq!(choose_present_mode(&vec![PresentMode::Fifo]), Ok(PresentMode::Fifo));
}

#[test]
fn immediate_is_chosen_without_fifo() {
    assert_eq!(choose_present_mode(&vec![PresentMode::Immediate]), Ok(PresentMode::Immediate));
    assert_eq!(
        choose_present_mode(&vec![PresentMode::Mailbox, PresentMode::Immediate]),
        Ok(PresentMode::Immediate)
    );
}

#[test]
fn neither_fifo_nor_immediate() {
    assert_eq!(choose_present_mode(&vec![]), Err(GfxError::NoSuitablePresentMode));
    assert_eq!(
        choose_present_mode(&vec![
            PresentMode::Mailbox,
            PresentMode::FifoRelaxed,
            PresentMode::Unknown(2)
        ]),
        Err(GfxError::NoSuitablePresentMode)
    );
}

#[test]
fn extent_without_current_extent_is_the_preferred_one() {
    let preferred = Extent2D { width: 800, height: 600 };
    assert_eq!(resolve_extent(None, &preferred), preferred);
    let info = create_swapchain(
        &capabilities(2, Some(4), None),
        &vec![PREFERRED],
        &vec![PresentMode::Fifo],
        &preferred,
        &SAME_FAMILY,
    )
    .unwrap();
    assert_eq!(info.image_extent, Extent2D { width: 800, height: 600 });
}

#[test]
fn extent_of_the_surface_overrides_the_preferred_one() {
    let current = Extent2D { width: 1024, height: 768 };
    let preferred = Extent2D { width: 800, height: 600 };
    assert_eq!(resolve_extent(Some(current), &preferred), current);
    for preferred in [preferred, current, Extent2D { width: 0, height: 0 }] {
        let info = create_swapchain(
            &capabilities(2, Some(4), Some(current)),
            &vec![PREFERRED],
            &vec![PresentMode::Fifo],
            &preferred,
            &SAME_FAMILY,
        )
        .unwrap();
        assert_eq!(info.image_extent, Extent2D { width: 1024, height: 768 });
    }
}

#[test]
fn swapchain_request_for_one_family() {
    let info = create_swapchain(
        &capabilities(2, None, None),
        &vec![PREFERRED],
        &vec![PresentMode::Immediate],
        &Extent2D { width: 640, height: 480 },
        &SAME_FAMILY,
    );
    assert_eq!(
        info,
        Ok(SwapchainCreateInfo {
            min_image_count: 3,
            image_format: Format::B8G8R8A8UNorm,
            image_color_space: ColorSpace::SrgbNonLinear,
            image_extent: Extent2D { width: 640, height: 480 },
            image_array_layers: 1,
            image_usage: 0x10,
            image_sharing_mode: SharingMode::Exclusive,
            queue_family_indices: vec![],
            pre_transform: 0x2,
            composite_alpha: 0x1,
            present_mode: PresentMode::Immediate,
            clipped: true,
        })
    );
}

#[test]
fn swapchain_request_for_two_families() {
    let info = create_swapchain(
        &capabilities(1, Some(2), None),
        &vec![PREFERRED],
        &vec![PresentMode::Immediate, PresentMode::Fifo],
        &Extent2D { width: 640, height: 480 },
        &QueueFamilyIndices { graphics: 3, present: 1 },
    )
    .unwrap();
    assert_eq!(info.min_image_count, 2);
    assert_eq!(info.image_sharing_mode, SharingMode::Concurrent);
    assert_eq!(info.queue_family_indices, vec![3, 1]);
    assert_eq!(info.present_mode, PresentMode::Fifo);
}

#[test]
fn swapchain_request_fails_on_the_format_first() {
    let extent = Extent2D { width: 640, height: 480 };
    let caps = capabilities(1, None, None);
    assert_eq!(
        create_swapchain(&caps, &vec![], &vec![], &extent, &SAME_FAMILY),
        Err(GfxError::NoSuitableFormat)
    );
    assert_eq!(
        create_swapchain(&caps, &vec![], &vec![PresentMode::Fifo], &extent, &SAME_FAMILY),
        Err(GfxError::NoSuitableFormat)
    );
    assert_eq!(
        create_swapchain(&caps, &vec![PREFERRED], &vec![PresentMode::Mailbox], &extent, &SAME_FAMILY),
        Err(GfxError::NoSuitablePresentMode)
    );
}

#[test]
fn one_framebuffer_for_each_image() {
    let extent = Extent2D { width: 320, height: 200 };
    let infos = create_framebuffers(&vec![11, 12, 13], 99, &extent);
    assert_eq!(
        infos,
        vec![
            FramebufferCreateInfo { attachments: vec![11, 99], width: 320, height: 200, layers: 1 },
            FramebufferCreateInfo { attachments: vec![12, 99], width: 320, height: 200, layers: 1 },
            FramebufferCreateInfo { attachments: vec![13, 99], width: 320, height: 200, layers: 1 },
        ]
    );
    assert_eq!(create_framebuffers(&vec![], 99, &extent), vec![]);
}
