//! Swapchain parameter negotiation: format and present-mode fallback, extent
//! and image-count policy.

use gaem::surface::{
    choose_extent, choose_format, choose_image_count, choose_present_mode, plan_build, BuildError,
    Extent, SurfaceCaps, SurfaceFormat, COLOR_SPACE_SRGB_NONLINEAR, EXTENT_UNDEFINED,
    FORMAT_B8G8R8A8_SRGB, PRESENT_MODE_FIFO, PRESENT_MODE_MAILBOX,
};

fn caps(min: u32, max: u32, current: Extent, max_extent: Extent) -> SurfaceCaps {
    SurfaceCaps {
        min_image_count: min,
        max_image_count: max,
        current_extent: current,
        max_image_extent: max_extent,
    }
}

#[test]
fn format_selects_preferred_pair_when_offered() {
    let formats = vec![
        SurfaceFormat { format: 44, color_space: 9 },
        SurfaceFormat { format: FORMAT_B8G8R8A8_SRGB, color_space: COLOR_SPACE_SRGB_NONLINEAR },
        SurfaceFormat { format: 37, color_space: 0 },
    ];
    let chosen = choose_format(&formats).unwrap();
    assert_eq!(
        chosen,
        SurfaceFormat { format: FORMAT_B8G8R8A8_SRGB, color_space: COLOR_SPACE_SRGB_NONLINEAR }
    );
}

#[test]
fn format_ignores_partial_matches() {
    // Right format in the wrong color space, and vice versa: no exact pair.
    let formats = vec![
        SurfaceFormat { format: FORMAT_B8G8R8A8_SRGB, color_space: 5 },
        SurfaceFormat { format: 44, color_space: COLOR_SPACE_SRGB_NONLINEAR },
    ];
    let chosen = choose_format(&formats).unwrap();
    assert_eq!(chosen, SurfaceFormat { format: FORMAT_B8G8R8A8_SRGB, color_space: 5 });
}

#[test]
fn format_falls_back_to_first_reported() {
    let formats = vec![
        SurfaceFormat { format: 44, color_space: 9 },
        SurfaceFormat { format: 37, color_space: 0 },
    ];
    let chosen = choose_format(&formats).unwrap();
    assert_eq!(chosen, SurfaceFormat { format: 44, color_space: 9 });
}

#[test]
fn format_empty_list_is_rejected() {
    let formats: Vec<SurfaceFormat> = Vec::new();
    assert_eq!(choose_format(&formats), Err(BuildError::NoCompatibleFormat));
}

#[test]
fn present_mode_prefers_mailbox() {
    let modes = vec![PRESENT_MODE_FIFO, PRESENT_MODE_MAILBOX];
    assert_eq!(choose_present_mode(&modes), PRESENT_MODE_MAILBOX);
}

#[test]
fn present_mode_falls_back_to_fifo() {
    let modes = vec![PRESENT_MODE_FIFO, 0, 3];
    assert_eq!(choose_present_mode(&modes), PRESENT_MODE_FIFO);
    let empty: Vec<u32> = Vec::new();
    assert_eq!(choose_present_mode(&empty), PRESENT_MODE_FIFO);
}

#[test]
fn extent_uses_current_verbatim() {
    let c = caps(
        2,
        0,
        Extent { width: 800, height: 600 },
        Extent { width: 4096, height: 4096 },
    );
    assert_eq!(choose_extent(&c), Extent { width: 800, height: 600 });
}

#[test]
fn extent_undefined_uses_backend_maximum() {
    let c = caps(
        2,
        0,
        Extent { width: EXTENT_UNDEFINED, height: 600 },
        Extent { width: 4096, height: 2160 },
    );
    assert_eq!(choose_extent(&c), Extent { width: 4096, height: 2160 });
}

#[test]
fn image_count_capped_at_maximum() {
    let c = caps(2, 2, Extent { width: 1, height: 1 }, Extent { width: 1, height: 1 });
    assert_eq!(choose_image_count(&c), 2);
}

#[test]
fn image_count_unbounded_requests_min_plus_one() {
    let c = caps(2, 0, Extent { width: 1, height: 1 }, Extent { width: 1, height: 1 });
    assert_eq!(choose_image_count(&c), 3);
}

#[test]
fn image_count_room_above_min_requests_min_plus_one() {
    let c = caps(2, 4, Extent { width: 1, height: 1 }, Extent { width: 1, height: 1 });
    assert_eq!(choose_image_count(&c), 3);
}

#[test]
fn plan_combines_all_four_choices() {
    let c = caps(
        2,
        3,
        Extent { width: 1024, height: 768 },
        Extent { width: 8192, height: 8192 },
    );
    let formats = vec![
        SurfaceFormat { format: 44, color_space: 9 },
        SurfaceFormat { format: FORMAT_B8G8R8A8_SRGB, color_space: COLOR_SPACE_SRGB_NONLINEAR },
    ];
    let modes = vec![PRESENT_MODE_FIFO, PRESENT_MODE_MAILBOX];
    let plan = plan_build(&c, &formats, &modes).unwrap();
    assert_eq!(
        plan.format,
        SurfaceFormat { format: FORMAT_B8G8R8A8_SRGB, color_space: COLOR_SPACE_SRGB_NONLINEAR }
    );
    assert_eq!(plan.extent, Extent { width: 1024, height: 768 });
    assert_eq!(plan.present_mode, PRESENT_MODE_MAILBOX);
    assert_eq!(plan.image_count, 3);
}

#[test]
fn plan_with_no_formats_is_rejected() {
    let c = caps(2, 0, Extent { width: 1, height: 1 }, Extent { width: 1, height: 1 });
    let formats: Vec<SurfaceFormat> = Vec::new();
    let modes = vec![PRESENT_MODE_FIFO];
    assert_eq!(plan_build(&c, &formats, &modes), Err(BuildError::NoCompatibleFormat));
}
