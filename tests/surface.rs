use voxentia::surface::{
    choose_extent, choose_format, choose_image_count, choose_present_mode, negotiate, Extent,
    ImageUsage, SurfaceCapabilities, SurfaceFormat, SwapchainError, COLOR_SPACE_SRGB_NONLINEAR,
    FORMAT_R8G8B8A8_UNORM, PRESENT_MODE_FIFO, PRESENT_MODE_MAILBOX,
};

const BGRA_SRGB: SurfaceFormat = SurfaceFormat { format: 50, color_space: 0 };
const RGBA_UNORM: SurfaceFormat =
    SurfaceFormat { format: FORMAT_R8G8B8A8_UNORM, color_space: COLOR_SPACE_SRGB_NONLINEAR };

fn caps(min: u32, max: u32, current: Extent) -> SurfaceCapabilities {
    SurfaceCapabilities {
        min_image_count: min,
        max_image_count: max,
        current_extent: current,
        min_image_extent: Extent { width: 64, height: 48 },
        max_image_extent: Extent { width: 4096, height: 2160 },
        storage_supported: true,
    }
}

fn free_extent() -> Extent {
    Extent { width: u32::MAX, height: u32::MAX }
}

#[test]
fn preferred_format_wins() {
    let fs = vec![BGRA_SRGB, SurfaceFormat { format: 37, color_space: 1 }, RGBA_UNORM];
    assert_eq!(choose_format(&fs), Some(RGBA_UNORM));
}

#[test]
fn first_format_is_the_fallback() {
    let fs = vec![BGRA_SRGB, SurfaceFormat { format: 37, color_space: 1 }];
    assert_eq!(choose_format(&fs), Some(BGRA_SRGB));
    assert_eq!(choose_format(&vec![]), None);
}

#[test]
fn mailbox_preferred_else_fifo() {
    assert_eq!(choose_present_mode(&vec![0, 2, 1]), PRESENT_MODE_MAILBOX);
    assert_eq!(choose_present_mode(&vec![0, 2, 3]), PRESENT_MODE_FIFO);
    assert_eq!(choose_present_mode(&vec![]), PRESENT_MODE_FIFO);
}

#[test]
fn fixed_extent_is_taken_as_is() {
    let c = caps(2, 3, Extent { width: 800, height: 600 });
    assert_eq!(choose_extent(&c, 1920, 1080), Extent { width: 800, height: 600 });
}

#[test]
fn free_extent_is_clamped() {
    let c = caps(2, 3, free_extent());
    assert_eq!(choose_extent(&c, 1920, 1080), Extent { width: 1920, height: 1080 });
    assert_eq!(choose_extent(&c, 10, 5000), Extent { width: 64, height: 2160 });
    assert_eq!(choose_extent(&c, 9000, 1), Extent { width: 4096, height: 48 });
}

#[test]
fn image_count_is_one_above_minimum_within_maximum() {
    assert_eq!(choose_image_count(&caps(2, 3, free_extent())), 3);
    assert_eq!(choose_image_count(&caps(3, 3, free_extent())), 3);
    assert_eq!(choose_image_count(&caps(2, 8, free_extent())), 3);
    assert_eq!(choose_image_count(&caps(2, 0, free_extent())), 3);
    assert_eq!(choose_image_count(&caps(u32::MAX, 0, free_extent())), u32::MAX);
}

#[test]
fn negotiate_puts_it_together() {
    let c = caps(2, 0, free_extent());
    let cfg = negotiate(&c, &vec![BGRA_SRGB, RGBA_UNORM], &vec![2, 1], 1280, 720).unwrap();
    assert_eq!(cfg.format, RGBA_UNORM);
    assert_eq!(cfg.present_mode, PRESENT_MODE_MAILBOX);
    assert_eq!(cfg.extent, Extent { width: 1280, height: 720 });
    assert_eq!(cfg.image_count, 3);
    assert_eq!(cfg.usage, ImageUsage { transfer_dst: true, storage: true });
    let mut no_storage = c;
    no_storage.storage_supported = false;
    let cfg = negotiate(&no_storage, &vec![BGRA_SRGB], &vec![2], 1280, 720).unwrap();
    assert_eq!(cfg.usage, ImageUsage { transfer_dst: true, storage: false });
    assert_eq!(cfg.format, BGRA_SRGB);
    assert_eq!(cfg.present_mode, PRESENT_MODE_FIFO);
}

#[test]
fn negotiate_without_formats_fails() {
    let c = caps(2, 3, free_extent());
    assert_eq!(negotiate(&c, &vec![], &vec![2], 640, 480), Err(SwapchainError::NoSurfaceFormat));
}

#[test]
fn rebuild_at_same_size_is_stable() {
    let c = caps(2, 3, free_extent());
    let fs = vec![RGBA_UNORM];
    let first = negotiate(&c, &fs, &vec![2], 5000, 20).unwrap();
    let second = negotiate(&c, &fs, &vec![2], 5000, 20).unwrap();
    assert_eq!(first.image_count, second.image_count);
    assert_eq!(first.extent, second.extent);
    let again = negotiate(&c, &fs, &vec![2], first.extent.width, first.extent.height).unwrap();
    assert_eq!(again.extent, first.extent);
}
