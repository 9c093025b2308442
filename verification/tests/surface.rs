use live_wgsl::gpu::gpu_state::{choose_surface_format, SurfaceSize};

#[test]
fn first_srgb_format_is_chosen() {
    assert_eq!(choose_surface_format(&[false, true, true]), Some(1));
    assert_eq!(choose_surface_format(&[true, false]), Some(0));
    assert_eq!(choose_surface_format(&[false, false, false, true]), Some(3));
}

#[test]
fn first_format_is_chosen_when_none_is_srgb() {
    assert_eq!(choose_surface_format(&[false]), Some(0));
    assert_eq!(choose_surface_format(&[false, false, false]), Some(0));
}

#[test]
fn no_format_to_choose_from() {
    assert_eq!(choose_surface_format(&[]), None);
}

#[test]
fn resize_to_a_positive_size_is_applied() {
    let mut size = SurfaceSize::new(800, 600);
    assert!(size.resize(1024, 768));
    assert_eq!(size, SurfaceSize { width: 1024, height: 768 });
    assert!(size.resize(1, 1));
    assert_eq!((size.width, size.height), (1, 1));
}

#[test]
fn resize_to_an_empty_size_is_ignored() {
    let mut size = SurfaceSize::new(800, 600);
    assert!(!size.resize(0, 600));
    assert!(!size.resize(800, 0));
    assert!(!size.resize(0, 0));
    assert_eq!(size, SurfaceSize { width: 800, height: 600 });
}
