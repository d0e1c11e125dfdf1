use glium_pi_backend::window::{
    attribute_list, config_representable, context_attribute_list, EGL_ALPHA_SIZE, EGL_BLUE_SIZE,
    EGL_CONTEXT_CLIENT_VERSION, EGL_DEPTH_SIZE, EGL_GREEN_SIZE, EGL_NONE, EGL_RED_SIZE,
    EGL_SURFACE_TYPE, EGL_WINDOW_BIT,
};
use glium_pi_backend::{ColorBits, DepthBits, WindowConfig};

#[test]
fn attribute_list_without_alpha_or_depth_has_nine_entries() {
    let cfg = WindowConfig::default();
    let list = attribute_list(&cfg);
    assert_eq!(list.len(), 9);
    assert_eq!(
        list,
        vec![
            EGL_SURFACE_TYPE,
            EGL_WINDOW_BIT,
            EGL_RED_SIZE,
            8,
            EGL_GREEN_SIZE,
            8,
            EGL_BLUE_SIZE,
            8,
            EGL_NONE,
        ]
    );
}

#[test]
fn adding_alpha_adds_exactly_two_entries() {
    let mut cfg = WindowConfig::default();
    cfg.alpha = Some(ColorBits(8));
    let list = attribute_list(&cfg);
    assert_eq!(list.len(), 11);
    assert_eq!(list[8], EGL_ALPHA_SIZE);
    assert_eq!(list[9], 8);
    assert_eq!(list[10], EGL_NONE);
}

#[test]
fn adding_depth_adds_exactly_two_more_entries() {
    let mut cfg = WindowConfig::default();
    cfg.alpha = Some(ColorBits(8));
    cfg.depth = Some(DepthBits(16));
    let list = attribute_list(&cfg);
    assert_eq!(list.len(), 13);
    assert_eq!(list[10], EGL_DEPTH_SIZE);
    assert_eq!(list[11], 16);
    assert_eq!(list[12], EGL_NONE);
}

#[test]
fn depth_alone_also_adds_exactly_two_entries() {
    let mut cfg = WindowConfig::default();
    cfg.depth = Some(DepthBits(24));
    let list = attribute_list(&cfg);
    assert_eq!(list.len(), 11);
    assert_eq!(list[8], EGL_DEPTH_SIZE);
    assert_eq!(list[9], 24);
    assert_eq!(list[10], EGL_NONE);
}

#[test]
fn attribute_list_always_ends_with_terminator() {
    let mut cfg = WindowConfig::default();
    assert_eq!(*attribute_list(&cfg).last().unwrap(), EGL_NONE);
    cfg.alpha = Some(ColorBits(4));
    assert_eq!(*attribute_list(&cfg).last().unwrap(), EGL_NONE);
    cfg.depth = Some(DepthBits(32));
    assert_eq!(*attribute_list(&cfg).last().unwrap(), EGL_NONE);
}

#[test]
fn context_attributes_request_client_version_two() {
    assert_eq!(
        context_attribute_list(),
        vec![EGL_CONTEXT_CLIENT_VERSION, 2, EGL_NONE]
    );
}

#[test]
fn oversized_channel_depths_are_not_representable() {
    let mut cfg = WindowConfig::default();
    assert!(config_representable(&cfg));
    cfg.red = ColorBits(u32::MAX);
    assert!(!config_representable(&cfg));
    cfg.red = ColorBits(8);
    cfg.surface_size = Some((u32::MAX, 480));
    assert!(!config_representable(&cfg));
    cfg.surface_size = Some((640, 480));
    assert!(config_representable(&cfg));
}
