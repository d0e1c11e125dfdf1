use glium_pi_backend::{ColorBits, DepthBits, Display, LibDir, WindowConfig};

#[test]
fn lib_dir_defaults_to_vendor_path() {
    let dir = LibDir::default();
    assert_eq!(dir.path(), "/opt/vc/lib");
    assert_eq!(dir.0, "/opt/vc/lib");
}

#[test]
fn lib_dir_keeps_custom_path() {
    let dir = LibDir(String::from("/usr/local/vc/lib"));
    assert_eq!(dir.path(), "/usr/local/vc/lib");
}

#[test]
fn display_defaults_to_hdmi() {
    assert_eq!(Display::default(), Display::Hdmi);
}

#[test]
fn display_selector_mapping() {
    assert_eq!(Display::Hdmi.index(), 2);
    assert_eq!(Display::Analog.index(), 1);
    assert_eq!(Display::Lcd.index(), 0);
}

#[test]
fn color_bits_default_is_eight() {
    assert_eq!(ColorBits::default().0, 8);
}

#[test]
fn depth_bits_default_is_sixteen() {
    assert_eq!(DepthBits::default().0, 16);
}

#[test]
fn window_config_defaults() {
    let cfg = WindowConfig::default();
    assert_eq!(cfg.display, Display::Hdmi);
    assert!(cfg.surface_size.is_none());
    assert_eq!(cfg.red.0, 8);
    assert_eq!(cfg.green.0, 8);
    assert_eq!(cfg.blue.0, 8);
    assert!(cfg.alpha.is_none());
    assert!(cfg.depth.is_none());
}
