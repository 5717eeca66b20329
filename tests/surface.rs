use rust_and_dungeons::surface::{RenderError, SurfaceConfig};

fn config() -> SurfaceConfig {
    SurfaceConfig::negotiate(&vec![false, true, true], 2, 3, 800, 600).unwrap()
}

#[test]
fn negotiate_takes_first_srgb_format_and_first_modes() {
    let c = config();
    assert_eq!(c, SurfaceConfig { format: 1, present_mode: 0, alpha_mode: 0, width: 800, height: 600 });
}

#[test]
fn negotiate_falls_back_to_first_format() {
    let c = SurfaceConfig::negotiate(&vec![false, false], 1, 1, 640, 480).unwrap();
    assert_eq!(c.format, 0);
}

#[test]
fn negotiate_without_formats_or_modes_has_no_adapter() {
    assert_eq!(SurfaceConfig::negotiate(&vec![], 1, 1, 640, 480), Err(RenderError::NoAdapter));
    assert_eq!(SurfaceConfig::negotiate(&vec![true], 0, 1, 640, 480), Err(RenderError::NoAdapter));
    assert_eq!(SurfaceConfig::negotiate(&vec![true], 1, 0, 640, 480), Err(RenderError::NoAdapter));
}

#[test]
fn negotiate_never_configures_a_zero_side() {
    let c = SurfaceConfig::negotiate(&vec![true], 1, 1, 0, 0).unwrap();
    assert_eq!((c.width, c.height), (1, 1));
}

#[test]
fn resize_with_zero_width_keeps_configuration() {
    let mut c = config();
    let before = c;
    assert!(!c.resize(0, 300));
    assert_eq!(c, before);
}

#[test]
fn resize_with_zero_height_keeps_configuration() {
    let mut c = config();
    let before = c;
    assert!(!c.resize(300, 0));
    assert_eq!(c, before);
}

#[test]
fn resize_twice_to_same_sides_is_idempotent() {
    let mut c = config();
    assert!(c.resize(1024, 768));
    let once = c;
    assert!(c.resize(1024, 768));
    assert_eq!(c, once);
    assert_eq!((c.width, c.height), (1024, 768));
    assert_eq!(c.format, 1);
}
