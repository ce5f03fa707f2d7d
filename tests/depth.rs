use draw_order::{
    normalise_z_values, single_camera, ConfigurationError, Depth, DepthTarget, DrawLayer,
    DrawOrderPlugin, Viewport, BASE_OFFSET,
};

fn viewport(height: u32) -> Viewport {
    Viewport::new(height).unwrap()
}

fn target(layer: u16, y: Option<i64>) -> DepthTarget {
    DepthTarget { layer: DrawLayer::new(layer), projected_y: y }
}

/// `d` has the value `n / m`.
fn has_value(d: Depth, n: i128, m: i128) -> bool {
    d.num * m == n * d.den as i128
}

#[test]
fn draw_layer_new_keeps_layer() {
    assert_eq!(DrawLayer::new(7).layer, 7);
    assert_eq!(DrawLayer::new(u16::MAX).layer, u16::MAX);
}

#[test]
fn plugin_is_a_plain_value() {
    assert_eq!(DrawOrderPlugin, DrawOrderPlugin);
}

#[test]
fn zero_height_is_a_configuration_error() {
    assert_eq!(Viewport::new(0), Err(ConfigurationError::ZeroViewportHeight));
    assert_eq!(Viewport::new(1080), Ok(Viewport { height: 1080 }));
}

#[test]
fn no_camera_is_a_configuration_error() {
    let cameras: Vec<u8> = Vec::new();
    assert_eq!(single_camera(cameras), Err(ConfigurationError::NoCamera));
}

#[test]
fn several_cameras_are_a_configuration_error() {
    assert_eq!(single_camera(vec![1u8, 2]), Err(ConfigurationError::MultipleCameras));
}

#[test]
fn one_camera_is_selected() {
    assert_eq!(single_camera(vec![42u8]), Ok(42));
}

#[test]
fn depth_at_centre_of_full_hd() {
    let d = viewport(1080).depth(DrawLayer::new(1), 540);
    assert_eq!(d, Depth { num: 1620, den: 1080 });
    assert!(has_value(d, 3, 2));
}

#[test]
fn depth_at_viewport_edges() {
    let v = viewport(1080);
    for layer in [0u16, 1, 5, u16::MAX] {
        let top = v.depth(DrawLayer::new(layer), 0);
        assert!(has_value(top, BASE_OFFSET as i128 + layer as i128, 1));
        let bottom = v.depth(DrawLayer::new(layer), 1080);
        assert!(has_value(bottom, BASE_OFFSET as i128 + layer as i128 - 1, 1));
    }
}

#[test]
fn layer_step_can_tie_at_the_edges() {
    let v = viewport(1080);
    let lower = v.depth(DrawLayer::new(1), 0);
    let upper = v.depth(DrawLayer::new(2), 1080);
    assert!(has_value(lower, 2, 1));
    assert!(has_value(upper, 2, 1));
    assert!(!lower.less_than(&upper));
    assert!(!upper.less_than(&lower));
}

#[test]
fn higher_layer_in_front_across_visible_range() {
    let v = viewport(1080);
    for y_upper in (0..1080).step_by(27) {
        for y_lower in (0..=1080).step_by(27) {
            let upper = v.depth(DrawLayer::new(3), y_upper);
            let lower = v.depth(DrawLayer::new(2), y_lower);
            assert!(lower.less_than(&upper), "{} {}", y_upper, y_lower);
            assert!(!upper.less_than(&lower));
        }
    }
}

#[test]
fn lower_on_screen_in_front_within_layer() {
    let v = viewport(720);
    let low = v.depth(DrawLayer::new(4), 100);
    let high = v.depth(DrawLayer::new(4), 600);
    assert!(high.less_than(&low));
    assert!(!low.less_than(&high));
    let off_low = v.depth(DrawLayer::new(4), -5000);
    assert!(low.less_than(&off_low));
}

#[test]
fn extreme_inputs_do_not_overflow() {
    let v = viewport(u32::MAX);
    let a = v.depth(DrawLayer::new(u16::MAX), i64::MIN);
    let b = v.depth(DrawLayer::new(0), i64::MAX);
    assert!(b.less_than(&a));
    assert_eq!(a.num, 65536 * u32::MAX as i128 - i64::MIN as i128);
}

#[test]
fn depths_of_different_viewports_compare_by_value() {
    let a = viewport(100).depth(DrawLayer::new(0), 50);
    let b = viewport(1000).depth(DrawLayer::new(0), 499);
    assert!(a.less_than(&b));
}

#[test]
fn normalise_assigns_each_target() {
    let v = viewport(1080);
    let targets = vec![target(1, Some(540)), target(2, None), target(0, Some(0))];
    let out = normalise_z_values(&v, &targets);
    assert_eq!(out.len(), 3);
    assert_eq!(out[0], Some(Depth { num: 1620, den: 1080 }));
    assert_eq!(out[1], None);
    assert_eq!(out[2], Some(Depth { num: 1080, den: 1080 }));
}

#[test]
fn normalise_of_nothing_is_empty() {
    assert!(normalise_z_values(&viewport(1), &Vec::new()).is_empty());
}

#[test]
fn normalise_is_deterministic() {
    let v = viewport(900);
    let targets = vec![target(3, Some(-20)), target(1, Some(899)), target(0, None)];
    assert_eq!(normalise_z_values(&v, &targets), normalise_z_values(&v, &targets));
}
