use ray_tracing::color::Color;

#[test]
fn rgb_is_opaque() {
    let c = Color::rgb(1, 2, 3);
    assert_eq!((c.r(), c.g(), c.b(), c.alpha()), (1, 2, 3, 255));
}

#[test]
fn rgba_keeps_alpha() {
    let c = Color::rgba(9, 8, 7, 6);
    assert_eq!((c.r(), c.g(), c.b(), c.alpha()), (9, 8, 7, 6));
}

#[test]
fn named_colors() {
    assert_eq!(Color::black(), Color::rgb(0, 0, 0));
    assert_eq!(Color::white(), Color::rgb(255, 255, 255));
}

#[test]
fn to_string_is_a_ppm_line() {
    assert_eq!(Color::rgb(7, 10, 255).to_string(), "7 10 255\n");
    assert_eq!(Color::rgba(0, 0, 0, 0).to_string(), "0 0 0\n");
    assert_eq!(Color::rgb(100, 99, 1).to_string(), "100 99 1\n");
}

#[test]
fn difuse_multiplies_fractions() {
    let c = Color::rgba(200, 100, 50, 7).difuse(&Color::rgb(255, 128, 0));
    assert_eq!(c, Color::rgb(200, 50, 0));
    // 51 * 5 / 255 == 1 exactly
    assert_eq!(Color::rgb(51, 51, 51).difuse(&Color::rgb(5, 10, 15)), Color::rgb(1, 2, 3));
    // rounds down: 128 * 128 / 255 == 64.25
    assert_eq!(Color::rgb(128, 128, 128).difuse(&Color::rgb(128, 128, 128)), Color::rgb(64, 64, 64));
}

#[test]
fn difuse_with_white_and_black() {
    let c = Color::rgb(12, 34, 56);
    assert_eq!(Color::white().difuse(&c), c);
    assert_eq!(c.difuse(&Color::white()), c);
    assert_eq!(c.difuse(&Color::black()), Color::black());
}

#[test]
fn add_saturates() {
    let c = Color::rgb(200, 100, 50) + Color::rgba(100, 200, 50, 0);
    assert_eq!(c, Color::rgb(255, 255, 100));
    assert_eq!(Color::rgb(1, 2, 3) + Color::rgb(4, 5, 6), Color::rgb(5, 7, 9));
}

#[test]
fn sub_saturates() {
    let c = Color::rgb(200, 100, 50) - Color::rgb(100, 200, 50);
    assert_eq!(c, Color::rgb(100, 0, 0));
}

#[test]
fn add_assign_and_sub_assign() {
    let mut c = Color::rgba(250, 10, 0, 3);
    c += Color::rgb(10, 10, 10);
    assert_eq!(c, Color::rgb(255, 20, 10));
    c -= Color::rgb(5, 30, 10);
    assert_eq!(c, Color::rgb(250, 0, 0));
}

#[test]
fn set_alpha_and_bytes() {
    let mut c = Color::rgb(1, 2, 3);
    c.set_alpha(4);
    assert_eq!(c.as_bytes(), [1, 2, 3, 4]);
}

#[test]
fn default_is_opaque_black() {
    assert_eq!(Color::default(), Color::rgba(0, 0, 0, 255));
}
