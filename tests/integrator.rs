use ray_tracing::color::Color;
use ray_tracing::integrator::{LightPath, MAX_DEPTH};

#[test]
fn miss_returns_terminal() {
    let path = LightPath::new();
    assert_eq!(path.depth(), 0);
    assert!(path.can_scatter());
    assert_eq!(path.finish(Color::rgb(229, 240, 255)), Color::rgb(229, 240, 255));
}

#[test]
fn one_lambertian_bounce_under_white_sky() {
    let mut path = LightPath::new();
    path.record_scatter(Color::rgb(200, 100, 50));
    assert_eq!(path.depth(), 1);
    assert_eq!(path.finish(Color::white()), Color::rgb(200, 100, 50));
}

#[test]
fn bounces_compose_from_the_last() {
    let mut path = LightPath::new();
    path.record_scatter(Color::rgb(128, 255, 0));
    path.record_scatter(Color::rgb(128, 51, 255));
    // 128 * (128 * 255 / 255) / 255 = 64; 255 * (51 * 200 / 255) / 255 = 40
    assert_eq!(path.finish(Color::rgb(255, 200, 9)), Color::rgb(64, 40, 0));
}

#[test]
fn absorbed_path_is_black() {
    let mut path = LightPath::new();
    path.record_scatter(Color::rgb(200, 100, 50));
    path.record_scatter(Color::white());
    assert_eq!(path.finish(Color::black()), Color::black());
}

#[test]
fn depth_cap_is_fifty() {
    assert_eq!(MAX_DEPTH, 50);
    let mut path = LightPath::new();
    let mut n = 0;
    while path.can_scatter() {
        path.record_scatter(Color::white());
        n += 1;
    }
    assert_eq!(n, 50);
    assert_eq!(path.depth(), 50);
    assert_eq!(path.finish(Color::rgb(1, 2, 3)), Color::rgb(1, 2, 3));
}

#[test]
fn path_never_brightens() {
    let mut path = LightPath::new();
    path.record_scatter(Color::rgb(254, 1, 128));
    path.record_scatter(Color::rgb(255, 255, 255));
    let c = path.finish(Color::rgb(100, 200, 255));
    assert!(c.r() <= 100 && c.g() <= 200 && c.b() <= 255);
    assert_eq!(c, Color::rgb(99, 0, 128));
}
