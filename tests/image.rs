use ray_tracing::color::Color;
use ray_tracing::image::{raster_order, Image};

#[test]
fn from_colors_keeps_everything() {
    let img = Image::from_colors(2, 1, vec![Color::rgb(1, 2, 3), Color::rgb(4, 5, 6)]);
    assert_eq!(img.width(), 2);
    assert_eq!(img.height(), 1);
    assert_eq!(img.pixels(), &vec![Color::rgb(1, 2, 3), Color::rgb(4, 5, 6)]);
}

#[test]
fn ppm_text() {
    let img = Image::from_colors(2, 1, vec![Color::rgb(1, 2, 3), Color::rgb(40, 50, 255)]);
    assert_eq!(img.to_ppm(), "P3\n2 1 \n255\n1 2 3\n40 50 255\n");
}

#[test]
fn ppm_text_of_empty_image() {
    let img = Image::from_colors(600, 400, Vec::new());
    assert_eq!(img.to_ppm(), "P3\n600 400 \n255\n");
}

#[test]
fn frame_bytes_are_rgba() {
    let img = Image::from_colors(2, 1, vec![Color::rgba(1, 2, 3, 4), Color::rgb(5, 6, 7)]);
    assert_eq!(img.frame_bytes(), vec![1, 2, 3, 4, 5, 6, 7, 255]);
}

#[test]
fn raster_order_top_row_first() {
    assert_eq!(
        raster_order(3, 2),
        vec![(0, 1), (1, 1), (2, 1), (0, 0), (1, 0), (2, 0)]
    );
}

#[test]
fn raster_order_empty() {
    assert!(raster_order(0, 5).is_empty());
    assert!(raster_order(5, 0).is_empty());
}

#[test]
fn raster_order_length() {
    let order = raster_order(600, 400);
    assert_eq!(order.len(), 240000);
    assert_eq!(order[0], (0, 399));
    assert_eq!(order[600], (0, 398));
    assert_eq!(order[239999], (599, 0));
}
