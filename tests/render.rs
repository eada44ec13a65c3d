use raytracer::render::{join_bands, render_line};
use raytracer::texel::rgb_at;

fn coordinates(x: usize, y: usize) -> (u8, u8, u8) {
    (x as u8, y as u8, 7)
}

#[test]
fn render_line_packs_pixels_left_to_right() {
    let band = render_line(3, 5, &coordinates);
    assert_eq!(band, vec![0, 5, 7, 1, 5, 7, 2, 5, 7]);
}

#[test]
fn render_line_of_zero_width_is_empty() {
    assert!(render_line(0, 0, &coordinates).is_empty());
}

#[test]
fn join_bands_puts_top_row_first() {
    let bands: Vec<Vec<u8>> = (0..2).map(|y| render_line(3, y, &coordinates)).collect();
    let image = join_bands(&bands, 3, 2);
    assert_eq!(image, vec![0, 0, 7, 1, 0, 7, 2, 0, 7, 0, 1, 7, 1, 1, 7, 2, 1, 7]);
    assert_eq!(rgb_at(&image, 3, 2, 1), Some((2, 1, 7)));
}

#[test]
fn rendered_buffer_of_a_hundred_square_has_thirty_thousand_bytes() {
    let shade = |_x: usize, _y: usize| (128u8, 64u8, 255u8);
    let bands: Vec<Vec<u8>> = (0..100).map(|y| render_line(100, y, &shade)).collect();
    let image = join_bands(&bands, 100, 100);
    assert_eq!(image.len(), 30000);
    assert!(image.chunks(3).all(|p| p == [128, 64, 255]));
}

#[test]
fn join_bands_of_empty_picture() {
    assert!(join_bands(&Vec::new(), 4, 0).is_empty());
    assert!(join_bands(&vec![Vec::new(), Vec::new()], 0, 2).is_empty());
}
