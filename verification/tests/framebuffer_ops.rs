use softrender::framebuffer::{Framebuffer, FAR_DEPTH, STAR_COLOR};
use softrender::stars::generate_stars;

#[test]
fn new_initializes_buffers() {
    let fb = Framebuffer::new(4, 3);
    assert_eq!(fb.width, 4);
    assert_eq!(fb.height, 3);
    assert_eq!(fb.buffer.len(), 12);
    assert_eq!(fb.zbuffer.len(), 12);
    assert!(fb.buffer.iter().all(|&c| c == 0x000000));
    assert!(fb.zbuffer.iter().all(|&d| d == FAR_DEPTH));
}

#[test]
fn clear_resets_to_background_and_far_depth() {
    let mut fb = Framebuffer::new(4, 4);
    fb.set_background_color(0x112233);
    fb.set_current_color(0xFF0000);
    fb.point(1, 2, 1000);
    fb.clear();
    assert!(fb.buffer.iter().all(|&c| c == 0x112233));
    assert!(fb.zbuffer.iter().all(|&d| d == FAR_DEPTH));
}

#[test]
fn point_after_clear_always_writes() {
    // Any depth nearer than the cleared far depth wins the depth test.
    let mut fb = Framebuffer::new(8, 8);
    fb.clear();
    fb.set_current_color(0xAABBCC);
    fb.point(5, 6, i64::MAX - 1);
    let idx = 6 * 8 + 5;
    assert_eq!(fb.buffer[idx], 0xAABBCC);
    assert_eq!(fb.zbuffer[idx], i64::MAX - 1);
}

#[test]
fn point_nearer_depth_overwrites() {
    let mut fb = Framebuffer::new(4, 4);
    fb.set_current_color(0x0000FF);
    fb.point(2, 1, 1000);
    fb.set_current_color(0x00FF00);
    fb.point(2, 1, 500);
    let idx = 1 * 4 + 2;
    assert_eq!(fb.buffer[idx], 0x00FF00);
    assert_eq!(fb.zbuffer[idx], 500);
}

#[test]
fn point_farther_depth_ignored() {
    let mut fb = Framebuffer::new(4, 4);
    fb.set_current_color(0x0000FF);
    fb.point(2, 1, 1000);
    fb.set_current_color(0x00FF00);
    fb.point(2, 1, 2000);
    let idx = 1 * 4 + 2;
    assert_eq!(fb.buffer[idx], 0x0000FF);
    assert_eq!(fb.zbuffer[idx], 1000);
}

#[test]
fn point_tie_keeps_first() {
    // An exactly equal depth loses: the earlier-drawn pixel stays.
    let mut fb = Framebuffer::new(4, 4);
    fb.set_current_color(0x0000FF);
    fb.point(0, 0, 777);
    fb.set_current_color(0x00FF00);
    fb.point(0, 0, 777);
    assert_eq!(fb.buffer[0], 0x0000FF);
    assert_eq!(fb.zbuffer[0], 777);
}

#[test]
fn point_smaller_depth_wins_either_order() {
    let mut first = Framebuffer::new(4, 4);
    first.set_current_color(0x111111);
    first.point(3, 3, 100);
    first.set_current_color(0x222222);
    first.point(3, 3, 900);

    let mut second = Framebuffer::new(4, 4);
    second.set_current_color(0x222222);
    second.point(3, 3, 900);
    second.set_current_color(0x111111);
    second.point(3, 3, 100);

    let idx = 3 * 4 + 3;
    assert_eq!(first.buffer[idx], 0x111111);
    assert_eq!(second.buffer[idx], 0x111111);
    assert_eq!(first.zbuffer[idx], 100);
    assert_eq!(second.zbuffer[idx], 100);
}

#[test]
fn point_idempotent() {
    let mut fb = Framebuffer::new(5, 5);
    fb.set_current_color(0x445566);
    fb.point(2, 3, 42);
    let colors_once = fb.buffer.clone();
    let depths_once = fb.zbuffer.clone();
    fb.point(2, 3, 42);
    assert_eq!(fb.buffer, colors_once);
    assert_eq!(fb.zbuffer, depths_once);
}

#[test]
fn point_out_of_bounds_is_a_no_op() {
    let mut fb = Framebuffer::new(4, 3);
    fb.set_current_color(0xFFFFFF);
    let colors = fb.buffer.clone();
    let depths = fb.zbuffer.clone();
    fb.point(4, 0, 0);
    fb.point(0, 3, 0);
    fb.point(100, 100, -5);
    assert_eq!(fb.buffer, colors);
    assert_eq!(fb.zbuffer, depths);
}

#[test]
fn set_background_color_changes_next_clear() {
    let mut fb = Framebuffer::new(3, 3);
    fb.set_background_color(0x00FF00);
    fb.clear();
    assert!(fb.buffer.iter().all(|&c| c == 0x00FF00));
}

#[test]
fn background_with_stars_paints_only_two_colors() {
    let mut fb = Framebuffer::new(16, 16);
    fb.set_background_color(0x000011);
    fb.point(3, 3, 10);
    let depths = fb.zbuffer.clone();
    fb.set_background_with_stars(0xFFFFFF, 40);
    assert!(fb.buffer.iter().all(|&c| c == 0x000011 || c == 0xFFFFFF));
    // The depth buffer is untouched by the background pass.
    assert_eq!(fb.zbuffer, depths);
}

#[test]
fn generate_stars_count_and_bounds() {
    let stars = generate_stars(100, 10, 20);
    assert_eq!(stars.len(), 100);
    assert!(stars.iter().all(|&(x, y)| x < 10 && y < 20));
}

#[test]
fn draw_stars_writes_given_positions() {
    let mut fb = Framebuffer::new(8, 8);
    let stars = vec![(1usize, 1usize), (7, 0), (9, 9)];
    fb.draw_stars(&stars);
    assert_eq!(fb.buffer[1 * 8 + 1], STAR_COLOR);
    assert_eq!(fb.buffer[0 * 8 + 7], STAR_COLOR);
    // The out-of-bounds star is ignored.
    assert_eq!(fb.buffer.iter().filter(|&&c| c == STAR_COLOR).count(), 2);
}
