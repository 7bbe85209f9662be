use softrender::framebuffer::Framebuffer;
use softrender::fx::FX_ONE;
use softrender::geometry::{Color, TransformedVertex, Vec3, Vec4};
use softrender::raster::triangle;

fn screen_vertex(x: i64, y: i64, depth: i64, color: Option<Color>) -> TransformedVertex {
    TransformedVertex {
        position: Vec4 { x: x * FX_ONE, y: y * FX_ONE, z: depth, w: FX_ONE },
        normal: Vec3 { x: 0, y: 0, z: FX_ONE },
        color,
        uv: None,
    }
}

#[test]
fn right_triangle_covers_interior_pixels() {
    // Screen vertices (1,1), (8,1), (1,8), all at depth one half: with
    // center sampling the covered pixels are x >= 1, y >= 1, x + y <= 8.
    let half = FX_ONE / 2;
    let a = screen_vertex(1, 1, half, None);
    let b = screen_vertex(8, 1, half, None);
    let c = screen_vertex(1, 8, half, None);
    let frags = triangle(&a, &b, &c, 10, 10);
    let mut expected = Vec::new();
    for y in 1usize..8 {
        for x in 1usize..8 {
            if x + y <= 8 {
                expected.push((x, y));
            }
        }
    }
    assert_eq!(frags.len(), expected.len());
    assert_eq!(frags.len(), 28);
    for &(x, y) in &expected {
        assert!(frags.iter().any(|f| f.x == x && f.y == y));
    }
    // Interpolating three equal depths is exact.
    assert!(frags.iter().all(|f| f.depth == half));
}

#[test]
fn right_triangle_depth_tested_writes() {
    let half = FX_ONE / 2;
    let a = screen_vertex(1, 1, half, None);
    let b = screen_vertex(8, 1, half, None);
    let c = screen_vertex(1, 8, half, None);
    let frags = triangle(&a, &b, &c, 10, 10);
    let mut fb = Framebuffer::new(10, 10);
    fb.clear();
    fb.set_current_color(0xDEADBE);
    for f in &frags {
        fb.point(f.x, f.y, f.depth);
    }
    for y in 0usize..10 {
        for x in 0usize..10 {
            let inside = x >= 1 && y >= 1 && x + y <= 8;
            let got = fb.buffer[y * 10 + x];
            if inside {
                assert_eq!(got, 0xDEADBE);
                assert_eq!(fb.zbuffer[y * 10 + x], half);
            } else {
                assert_eq!(got, 0x000000);
            }
        }
    }
}

#[test]
fn collinear_triangle_yields_no_fragments() {
    let a = screen_vertex(0, 0, 100, None);
    let b = screen_vertex(4, 4, 200, None);
    let c = screen_vertex(8, 8, 300, None);
    let frags = triangle(&a, &b, &c, 16, 16);
    assert_eq!(frags.len(), 0);
}

#[test]
fn coincident_triangle_yields_no_fragments() {
    let a = screen_vertex(3, 3, 5, None);
    let frags = triangle(&a, &a, &a, 16, 16);
    assert_eq!(frags.len(), 0);
}

#[test]
fn covered_count_tracks_area() {
    // Screen triangle (1,1), (6,1), (1,6): area 12.5 pixels; boundary
    // sampling gives 15 covered centers, within rounding of the area.
    let a = screen_vertex(1, 1, 0, None);
    let b = screen_vertex(6, 1, 0, None);
    let c = screen_vertex(1, 6, 0, None);
    let frags = triangle(&a, &b, &c, 10, 10);
    assert_eq!(frags.len(), 15);
    let area_x2 = 25;
    let count_x2 = 2 * frags.len() as i64;
    assert!((count_x2 - area_x2).abs() <= area_x2);
}

#[test]
fn fragment_depths_stay_inside_vertex_depths() {
    let a = screen_vertex(0, 0, 100, None);
    let b = screen_vertex(9, 0, 900, None);
    let c = screen_vertex(0, 9, 500, None);
    let frags = triangle(&a, &b, &c, 12, 12);
    assert!(!frags.is_empty());
    assert!(frags.iter().all(|f| 100 <= f.depth && f.depth <= 900));
}

#[test]
fn winding_does_not_change_coverage() {
    let a = screen_vertex(1, 1, 7, None);
    let b = screen_vertex(8, 1, 7, None);
    let c = screen_vertex(1, 8, 7, None);
    let forward = triangle(&a, &b, &c, 10, 10);
    let reversed = triangle(&c, &b, &a, 10, 10);
    assert_eq!(forward.len(), reversed.len());
    for f in &forward {
        assert!(reversed.iter().any(|g| g.x == f.x && g.y == f.y && g.depth == f.depth));
    }
}

#[test]
fn uniform_vertex_colors_interpolate_exactly() {
    let red = Color { r: FX_ONE, g: 0, b: 0 };
    let a = screen_vertex(1, 1, 0, Some(red));
    let b = screen_vertex(8, 1, 0, Some(red));
    let c = screen_vertex(1, 8, 0, Some(red));
    let frags = triangle(&a, &b, &c, 10, 10);
    assert!(!frags.is_empty());
    assert!(frags.iter().all(|f| f.color.r == FX_ONE && f.color.g == 0 && f.color.b == 0));
}

#[test]
fn missing_vertex_colors_default_to_white() {
    let a = screen_vertex(1, 1, 0, None);
    let b = screen_vertex(8, 1, 0, None);
    let c = screen_vertex(1, 8, 0, None);
    let frags = triangle(&a, &b, &c, 10, 10);
    assert!(!frags.is_empty());
    assert!(frags.iter().all(|f| f.color.r == FX_ONE && f.color.g == FX_ONE && f.color.b == FX_ONE));
}

#[test]
fn offscreen_triangle_clipped_by_viewport() {
    // A triangle entirely to the right of the viewport covers nothing.
    let a = screen_vertex(20, 1, 0, None);
    let b = screen_vertex(28, 1, 0, None);
    let c = screen_vertex(20, 8, 0, None);
    let frags = triangle(&a, &b, &c, 10, 10);
    assert_eq!(frags.len(), 0);
}
