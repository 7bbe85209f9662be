use softrender::framebuffer::Framebuffer;
use softrender::fx::{FX_ONE, RASTER_LIMIT, COMP_LIMIT};
use softrender::fx::{fx_div, fx_mul};
use softrender::geometry::{Color, Vec3, Vertex};
use softrender::render::render;
use softrender::shaders::{fragment_shader, vertex_shader, EMISSIVE_ID};
use softrender::geometry::Fragment;
use softrender::transform::{
    create_model_matrix, create_perspective_matrix, create_viewport_matrix, identity, Rotation,
    Uniforms,
};

fn flat_vertex(x: i64, y: i64, z: i64, color: Option<Color>) -> Vertex {
    Vertex {
        position: Vec3 { x: x * FX_ONE, y: y * FX_ONE, z },
        normal: Vec3 { x: 0, y: 0, z: FX_ONE },
        color,
        uv: None,
    }
}

fn identity_uniforms() -> Uniforms {
    Uniforms {
        model_matrix: identity(),
        view_matrix: identity(),
        projection_matrix: identity(),
        viewport_matrix: identity(),
        time: 0,
    }
}

#[test]
fn fx_mul_and_div_are_fixed_point() {
    assert_eq!(fx_mul(2 * FX_ONE, 3 * FX_ONE), 6 * FX_ONE);
    assert_eq!(fx_mul(-FX_ONE / 2, FX_ONE / 2), -FX_ONE / 4);
    assert_eq!(fx_div(FX_ONE, 2 * FX_ONE), FX_ONE / 2);
    assert_eq!(fx_div(3 * FX_ONE, -FX_ONE), -3 * FX_ONE);
    // Quotients saturate far outside any viewport instead of overflowing.
    assert_eq!(fx_div(COMP_LIMIT, 1), RASTER_LIMIT);
    assert_eq!(fx_div(-COMP_LIMIT, 1), -RASTER_LIMIT);
}

#[test]
fn color_packing_matches_channels() {
    assert_eq!(Color { r: FX_ONE, g: FX_ONE, b: FX_ONE }.to_hex(), 0xFFFFFF);
    assert_eq!(Color { r: 0, g: 0, b: 0 }.to_hex(), 0x000000);
    assert_eq!(Color { r: FX_ONE / 2, g: 0, b: FX_ONE }.to_hex(), 0x7F00FF);
}

#[test]
fn fragment_shader_variants() {
    let frag = Fragment { x: 0, y: 0, depth: 0, color: Color { r: FX_ONE, g: FX_ONE / 2, b: 0 } };
    let u = identity_uniforms();
    // The self-lit variant keeps the interpolated color.
    assert_eq!(fragment_shader(&frag, &u, EMISSIVE_ID), 0xFF7F00);
    // Every other identifier dims it to half intensity.
    assert_eq!(fragment_shader(&frag, &u, 1), 0x7F3F00);
}

#[test]
fn viewport_matrix_entries() {
    let m = create_viewport_matrix(800, 600);
    assert_eq!(m.m00, 26214400);
    assert_eq!(m.m03, 26214400);
    assert_eq!(m.m11, -19660800);
    assert_eq!(m.m13, 19660800);
    assert_eq!(m.m22, FX_ONE);
    assert_eq!(m.m33, FX_ONE);
    assert_eq!(m.m01, 0);
    assert_eq!(m.m32, 0);
}

#[test]
fn perspective_matrix_entries() {
    let m = create_perspective_matrix(800, 600);
    assert_eq!(m.m00, 118663);
    assert_eq!(m.m11, 158218);
    assert_eq!(m.m22, -65549);
    assert_eq!(m.m23, -13109);
    assert_eq!(m.m32, -FX_ONE);
    assert_eq!(m.m33, 0);
    assert_eq!(m.m01, 0);
}

#[test]
fn model_matrix_without_rotation_is_translate_scale() {
    let rot = Rotation { sin_x: 0, cos_x: FX_ONE, sin_y: 0, cos_y: FX_ONE, sin_z: 0, cos_z: FX_ONE };
    let t = Vec3 { x: 7 * FX_ONE, y: -2 * FX_ONE, z: 3 * FX_ONE };
    let m = create_model_matrix(t, 5 * FX_ONE, &rot);
    assert_eq!(m.m00, 5 * FX_ONE);
    assert_eq!(m.m11, 5 * FX_ONE);
    assert_eq!(m.m22, 5 * FX_ONE);
    assert_eq!(m.m03, 7 * FX_ONE);
    assert_eq!(m.m13, -2 * FX_ONE);
    assert_eq!(m.m23, 3 * FX_ONE);
    assert_eq!(m.m33, FX_ONE);
    assert_eq!(m.m01, 0);
    assert_eq!(m.m10, 0);
}

#[test]
fn model_matrix_quarter_turn_about_z() {
    let rot = Rotation { sin_x: 0, cos_x: FX_ONE, sin_y: 0, cos_y: FX_ONE, sin_z: FX_ONE, cos_z: 0 };
    let t = Vec3 { x: 0, y: 0, z: 0 };
    let m = create_model_matrix(t, FX_ONE, &rot);
    // Rz(90 degrees): x -> -y, y -> x.
    assert_eq!(m.m00, 0);
    assert_eq!(m.m01, -FX_ONE);
    assert_eq!(m.m10, FX_ONE);
    assert_eq!(m.m11, 0);
    assert_eq!(m.m22, FX_ONE);
}

#[test]
fn vertex_shader_under_identity_keeps_position() {
    let u = identity_uniforms();
    let v = flat_vertex(2, 3, 4 * FX_ONE, None);
    let t = vertex_shader(&v, &u);
    assert_eq!(t.position.x, 2 * FX_ONE);
    assert_eq!(t.position.y, 3 * FX_ONE);
    assert_eq!(t.position.z, 4 * FX_ONE);
    assert_eq!(t.position.w, FX_ONE);
    assert_eq!(t.normal.z, FX_ONE);
}

#[test]
fn render_draws_triangle_into_framebuffer() {
    let u = identity_uniforms();
    let red = Color { r: FX_ONE, g: 0, b: 0 };
    let verts = vec![
        flat_vertex(1, 1, FX_ONE / 2, Some(red)),
        flat_vertex(8, 1, FX_ONE / 2, Some(red)),
        flat_vertex(1, 8, FX_ONE / 2, Some(red)),
    ];
    let mut fb = Framebuffer::new(10, 10);
    fb.clear();
    render(&mut fb, &u, &verts, EMISSIVE_ID);
    for y in 0usize..10 {
        for x in 0usize..10 {
            let inside = x >= 1 && y >= 1 && x + y <= 8;
            let got = fb.buffer[y * 10 + x];
            if inside {
                assert_eq!(got, 0xFF0000);
                assert_eq!(fb.zbuffer[y * 10 + x], FX_ONE / 2);
            } else {
                assert_eq!(got, 0x000000);
            }
        }
    }
}

#[test]
fn nearer_object_wins_regardless_of_draw_order() {
    // Triangle A at depth 0.2 and triangle B at depth 0.8 cover the whole
    // framebuffer; A's color shows whichever is drawn first.
    let u = identity_uniforms();
    let red = Color { r: FX_ONE, g: 0, b: 0 };
    let blue = Color { r: 0, g: 0, b: FX_ONE };
    let near = 13107;
    let far = 52428;
    let a = vec![
        flat_vertex(-10, -10, near, Some(red)),
        flat_vertex(30, -10, near, Some(red)),
        flat_vertex(-10, 30, near, Some(red)),
    ];
    let b = vec![
        flat_vertex(-10, -10, far, Some(blue)),
        flat_vertex(30, -10, far, Some(blue)),
        flat_vertex(-10, 30, far, Some(blue)),
    ];

    let mut ab = Framebuffer::new(4, 4);
    ab.clear();
    render(&mut ab, &u, &a, EMISSIVE_ID);
    render(&mut ab, &u, &b, EMISSIVE_ID);

    let mut ba = Framebuffer::new(4, 4);
    ba.clear();
    render(&mut ba, &u, &b, EMISSIVE_ID);
    render(&mut ba, &u, &a, EMISSIVE_ID);

    for i in 0..16 {
        assert_eq!(ab.buffer[i], 0xFF0000);
        assert_eq!(ba.buffer[i], 0xFF0000);
        assert_eq!(ab.zbuffer[i], near);
        assert_eq!(ba.zbuffer[i], near);
    }
}

#[test]
fn trailing_partial_triple_is_dropped() {
    let u = identity_uniforms();
    let red = Color { r: FX_ONE, g: 0, b: 0 };
    let mut verts = vec![
        flat_vertex(1, 1, FX_ONE / 2, Some(red)),
        flat_vertex(8, 1, FX_ONE / 2, Some(red)),
        flat_vertex(1, 8, FX_ONE / 2, Some(red)),
    ];
    let mut with_tail = verts.clone();
    with_tail.push(flat_vertex(0, 0, 1, Some(red)));
    with_tail.push(flat_vertex(9, 9, 1, Some(red)));

    let mut complete = Framebuffer::new(10, 10);
    complete.clear();
    render(&mut complete, &u, &verts, EMISSIVE_ID);

    let mut ragged = Framebuffer::new(10, 10);
    ragged.clear();
    render(&mut ragged, &u, &with_tail, EMISSIVE_ID);

    assert_eq!(complete.buffer, ragged.buffer);
    assert_eq!(complete.zbuffer, ragged.zbuffer);
    verts.clear();
    let mut empty = Framebuffer::new(10, 10);
    empty.clear();
    render(&mut empty, &u, &verts, EMISSIVE_ID);
    assert!(empty.buffer.iter().all(|&c| c == 0x000000));
}
