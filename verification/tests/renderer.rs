use graphics::color::Color;
use graphics::context::Graphics;
use graphics::geometry::{rectangle_vertices, Point, Size};
use graphics::shapes::{DrawCommand, Ellipse, FanVertex, RenderPass, Shape, ShapeManager};

#[test]
fn rectangle_covers_its_box() {
    // A 4 x 2 box centered at (1, 1): corners at x in {-1, 3}, y in {0, 2}.
    let v = rectangle_vertices(Size { width: 4, height: 2 }, Point { x: 1, y: 1 });
    assert_eq!(v.len(), 6);
    let bl = Point { x: -1, y: 0 };
    let br = Point { x: 3, y: 0 };
    let tr = Point { x: 3, y: 2 };
    let tl = Point { x: -1, y: 2 };
    assert_eq!(v, vec![bl, br, tr, bl, tr, tl]);
}

#[test]
fn rectangle_half_extents_round_down() {
    let v = rectangle_vertices(Size { width: 5, height: 3 }, Point { x: 0, y: 0 });
    assert_eq!(v[0], Point { x: -2, y: -1 });
    assert_eq!(v[2], Point { x: 2, y: 1 });
}

#[test]
fn rectangle_of_extent_one_collapses() {
    // Extent 1 has half extent 0: all six vertices coincide.
    let v = rectangle_vertices(Size { width: 1, height: 1 }, Point { x: 7, y: -7 });
    assert_eq!(v.len(), 6);
    for p in v {
        assert_eq!(p, Point { x: 7, y: -7 });
    }
}

#[test]
fn ellipse_fan_has_three_vertices_per_wedge() {
    let v = Ellipse::generate_vertices(4);
    assert_eq!(v.len(), 12);
    let expected = vec![
        FanVertex::Center,
        FanVertex::Rim(0),
        FanVertex::Rim(1),
        FanVertex::Center,
        FanVertex::Rim(1),
        FanVertex::Rim(2),
        FanVertex::Center,
        FanVertex::Rim(2),
        FanVertex::Rim(3),
        FanVertex::Center,
        FanVertex::Rim(3),
        FanVertex::Rim(0),
    ];
    assert_eq!(v, expected);
}

#[test]
fn ellipse_fan_wedges_are_adjacent() {
    let segments: u32 = 64;
    let v = Ellipse::generate_vertices(segments);
    assert_eq!(v.len(), (segments * 3) as usize);
    for i in 0..segments {
        let base = (i * 3) as usize;
        assert_eq!(v[base], FanVertex::Center);
        match (v[base + 1], v[base + 2]) {
            (FanVertex::Rim(first), FanVertex::Rim(second)) => {
                assert_eq!(first, i);
                assert_eq!(second, (i + 1) % segments);
            }
            _ => panic!("wedge {} has a non-rim outer vertex", i),
        }
    }
}

#[test]
fn ellipse_generation_is_deterministic() {
    let first = Ellipse::generate_vertices(64);
    let second = Ellipse::generate_vertices(64);
    assert_eq!(first, second);
}

#[test]
fn ellipse_set_size_keeps_vertex_count() {
    let color = Color::from_rgba(0, 255, 0, 102);
    let mut e = Ellipse::new(color, Size { width: 250, height: 500 }, Point { x: 0, y: 0 }, 64);
    let before = e.vertices.len();
    e.set_size(Point { x: 100, y: -100 }, Size { width: 900, height: 30 });
    assert_eq!(e.vertices.len(), before);
    assert_eq!(e.position, Point { x: 100, y: -100 });
    assert_eq!(e.size, Size { width: 900, height: 30 });
}

#[test]
fn ellipse_set_color_keeps_vertices() {
    let mut e = Ellipse::new(
        Color::from_rgba(255, 255, 255, 255),
        Size { width: 100, height: 100 },
        Point { x: 0, y: 0 },
        8,
    );
    let before = e.vertices.clone();
    e.set_color(Color::from_rgba(1, 2, 3, 4));
    assert_eq!(e.color, Color::from_rgba(1, 2, 3, 4));
    assert_eq!(e.vertices, before);
}

#[test]
fn rectangle_set_size_keeps_vertex_count() {
    let mut r = graphics::shapes::Rectangle::new(
        Color::from_rgba(255, 0, 0, 255),
        Size { width: 10, height: 10 },
        Point { x: 0, y: 0 },
    );
    let before = r.vertices.len();
    r.set_size(Point { x: 3, y: 3 }, Size { width: 2, height: 8 });
    assert_eq!(r.vertices.len(), before);
    assert_eq!(r.vertices[0], Point { x: 2, y: -1 });
    r.set_color(Color::from_rgba(9, 9, 9, 9));
    assert_eq!(r.color, Color::from_rgba(9, 9, 9, 9));
    assert_eq!(r.vertices.len(), before);
}

#[test]
fn triangle_set_vertices_keeps_vertex_count() {
    let a = Point { x: 0, y: 5 };
    let b = Point { x: -5, y: -5 };
    let c = Point { x: 5, y: -5 };
    let mut t = graphics::shapes::Triangle::new(Color::from_rgba(0, 0, 255, 255), [a, b, c]);
    assert_eq!(t.vertices, vec![a, b, c]);
    let d = Point { x: 1, y: 1 };
    t.set_vertices([d, b, c]);
    assert_eq!(t.vertices, vec![d, b, c]);
    t.set_color(Color::from_rgba(8, 8, 8, 8));
    assert_eq!(t.color, Color::from_rgba(8, 8, 8, 8));
    assert_eq!(t.vertices.len(), 3);
}

#[test]
fn draw_appends_one_command_and_keeps_pipeline() {
    let shape = Shape::Triangle(graphics::shapes::Triangle::new(
        Color::from_rgba(7, 7, 7, 7),
        [Point { x: 0, y: 1 }, Point { x: -1, y: -1 }, Point { x: 1, y: -1 }],
    ));
    let mut pass = RenderPass::begin();
    assert!(!pass.pipeline_bound);
    pass.set_pipeline();
    shape.draw(&mut pass);
    assert!(pass.pipeline_bound);
    assert_eq!(pass.draws, vec![DrawCommand { color: Color::from_rgba(7, 7, 7, 7), vertex_count: 3 }]);
}

#[test]
fn manager_preserves_registration_order() {
    let mut manager = ShapeManager::new();
    let red = Color::from_rgba(255, 0, 0, 255);
    let green = Color::from_rgba(0, 255, 0, 255);
    let blue = Color::from_rgba(0, 0, 255, 255);
    manager.rectangle(red, Size { width: 10, height: 10 }, Point { x: 0, y: 0 });
    manager.triangle(
        green,
        [Point { x: 0, y: 5 }, Point { x: -5, y: -5 }, Point { x: 5, y: -5 }],
    );
    manager.ellipse(blue, Size { width: 10, height: 10 }, Point { x: 0, y: 0 });
    assert_eq!(manager.shape_count(), 3);
    match manager.get(0) {
        Shape::Rectangle(r) => assert_eq!(r.color, red),
        _ => panic!("first registered shape is not the rectangle"),
    }
    match manager.get(1) {
        Shape::Triangle(t) => {
            assert_eq!(t.color, green);
            assert_eq!(
                t.vertices,
                vec![Point { x: 0, y: 5 }, Point { x: -5, y: -5 }, Point { x: 5, y: -5 }]
            );
        }
        _ => panic!("second registered shape is not the triangle"),
    }
    match manager.get(2) {
        Shape::Ellipse(e) => {
            assert_eq!(e.color, blue);
            assert_eq!(e.segments, 64);
        }
        _ => panic!("third registered shape is not the ellipse"),
    }
}

#[test]
fn frame_draws_three_shapes_in_order() {
    // An 800 x 600 window; one coordinate unit is 1/1000 of a normalized
    // device unit, so [1.0, 1.0] becomes (1000, 1000).
    let mut graphics = Graphics::new(800, 600);
    assert_eq!(graphics.surface_width, 800);
    assert_eq!(graphics.surface_height, 600);
    let white = Color::from_rgba(255, 255, 255, 255);
    let green = Color::from_rgba(0, 255, 0, 102);
    graphics.shape_manager.rectangle(
        white,
        Size { width: 1000, height: 1000 },
        Point { x: 0, y: 0 },
    );
    graphics.shape_manager.rectangle(
        green,
        Size { width: 500, height: 1000 },
        Point { x: 0, y: 0 },
    );
    graphics
        .shape_manager
        .ellipse(green, Size { width: 250, height: 500 }, Point { x: 0, y: 0 });
    let pass = graphics.redraw();
    assert!(pass.pipeline_bound);
    assert_eq!(
        pass.draws,
        vec![
            DrawCommand { color: white, vertex_count: 6 },
            DrawCommand { color: green, vertex_count: 6 },
            DrawCommand { color: green, vertex_count: 192 },
        ]
    );
}

#[test]
fn empty_scene_draws_nothing() {
    let graphics = Graphics::new(1, 1);
    let pass = graphics.redraw();
    assert!(pass.pipeline_bound);
    assert_eq!(pass.draws.len(), 0);
}

#[test]
fn configure_updates_surface_dimensions() {
    let mut graphics = Graphics::new(0, 0);
    assert_eq!(graphics.surface_width, 1);
    assert_eq!(graphics.surface_height, 1);
    graphics.configure(1920, 1080);
    assert_eq!(graphics.surface_width, 1920);
    assert_eq!(graphics.surface_height, 1080);
}

#[test]
fn from_rgba_red_is_exactly_one() {
    let c = Color::from_rgba(255, 0, 0, 255);
    assert_eq!(c, Color { red: 255, green: 0, blue: 0, alpha: 255 });
    // The byte 255 denotes 255/255: exactly 1.0 in the normalized form the
    // application uploads.
    assert_eq!(c.red as f32 / 255.0, 1.0);
    assert_eq!(c.green as f32 / 255.0, 0.0);
    assert_eq!(c.blue as f32 / 255.0, 0.0);
    assert_eq!(c.alpha as f32 / 255.0, 1.0);
}

#[test]
fn from_hex_agrees_with_from_rgba() {
    assert_eq!(Color::from_hex(0xff0000ff), Color::from_rgba(255, 0, 0, 255));
    assert_eq!(Color::from_hex(0x00000000), Color::from_rgba(0, 0, 0, 0));
    assert_eq!(Color::from_hex(0xffffffff), Color::from_rgba(255, 255, 255, 255));
    assert_eq!(Color::from_hex(0x12345678), Color::from_rgba(0x12, 0x34, 0x56, 0x78));
}
