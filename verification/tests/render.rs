use solar_renderer::celestial_bodies::{CelestialBody, MeshClass};
use solar_renderer::culling::{faces, is_in_view, FACING_THRESHOLD};
use solar_renderer::fixed::{HALF, ONE};
use solar_renderer::loaders::normal_map::{NormalMap, NormalMapRegistry};
use solar_renderer::registry::Registry;
use solar_renderer::screen::color::Color;
use solar_renderer::screen::framebuffer::{Framebuffer, DEPTH_INFINITY};
use solar_renderer::texture::{Texture, TextureRegistry};
use solar_renderer::transform::create_viewport_matrix;
use solar_renderer::uniforms::{render, render_body, Uniforms};
use solar_renderer::vector::{Mat4, Vec2, Vec3, Vec4};
use solar_renderer::vertex::Vertex;

fn fx(v: f64) -> i32 {
    (v * 65536.0).round() as i32
}

fn uniforms(id: &str, model: MeshClass) -> Uniforms {
    Uniforms {
        model_matrix: Mat4::identity(),
        view_matrix: Mat4::identity(),
        projection_matrix: Mat4::identity(),
        viewport_matrix: create_viewport_matrix(fx(8.0), fx(8.0)),
        time: 0,
        celestial_body: CelestialBody {
            orbit_radius: 0,
            translation: Vec3::zeros(),
            scale: HALF,
            rotation: Vec3::zeros(),
            day: 0,
            year: 0,
            texture_path: String::new(),
            normalmap_path: String::new(),
            id: id.to_string(),
            model,
        },
        looking_dir: Vec3::new(0, 0, ONE),
    }
}

fn resources(id: &str, colour: [u8; 3]) -> (TextureRegistry, NormalMapRegistry) {
    let mut textures: TextureRegistry = Registry::new();
    let mut maps: NormalMapRegistry = Registry::new();
    textures.insert(id, Texture::from_rgba(1, 1, &[colour[0], colour[1], colour[2], 255]).unwrap());
    maps.insert(id, NormalMap::from_rgba(1, 1, &[255, 255, 128, 255]).unwrap());
    (textures, maps)
}

fn vertex(x: f64, y: f64, z: f64, normal: Vec3) -> Vertex {
    Vertex::new(Vec3::new(fx(x), fx(y), fx(z)), normal, Vec2::new(0, 0))
}

/// In normalized coordinates, the triangle that the viewport turns into
/// (0, 0), (4, 0), (0, 4) on a screen of eight by eight.
fn corner_triangle(z: f64, normal: Vec3) -> Vec<Vertex> {
    vec![
        vertex(-1.0, 1.0, z, normal),
        vertex(0.0, 1.0, z, normal),
        vertex(-1.0, 0.0, z, normal),
    ]
}

fn drawn(fb: &Framebuffer) -> Vec<(usize, usize)> {
    let mut pixels = Vec::new();
    for y in 0..fb.height() {
        for x in 0..fb.width() {
            if fb.depth(x, y) != Some(DEPTH_INFINITY) {
                pixels.push((x, y));
            }
        }
    }
    pixels
}

fn corner_pixels() -> Vec<(usize, usize)> {
    let mut want = Vec::new();
    for y in 0..4usize {
        for x in 0..4usize {
            if x + y < 4 {
                want.push((x, y));
            }
        }
    }
    want
}

#[test]
fn render_draws_the_covered_pixels_of_a_triangle() {
    let (textures, maps) = resources("sun", [250, 200, 10]);
    let u = uniforms("sun", MeshClass::Sphere);
    let mut fb = Framebuffer::new(8, 8);
    render(&mut fb, &u, &corner_triangle(0.5, Vec3::new(0, 0, ONE)), &textures, &maps);
    assert_eq!(drawn(&fb), corner_pixels());
    for (x, y) in corner_pixels() {
        assert_eq!(fb.pixel(x, y), Some(Color { r: 250, g: 200, b: 10 }));
        assert_eq!(fb.depth(x, y), Some(HALF));
    }
    assert_eq!(fb.pixel(4, 0), Some(Color::black()));
}

#[test]
fn render_drops_leftover_vertices() {
    let (textures, maps) = resources("sun", [250, 200, 10]);
    let u = uniforms("sun", MeshClass::Sphere);
    let normal = Vec3::new(0, 0, ONE);
    let mut whole = Framebuffer::new(8, 8);
    render(&mut whole, &u, &corner_triangle(0.5, normal), &textures, &maps);
    for extra in 1..3 {
        let mut vertices = corner_triangle(0.5, normal);
        for _ in 0..extra {
            vertices.push(vertex(1.0, -1.0, 0.1, normal));
        }
        let mut fb = Framebuffer::new(8, 8);
        render(&mut fb, &u, &vertices, &textures, &maps);
        assert_eq!(fb.color_array_to_u32(), whole.color_array_to_u32());
        assert_eq!(drawn(&fb), corner_pixels());
    }
    for few in 0..3 {
        let mut fb = Framebuffer::new(8, 8);
        render(&mut fb, &u, &corner_triangle(0.5, normal)[..few], &textures, &maps);
        assert!(drawn(&fb).is_empty());
    }
}

#[test]
fn nearer_triangle_wins_in_either_order() {
    let (textures, mut maps) = resources("sun", [250, 200, 10]);
    let mut textures = textures;
    textures.insert("mars", Texture::from_rgba(1, 1, &[10, 20, 30, 255]).unwrap());
    maps.insert("mars", NormalMap::from_rgba(1, 1, &[255, 255, 128, 255]).unwrap());
    let sun = uniforms("sun", MeshClass::Sphere);
    let mars = uniforms("mars", MeshClass::Sphere);
    let normal = Vec3::new(0, 0, ONE);
    let near = corner_triangle(0.25, normal);
    let far = corner_triangle(0.75, normal);

    let mut one = Framebuffer::new(8, 8);
    render(&mut one, &sun, &near, &textures, &maps);
    render(&mut one, &mars, &far, &textures, &maps);
    let mut other = Framebuffer::new(8, 8);
    render(&mut other, &mars, &far, &textures, &maps);
    render(&mut other, &sun, &near, &textures, &maps);
    assert_eq!(one.color_array_to_u32(), other.color_array_to_u32());
    for (x, y) in corner_pixels() {
        assert_eq!(one.pixel(x, y), Some(Color { r: 250, g: 200, b: 10 }));
        assert_eq!(one.depth(x, y), Some(fx(0.25)));
        assert_eq!(other.depth(x, y), Some(fx(0.25)));
    }
}

#[test]
fn surface_facing_away_from_the_eye_is_not_drawn() {
    let (textures, maps) = resources("sun", [250, 200, 10]);
    let u = uniforms("sun", MeshClass::Sphere);
    let mut fb = Framebuffer::new(8, 8);
    render(&mut fb, &u, &corner_triangle(0.5, Vec3::new(0, 0, -ONE)), &textures, &maps);
    assert!(drawn(&fb).is_empty());
    render(&mut fb, &u, &corner_triangle(0.5, Vec3::new(ONE, 0, 0)), &textures, &maps);
    assert!(drawn(&fb).is_empty());
}

#[test]
fn lit_body_is_drawn_with_its_lighting() {
    let (textures, maps) = resources("mars", [200, 100, 50]);
    let u = uniforms("mars", MeshClass::Sphere);
    let mut fb = Framebuffer::new(8, 8);
    // The normal faces the eye; the map's direction is the light's, so that
    // the perturbed normal lies between the two.
    render(&mut fb, &u, &corner_triangle(0.5, Vec3::new(0, 0, ONE)), &textures, &maps);
    assert_eq!(drawn(&fb), corner_pixels());
    // intensity: ((√½, √½, 1) / √2) · (1, 1, 0) = 1
    let c = fb.pixel(1, 1).unwrap();
    assert!(198 <= c.r && c.r <= 200 && 98 <= c.g && c.g <= 100 && 48 <= c.b && c.b <= 50);
}

#[test]
fn facing_threshold_is_exclusive() {
    let view = Vec3::new(0, 0, ONE);
    assert!(faces(&Vec3::new(0, 0, ONE), &view));
    assert!(!faces(&Vec3::new(0, 0, -ONE), &view));
    assert!(!faces(&Vec3::new(0, 0, 0), &view));
    assert!(!faces(&Vec3::new(0, 0, FACING_THRESHOLD), &view));
    assert!(faces(&Vec3::new(0, 0, FACING_THRESHOLD + 1), &view));
    assert!(!faces(&Vec3::new(ONE, ONE, 0), &view));
    // The viewing direction need not have unit length.
    assert!(faces(&Vec3::new(0, 0, FACING_THRESHOLD), &Vec3::new(0, 0, 2 * ONE)));
}

#[test]
fn anchor_inside_the_view_volume_is_in_view() {
    let id = Mat4::identity();
    assert!(is_in_view(&Vec3::new(HALF, -HALF, 0), &id, &id));
    assert!(is_in_view(&Vec3::new(ONE, -ONE, ONE), &id, &id));
    assert!(!is_in_view(&Vec3::new(ONE + 1, 0, 0), &id, &id));
    assert!(!is_in_view(&Vec3::new(0, -ONE - 1, 0), &id, &id));
    assert!(!is_in_view(&Vec3::new(0, 0, 2 * ONE), &id, &id));
    let back = Mat4::translation(&Vec3::new(0, 0, -5 * ONE));
    assert!(!is_in_view(&Vec3::new(0, 0, 0), &back, &id));
    assert!(is_in_view(&Vec3::new(0, 0, fx(4.5)), &back, &id));
}

#[test]
fn anchor_is_tested_after_the_homogeneous_division() {
    let id = Mat4::identity();
    let wide = Mat4 {
        r0: Vec4::new(ONE, 0, 0, 0),
        r1: Vec4::new(0, ONE, 0, 0),
        r2: Vec4::new(0, 0, ONE, 0),
        r3: Vec4::new(0, 0, 0, 4 * ONE),
    };
    assert!(is_in_view(&Vec3::new(3 * ONE, -4 * ONE, 0), &id, &wide));
    assert!(!is_in_view(&Vec3::new(4 * ONE + 1, 0, 0), &id, &wide));
    let mirrored = Mat4 {
        r0: Vec4::new(ONE, 0, 0, 0),
        r1: Vec4::new(0, ONE, 0, 0),
        r2: Vec4::new(0, 0, ONE, 0),
        r3: Vec4::new(0, 0, 0, -2 * ONE),
    };
    assert!(is_in_view(&Vec3::new(2 * ONE, -ONE, 0), &id, &mirrored));
    assert!(!is_in_view(&Vec3::new(3 * ONE, 0, 0), &id, &mirrored));
}

#[test]
fn anchor_with_zero_w_is_not_in_view() {
    let id = Mat4::identity();
    let flat = Mat4 {
        r0: Vec4::new(ONE, 0, 0, 0),
        r1: Vec4::new(0, ONE, 0, 0),
        r2: Vec4::new(0, 0, ONE, 0),
        r3: Vec4::new(0, 0, -ONE, 0),
    };
    assert!(!is_in_view(&Vec3::new(0, 0, 0), &id, &flat));
    assert!(is_in_view(&Vec3::new(0, 0, -ONE), &id, &flat));
}

#[test]
fn body_out_of_view_is_skipped() {
    let (textures, maps) = resources("sun", [250, 200, 10]);
    let mut u = uniforms("sun", MeshClass::Ring);
    let mesh = corner_triangle(0.5, Vec3::new(0, 0, ONE));
    let far = Vec3::new(9 * ONE, 9 * ONE, 9 * ONE);
    let mut fb = Framebuffer::new(8, 8);
    u.celestial_body.translation = Vec3::new(2 * ONE, 0, 0);
    render_body(&mut fb, &u, &[], &[], &mesh, &textures, &maps, &far, true);
    assert!(drawn(&fb).is_empty());
    u.celestial_body.translation = Vec3::new(HALF, 0, 0);
    render_body(&mut fb, &u, &[], &[], &mesh, &textures, &maps, &far, false);
    assert_eq!(drawn(&fb), corner_pixels());
}

#[test]
fn each_class_is_drawn_with_its_mesh() {
    let (textures, maps) = resources("sun", [250, 200, 10]);
    let normal = Vec3::new(0, 0, ONE);
    let thruster = corner_triangle(0.1, normal);
    let sphere = corner_triangle(0.2, normal);
    let ring = corner_triangle(0.3, normal);
    let far = Vec3::new(9 * ONE, 9 * ONE, 9 * ONE);
    for (class, depth) in [
        (MeshClass::Thruster, 0.1),
        (MeshClass::Sphere, 0.2),
        (MeshClass::Ring, 0.3),
    ] {
        let u = uniforms("sun", class);
        let mut fb = Framebuffer::new(8, 8);
        render_body(&mut fb, &u, &thruster, &sphere, &ring, &textures, &maps, &far, false);
        assert_eq!(fb.depth(0, 0), Some(fx(depth)));
    }
}

#[test]
fn sphere_that_the_camera_is_inside_is_skipped() {
    let (textures, maps) = resources("sun", [250, 200, 10]);
    let mesh = corner_triangle(0.5, Vec3::new(0, 0, ONE));
    let u = uniforms("sun", MeshClass::Sphere);
    // The sphere's scale is a half; its anchor is the origin.
    let inside = Vec3::new(fx(0.3), fx(0.4), 0);
    let outside = Vec3::new(fx(0.3), fx(0.4), 1024);
    let mut fb = Framebuffer::new(8, 8);
    render_body(&mut fb, &u, &[], &mesh, &[], &textures, &maps, &inside, false);
    assert!(drawn(&fb).is_empty());
    render_body(&mut fb, &u, &[], &mesh, &[], &textures, &maps, &inside, true);
    assert_eq!(drawn(&fb), corner_pixels());
    fb.clear();
    render_body(&mut fb, &u, &[], &mesh, &[], &textures, &maps, &outside, false);
    assert_eq!(drawn(&fb), corner_pixels());
    // A craft or a ring is drawn wherever the camera looks.
    for class in [MeshClass::Thruster, MeshClass::Ring] {
        let u = uniforms("sun", class);
        let mut fb = Framebuffer::new(8, 8);
        render_body(&mut fb, &u, &mesh, &[], &mesh, &textures, &maps, &inside, false);
        assert_eq!(drawn(&fb), corner_pixels());
    }
}
