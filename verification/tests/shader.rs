use solar_renderer::celestial_bodies::{CelestialBody, MeshClass};
use solar_renderer::fixed::{HALF, ONE};
use solar_renderer::fragments::Fragment;
use solar_renderer::loaders::normal_map::{NormalMap, NormalMapRegistry};
use solar_renderer::registry::Registry;
use solar_renderer::screen::color::Color;
use solar_renderer::shader::{
    calculate_lightning, fragment_shader, get_fragment_texture, lighting, lit, shade,
    vertex_shader, LIGHT_MAX, LIGHT_MIN,
};
use solar_renderer::texture::{Texture, TextureRegistry};
use solar_renderer::transform::create_viewport_matrix;
use solar_renderer::uniforms::Uniforms;
use solar_renderer::vector::{Mat4, Vec2, Vec3, Vec4};
use solar_renderer::vertex::Vertex;

fn fx(v: f64) -> i32 {
    (v * 65536.0).round() as i32
}

fn close(a: i32, b: i32, tolerance: i32) -> bool {
    (a as i64 - b as i64).abs() <= tolerance as i64
}

fn body(id: &str) -> CelestialBody {
    CelestialBody {
        orbit_radius: 0,
        translation: Vec3::zeros(),
        scale: ONE,
        rotation: Vec3::zeros(),
        day: 0,
        year: 0,
        texture_path: String::new(),
        normalmap_path: String::new(),
        id: id.to_string(),
        model: MeshClass::Sphere,
    }
}

fn uniforms(id: &str) -> Uniforms {
    Uniforms {
        model_matrix: Mat4::identity(),
        view_matrix: Mat4::identity(),
        projection_matrix: Mat4::identity(),
        viewport_matrix: create_viewport_matrix(fx(8.0), fx(8.0)),
        time: 0,
        celestial_body: body(id),
        looking_dir: Vec3::new(0, 0, ONE),
    }
}

fn fragment(normal: Vec3) -> Fragment {
    Fragment::new(0, 0, Color::new(100, 100, 100), 0, normal, 0, Vec2::new(0, 0))
}

/// A texture of one colour and a normal map of one direction, registered
/// under each of the identifiers.
fn resources(ids: &[&str], colour: [u8; 3], direction: [u8; 3]) -> (TextureRegistry, NormalMapRegistry) {
    let mut textures: TextureRegistry = Registry::new();
    let mut maps: NormalMapRegistry = Registry::new();
    for id in ids {
        let t = Texture::from_rgba(1, 1, &[colour[0], colour[1], colour[2], 255]).unwrap();
        let m = NormalMap::from_rgba(1, 1, &[direction[0], direction[1], direction[2], 255])
            .unwrap();
        textures.insert(id, t);
        maps.insert(id, m);
    }
    (textures, maps)
}

#[test]
fn vertex_shader_maps_to_the_screen_and_keeps_the_model_fields() {
    let u = uniforms("earth");
    let mut v = Vertex::new(
        Vec3::new(HALF, HALF, fx(0.25)),
        Vec3::new(0, ONE, 0),
        Vec2::new(fx(0.3), fx(0.7)),
    );
    v.color = Color::new(1, 2, 3);
    let out = vertex_shader(&v, &u);
    assert_eq!(out.position, v.position);
    assert_eq!(out.normal, v.normal);
    assert_eq!(out.tex_coords, v.tex_coords);
    assert_eq!(out.color, v.color);
    assert_eq!(out.transformed_position, Vec3::new(fx(6.0), fx(2.0), fx(0.25)));
    assert_eq!(out.transformed_normal, Vec3::new(0, ONE, 0));
    assert!(!out.degenerate);
}

#[test]
fn vertex_shader_applies_model_view_projection_in_order() {
    let mut u = uniforms("earth");
    u.model_matrix = Mat4::scaling(fx(0.5));
    u.view_matrix = Mat4::translation(&Vec3::new(fx(-0.25), 0, 0));
    // A projection that halves x by doubling w.
    u.projection_matrix = Mat4 {
        r0: Vec4::new(ONE, 0, 0, 0),
        r1: Vec4::new(0, ONE, 0, 0),
        r2: Vec4::new(0, 0, ONE, 0),
        r3: Vec4::new(0, 0, 0, 2 * ONE),
    };
    let v = Vertex::new(Vec3::new(ONE, ONE, ONE), Vec3::new(0, 0, ONE), Vec2::new(0, 0));
    let out = vertex_shader(&v, &u);
    // model: (0.5, 0.5, 0.5); view: (0.25, 0.5, 0.5); clip w = 2;
    // ndc: (0.125, 0.25, 0.25); screen: (4.5, 3, 0.25)
    assert_eq!(out.transformed_position, Vec3::new(fx(4.5), fx(3.0), fx(0.25)));
    // The normal goes through the inverse transpose of the model's linear part.
    assert_eq!(out.transformed_normal, Vec3::new(0, 0, 2 * ONE));
}

#[test]
fn vertex_shader_falls_back_to_identity_for_a_singular_model() {
    let mut u = uniforms("earth");
    u.model_matrix = Mat4::scaling(0);
    let v = Vertex::new(Vec3::new(ONE, ONE, ONE), Vec3::new(fx(0.6), 0, fx(0.8)), Vec2::new(0, 0));
    let out = vertex_shader(&v, &u);
    assert_eq!(out.transformed_normal, v.normal);
    assert_eq!(out.transformed_position, Vec3::new(fx(4.0), fx(4.0), 0));
}

#[test]
fn vertex_with_zero_w_is_degenerate() {
    let mut u = uniforms("earth");
    u.projection_matrix = Mat4 {
        r0: Vec4::new(ONE, 0, 0, 0),
        r1: Vec4::new(0, ONE, 0, 0),
        r2: Vec4::new(0, 0, ONE, 0),
        r3: Vec4::new(0, 0, -ONE, 0),
    };
    let at_eye = Vertex::new(Vec3::new(ONE, ONE, 0), Vec3::new(0, 0, ONE), Vec2::new(0, 0));
    assert!(vertex_shader(&at_eye, &u).degenerate);
    let ahead = Vertex::new(Vec3::new(ONE, ONE, -2 * ONE), Vec3::new(0, 0, ONE), Vec2::new(0, 0));
    let out = vertex_shader(&ahead, &u);
    assert!(!out.degenerate);
    assert_eq!(out.transformed_position, Vec3::new(fx(6.0), fx(2.0), -ONE));
}

#[test]
fn self_luminous_body_shows_its_texture_unlit() {
    let (textures, maps) = resources(&["sun"], [200, 100, 50], [0, 0, 255]);
    let u = uniforms("sun");
    for normal in [
        Vec3::new(0, 0, ONE),
        Vec3::new(-46341, -46341, 0),
        Vec3::new(46340, 46340, 0),
        Vec3::zeros(),
    ] {
        let c = fragment_shader(&fragment(normal), &u, &textures, &maps);
        assert_eq!(c, Color { r: 200, g: 100, b: 50 });
    }
}

#[test]
fn self_luminous_body_needs_no_normal_map() {
    let (textures, _) = resources(&["sun"], [200, 100, 50], [0, 0, 255]);
    let maps: NormalMapRegistry = Registry::new();
    let c = fragment_shader(&fragment(Vec3::new(0, 0, ONE)), &uniforms("sun"), &textures, &maps);
    assert_eq!(c, Color { r: 200, g: 100, b: 50 });
}

#[test]
fn surface_facing_away_from_the_light_keeps_a_fifth() {
    // The map's direction is the opposite of the light's, as is the normal.
    let (textures, maps) = resources(&["mars"], [200, 100, 53], [0, 0, 128]);
    let u = uniforms("mars");
    let away = Vec3::new(-46341, -46341, 0);
    let intensity = calculate_lightning(&fragment(away), &u, &maps);
    assert!(close(intensity, fx(-1.41421), 8));
    let c = fragment_shader(&fragment(away), &u, &textures, &maps);
    assert_eq!(c, Color { r: 40, g: 20, b: 10 });
}

#[test]
fn lit_colour_is_never_darker_than_a_fifth() {
    let diffuse = Color { r: 255, g: 254, b: 4 };
    for intensity in [i32::MIN, -ONE, 0, 1, LIGHT_MIN - 1, LIGHT_MIN] {
        assert_eq!(lit(diffuse, intensity), Color { r: 51, g: 50, b: 0 });
    }
    for intensity in [LIGHT_MIN + 1, HALF, ONE, LIGHT_MAX, i32::MAX] {
        let c = lit(diffuse, intensity);
        assert!(c.r >= 51 && c.g >= 50);
    }
}

#[test]
fn lit_colour_is_pinned_at_twice_the_texture() {
    let diffuse = Color { r: 100, g: 60, b: 200 };
    assert_eq!(lit(diffuse, ONE), diffuse);
    assert_eq!(lit(diffuse, LIGHT_MAX), Color { r: 200, g: 120, b: 255 });
    assert_eq!(lit(diffuse, 3 * ONE), Color { r: 200, g: 120, b: 255 });
    assert_eq!(lit(diffuse, 3 * HALF), Color { r: 150, g: 90, b: 255 });
}

#[test]
fn lighting_is_the_cosine_scaled_by_the_light() {
    // The light's direction (1, 1, 0) has length √2, so a surface that
    // faces it has intensity √2.
    let toward = Vec3::new(46340, 46340, 0);
    let nothing = Vec3::zeros();
    assert!(close(lighting(&toward, &nothing), fx(1.41421), 8));
    assert!(close(lighting(&nothing, &toward), fx(1.41421), 8));
    assert_eq!(lighting(&Vec3::new(0, 0, ONE), &nothing), 0);
    assert_eq!(lighting(&Vec3::new(ONE, 0, 0), &nothing), ONE);
    assert_eq!(lighting(&Vec3::new(ONE, 0, 0), &Vec3::new(-ONE, ONE, 0)), ONE);
    assert_eq!(lighting(&nothing, &nothing), 0);
}

#[test]
fn texture_is_sampled_at_the_fragment_coordinate() {
    let mut textures: TextureRegistry = Registry::new();
    let samples = [10u8, 0, 0, 255, 20, 0, 0, 255, 30, 0, 0, 255, 40, 0, 0, 255];
    textures.insert("earth", Texture::from_rgba(2, 2, &samples).unwrap());
    let u = uniforms("earth");
    let mut f = fragment(Vec3::new(0, 0, ONE));
    f.texture_pos = Vec2::new(fx(0.75), fx(0.25));
    assert_eq!(get_fragment_texture(&f, &u, &textures), Color { r: 40, g: 0, b: 0 });
    f.texture_pos = Vec2::new(fx(0.25), fx(0.75));
    assert_eq!(get_fragment_texture(&f, &u, &textures), Color { r: 10, g: 0, b: 0 });
}

#[test]
fn shading_with_resources_in_hand_agrees_with_the_fragment_shader() {
    let (textures, maps) = resources(&["venus"], [180, 90, 45], [255, 255, 128]);
    let u = uniforms("venus");
    let texture = textures.get("venus").unwrap();
    let map = maps.get("venus");
    for normal in [Vec3::new(0, 0, ONE), Vec3::new(46340, 46340, 0), Vec3::new(-ONE, 0, 0)] {
        let f = fragment(normal);
        assert_eq!(shade(&f, false, texture, map), fragment_shader(&f, &u, &textures, &maps));
        assert_eq!(shade(&f, true, texture, None), Color { r: 180, g: 90, b: 45 });
    }
}
