use solar_renderer::celestial_bodies::{init_solar_system, MeshClass};
use solar_renderer::controls::planet_selector;
use solar_renderer::fixed::ONE;
use solar_renderer::stars::generate_stars;
use solar_renderer::uniforms::ORBIT_EPSILON;
use solar_renderer::vector::Vec3;

fn fx(v: f64) -> i32 {
    (v * 65536.0).round() as i32
}

#[test]
fn solar_system_has_eleven_bodies_in_order() {
    let bodies = init_solar_system();
    let ids: Vec<&str> = bodies.iter().map(|b| b.id.as_str()).collect();
    assert_eq!(
        ids,
        vec![
            "spaceship", "sun", "mercury", "venus", "earth", "mars", "jupiter", "saturn",
            "rings", "uranus", "pluto"
        ]
    );
    let mut unique = ids.clone();
    unique.sort();
    unique.dedup();
    assert_eq!(unique.len(), 11);
}

#[test]
fn solar_system_values() {
    let pi = std::f32::consts::PI;
    let bodies = init_solar_system();
    let radii = [30.0, 0.0, 5.0, 6.5, 7.6, 9.0, 14.0, 20.0, 20.0, 25.0, 28.0];
    let scales = [0.05, 2.0, 0.1, 0.4, 0.5, 0.35, 1.0, 0.8, 1.5, 0.6, 0.2];
    let days = [0.0, 0.0, 80.0, 100.0, 50.0, 170.0, 200.0, 140.0, 140.0, 200.0, 200.0];
    let years = [0.0, 0.0, 200.0, 150.0, 140.0, 230.0, 200.0, 223.0, 223.0, 300.0, 200.0];
    for (i, b) in bodies.iter().enumerate() {
        assert_eq!(b.orbit_radius, fx(radii[i] as f32 as f64));
        assert_eq!(b.translation, Vec3::new(b.orbit_radius, 0, 0));
        assert_eq!(b.scale, fx(scales[i] as f32 as f64));
        let day = if days[i] == 0.0 { 0.0 } else { pi / days[i] };
        let year = if years[i] == 0.0 { 0.0 } else { pi / years[i] };
        assert_eq!(b.day, fx(day as f64));
        assert_eq!(b.year, fx(year as f64));
        assert_eq!(b.rotation.y, 0);
        assert_eq!(b.rotation.z, 0);
    }
    assert_eq!(bodies[8].rotation.x, fx(0.3f32 as f64));
    assert_eq!(bodies[4].rotation.x, 0);
    assert_eq!(bodies[4].orbit_radius, 498074);
    assert_eq!(bodies[2].day, 2574);
    assert_eq!(bodies[9].year, 686);
}

#[test]
fn solar_system_meshes_and_paths() {
    let bodies = init_solar_system();
    assert_eq!(bodies[0].model, MeshClass::Thruster);
    assert_eq!(bodies[8].model, MeshClass::Ring);
    for i in [1, 2, 3, 4, 5, 6, 7, 9, 10] {
        assert_eq!(bodies[i].model, MeshClass::Sphere);
    }
    assert_eq!(bodies[0].texture_path, "./assets/textures/spaceship_texture.jpg");
    assert_eq!(bodies[0].normalmap_path, "./assets/normal_maps/spaceship_np.jpg");
    assert_eq!(bodies[1].texture_path, "./assets/textures/sun.jpg");
    assert_eq!(bodies[1].normalmap_path, "./assets/normal_maps/moon_np.jpg");
    assert_eq!(bodies[8].texture_path, "./assets/textures/saturns_rings.png");
    assert_eq!(bodies[8].normalmap_path, "./assets/normal_maps/rings_np.jpg");
    for i in 2..11 {
        if i != 8 {
            let id = &bodies[i].id;
            assert_eq!(bodies[i].texture_path, format!("./assets/textures/{id}.jpg"));
            assert_eq!(bodies[i].normalmap_path, format!("./assets/normal_maps/{id}_np.jpg"));
        }
    }
}

#[test]
fn only_the_sun_is_self_luminous() {
    for b in init_solar_system() {
        assert_eq!(b.is_self_luminous(), b.id == "sun");
    }
}

#[test]
fn craft_and_sun_stand_still_and_the_rest_orbit() {
    let bodies = init_solar_system();
    for (i, b) in bodies.iter().enumerate() {
        let orbits = b.year > ORBIT_EPSILON && b.day > 0;
        assert_eq!(orbits, i >= 2);
    }
    // The rings stay with Saturn.
    assert_eq!(bodies[8].orbit_radius, bodies[7].orbit_radius);
    assert_eq!(bodies[8].year, bodies[7].year);
    assert_eq!(bodies[8].day, bodies[7].day);
}

#[test]
fn stars_lie_on_the_screen() {
    let stars = generate_stars(800, 600, fx(0.005));
    assert_eq!(stars.len(), 800 * 600 * 328 / 65536);
    assert_eq!(stars.len(), 2402);
    for (x, y) in &stars {
        assert!(*x < 800 && *y < 600);
    }
    // At a width of one every star is in column zero.
    let column = generate_stars(1, 50, ONE);
    assert_eq!(column.len(), 50);
    assert!(column.iter().all(|(x, y)| *x == 0 && *y < 50));
}

#[test]
fn stars_are_scattered() {
    let stars = generate_stars(1000, 1000, fx(0.001));
    let first = stars[0];
    assert!(stars.iter().any(|s| *s != first));
}

#[test]
fn no_stars_without_area_or_density() {
    assert!(generate_stars(0, 600, ONE).is_empty());
    assert!(generate_stars(800, 0, ONE).is_empty());
    assert!(generate_stars(800, 600, 0).is_empty());
    assert!(generate_stars(800, 600, -ONE).is_empty());
    assert!(generate_stars(3, 3, fx(0.1)).is_empty());
    assert_eq!(generate_stars(4, 4, fx(0.1)).len(), 1);
}

#[test]
fn number_keys_pick_their_bodies() {
    let bodies = [2usize, 3, 4, 5, 6, 7, 9, 10];
    for key in 0..8 {
        let mut keys = [false; 8];
        keys[key] = true;
        let mut focus_mode = false;
        let mut focus_index = 0usize;
        planet_selector(&keys, &mut focus_mode, &mut focus_index);
        assert!(focus_mode);
        assert_eq!(focus_index, bodies[key]);
    }
}

#[test]
fn highest_key_wins() {
    let mut keys = [false; 8];
    keys[1] = true;
    keys[6] = true;
    keys[3] = true;
    let mut focus_mode = false;
    let mut focus_index = 0usize;
    planet_selector(&keys, &mut focus_mode, &mut focus_index);
    assert!(focus_mode);
    assert_eq!(focus_index, 9);
    planet_selector(&[true; 8], &mut focus_mode, &mut focus_index);
    assert_eq!(focus_index, 10);
}

#[test]
fn no_key_changes_nothing() {
    for mode in [false, true] {
        let mut focus_mode = mode;
        let mut focus_index = 5usize;
        planet_selector(&[false; 8], &mut focus_mode, &mut focus_index);
        assert_eq!(focus_mode, mode);
        assert_eq!(focus_index, 5);
    }
}
