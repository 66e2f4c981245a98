//! The bodies of the scene and their state of motion.
use crate::vector::Vec3;
use vstd::prelude::*;

verus! {

/// Which mesh a body is drawn with.
#[derive(Clone, Copy, Debug, PartialEq, Eq, Structural)]
pub enum MeshClass {
    /// The craft that the viewer flies.
    Thruster,
    /// A sphere: the sun or a planet.
    Sphere,
    /// A flat ring around a planet.
    Ring,
}

/// One body: where it is, how it turns, and what it is drawn with.
#[derive(Clone, Debug)]
pub struct CelestialBody {
    /// Radius of the circular orbit around the origin.
    pub orbit_radius: i32,
    /// Current position.
    pub translation: Vec3,
    /// Uniform scale of the mesh.
    pub scale: i32,
    /// Current rotation, as Euler angles in radians.
    pub rotation: Vec3,
    /// Angle of spin per tick, in radians.
    pub day: i32,
    /// Angle of orbit per tick, in radians.
    pub year: i32,
    pub texture_path: String,
    pub normalmap_path: String,
    /// The identifier that the body's texture and normal map are
    /// registered under.
    pub id: String,
    pub model: MeshClass,
}

impl CelestialBody {
    /// Whether the body shines by itself and is drawn unlit: the sun.
    pub open spec fn self_luminous(&self) -> bool {
        self.id@ == "sun"@
    }

    /// Decides whether the body is self-luminous.
    pub fn is_self_luminous(&self) -> (r: bool)
        ensures
            r == self.self_luminous(),
    {
        let sun: String = "sun".to_owned();
        self.id == sun
    }
}

/// Whether a body is the one described: it starts on the x axis at its
/// orbit radius, turned about the x axis alone, with the given identifier,
/// resource paths, scale, rates and mesh.
pub open spec fn describes(
    body: CelestialBody,
    id: Seq<char>,
    texture_path: Seq<char>,
    normalmap_path: Seq<char>,
    orbit_radius: i32,
    scale: i32,
    rotation_x: i32,
    day: i32,
    year: i32,
    model: MeshClass,
) -> bool {
    &&& body.id@ == id
    &&& body.texture_path@ == texture_path
    &&& body.normalmap_path@ == normalmap_path
    &&& body.orbit_radius == orbit_radius
    &&& body.translation == (Vec3 { x: orbit_radius, y: 0, z: 0 })
    &&& body.scale == scale
    &&& body.rotation == (Vec3 { x: rotation_x, y: 0, z: 0 })
    &&& body.day == day
    &&& body.year == year
    &&& body.model == model
}

fn body(
    id: &str,
    texture_path: &str,
    normalmap_path: &str,
    orbit_radius: i32,
    scale: i32,
    rotation_x: i32,
    day: i32,
    year: i32,
    model: MeshClass,
) -> (b: CelestialBody)
    ensures
        describes(
            b,
            id@,
            texture_path@,
            normalmap_path@,
            orbit_radius,
            scale,
            rotation_x,
            day,
            year,
            model,
        ),
{
    CelestialBody {
        orbit_radius,
        translation: Vec3::new(orbit_radius, 0, 0),
        scale,
        rotation: Vec3::new(rotation_x, 0, 0),
        day,
        year,
        texture_path: texture_path.to_owned(),
        normalmap_path: normalmap_path.to_owned(),
        id: id.to_owned(),
        model,
    }
}

/// The bodies of the scene at the first tick: the craft, the sun, and nine
/// bodies on circular orbits. All lengths, scales and rates are 16.16
/// scalars; the rates are radians per tick.
pub fn init_solar_system() -> (bodies: Vec<CelestialBody>)
    ensures
        bodies@.len() == 11,
        describes(
            bodies@[0],
            "spaceship"@,
            "./assets/textures/spaceship_texture.jpg"@,
            "./assets/normal_maps/spaceship_np.jpg"@,
            1966080,
            3277,
            0,
            0,
            0,
            MeshClass::Thruster,
        ),
        describes(
            bodies@[1],
            "sun"@,
            "./assets/textures/sun.jpg"@,
            "./assets/normal_maps/moon_np.jpg"@,
            0,
            131072,
            0,
            0,
            0,
            MeshClass::Sphere,
        ),
        describes(
            bodies@[2],
            "mercury"@,
            "./assets/textures/mercury.jpg"@,
            "./assets/normal_maps/mercury_np.jpg"@,
            327680,
            6554,
            0,
            2574,
            1029,
            MeshClass::Sphere,
        ),
        describes(
            bodies@[3],
            "venus"@,
            "./assets/textures/venus.jpg"@,
            "./assets/normal_maps/venus_np.jpg"@,
            425984,
            26214,
            0,
            2059,
            1373,
            MeshClass::Sphere,
        ),
        describes(
            bodies@[4],
            "earth"@,
            "./assets/textures/earth.jpg"@,
            "./assets/normal_maps/earth_np.jpg"@,
            498074,
            32768,
            0,
            4118,
            1471,
            MeshClass::Sphere,
        ),
        describes(
            bodies@[5],
            "mars"@,
            "./assets/textures/mars.jpg"@,
            "./assets/normal_maps/mars_np.jpg"@,
            589824,
            22938,
            0,
            1211,
            895,
            MeshClass::Sphere,
        ),
        describes(
            bodies@[6],
            "jupiter"@,
            "./assets/textures/jupiter.jpg"@,
            "./assets/normal_maps/jupiter_np.jpg"@,
            917504,
            65536,
            0,
            1029,
            1029,
            MeshClass::Sphere,
        ),
        describes(
            bodies@[7],
            "saturn"@,
            "./assets/textures/saturn.jpg"@,
            "./assets/normal_maps/saturn_np.jpg"@,
            1310720,
            52429,
            0,
            1471,
            923,
            MeshClass::Sphere,
        ),
        describes(
            bodies@[8],
            "rings"@,
            "./assets/textures/saturns_rings.png"@,
            "./assets/normal_maps/rings_np.jpg"@,
            1310720,
            98304,
            19661,
            1471,
            923,
            MeshClass::Ring,
        ),
        describes(
            bodies@[9],
            "uranus"@,
            "./assets/textures/uranus.jpg"@,
            "./assets/normal_maps/uranus_np.jpg"@,
            1638400,
            39322,
            0,
            1029,
            686,
            MeshClass::Sphere,
        ),
        describes(
            bodies@[10],
            "pluto"@,
            "./assets/textures/pluto.jpg"@,
            "./assets/normal_maps/pluto_np.jpg"@,
            1835008,
            13107,
            0,
            1029,
            1029,
            MeshClass::Sphere,
        ),
{
    let mut solar_system: Vec<CelestialBody> = Vec::new();
    // The craft
    solar_system.push(
        body(
            "spaceship",
            "./assets/textures/spaceship_texture.jpg",
            "./assets/normal_maps/spaceship_np.jpg",
            1966080,
            3277,
            0,
            0,
            0,
            MeshClass::Thruster,
        ),
    );
    // The sun
    solar_system.push(
        body(
            "sun",
            "./assets/textures/sun.jpg",
            "./assets/normal_maps/moon_np.jpg",
            0,
            131072,
            0,
            0,
            0,
            MeshClass::Sphere,
        ),
    );
    // Mercury
    solar_system.push(
        body(
            "mercury",
            "./assets/textures/mercury.jpg",
            "./assets/normal_maps/mercury_np.jpg",
            327680,
            6554,
            0,
            2574,
            1029,
            MeshClass::Sphere,
        ),
    );
    // Venus
    solar_system.push(
        body(
            "venus",
            "./assets/textures/venus.jpg",
            "./assets/normal_maps/venus_np.jpg",
            425984,
            26214,
            0,
            2059,
            1373,
            MeshClass::Sphere,
        ),
    );
    // Earth
    solar_system.push(
        body(
            "earth",
            "./assets/textures/earth.jpg",
            "./assets/normal_maps/earth_np.jpg",
            498074,
            32768,
            0,
            4118,
            1471,
            MeshClass::Sphere,
        ),
    );
    // Mars
    solar_system.push(
        body(
            "mars",
            "./assets/textures/mars.jpg",
            "./assets/normal_maps/mars_np.jpg",
            589824,
            22938,
            0,
            1211,
            895,
            MeshClass::Sphere,
        ),
    );
    // Jupiter
    solar_system.push(
        body(
            "jupiter",
            "./assets/textures/jupiter.jpg",
            "./assets/normal_maps/jupiter_np.jpg",
            917504,
            65536,
            0,
            1029,
            1029,
            MeshClass::Sphere,
        ),
    );
    // Saturn
    solar_system.push(
        body(
            "saturn",
            "./assets/textures/saturn.jpg",
            "./assets/normal_maps/saturn_np.jpg",
            1310720,
            52429,
            0,
            1471,
            923,
            MeshClass::Sphere,
        ),
    );
    // Saturn's rings
    solar_system.push(
        body(
            "rings",
            "./assets/textures/saturns_rings.png",
            "./assets/normal_maps/rings_np.jpg",
            1310720,
            98304,
            19661,
            1471,
            923,
            MeshClass::Ring,
        ),
    );
    // Uranus
    solar_system.push(
        body(
            "uranus",
            "./assets/textures/uranus.jpg",
            "./assets/normal_maps/uranus_np.jpg",
            1638400,
            39322,
            0,
            1029,
            686,
            MeshClass::Sphere,
        ),
    );
    // Pluto
    solar_system.push(
        body(
            "pluto",
            "./assets/textures/pluto.jpg",
            "./assets/normal_maps/pluto_np.jpg",
            1835008,
            13107,
            0,
            1029,
            1029,
            MeshClass::Sphere,
        ),
    );
    solar_system
}

} // verus!
