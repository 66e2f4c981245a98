//! The render state of one body, its orbital motion, and the orchestration
//! of a frame.
use crate::celestial_bodies::{CelestialBody, MeshClass};
use crate::culling::{faces, faces_spec, in_view_spec, is_in_view};
use crate::fixed::{fx_mul, mul_spec, ONE};
use crate::fragments::{triangle_fill, triangle_fill_spec, Fragment};
use crate::loaders::normal_map::{NormalMap, NormalMapRegistry};
use crate::screen::color::Color;
use crate::screen::framebuffer::{lemma_point_keeps_minimum, Framebuffer, FramebufferView};
use crate::shader::{
    fragment_shader_spec, resources_registered, shade, vertex_shader, vertex_shader_spec,
};
use crate::texture::{Texture, TextureRegistry};
use crate::transform::{create_model_matrix, model_matrix_spec, EulerTrig};
use crate::vector::{Angle, Mat4, Vec3};
use crate::vertex::Vertex;
use vstd::prelude::*;

verus! {

/// The greatest orbit rate of a body that stands still: the greatest scalar
/// not above one thousandth of a radian per tick.
pub const ORBIT_EPSILON: i32 = 65;

/// What the pipeline needs to draw one body: its transforms, its tick
/// counter and the body itself. It persists from frame to frame.
pub struct Uniforms {
    pub model_matrix: Mat4,
    pub view_matrix: Mat4,
    pub projection_matrix: Mat4,
    pub viewport_matrix: Mat4,
    /// Ticks elapsed.
    pub time: u32,
    pub celestial_body: CelestialBody,
    /// The direction from the point looked at towards the eye.
    pub looking_dir: Vec3,
}

/// The position on a circular orbit in the horizontal plane, given the
/// sine and cosine of the angle travelled.
pub open spec fn orbit_position(radius: i32, travelled: Angle) -> Vec3 {
    Vec3 { x: mul_spec(radius, travelled.cos), y: 0, z: mul_spec(radius, travelled.sin) }
}

/// The model matrix of an orbiting body: spin about the vertical axis,
/// then scale, then move to the position on the orbit.
pub open spec fn orbit_model_matrix(translation: Vec3, scale: i32, spin: Angle) -> Mat4 {
    Mat4::translation_spec(translation).times_spec(Mat4::scaling_spec(scale)).times_spec(
        Mat4::rotation_y_spec(spin),
    )
}

impl Uniforms {
    pub fn set_view_matrix(&mut self, view_matrix: &Mat4)
        ensures
            *final(self) == (Uniforms { view_matrix: *view_matrix, ..*old(self) }),
    {
        self.view_matrix = *view_matrix;
    }

    /// Advances the tick counter by one.
    pub fn increment_time(&mut self)
        requires
            old(self).time < u32::MAX,
        ensures
            *final(self) == (Uniforms { time: (old(self).time + 1) as u32, ..*old(self) }),
    {
        self.time += 1;
    }

    /// Whether the body moves on its orbit: both its rates are above their
    /// thresholds. The sun and the craft do not; their transform is driven
    /// from outside.
    pub open spec fn orbits(&self) -> bool {
        self.celestial_body.year > ORBIT_EPSILON && self.celestial_body.day > 0
    }

    /// The angle travelled on the orbit at the current tick, in radians at
    /// the scale of a scalar.
    pub open spec fn orbit_angle(&self) -> int {
        self.celestial_body.year * self.time
    }

    /// The angle of spin at the current tick, in radians at the scale of a
    /// scalar.
    pub open spec fn spin_angle(&self) -> int {
        (self.celestial_body.day - self.celestial_body.year) * self.time
    }

    /// The two angles whose sines and cosines [`Uniforms::orbit`] is to be
    /// given at this tick: the angle travelled and the angle of spin. A
    /// body that does not orbit has none.
    pub fn orbit_angles(&self) -> (r: Option<(i64, i64)>)
        ensures
            r == (if self.orbits() {
                Some((self.orbit_angle() as i64, self.spin_angle() as i64))
            } else {
                None
            }),
            self.orbits() ==> i64::MIN < self.orbit_angle() <= i64::MAX,
            self.orbits() ==> i64::MIN < self.spin_angle() <= i64::MAX,
    {
        if self.celestial_body.year > ORBIT_EPSILON && self.celestial_body.day > 0 {
            let year: i64 = self.celestial_body.year as i64;
            let day: i64 = self.celestial_body.day as i64;
            let time: i64 = self.time as i64;
            let rate: i64 = day - year;
            assert(0 <= year * time < 0x8000_0000 * 0x1_0000_0000) by (nonlinear_arith)
                requires
                    0 <= year < 0x8000_0000,
                    0 <= time < 0x1_0000_0000,
            ;
            assert(-0x8000_0000 * 0x1_0000_0000 < rate * time < 0x8000_0000 * 0x1_0000_0000)
                by (nonlinear_arith)
                requires
                    -0x8000_0000 < rate < 0x8000_0000,
                    0 <= time < 0x1_0000_0000,
            ;
            Some((year * time, rate * time))
        } else {
            None
        }
    }

    /// The state after the orbital update.
    pub open spec fn orbit_spec(self, travelled: Angle, spin: Angle) -> Uniforms {
        if self.orbits() {
            let translation = orbit_position(self.celestial_body.orbit_radius, travelled);
            Uniforms {
                model_matrix: orbit_model_matrix(translation, self.celestial_body.scale, spin),
                celestial_body: CelestialBody { translation, ..self.celestial_body },
                ..self
            }
        } else {
            self
        }
    }

    /// The orbital update of one tick. A body that orbits is moved to its
    /// place on the circle and its model matrix is rebuilt; any other body
    /// is left as it is. `travelled` and `spin` are the sines and cosines of
    /// the angles that [`Uniforms::orbit_angles`] gives.
    pub fn orbit(&mut self, travelled: &Angle, spin: &Angle)
        ensures
            *final(self) == old(self).orbit_spec(*travelled, *spin),
    {
        if self.celestial_body.year > ORBIT_EPSILON && self.celestial_body.day > 0 {
            self.celestial_body.translation = Vec3::new(
                fx_mul(self.celestial_body.orbit_radius, travelled.cos),
                0,
                fx_mul(self.celestial_body.orbit_radius, travelled.sin),
            );

            let self_rotation_matrix: Mat4 = Mat4::rotation_y(spin);
            let translation_matrix: Mat4 = Mat4::translation(&self.celestial_body.translation);
            let scale_matrix: Mat4 = Mat4::scaling(self.celestial_body.scale);

            self.model_matrix = translation_matrix.times(&scale_matrix).times(
                &self_rotation_matrix,
            );
        }
    }

    /// The state after the body has been moved and turned.
    pub open spec fn translate_model_spec(
        self,
        d_translation: Vec3,
        d_rotation: Vec3,
        turned: EulerTrig,
    ) -> Uniforms {
        let rotation = self.celestial_body.rotation.plus_spec(d_rotation);
        let translation = self.celestial_body.translation.plus_spec(d_translation);
        Uniforms {
            model_matrix: model_matrix_spec(translation, self.celestial_body.scale, turned),
            celestial_body: CelestialBody { rotation, translation, ..self.celestial_body },
            ..self
        }
    }

    /// Moves the body by `d_translation`, turns it by `d_rotation`, and
    /// rebuilds its model matrix. `turned` holds the sines and cosines of
    /// the rotation after the turn, that is of
    /// `rotation.plus(d_rotation)`.
    pub fn translate_model(&mut self, d_translation: &Vec3, d_rotation: &Vec3, turned: &EulerTrig)
        ensures
            *final(self) == old(self).translate_model_spec(*d_translation, *d_rotation, *turned),
    {
        self.celestial_body.rotation = self.celestial_body.rotation.plus(d_rotation);
        self.celestial_body.translation = self.celestial_body.translation.plus(d_translation);

        let translation: Vec3 = self.celestial_body.translation;
        self.model_matrix = create_model_matrix(&translation, self.celestial_body.scale, turned);
    }
}

/// The orbital update depends on the tick only through the two angles: two
/// states of one body that are given the same sines and cosines, at
/// whatever ticks, come out at the same place with the same model matrix.
/// So the motion has the period of the sines and cosines that it is given.
pub proof fn lemma_orbit_by_angles_alone(a: Uniforms, b: Uniforms, travelled: Angle, spin: Angle)
    requires
        a.celestial_body == b.celestial_body,
        a.model_matrix == b.model_matrix,
    ensures
        a.orbit_spec(travelled, spin).celestial_body == b.orbit_spec(
            travelled,
            spin,
        ).celestial_body,
        a.orbit_spec(travelled, spin).model_matrix == b.orbit_spec(travelled, spin).model_matrix,
        a.orbit_spec(travelled, spin).time == a.time,
{
}

/// A body on its orbit stays in the horizontal plane, and after a whole
/// number of turns, where the cosine is one and the sine zero, it is on the
/// x axis at its orbit radius.
pub proof fn lemma_orbit_start(u: Uniforms, spin: Angle)
    requires
        u.orbits(),
    ensures
        u.orbit_spec(Angle { sin: 0, cos: ONE }, spin).celestial_body.translation == (Vec3 {
            x: u.celestial_body.orbit_radius,
            y: 0,
            z: 0,
        }),
        forall|travelled: Angle|
            (#[trigger] u.orbit_spec(travelled, spin)).celestial_body.translation.y == 0,
{
}

/// The vertices after the transform stage.
pub open spec fn transformed_vertices(vertices: Seq<Vertex>, uniforms: Uniforms) -> Seq<Vertex> {
    Seq::new(vertices.len(), |i: int| vertex_shader_spec(vertices[i], uniforms))
}

/// The fragments of the first `count` triangles of a list of vertices, the
/// vertices taken three by three.
pub open spec fn triangles_fragments(vertices: Seq<Vertex>, count: int) -> Seq<Fragment>
    decreases count,
{
    if count <= 0 {
        Seq::empty()
    } else {
        triangles_fragments(vertices, count - 1) + triangle_fill_spec(
            vertices[3 * (count - 1)],
            vertices[3 * (count - 1) + 1],
            vertices[3 * (count - 1) + 2],
        )
    }
}

/// The framebuffer after one fragment: a fragment whose surface faces the
/// eye is shaded and written through the depth test, any other is dropped.
pub open spec fn draw_fragment(
    fb: FramebufferView,
    fragment: Fragment,
    uniforms: Uniforms,
    textures: TextureRegistry,
    normal_maps: NormalMapRegistry,
) -> FramebufferView {
    if faces_spec(fragment.normal, uniforms.looking_dir) {
        fb.set_current(fragment_shader_spec(fragment, uniforms, textures, normal_maps)).point(
            fragment.position.x as int,
            fragment.position.y as int,
            fragment.depth,
        )
    } else {
        fb
    }
}

/// The framebuffer after a sequence of fragments, drawn in order.
pub open spec fn draw_fragments(
    fb: FramebufferView,
    fragments: Seq<Fragment>,
    uniforms: Uniforms,
    textures: TextureRegistry,
    normal_maps: NormalMapRegistry,
) -> FramebufferView
    decreases fragments.len(),
{
    if fragments.len() == 0 {
        fb
    } else {
        draw_fragment(
            draw_fragments(fb, fragments.drop_last(), uniforms, textures, normal_maps),
            fragments.last(),
            uniforms,
            textures,
            normal_maps,
        )
    }
}

/// The framebuffer after a mesh has been rendered: every vertex is
/// transformed, the vertices are taken three by three as triangles (one or
/// two left over are dropped), and the fragments of all triangles are drawn
/// in order.
pub open spec fn render_spec(
    fb: FramebufferView,
    uniforms: Uniforms,
    vertices: Seq<Vertex>,
    textures: TextureRegistry,
    normal_maps: NormalMapRegistry,
) -> FramebufferView {
    draw_fragments(
        fb,
        triangles_fragments(
            transformed_vertices(vertices, uniforms),
            (vertices.len() / 3) as int,
        ),
        uniforms,
        textures,
        normal_maps,
    )
}

/// Whether `after` can come from `before` by depth-tested writes: the size
/// and the background are the same, no depth has grown, and a pixel whose
/// depth is the same has its colour unchanged.
pub open spec fn drawn_over(before: FramebufferView, after: FramebufferView) -> bool {
    &&& after.wf()
    &&& after.width == before.width
    &&& after.height == before.height
    &&& after.background == before.background
    &&& forall|i: int|
        0 <= i < before.depths.len() ==> {
            &&& (#[trigger] after.depths[i]) <= before.depths[i]
            &&& after.depths[i] == before.depths[i] ==> after.colors[i] == before.colors[i]
        }
}

/// Drawing fragments only ever brings pixels nearer: every depth after is
/// the least depth written at its pixel or the depth before, and a colour
/// changes only together with a depth that passed the test.
pub proof fn lemma_draw_only_nearer(
    fb: FramebufferView,
    fragments: Seq<Fragment>,
    uniforms: Uniforms,
    textures: TextureRegistry,
    normal_maps: NormalMapRegistry,
)
    requires
        fb.wf(),
    ensures
        drawn_over(fb, draw_fragments(fb, fragments, uniforms, textures, normal_maps)),
    decreases fragments.len(),
{
    if fragments.len() > 0 {
        lemma_draw_only_nearer(fb, fragments.drop_last(), uniforms, textures, normal_maps);
        let mid = draw_fragments(fb, fragments.drop_last(), uniforms, textures, normal_maps);
        let f = fragments.last();
        let shaded = mid.set_current(fragment_shader_spec(f, uniforms, textures, normal_maps));
        lemma_point_keeps_minimum(shaded, f.position.x as int, f.position.y as int, f.depth);
        let out = draw_fragment(mid, f, uniforms, textures, normal_maps);
        assert forall|i: int| 0 <= i < fb.depths.len() implies {
            &&& (#[trigger] out.depths[i]) <= fb.depths[i]
            &&& out.depths[i] == fb.depths[i] ==> out.colors[i] == fb.colors[i]
        } by {
            assert(mid.depths[i] <= fb.depths[i]);
        }
    }
}

/// Rendering a mesh only ever brings pixels nearer.
pub proof fn lemma_render_only_nearer(
    fb: FramebufferView,
    uniforms: Uniforms,
    vertices: Seq<Vertex>,
    textures: TextureRegistry,
    normal_maps: NormalMapRegistry,
)
    requires
        fb.wf(),
    ensures
        drawn_over(fb, render_spec(fb, uniforms, vertices, textures, normal_maps)),
{
    lemma_draw_only_nearer(
        fb,
        triangles_fragments(
            transformed_vertices(vertices, uniforms),
            (vertices.len() / 3) as int,
        ),
        uniforms,
        textures,
        normal_maps,
    );
}

/// The fragments of the first triangles are the same whatever follows the
/// vertices of those triangles.
pub proof fn lemma_triangles_of_prefix(a: Seq<Vertex>, b: Seq<Vertex>, count: int)
    requires
        3 * count <= a.len(),
        3 * count <= b.len(),
        forall|i: int| 0 <= i < 3 * count ==> a[i] == b[i],
    ensures
        triangles_fragments(a, count) == triangles_fragments(b, count),
    decreases count,
{
    if count > 0 {
        lemma_triangles_of_prefix(a, b, count - 1);
    }
}

/// One or two vertices left over after the last whole triangle are dropped:
/// rendering a mesh is rendering its whole triangles.
pub proof fn lemma_render_drops_leftover(
    fb: FramebufferView,
    uniforms: Uniforms,
    vertices: Seq<Vertex>,
    textures: TextureRegistry,
    normal_maps: NormalMapRegistry,
)
    ensures
        render_spec(fb, uniforms, vertices, textures, normal_maps) == render_spec(
            fb,
            uniforms,
            vertices.take(3 * (vertices.len() as int / 3)),
            textures,
            normal_maps,
        ),
{
    let count = vertices.len() as int / 3;
    let whole = vertices.take(3 * count);
    assert(whole.len() as int / 3 == count);
    lemma_triangles_of_prefix(
        transformed_vertices(vertices, uniforms),
        transformed_vertices(whole, uniforms),
        count,
    );
}

/// A mesh of fewer than three vertices has no triangle: rendering it
/// leaves the framebuffer as it was.
pub proof fn lemma_render_without_triangle(
    fb: FramebufferView,
    uniforms: Uniforms,
    vertices: Seq<Vertex>,
    textures: TextureRegistry,
    normal_maps: NormalMapRegistry,
)
    requires
        vertices.len() < 3,
    ensures
        render_spec(fb, uniforms, vertices, textures, normal_maps) == fb,
{
}

/// Renders one mesh of one body into the framebuffer.
pub fn render(
    framebuffer: &mut Framebuffer,
    uniforms: &Uniforms,
    vertex_array: &[Vertex],
    textures: &TextureRegistry,
    normal_maps: &NormalMapRegistry,
)
    requires
        old(framebuffer)@.wf(),
        resources_registered(*uniforms, *textures, *normal_maps),
    ensures
        final(framebuffer)@.wf(),
        final(framebuffer)@ == render_spec(
            old(framebuffer)@,
            *uniforms,
            vertex_array@,
            *textures,
            *normal_maps,
        ),
{
    // Vertex shader stage
    let mut shaded_vertices: Vec<Vertex> = Vec::new();
    let mut i: usize = 0;
    while i < vertex_array.len()
        invariant
            i <= vertex_array@.len(),
            shaded_vertices@.len() == i,
            forall|j: int|
                0 <= j < i ==> shaded_vertices@[j] == vertex_shader_spec(
                    vertex_array@[j],
                    *uniforms,
                ),
        decreases vertex_array@.len() - i,
    {
        shaded_vertices.push(vertex_shader(&vertex_array[i], uniforms));
        i += 1;
    }
    assert(shaded_vertices@ =~= transformed_vertices(vertex_array@, *uniforms));

    // Primitive assembly and rasterization, triangles only
    let count: usize = shaded_vertices.len() / 3;
    let mut fragments: Vec<Fragment> = Vec::new();
    let mut k: usize = 0;
    while k < count
        invariant
            k <= count,
            count == shaded_vertices@.len() / 3,
            shaded_vertices@.len() <= usize::MAX,
            fragments@ == triangles_fragments(shaded_vertices@, k as int),
        decreases count - k,
    {
        let mut filled: Vec<Fragment> = triangle_fill(
            &shaded_vertices[3 * k],
            &shaded_vertices[3 * k + 1],
            &shaded_vertices[3 * k + 2],
        );
        fragments.append(&mut filled);
        k += 1;
    }

    // Fragment processing stage
    let luminous: bool = uniforms.celestial_body.is_self_luminous();
    let id: &str = uniforms.celestial_body.id.as_str();
    let texture: &Texture = match textures.get(id) {
        Some(texture) => texture,
        None => vstd::pervasive::unreached(),
    };
    let normal_map: Option<&NormalMap> = normal_maps.get(id);
    let mut n: usize = 0;
    while n < fragments.len()
        invariant
            n <= fragments@.len(),
            framebuffer@.wf(),
            resources_registered(*uniforms, *textures, *normal_maps),
            luminous == uniforms.celestial_body.self_luminous(),
            *texture == textures@[uniforms.celestial_body.id@],
            normal_map == (if normal_maps@.contains_key(uniforms.celestial_body.id@) {
                Some(&normal_maps@[uniforms.celestial_body.id@])
            } else {
                None
            }),
            framebuffer@ == draw_fragments(
                old(framebuffer)@,
                fragments@.take(n as int),
                *uniforms,
                *textures,
                *normal_maps,
            ),
        decreases fragments@.len() - n,
    {
        let fragment: &Fragment = &fragments[n];
        proof {
            assert(fragments@.take(n as int + 1).drop_last() =~= fragments@.take(n as int));
        }
        if faces(&fragment.normal, &uniforms.looking_dir) {
            let shaded_color: Color = shade(fragment, luminous, texture, normal_map);
            proof {
                shaded_color.lemma_hex_round_trip();
            }
            framebuffer.set_current_color(shaded_color.to_hex());
            framebuffer.point(fragment.position.x, fragment.position.y, fragment.depth);
        }
        n += 1;
    }
    assert(fragments@.take(n as int) =~= fragments@);
}

/// The mesh that a body of the given class is drawn with.
pub open spec fn mesh_of(
    class: MeshClass,
    thruster: Seq<Vertex>,
    sphere: Seq<Vertex>,
    ring: Seq<Vertex>,
) -> Seq<Vertex> {
    match class {
        MeshClass::Thruster => thruster,
        MeshClass::Sphere => sphere,
        MeshClass::Ring => ring,
    }
}

/// Whether a body is drawn at all. Its anchor must be in view; and a
/// sphere is skipped while the camera looks at a point inside it, unless
/// the camera is detached from the craft.
pub open spec fn body_drawn(uniforms: Uniforms, camera_center: Vec3, detached: bool) -> bool {
    &&& in_view_spec(
        uniforms.celestial_body.translation,
        uniforms.view_matrix,
        uniforms.projection_matrix,
    )
    &&& uniforms.celestial_body.model == MeshClass::Sphere ==> detached
        || camera_center.minus_spec(uniforms.celestial_body.translation).length_spec()
        > uniforms.celestial_body.scale
}

/// Draws one body of the scene: culls it as a whole, picks the mesh of its
/// class, and renders that.
pub fn render_body(
    framebuffer: &mut Framebuffer,
    uniforms: &Uniforms,
    thruster: &[Vertex],
    sphere: &[Vertex],
    ring: &[Vertex],
    textures: &TextureRegistry,
    normal_maps: &NormalMapRegistry,
    camera_center: &Vec3,
    detached: bool,
)
    requires
        old(framebuffer)@.wf(),
        resources_registered(*uniforms, *textures, *normal_maps),
    ensures
        final(framebuffer)@.wf(),
        final(framebuffer)@ == (if body_drawn(*uniforms, *camera_center, detached) {
            render_spec(
                old(framebuffer)@,
                *uniforms,
                mesh_of(uniforms.celestial_body.model, thruster@, sphere@, ring@),
                *textures,
                *normal_maps,
            )
        } else {
            old(framebuffer)@
        }),
{
    let in_view: bool = is_in_view(
        &uniforms.celestial_body.translation,
        &uniforms.view_matrix,
        &uniforms.projection_matrix,
    );
    if in_view {
        match uniforms.celestial_body.model {
            MeshClass::Thruster => {
                render(framebuffer, uniforms, thruster, textures, normal_maps);
            },
            MeshClass::Sphere => {
                let proximity: u32 = camera_center.minus(
                    &uniforms.celestial_body.translation,
                ).length();
                if detached || (proximity as i64) > (uniforms.celestial_body.scale as i64) {
                    render(framebuffer, uniforms, sphere, textures, normal_maps);
                }
            },
            MeshClass::Ring => {
                render(framebuffer, uniforms, ring, textures, normal_maps);
            },
        }
    }
}

} // verus!
