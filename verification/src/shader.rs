//! The two programmable stages: the vertex transform and the fragment
//! shader.
use crate::fixed::{clamp_spec, div_spec, fx_clamp, fx_div, ONE};
use crate::fragments::Fragment;
use crate::loaders::normal_map::{
    with_normal_map, NormalMap, NormalMapRegistry, NormalMapView,
};
use crate::screen::color::{scale_channel, Color};
use crate::texture::{with_texture, Texture, TextureRegistry, TextureView};
use crate::uniforms::Uniforms;
use crate::vector::{Mat3, Mat4, Vec3, Vec4};
use crate::vertex::Vertex;
use vstd::prelude::*;

verus! {

/// The least lighting intensity: a fifth, rounded up to the next scalar,
/// so that no lit face is darker than a fifth of its texture.
pub const LIGHT_MIN: i32 = 13108;

/// The greatest lighting intensity: two.
pub const LIGHT_MAX: i32 = 131072;

/// The direction towards the light: `(1, 1, 0)`.
pub open spec fn light_direction() -> Vec3 {
    Vec3 { x: ONE, y: ONE, z: 0 }
}

/// A vertex's position in clip space: projection · view · model applied to
/// the object-space position.
pub open spec fn clip_position(vertex: Vertex, uniforms: Uniforms) -> Vec4 {
    uniforms.projection_matrix.times_spec(uniforms.view_matrix).times_spec(
        uniforms.model_matrix,
    ).transform_spec(
        Vec4 { x: vertex.position.x, y: vertex.position.y, z: vertex.position.z, w: ONE },
    )
}

/// The perspective division: `x`, `y` and `z` over `w`.
pub open spec fn perspective_divide(clip: Vec4) -> Vec4 {
    Vec4 {
        x: div_spec(clip.x, clip.w),
        y: div_spec(clip.y, clip.w),
        z: div_spec(clip.z, clip.w),
        w: ONE,
    }
}

/// The matrix that carries normals: the inverse of the transpose of the
/// model matrix's linear part, or the identity where that part has no
/// inverse.
pub open spec fn normal_matrix(model: Mat4) -> Mat3 {
    match model.linear_part_spec().transpose_spec().try_inverse_spec() {
        Some(m) => m,
        None => Mat3::identity_spec(),
    }
}

/// The vertex after the transform stage. What the model gave is kept; the
/// screen position is the viewport transform of the perspective division
/// of the clip position, and the vertex is degenerate where the division
/// is by zero.
pub open spec fn vertex_shader_spec(vertex: Vertex, uniforms: Uniforms) -> Vertex {
    let clip = clip_position(vertex, uniforms);
    let screen = uniforms.viewport_matrix.transform_spec(perspective_divide(clip));
    Vertex {
        position: vertex.position,
        normal: vertex.normal,
        tex_coords: vertex.tex_coords,
        color: vertex.color,
        transformed_position: Vec3 { x: screen.x, y: screen.y, z: screen.z },
        transformed_normal: normal_matrix(uniforms.model_matrix).transform_spec(vertex.normal),
        degenerate: clip.w == 0,
    }
}

/// The vertex transform stage.
pub fn vertex_shader(vertex: &Vertex, uniforms: &Uniforms) -> (out: Vertex)
    ensures
        out == vertex_shader_spec(*vertex, *uniforms),
{
    let position: Vec4 = Vec4::new(vertex.position.x, vertex.position.y, vertex.position.z, ONE);
    let transformed: Vec4 = uniforms.projection_matrix.times(&uniforms.view_matrix).times(
        &uniforms.model_matrix,
    ).transform(&position);

    let w: i32 = transformed.w;
    let ndc_position: Vec4 = Vec4::new(
        fx_div(transformed.x, w),
        fx_div(transformed.y, w),
        fx_div(transformed.z, w),
        ONE,
    );

    let screen_position: Vec4 = uniforms.viewport_matrix.transform(&ndc_position);

    let model_mat3: Mat3 = uniforms.model_matrix.linear_part();
    let normal_matrix: Mat3 = match model_mat3.transpose().try_inverse() {
        Some(m) => m,
        None => Mat3::identity(),
    };
    let transformed_normal: Vec3 = normal_matrix.transform(&vertex.normal);

    Vertex {
        position: vertex.position,
        normal: vertex.normal,
        tex_coords: vertex.tex_coords,
        color: vertex.color,
        transformed_position: Vec3::new(screen_position.x, screen_position.y, screen_position.z),
        transformed_normal,
        degenerate: w == 0,
    }
}

/// The lighting intensity of a surface: the geometric normal, perturbed by
/// the direction from the normal map and scaled to unit length, against the
/// direction towards the light.
pub open spec fn lighting_spec(normal: Vec3, from_map: Vec3) -> i32 {
    normal.plus_spec(from_map).normalize_spec().dot_spec(light_direction())
}

/// Computes the lighting intensity from a normal and a normal-map sample.
pub fn lighting(normal: &Vec3, from_map: &Vec3) -> (intensity: i32)
    ensures
        intensity == lighting_spec(*normal, *from_map),
{
    let modified_normal: Vec3 = normal.plus(from_map).normalize();
    let light_pos: Vec3 = Vec3::new(ONE, ONE, 0);
    modified_normal.dot(&light_pos)
}

/// A lit colour: the texture colour scaled by the intensity pinned between
/// [`LIGHT_MIN`] and [`LIGHT_MAX`].
pub open spec fn lit_spec(diffuse: Color, intensity: i32) -> Color {
    diffuse.scaled_spec(clamp_spec(intensity, LIGHT_MIN, LIGHT_MAX))
}

/// At the least intensity a channel keeps exactly a fifth of its value,
/// rounded down; at any intensity it keeps at least that.
pub proof fn lemma_channel_never_darker(c: u8, factor: i32)
    requires
        LIGHT_MIN <= factor <= LIGHT_MAX,
    ensures
        scale_channel(c, LIGHT_MIN) == c / 5,
        scale_channel(c, factor) >= c / 5,
{
    assert((c * 13108) / 65536 == c / 5) by (bit_vector);
    assert(c * factor >= c * 13108) by (nonlinear_arith)
        requires
            factor >= 13108,
            c >= 0,
    ;
    assert(c * factor >= 0) by (nonlinear_arith)
        requires
            factor >= 0,
            c >= 0,
    ;
}

/// A lit colour is never darker than a fifth of the texture colour, and it
/// is exactly that where the intensity is at or below the least one: on a
/// surface that faces away from the light.
pub proof fn lemma_lit_never_darker(diffuse: Color, intensity: i32)
    ensures
        lit_spec(diffuse, intensity).r >= diffuse.r / 5,
        lit_spec(diffuse, intensity).g >= diffuse.g / 5,
        lit_spec(diffuse, intensity).b >= diffuse.b / 5,
        intensity <= LIGHT_MIN ==> lit_spec(diffuse, intensity) == (Color {
            r: diffuse.r / 5,
            g: diffuse.g / 5,
            b: diffuse.b / 5,
        }),
{
    let factor = clamp_spec(intensity, LIGHT_MIN, LIGHT_MAX);
    lemma_channel_never_darker(diffuse.r, factor);
    lemma_channel_never_darker(diffuse.g, factor);
    lemma_channel_never_darker(diffuse.b, factor);
}

/// A self-luminous body is drawn with its texture as it is, whatever its
/// surface and its normal map.
pub proof fn lemma_luminous_is_unlit(fragment: Fragment, texture: TextureView, map: NormalMapView)
    ensures
        shade_spec(fragment, true, texture, map) == texture.sample(
            fragment.texture_pos.x,
            fragment.texture_pos.y,
        ),
{
}

/// Scales a texture colour by a lighting intensity.
pub fn lit(diffuse: Color, intensity: i32) -> (c: Color)
    ensures
        c == lit_spec(diffuse, intensity),
{
    diffuse * fx_clamp(intensity, LIGHT_MIN, LIGHT_MAX)
}

/// The colour of a fragment: of a self-luminous body the texture colour as
/// it is, of any other the lit texture colour.
pub open spec fn shade_spec(
    fragment: Fragment,
    luminous: bool,
    texture: TextureView,
    normal_map: NormalMapView,
) -> Color {
    let diffuse = texture.sample(fragment.texture_pos.x, fragment.texture_pos.y);
    if luminous {
        diffuse
    } else {
        lit_spec(
            diffuse,
            lighting_spec(
                fragment.normal,
                normal_map.sample(fragment.texture_pos.x, fragment.texture_pos.y),
            ),
        )
    }
}

/// Shades a fragment with resources that were looked up beforehand. The
/// normal map may be missing for a self-luminous body.
pub fn shade(
    fragment: &Fragment,
    luminous: bool,
    texture: &Texture,
    normal_map: Option<&NormalMap>,
) -> (c: Color)
    requires
        !luminous ==> normal_map is Some,
    ensures
        luminous ==> c == texture@.sample(fragment.texture_pos.x, fragment.texture_pos.y),
        normal_map matches Some(map) ==> c == shade_spec(*fragment, luminous, texture@, map@),
{
    let diffuse: Color = texture.sample(fragment.texture_pos.x, fragment.texture_pos.y);
    if luminous {
        diffuse
    } else {
        match normal_map {
            Some(map) => {
                let from_map: Vec3 = map.sample(fragment.texture_pos.x, fragment.texture_pos.y);
                lit(diffuse, lighting(&fragment.normal, &from_map))
            },
            None => vstd::pervasive::unreached(),
        }
    }
}

/// Whether the resources that shading a body's fragments reads are
/// registered: its texture, and its normal map unless it is self-luminous.
pub open spec fn resources_registered(
    uniforms: Uniforms,
    textures: TextureRegistry,
    normal_maps: NormalMapRegistry,
) -> bool {
    &&& textures.wf()
    &&& normal_maps.wf()
    &&& textures@.contains_key(uniforms.celestial_body.id@)
    &&& !uniforms.celestial_body.self_luminous() ==> normal_maps@.contains_key(
        uniforms.celestial_body.id@,
    )
}

/// The colour that the fragment shader gives a fragment of a body whose
/// resources are registered.
pub open spec fn fragment_shader_spec(
    fragment: Fragment,
    uniforms: Uniforms,
    textures: TextureRegistry,
    normal_maps: NormalMapRegistry,
) -> Color {
    shade_spec(
        fragment,
        uniforms.celestial_body.self_luminous(),
        textures@[uniforms.celestial_body.id@]@,
        normal_maps@[uniforms.celestial_body.id@]@,
    )
}

/// The fragment shader: samples the body's texture and, unless the body is
/// self-luminous, lights the sample.
pub fn fragment_shader(
    fragment: &Fragment,
    uniforms: &Uniforms,
    textures: &TextureRegistry,
    normal_maps: &NormalMapRegistry,
) -> (c: Color)
    requires
        resources_registered(*uniforms, *textures, *normal_maps),
    ensures
        c == fragment_shader_spec(*fragment, *uniforms, *textures, *normal_maps),
{
    if !uniforms.celestial_body.is_self_luminous() {
        let intensity: i32 = calculate_lightning(fragment, uniforms, normal_maps);
        let texture_color: Color = get_fragment_texture(fragment, uniforms, textures);
        lit(texture_color, intensity)
    } else {
        let texture_color: Color = get_fragment_texture(fragment, uniforms, textures);
        texture_color
    }
}

/// Samples the body's texture at the fragment's texture coordinate.
pub fn get_fragment_texture(fragment: &Fragment, uniforms: &Uniforms, textures: &TextureRegistry) -> (c:
    Color)
    requires
        textures.wf(),
        textures@.contains_key(uniforms.celestial_body.id@),
    ensures
        c == textures@[uniforms.celestial_body.id@]@.sample(
            fragment.texture_pos.x,
            fragment.texture_pos.y,
        ),
{
    let bid: &str = uniforms.celestial_body.id.as_str();
    let u: i32 = fragment.texture_pos.x;
    let v: i32 = fragment.texture_pos.y;
    let sampler = |texture: &Texture| -> (c: Color)
        ensures
            c == texture@.sample(u, v),
        {
            texture.sample(u, v)
        };
    let base_color: Color = with_texture(textures, bid, sampler);
    base_color
}

/// Computes the lighting intensity of a fragment from its normal and the
/// body's normal map.
pub fn calculate_lightning(
    fragment: &Fragment,
    uniforms: &Uniforms,
    normal_maps: &NormalMapRegistry,
) -> (intensity: i32)
    requires
        normal_maps.wf(),
        normal_maps@.contains_key(uniforms.celestial_body.id@),
    ensures
        intensity == lighting_spec(
            fragment.normal,
            normal_maps@[uniforms.celestial_body.id@]@.sample(
                fragment.texture_pos.x,
                fragment.texture_pos.y,
            ),
        ),
{
    let bid: &str = uniforms.celestial_body.id.as_str();
    let u: i32 = fragment.texture_pos.x;
    let v: i32 = fragment.texture_pos.y;
    let sampler = |normal_map: &NormalMap| -> (n: Vec3)
        ensures
            n == normal_map@.sample(u, v),
        {
            normal_map.sample(u, v)
        };
    let normal_from_map: Vec3 = with_normal_map(normal_maps, bid, sampler);
    lighting(&fragment.normal, &normal_from_map)
}

} // verus!
