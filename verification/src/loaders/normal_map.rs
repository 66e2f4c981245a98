//! Normal maps: a grid of unit directions decoded from the colours of an
//! image, sampled like a texture.
use crate::fixed::ONE;
use crate::registry::Registry;
use crate::texture::{
    check_pixels, rgba_height, rgba_samples, rgba_width, sample_index, sample_index_spec, to_rgba,
    LoadError,
};
use crate::vector::Vec3;
use vstd::prelude::*;

verus! {

/// The scalar that a colour channel stands for: 0 is minus one and 255 is
/// one.
pub open spec fn channel_direction(p: u8) -> i32 {
    ((p * 2 * ONE) / 255 - ONE) as i32
}

fn direction_of_channel(p: u8) -> (d: i32)
    ensures
        d == channel_direction(p),
{
    (((p as i32) * 131072) / 255) - 65536
}

/// The direction that pixel `i` of RGBA samples stands for, scaled to unit
/// length.
pub open spec fn normal_of(samples: Seq<u8>, i: int) -> Vec3 {
    Vec3 {
        x: channel_direction(samples[4 * i]),
        y: channel_direction(samples[4 * i + 1]),
        z: channel_direction(samples[4 * i + 2]),
    }.normalize_spec()
}

/// What a normal map holds: its size and its directions, row by row from
/// the top.
pub struct NormalMapView {
    pub width: nat,
    pub height: nat,
    pub normals: Seq<Vec3>,
}

impl NormalMapView {
    /// The grid is not empty and has one direction for each cell.
    pub open spec fn wf(self) -> bool {
        &&& self.width > 0
        &&& self.height > 0
        &&& self.normals.len() == self.width * self.height
    }

    /// The direction that `(u, v)` samples.
    pub open spec fn sample(self, u: i32, v: i32) -> Vec3 {
        self.normals[sample_index_spec(self.width as int, self.height as int, u, v)]
    }
}

/// The normal map that RGBA samples of the given size make.
pub open spec fn normal_map_of(width: u32, height: u32, samples: Seq<u8>) -> NormalMapView {
    NormalMapView {
        width: width as nat,
        height: height as nat,
        normals: Seq::new((width * height) as nat, |i: int| normal_of(samples, i)),
    }
}

/// A tangent-space normal map.
#[derive(Debug)]
pub struct NormalMap {
    width: u32,
    height: u32,
    data: Vec<Vec3>,
}

impl View for NormalMap {
    type V = NormalMapView;

    closed spec fn view(&self) -> NormalMapView {
        NormalMapView { width: self.width as nat, height: self.height as nat, normals: self.data@ }
    }
}

impl NormalMap {
    #[verifier::type_invariant]
    spec fn inv(self) -> bool {
        &&& self.width > 0
        &&& self.height > 0
        &&& self.data@.len() == self.width * self.height
        &&& self.width * self.height <= usize::MAX
    }

    /// Builds a normal map from a decoded image: it is converted to 8-bit
    /// RGBA, and red, green and blue become the three components of a
    /// direction.
    pub fn new(image: &image::DynamicImage) -> (r: Result<NormalMap, LoadError>)
        ensures
            match r {
                Ok(map) => {
                    &&& check_pixels(
                        rgba_width(*image) as u32,
                        rgba_height(*image) as u32,
                        rgba_samples(*image),
                    ) is Ok
                    &&& map@ == normal_map_of(
                        rgba_width(*image) as u32,
                        rgba_height(*image) as u32,
                        rgba_samples(*image),
                    )
                    &&& map@.wf()
                },
                Err(e) => check_pixels(
                    rgba_width(*image) as u32,
                    rgba_height(*image) as u32,
                    rgba_samples(*image),
                ) == Err::<(), LoadError>(e),
            },
    {
        let (width, height, samples): (u32, u32, Vec<u8>) = to_rgba(image);
        NormalMap::from_rgba(width, height, samples.as_slice())
    }

    /// Builds a normal map of `width` by `height` pixels from RGBA samples,
    /// four to a pixel, row by row from the top. Samples beyond the last
    /// pixel are ignored.
    pub fn from_rgba(width: u32, height: u32, samples: &[u8]) -> (r: Result<NormalMap, LoadError>)
        ensures
            match r {
                Ok(map) => {
                    &&& check_pixels(width, height, samples@) is Ok
                    &&& map@ == normal_map_of(width, height, samples@)
                    &&& map@.wf()
                },
                Err(e) => check_pixels(width, height, samples@) == Err::<(), LoadError>(e),
            },
    {
        if width == 0 || height == 0 {
            return Err(LoadError::Empty);
        }
        assert(0 < width * height <= 0xffff_ffff * 0xffff_ffff) by (nonlinear_arith)
            requires
                0 < width <= 0xffff_ffff,
                0 < height <= 0xffff_ffff,
        ;
        let needed: u128 = 4 * ((width as u128) * (height as u128));
        if (samples.len() as u128) < needed {
            return Err(LoadError::Truncated);
        }
        let pixels: usize = (needed / 4) as usize;
        let mut data: Vec<Vec3> = Vec::with_capacity(pixels);
        let mut i: usize = 0;
        while i < pixels
            invariant
                i <= pixels,
                pixels == width * height,
                4 * pixels <= samples@.len() <= usize::MAX,
                data@.len() == i,
                forall|j: int| 0 <= j < i ==> data@[j] == normal_of(samples@, j),
            decreases pixels - i,
        {
            let x: i32 = direction_of_channel(samples[4 * i]);
            let y: i32 = direction_of_channel(samples[4 * i + 1]);
            let z: i32 = direction_of_channel(samples[4 * i + 2]);
            data.push(Vec3::new(x, y, z).normalize());
            i += 1;
        }
        assert(data@ =~= normal_map_of(width, height, samples@).normals);
        Ok(NormalMap { width, height, data })
    }

    pub fn width(&self) -> (w: u32)
        ensures
            w == self@.width,
    {
        self.width
    }

    pub fn height(&self) -> (h: u32)
        ensures
            h == self@.height,
    {
        self.height
    }

    /// Samples the map at `(u, v)`, as a texture is sampled.
    pub fn sample(&self, u: i32, v: i32) -> (n: Vec3)
        ensures
            n == self@.sample(u, v),
            self@.wf(),
    {
        proof {
            use_type_invariant(self);
        }
        let index: usize = sample_index(self.width, self.height, u, v);
        self.data[index]
    }
}

/// The normal maps of a scene, by identifier.
pub type NormalMapRegistry = Registry<NormalMap>;

/// Builds a normal map from a decoded image and registers it under `id`. An
/// image that makes no normal map leaves the registry as it was.
pub fn init_normal_map(
    registry: &mut NormalMapRegistry,
    id: &str,
    image: &image::DynamicImage,
) -> (r: Result<(), LoadError>)
    requires
        old(registry).wf(),
    ensures
        final(registry).wf(),
        r == check_pixels(
            rgba_width(*image) as u32,
            rgba_height(*image) as u32,
            rgba_samples(*image),
        ),
        r is Err ==> final(registry)@ == old(registry)@,
        r is Ok ==> {
            &&& final(registry)@.dom() == old(registry)@.dom().insert(id@)
            &&& final(registry)@[id@]@ == normal_map_of(
                rgba_width(*image) as u32,
                rgba_height(*image) as u32,
                rgba_samples(*image),
            )
            &&& forall|other: Seq<char>|
                other != id@ && old(registry)@.contains_key(other) ==> final(registry)@[other]
                    == old(registry)@[other]
        },
{
    match NormalMap::new(image) {
        Ok(map) => {
            registry.insert(id, map);
            Ok(())
        },
        Err(e) => Err(e),
    }
}

/// Applies `f` to the normal map registered under `id`.
pub fn with_normal_map<F: FnOnce(&NormalMap) -> Vec3>(
    registry: &NormalMapRegistry,
    id: &str,
    f: F,
) -> (n: Vec3)
    requires
        registry.wf(),
        registry@.contains_key(id@),
        f.requires((&registry@[id@],)),
    ensures
        f.ensures((&registry@[id@],), n),
{
    match registry.get(id) {
        Some(map) => f(map),
        None => vstd::pervasive::unreached(),
    }
}

} // verus!
