//! Diffuse textures: a grid of colours sampled with wrap-around
//! coordinates, and the registry that a scene keeps them in.
use crate::fixed::ONE;
use crate::registry::Registry;
use crate::screen::color::Color;
use vstd::prelude::*;

verus! {

/// An image of the `image` crate, in whichever pixel format it was decoded.
#[verifier::external_type_specification]
#[verifier::external_body]
pub struct ExDynamicImage(image::DynamicImage);

/// The width in pixels of an image converted to 8-bit RGBA.
pub uninterp spec fn rgba_width(image: image::DynamicImage) -> nat;

/// The height in pixels of an image converted to 8-bit RGBA.
pub uninterp spec fn rgba_height(image: image::DynamicImage) -> nat;

/// The samples of an image converted to 8-bit RGBA: row by row from the
/// top, four samples to a pixel.
pub uninterp spec fn rgba_samples(image: image::DynamicImage) -> Seq<u8>;

/// Converts an image to 8-bit RGBA with `DynamicImage::to_rgba8`, and takes
/// the size (`ImageBuffer::dimensions`) and the samples
/// (`ImageBuffer::into_raw`) of the result. The three are named, not
/// described: nothing is claimed of them but that they depend on the image
/// alone.
#[verifier::external_body]
pub(crate) fn to_rgba(image: &image::DynamicImage) -> (r: (u32, u32, Vec<u8>))
    ensures
        r.0 == rgba_width(*image),
        r.1 == rgba_height(*image),
        r.2@ == rgba_samples(*image),
{
    let buffer = image.to_rgba8();
    let (width, height): (u32, u32) = buffer.dimensions();
    (width, height, buffer.into_raw())
}

/// Why pixel data makes no texture or normal map.
#[derive(Clone, Copy, Debug, PartialEq, Eq, Structural)]
pub enum LoadError {
    /// The image has no pixels.
    Empty,
    /// There are fewer samples than four for each pixel.
    Truncated,
}

/// Whether pixel data of the given size can be loaded, and if not, why.
pub open spec fn check_pixels(width: u32, height: u32, samples: Seq<u8>) -> Result<(), LoadError> {
    if width == 0 || height == 0 {
        Err(LoadError::Empty)
    } else if samples.len() < 4 * (width * height) {
        Err(LoadError::Truncated)
    } else {
        Ok(())
    }
}

/// The distance of a coordinate from the whole number next to it towards
/// zero, as a stored integer in `0..ONE`: the wrap-around part of the
/// coordinate.
pub open spec fn wrap_spec(t: i32) -> int {
    (if t < 0 {
        -t
    } else {
        t as int
    }) % (ONE as int)
}

/// The column or row that a coordinate falls in, of `cells` columns or rows.
pub open spec fn cell_spec(t: i32, cells: int) -> int {
    (wrap_spec(t) * cells) / (ONE as int)
}

/// The place in a row-major grid of the cell that `(u, v)` samples: `u`
/// picks the column, `v` the row counted from the bottom.
pub open spec fn sample_index_spec(width: int, height: int, u: i32, v: i32) -> int {
    (height - cell_spec(v, height) - 1) * width + cell_spec(u, width)
}

/// A coordinate picks one of the cells.
pub proof fn lemma_cell_in_range(t: i32, cells: int)
    requires
        cells > 0,
    ensures
        0 <= cell_spec(t, cells) < cells,
{
    let f = wrap_spec(t);
    assert(0 <= f < 65536);
    assert(0 <= f * cells < 65536 * cells) by (nonlinear_arith)
        requires
            0 <= f < 65536,
            cells > 0,
    ;
}

/// A sample picks one of the cells of the grid.
pub proof fn lemma_sample_index_in_range(width: int, height: int, u: i32, v: i32)
    requires
        width > 0,
        height > 0,
    ensures
        0 <= sample_index_spec(width, height, u, v) < width * height,
{
    lemma_cell_in_range(u, width);
    lemma_cell_in_range(v, height);
    let row = height - cell_spec(v, height) - 1;
    let col = cell_spec(u, width);
    assert(0 <= row * width + col < width * height) by (nonlinear_arith)
        requires
            0 <= row < height,
            0 <= col < width,
    ;
}

/// Sampling repeats with period one: a coordinate and the coordinate one
/// further sample the same cell.
pub proof fn lemma_sample_repeats(width: int, height: int, u: i32, v: i32)
    requires
        0 <= u <= i32::MAX - ONE,
        0 <= v <= i32::MAX - ONE,
    ensures
        sample_index_spec(width, height, (u + ONE) as i32, v) == sample_index_spec(
            width,
            height,
            u,
            v,
        ),
        sample_index_spec(width, height, u, (v + ONE) as i32) == sample_index_spec(
            width,
            height,
            u,
            v,
        ),
{
}

/// Sampling is mirrored at zero: a coordinate and its negative sample the
/// same cell.
pub proof fn lemma_sample_mirrors(width: int, height: int, u: i32, v: i32)
    requires
        i32::MIN < u,
        i32::MIN < v,
    ensures
        sample_index_spec(width, height, (-u) as i32, v) == sample_index_spec(
            width,
            height,
            u,
            v,
        ),
        sample_index_spec(width, height, u, (-v) as i32) == sample_index_spec(
            width,
            height,
            u,
            v,
        ),
{
}

fn cell(t: i32, cells: u32) -> (c: u32)
    requires
        cells > 0,
    ensures
        c == cell_spec(t, cells as int),
        c < cells,
{
    let magnitude: i64 = if t < 0 {
        -(t as i64)
    } else {
        t as i64
    };
    let fraction: u64 = (magnitude % 65536) as u64;
    proof {
        lemma_cell_in_range(t, cells as int);
    }
    assert(fraction * cells < 0x1_0000_0000_0000) by (nonlinear_arith)
        requires
            fraction < 0x1_0000,
            cells < 0x1_0000_0000,
    ;
    ((fraction * (cells as u64)) / 65536) as u32
}

/// Computes the place of the cell that `(u, v)` samples.
pub fn sample_index(width: u32, height: u32, u: i32, v: i32) -> (i: usize)
    requires
        width > 0,
        height > 0,
        width * height <= usize::MAX,
    ensures
        i == sample_index_spec(width as int, height as int, u, v),
        i < width * height,
{
    let x: u32 = cell(u, width);
    let y: u32 = cell(v, height);
    proof {
        lemma_sample_index_in_range(width as int, height as int, u, v);
    }
    let row: usize = (height - y - 1) as usize;
    assert(row * width <= row * width + x) by (nonlinear_arith)
        requires
            0 <= row,
            0 <= width,
            0 <= x,
    ;
    row * (width as usize) + (x as usize)
}

/// What a texture holds: its size and its colours, row by row from the top.
pub struct TextureView {
    pub width: nat,
    pub height: nat,
    pub texels: Seq<Color>,
}

impl TextureView {
    /// The grid is not empty and has one colour for each cell.
    pub open spec fn wf(self) -> bool {
        &&& self.width > 0
        &&& self.height > 0
        &&& self.texels.len() == self.width * self.height
    }

    /// The colour that `(u, v)` samples.
    pub open spec fn sample(self, u: i32, v: i32) -> Color {
        self.texels[sample_index_spec(self.width as int, self.height as int, u, v)]
    }
}

/// The colour of pixel `i` of RGBA samples: its first three samples.
pub open spec fn texel_of(samples: Seq<u8>, i: int) -> Color {
    Color { r: samples[4 * i], g: samples[4 * i + 1], b: samples[4 * i + 2] }
}

/// The texture that RGBA samples of the given size make.
pub open spec fn texture_of(width: u32, height: u32, samples: Seq<u8>) -> TextureView {
    TextureView {
        width: width as nat,
        height: height as nat,
        texels: Seq::new((width * height) as nat, |i: int| texel_of(samples, i)),
    }
}

/// A diffuse texture.
#[derive(Debug)]
pub struct Texture {
    width: u32,
    height: u32,
    data: Vec<Color>,
}

impl View for Texture {
    type V = TextureView;

    closed spec fn view(&self) -> TextureView {
        TextureView { width: self.width as nat, height: self.height as nat, texels: self.data@ }
    }
}

impl Texture {
    #[verifier::type_invariant]
    spec fn inv(self) -> bool {
        &&& self.width > 0
        &&& self.height > 0
        &&& self.data@.len() == self.width * self.height
        &&& self.width * self.height <= usize::MAX
    }

    /// Builds a texture from a decoded image: it is converted to 8-bit RGBA
    /// and each pixel's alpha is dropped.
    pub fn new(image: &image::DynamicImage) -> (r: Result<Texture, LoadError>)
        ensures
            match r {
                Ok(texture) => {
                    &&& check_pixels(
                        rgba_width(*image) as u32,
                        rgba_height(*image) as u32,
                        rgba_samples(*image),
                    ) is Ok
                    &&& texture@ == texture_of(
                        rgba_width(*image) as u32,
                        rgba_height(*image) as u32,
                        rgba_samples(*image),
                    )
                    &&& texture@.wf()
                },
                Err(e) => check_pixels(
                    rgba_width(*image) as u32,
                    rgba_height(*image) as u32,
                    rgba_samples(*image),
                ) == Err::<(), LoadError>(e),
            },
    {
        let (width, height, samples): (u32, u32, Vec<u8>) = to_rgba(image);
        Texture::from_rgba(width, height, samples.as_slice())
    }

    /// Builds a texture of `width` by `height` pixels from RGBA samples,
    /// four to a pixel, row by row from the top. Samples beyond the last
    /// pixel are ignored.
    pub fn from_rgba(width: u32, height: u32, samples: &[u8]) -> (r: Result<Texture, LoadError>)
        ensures
            match r {
                Ok(texture) => {
                    &&& check_pixels(width, height, samples@) is Ok
                    &&& texture@ == texture_of(width, height, samples@)
                    &&& texture@.wf()
                },
                Err(e) => check_pixels(width, height, samples@) == Err::<(), LoadError>(e),
            },
    {
        if width == 0 || height == 0 {
            return Err(LoadError::Empty);
        }
        assert(0 < width * height <= 0xffff_ffff * 0xffff_ffff) by (nonlinear_arith)
            requires
                0 < width <= 0xffff_ffff,
                0 < height <= 0xffff_ffff,
        ;
        let needed: u128 = 4 * ((width as u128) * (height as u128));
        if (samples.len() as u128) < needed {
            return Err(LoadError::Truncated);
        }
        let pixels: usize = (needed / 4) as usize;
        let mut data: Vec<Color> = Vec::with_capacity(pixels);
        let mut i: usize = 0;
        while i < pixels
            invariant
                i <= pixels,
                pixels == width * height,
                4 * pixels <= samples@.len() <= usize::MAX,
                data@.len() == i,
                forall|j: int| 0 <= j < i ==> data@[j] == texel_of(samples@, j),
            decreases pixels - i,
        {
            let r: u8 = samples[4 * i];
            let g: u8 = samples[4 * i + 1];
            let b: u8 = samples[4 * i + 2];
            data.push(Color::new(r as i32, g as i32, b as i32));
            i += 1;
        }
        assert(data@ =~= texture_of(width, height, samples@).texels);
        Ok(Texture { width, height, data })
    }

    pub fn width(&self) -> (w: u32)
        ensures
            w == self@.width,
    {
        self.width
    }

    pub fn height(&self) -> (h: u32)
        ensures
            h == self@.height,
    {
        self.height
    }

    /// Samples the texture at `(u, v)`. Only the fractional parts of the
    /// coordinates count, so the texture repeats; `v` runs from the bottom
    /// row upwards.
    pub fn sample(&self, u: i32, v: i32) -> (c: Color)
        ensures
            c == self@.sample(u, v),
            self@.wf(),
    {
        proof {
            use_type_invariant(self);
        }
        let index: usize = sample_index(self.width, self.height, u, v);
        self.data[index]
    }
}

/// The textures of a scene, by identifier.
pub type TextureRegistry = Registry<Texture>;

/// Builds a texture from a decoded image and registers it under `id`. An
/// image that makes no texture leaves the registry as it was.
pub fn init_texture(registry: &mut TextureRegistry, id: &str, image: &image::DynamicImage) -> (r:
    Result<(), LoadError>)
    requires
        old(registry).wf(),
    ensures
        final(registry).wf(),
        r == check_pixels(
            rgba_width(*image) as u32,
            rgba_height(*image) as u32,
            rgba_samples(*image),
        ),
        r is Err ==> final(registry)@ == old(registry)@,
        r is Ok ==> {
            &&& final(registry)@.dom() == old(registry)@.dom().insert(id@)
            &&& final(registry)@[id@]@ == texture_of(
                rgba_width(*image) as u32,
                rgba_height(*image) as u32,
                rgba_samples(*image),
            )
            &&& forall|other: Seq<char>|
                other != id@ && old(registry)@.contains_key(other) ==> final(registry)@[other]
                    == old(registry)@[other]
        },
{
    match Texture::new(image) {
        Ok(texture) => {
            registry.insert(id, texture);
            Ok(())
        },
        Err(e) => Err(e),
    }
}

/// Applies `f` to the texture registered under `id`.
pub fn with_texture<F: FnOnce(&Texture) -> Color>(registry: &TextureRegistry, id: &str, f: F) -> (c:
    Color)
    requires
        registry.wf(),
        registry@.contains_key(id@),
        f.requires((&registry@[id@],)),
    ensures
        f.ensures((&registry@[id@],), c),
{
    match registry.get(id) {
        Some(texture) => f(texture),
        None => vstd::pervasive::unreached(),
    }
}

} // verus!
