//! A colour plane and a depth plane of the same size, written through a
//! per-pixel nearest-wins depth test.
use crate::screen::color::Color;
use vstd::prelude::*;

verus! {

/// The depth of a pixel that nothing has been drawn on: farther than any
/// depth that can win the test.
pub const DEPTH_INFINITY: i32 = i32::MAX;

/// What a framebuffer holds: both planes in row-major order, and the two
/// colours it draws with.
pub struct FramebufferView {
    pub width: nat,
    pub height: nat,
    pub colors: Seq<Color>,
    pub depths: Seq<i32>,
    pub background: Color,
    pub current: Color,
}

impl FramebufferView {
    /// Both planes have one cell for each pixel.
    pub open spec fn wf(self) -> bool {
        &&& self.colors.len() == self.width * self.height
        &&& self.depths.len() == self.width * self.height
        &&& self.width * self.height <= usize::MAX
    }

    /// Whether `(x, y)` names a pixel.
    pub open spec fn contains(self, x: int, y: int) -> bool {
        0 <= x < self.width && 0 <= y < self.height
    }

    /// The place of pixel `(x, y)` in either plane.
    pub open spec fn index(self, x: int, y: int) -> int {
        y * self.width + x
    }

    /// Every pixel the background colour, every depth infinite.
    pub open spec fn clear(self) -> FramebufferView {
        FramebufferView {
            colors: Seq::new(self.colors.len(), |i: int| self.background),
            depths: Seq::new(self.depths.len(), |i: int| DEPTH_INFINITY),
            ..self
        }
    }

    /// Whether a write of `depth` at `(x, y)` passes the depth test.
    pub open spec fn passes(self, x: int, y: int, depth: i32) -> bool {
        self.contains(x, y) && depth < self.depths[self.index(x, y)]
    }

    /// The depth-tested write: the current colour and `depth` are stored at
    /// `(x, y)` if the pixel exists and `depth` is strictly nearer than what
    /// is stored; otherwise nothing changes.
    pub open spec fn point(self, x: int, y: int, depth: i32) -> FramebufferView {
        if self.passes(x, y, depth) {
            FramebufferView {
                colors: self.colors.update(self.index(x, y), self.current),
                depths: self.depths.update(self.index(x, y), depth),
                ..self
            }
        } else {
            self
        }
    }

    /// The colour plane, one packed integer per pixel.
    pub open spec fn export(self) -> Seq<u32> {
        Seq::new(self.colors.len(), |i: int| self.colors[i].to_hex_spec())
    }

    pub open spec fn set_background(self, color: Color) -> FramebufferView {
        FramebufferView { background: color, ..self }
    }

    pub open spec fn set_current(self, color: Color) -> FramebufferView {
        FramebufferView { current: color, ..self }
    }
}

/// A pixel's place in the planes lies inside them.
pub proof fn lemma_index_in_bounds(width: int, height: int, x: int, y: int)
    requires
        0 <= x < width,
        0 <= y < height,
    ensures
        0 <= y * width <= y * width + x < width * height,
{
    assert(y * width + x < width * height) by (nonlinear_arith)
        requires
            0 <= x < width,
            0 <= y < height,
    ;
    assert(0 <= y * width) by (nonlinear_arith)
        requires
            0 <= y,
            0 <= width,
    ;
}

/// The depth test is idempotent: the same write made twice leaves the
/// buffer as the first write left it.
pub proof fn lemma_point_twice(fb: FramebufferView, x: int, y: int, depth: i32)
    requires
        fb.wf(),
    ensures
        fb.point(x, y, depth).point(x, y, depth) == fb.point(x, y, depth),
{
    if fb.contains(x, y) {
        lemma_index_in_bounds(fb.width as int, fb.height as int, x, y);
    }
}

/// Nearest wins: after a write of `near` at a pixel, a write of a depth
/// that is not smaller changes neither plane, whatever colour it draws with.
pub proof fn lemma_point_farther_ignored(
    fb: FramebufferView,
    x: int,
    y: int,
    near: i32,
    far: i32,
    color: Color,
)
    requires
        fb.wf(),
        near <= far,
    ensures
        fb.point(x, y, near).set_current(color).point(x, y, far) == fb.point(
            x,
            y,
            near,
        ).set_current(color),
{
    if fb.contains(x, y) {
        lemma_index_in_bounds(fb.width as int, fb.height as int, x, y);
    }
}

/// A write keeps the buffer well formed, leaves every other pixel alone,
/// and leaves at the pixel the smaller of the stored and the written depth.
pub proof fn lemma_point_keeps_minimum(fb: FramebufferView, x: int, y: int, depth: i32)
    requires
        fb.wf(),
    ensures
        fb.point(x, y, depth).wf(),
        forall|i: int|
            0 <= i < fb.depths.len() && !(fb.contains(x, y) && i == fb.index(x, y)) ==> {
                &&& #[trigger] fb.point(x, y, depth).depths[i] == fb.depths[i]
                &&& fb.point(x, y, depth).colors[i] == fb.colors[i]
            },
        fb.contains(x, y) ==> fb.point(x, y, depth).depths[fb.index(x, y)] == (if depth
            < fb.depths[fb.index(x, y)] {
            depth
        } else {
            fb.depths[fb.index(x, y)]
        }),
        fb.contains(x, y) ==> fb.point(x, y, depth).colors[fb.index(x, y)] == (if depth
            < fb.depths[fb.index(x, y)] {
            fb.current
        } else {
            fb.colors[fb.index(x, y)]
        }),
{
    if fb.contains(x, y) {
        lemma_index_in_bounds(fb.width as int, fb.height as int, x, y);
    }
}

/// A cleared buffer exports the background colour at every pixel.
pub proof fn lemma_clear_then_export(fb: FramebufferView)
    requires
        fb.wf(),
    ensures
        fb.clear().wf(),
        fb.clear().export() == Seq::new(
            fb.width * fb.height,
            |i: int| fb.background.to_hex_spec(),
        ),
{
    assert(fb.clear().export() =~= Seq::new(
        fb.width * fb.height,
        |i: int| fb.background.to_hex_spec(),
    ));
}

/// The framebuffer of one frame.
pub struct Framebuffer {
    width: usize,
    height: usize,
    buffer: Vec<Color>,
    zbuffer: Vec<i32>,
    background_color: Color,
    current_color: Color,
}

impl View for Framebuffer {
    type V = FramebufferView;

    closed spec fn view(&self) -> FramebufferView {
        FramebufferView {
            width: self.width as nat,
            height: self.height as nat,
            colors: self.buffer@,
            depths: self.zbuffer@,
            background: self.background_color,
            current: self.current_color,
        }
    }
}

impl Framebuffer {
    /// A black framebuffer of the given size that draws in white, with every
    /// depth infinite.
    pub fn new(width: usize, height: usize) -> (fb: Framebuffer)
        requires
            width * height <= usize::MAX,
        ensures
            fb@.wf(),
            fb@.width == width,
            fb@.height == height,
            fb@.background == Color::new_spec(0, 0, 0),
            fb@.current == Color::new_spec(255, 255, 255),
            fb@.colors == Seq::new((width * height) as nat, |i: int| Color::new_spec(0, 0, 0)),
            fb@.depths == Seq::new((width * height) as nat, |i: int| DEPTH_INFINITY),
    {
        let black: Color = Color::new(0, 0, 0);
        let white: Color = Color::new(255, 255, 255);
        let buffer_size: usize = width * height;
        let buffer: Vec<Color> = vec![black; buffer_size];
        let zbuffer: Vec<i32> = vec![DEPTH_INFINITY; buffer_size];
        assert(buffer@ =~= Seq::new((width * height) as nat, |i: int| Color::new_spec(0, 0, 0)));
        assert(zbuffer@ =~= Seq::new((width * height) as nat, |i: int| DEPTH_INFINITY));
        Framebuffer {
            width,
            height,
            buffer,
            zbuffer,
            background_color: black,
            current_color: white,
        }
    }

    pub fn width(&self) -> (w: usize)
        ensures
            w == self@.width,
    {
        self.width
    }

    pub fn height(&self) -> (h: usize)
        ensures
            h == self@.height,
    {
        self.height
    }

    /// The colour at `(x, y)`, or `None` outside the buffer.
    pub fn pixel(&self, x: usize, y: usize) -> (c: Option<Color>)
        requires
            self@.wf(),
        ensures
            c == (if self@.contains(x as int, y as int) {
                Some(self@.colors[self@.index(x as int, y as int)])
            } else {
                None
            }),
    {
        if x < self.width && y < self.height {
            proof {
                lemma_index_in_bounds(self.width as int, self.height as int, x as int, y as int);
            }
            Some(self.buffer[y * self.width + x])
        } else {
            None
        }
    }

    /// The depth stored at `(x, y)`, or `None` outside the buffer.
    pub fn depth(&self, x: usize, y: usize) -> (d: Option<i32>)
        requires
            self@.wf(),
        ensures
            d == (if self@.contains(x as int, y as int) {
                Some(self@.depths[self@.index(x as int, y as int)])
            } else {
                None
            }),
    {
        if x < self.width && y < self.height {
            proof {
                lemma_index_in_bounds(self.width as int, self.height as int, x as int, y as int);
            }
            Some(self.zbuffer[y * self.width + x])
        } else {
            None
        }
    }

    /// Resets every pixel to the background colour and every depth to
    /// infinity.
    pub fn clear(&mut self)
        requires
            old(self)@.wf(),
        ensures
            final(self)@ == old(self)@.clear(),
            final(self)@.wf(),
    {
        let n: usize = self.buffer.len();
        let mut i: usize = 0;
        while i < n
            invariant
                i <= n,
                n == self.buffer@.len(),
                n == self.zbuffer@.len(),
                n == self.width * self.height,
                self.width == old(self).width,
                self.height == old(self).height,
                self.background_color == old(self).background_color,
                self.current_color == old(self).current_color,
                forall|j: int| 0 <= j < i ==> self.buffer@[j] == self.background_color,
                forall|j: int| 0 <= j < i ==> self.zbuffer@[j] == DEPTH_INFINITY,
            decreases n - i,
        {
            self.buffer.set(i, self.background_color);
            self.zbuffer.set(i, DEPTH_INFINITY);
            i += 1;
        }
        assert(self.buffer@ =~= old(self)@.clear().colors);
        assert(self.zbuffer@ =~= old(self)@.clear().depths);
    }

    /// Draws the current colour at `(x, y)` if `depth` is strictly nearer
    /// than the depth stored there, and stores `depth`; a pixel outside the
    /// buffer is ignored.
    pub fn point(&mut self, x: usize, y: usize, depth: i32)
        requires
            old(self)@.wf(),
        ensures
            final(self)@ == old(self)@.point(x as int, y as int, depth),
            final(self)@.wf(),
    {
        if x < self.width && y < self.height {
            proof {
                lemma_index_in_bounds(self.width as int, self.height as int, x as int, y as int);
            }
            let index: usize = y * self.width + x;
            if self.zbuffer[index] > depth {
                self.buffer.set(index, self.current_color);
                self.zbuffer.set(index, depth);
            }
        }
    }

    /// The colour plane packed for display, one integer per pixel in
    /// row-major order.
    pub fn color_array_to_u32(&self) -> (out: Vec<u32>)
        requires
            self@.wf(),
        ensures
            out@ == self@.export(),
    {
        let n: usize = self.buffer.len();
        let mut out: Vec<u32> = Vec::with_capacity(n);
        let mut i: usize = 0;
        while i < n
            invariant
                i <= n,
                n == self.buffer@.len(),
                out@.len() == i,
                forall|j: int| 0 <= j < i ==> out@[j] == self.buffer@[j].to_hex_spec(),
            decreases n - i,
        {
            out.push(self.buffer[i].to_hex());
            i += 1;
        }
        assert(out@ =~= self@.export());
        out
    }

    pub fn set_bgcolor(&mut self, color: u32)
        requires
            old(self)@.wf(),
        ensures
            final(self)@ == old(self)@.set_background(Color::from_hex_spec(color)),
            final(self)@.wf(),
    {
        self.background_color = Color::from_hex(color);
    }

    pub fn set_current_color(&mut self, color: u32)
        requires
            old(self)@.wf(),
        ensures
            final(self)@ == old(self)@.set_current(Color::from_hex_spec(color)),
            final(self)@.wf(),
    {
        self.current_color = Color::from_hex(color);
    }
}

} // verus!
