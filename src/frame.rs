//! The decoration frame: four corner elements laid out around the parent
//! surface, each centred on one corner of it.
use crate::buffer::{byte_len, fill_result, BufferError, PixelBuffer, MAX_BUFFER_BYTES};
use vstd::prelude::*;

verus! {

/// Which corner of the parent a corner element sits on.
#[derive(Debug, Clone, Copy, PartialEq, Eq, Structural)]
pub enum DiagOrientation {
    TopLeft,
    TopRight,
    BottomLeft,
    BottomRight,
}

/// Which edge of the parent an edge element sits on.
#[derive(Debug, Clone, Copy, PartialEq, Eq, Structural)]
pub enum Orientation {
    Top,
    Left,
    Right,
    Bottom,
}

/// Where a decoration element is anchored on its parent.
#[derive(Debug, Clone, Copy, PartialEq, Eq, Structural)]
pub enum Dir {
    Diagonal(DiagOrientation),
    Cardinal(Orientation),
}

/// The flags of a corner: 0 on the top or left side, 1 on the bottom or
/// right side, horizontal flag first.
pub open spec fn diag_flags(d: DiagOrientation) -> (int, int) {
    match d {
        DiagOrientation::TopLeft => (0, 0),
        DiagOrientation::TopRight => (1, 0),
        DiagOrientation::BottomLeft => (0, 1),
        DiagOrientation::BottomRight => (1, 1),
    }
}

/// The anchor of an edge in halves of the parent's dimensions: 0 at the
/// top or left, 1 at the middle, 2 at the bottom or right.
pub open spec fn edge_halves(o: Orientation) -> (int, int) {
    match o {
        Orientation::Top => (1, 0),
        Orientation::Left => (0, 1),
        Orientation::Right => (2, 1),
        Orientation::Bottom => (1, 2),
    }
}

/// Half of `c`, rounded toward zero.
pub open spec fn half_toward_zero(c: int) -> int {
    if c >= 0 {
        c / 2
    } else {
        -((-c) / 2)
    }
}

/// Scales one coordinate of the parent by an anchor component.
pub open spec fn scale_halves(halves: int, c: int) -> int {
    if halves == 0 {
        0
    } else if halves == 1 {
        half_toward_zero(c)
    } else {
        c
    }
}

/// The point of the parent that an element anchored at `dir` is placed on,
/// for a parent of size `(w, h)`.
pub open spec fn anchor_point(dir: Dir, w: int, h: int) -> (int, int) {
    match dir {
        Dir::Diagonal(d) => (
            if diag_flags(d).0 == 0 { 0 } else { w },
            if diag_flags(d).1 == 0 { 0 } else { h },
        ),
        Dir::Cardinal(o) => (scale_halves(edge_halves(o).0, w), scale_halves(edge_halves(o).1, h)),
    }
}

/// The offset of an element of side `padding` anchored at `dir`, relative to
/// the top-left corner of a parent of size `(w, h)`: the element is centred
/// on its anchor point.
pub open spec fn element_offset(dir: Dir, w: int, h: int, padding: int) -> (int, int) {
    (anchor_point(dir, w, h).0 - padding / 2, anchor_point(dir, w, h).1 - padding / 2)
}

impl DiagOrientation {
    /// The horizontal and vertical flag of this corner.
    pub fn vector(&self) -> (r: [i32; 2])
        ensures
            r@.len() == 2,
            r@[0] == diag_flags(*self).0,
            r@[1] == diag_flags(*self).1,
    {
        match *self {
            DiagOrientation::TopLeft => [0, 0],
            DiagOrientation::TopRight => [1, 0],
            DiagOrientation::BottomLeft => [0, 1],
            DiagOrientation::BottomRight => [1, 1],
        }
    }
}

impl DiagOrientation {
    /// The name of the cursor image shown over this corner.
    pub fn cursor_name(&self) -> (r: &'static str)
        ensures
            r@ == match *self {
                DiagOrientation::TopLeft => "top_left_corner"@,
                DiagOrientation::TopRight => "top_right_corner"@,
                DiagOrientation::BottomLeft => "bottom_left_corner"@,
                DiagOrientation::BottomRight => "bottom_right_corner"@,
            },
    {
        match *self {
            DiagOrientation::TopLeft => "top_left_corner",
            DiagOrientation::TopRight => "top_right_corner",
            DiagOrientation::BottomLeft => "bottom_left_corner",
            DiagOrientation::BottomRight => "bottom_right_corner",
        }
    }
}

impl Orientation {
    /// The anchor of this edge, in halves of the parent's dimensions.
    pub fn vector(&self) -> (r: [i32; 2])
        ensures
            r@.len() == 2,
            r@[0] == edge_halves(*self).0,
            r@[1] == edge_halves(*self).1,
    {
        match self {
            Orientation::Top => [1, 0],
            Orientation::Left => [0, 1],
            Orientation::Right => [2, 1],
            Orientation::Bottom => [1, 2],
        }
    }
}

fn flag_coord(flag: i32, c: i32) -> (r: i32)
    requires
        0 <= flag <= 1,
    ensures
        r == (if flag == 0 { 0 } else { c }),
{
    if flag == 0 {
        0
    } else {
        c
    }
}

fn scale_coord(halves: i32, c: i32) -> (r: i32)
    requires
        0 <= halves <= 2,
    ensures
        r == scale_halves(halves as int, c as int),
{
    if halves == 0 {
        0
    } else if halves == 1 {
        if c >= 0 {
            c / 2
        } else {
            -((-(c as i64)) / 2) as i32
        }
    } else {
        c
    }
}

impl Dir {
    /// The point of a parent of size `coords` that an element anchored here
    /// is placed on.
    pub fn translate_coords(&self, coords: [i32; 2]) -> (r: [i32; 2])
        ensures
            r@.len() == 2,
            r@[0] == anchor_point(*self, coords@[0] as int, coords@[1] as int).0,
            r@[1] == anchor_point(*self, coords@[0] as int, coords@[1] as int).1,
    {
        match self {
            Dir::Diagonal(diag) => {
                let v = diag.vector();
                [flag_coord(v[0], coords[0]), flag_coord(v[1], coords[1])]
            },
            Dir::Cardinal(card) => {
                let v = card.vector();
                [scale_coord(v[0], coords[0]), scale_coord(v[1], coords[1])]
            },
        }
    }
}

/// The byte every pixel of a decoration element is filled with: opaque white.
pub const BORDER_FILL: u8 = 0xff;

/// One decorative element of the frame: where it sits relative to the
/// parent's top-left corner, its size in pixels, and its anchor.
#[derive(Debug, Clone, Copy)]
pub struct XdgWindowBorder {
    pub pos: (i32, i32),
    pub size: (u32, u32),
    pub dir: Dir,
}

impl XdgWindowBorder {
    /// An element anchored at `dir`, placed at `pos`, of the given size.
    pub fn new(pos: (i32, i32), size: (u32, u32), dir: Dir) -> (r: Self)
        ensures
            r == (XdgWindowBorder { pos, size, dir }),
    {
        XdgWindowBorder { pos, size, dir }
    }

    /// Places the element at `(x, y)` relative to its parent.
    pub fn move_(&mut self, x: i32, y: i32)
        ensures
            *final(self) == (XdgWindowBorder { pos: (x, y), ..*old(self) }),
    {
        self.pos = (x, y);
    }

    /// The element's pixels: a buffer of its size filled with
    /// `BORDER_FILL`, or why no such buffer can be had.
    pub fn render(&self) -> (r: Result<PixelBuffer, BufferError>)
        ensures
            fill_result(r, self.size.0 as int, self.size.1 as int, BORDER_FILL),
    {
        let (w, h) = self.size;
        if w == 0 || h == 0 {
            return Err(BufferError::EmptySize);
        }
        if w > 0x7fff_ffff || h > 0x7fff_ffff {
            assert(byte_len(w as int, h as int) > MAX_BUFFER_BYTES) by (nonlinear_arith)
                requires
                    w >= 1,
                    h >= 1,
                    w > 0x7fff_ffff || h > 0x7fff_ffff,
            ;
            return Err(BufferError::TooLarge);
        }
        PixelBuffer::filled(w as i32, h as i32, BORDER_FILL)
    }

    /// Gives the element a new size. Its pixels are drawn again only when
    /// the size changed: the result is then `Some` of the new rendering,
    /// and `None` when the size stayed as it was. When no buffer can be had
    /// for the new size, the element keeps its old size, so a later resize
    /// to that size tries again.
    pub fn resize(&mut self, width: u32, height: u32) -> (r: Option<Result<PixelBuffer, BufferError>>)
        ensures
            r is None <==> old(self).size == (width, height),
            r matches Some(x) ==> fill_result(x, width as int, height as int, BORDER_FILL),
            r matches Some(Err(_)) ==> *final(self) == *old(self),
            !(r matches Some(Err(_))) ==> *final(self) == (XdgWindowBorder {
                size: (width, height),
                ..*old(self)
            }),
    {
        if self.size.0 == width && self.size.1 == height {
            return None;
        }
        let resized = XdgWindowBorder { size: (width, height), ..*self };
        let drawn = resized.render();
        if drawn.is_ok() {
            self.size = (width, height);
        }
        Some(drawn)
    }
}

/// The corner that the element at index `i` of a frame sits on.
pub open spec fn corner_at(i: int) -> DiagOrientation {
    if i == 0 {
        DiagOrientation::TopLeft
    } else if i == 1 {
        DiagOrientation::TopRight
    } else if i == 2 {
        DiagOrientation::BottomLeft
    } else {
        DiagOrientation::BottomRight
    }
}

/// Element `b` placed around a parent of size `(w, h)` by its own anchor,
/// with the padding as its side.
pub open spec fn placed(b: XdgWindowBorder, padding: u32, w: int, h: int) -> XdgWindowBorder {
    let off = element_offset(b.dir, w, h, padding as int);
    XdgWindowBorder { pos: (off.0 as i32, off.1 as i32), size: (padding, padding), dir: b.dir }
}

/// The elements `c`, each placed around a parent of size `(w, h)` by its
/// own anchor.
pub open spec fn placed_corners(c: Seq<XdgWindowBorder>, padding: u32, w: int, h: int) -> Seq<XdgWindowBorder> {
    Seq::new(c.len(), |i: int| placed(c[i], padding, w, h))
}

/// The corners of a new frame with the given padding: each at the parent's
/// origin, in the order top-left, top-right, bottom-left, bottom-right.
pub open spec fn initial_corners(padding: u32) -> Seq<XdgWindowBorder> {
    Seq::new(
        4,
        |i: int| XdgWindowBorder { pos: (0, 0), size: (padding, padding), dir: Dir::Diagonal(corner_at(i)) },
    )
}

/// The four corner elements that decorate a window, each a square whose side
/// is the padding.
#[derive(Debug, Clone, Copy)]
pub struct XdgWindowFrame {
    pub padding: u32,
    pub corners: [XdgWindowBorder; 4],
}

impl XdgWindowFrame {
    /// Whether the elements are the four corners in the order top-left,
    /// top-right, bottom-left, bottom-right. `new` makes such a frame and
    /// every method keeps it so.
    pub open spec fn wf(&self) -> bool {
        forall|i: int| 0 <= i < 4 ==> (#[trigger] self.corners@[i]).dir == Dir::Diagonal(corner_at(i))
    }

    /// Whether every element sits where a layout for a parent of size
    /// `(w, h)` puts it.
    pub open spec fn laid_out(&self, w: int, h: int) -> bool {
        self.corners@ == placed_corners(self.corners@, self.padding, w, h)
    }

    /// A frame of the given padding: one element per corner, in the order
    /// top-left, top-right, bottom-left, bottom-right, each at the parent's
    /// origin until the first layout.
    pub fn new(padding: u32) -> (r: Self)
        ensures
            r.padding == padding,
            r.corners@ == initial_corners(padding),
            r.wf(),
    {
        let size = (padding, padding);
        let corners = [
            XdgWindowBorder::new((0, 0), size, Dir::Diagonal(DiagOrientation::TopLeft)),
            XdgWindowBorder::new((0, 0), size, Dir::Diagonal(DiagOrientation::TopRight)),
            XdgWindowBorder::new((0, 0), size, Dir::Diagonal(DiagOrientation::BottomLeft)),
            XdgWindowBorder::new((0, 0), size, Dir::Diagonal(DiagOrientation::BottomRight)),
        ];
        assert(corners@ =~= initial_corners(padding));
        XdgWindowFrame { padding, corners }
    }

    /// Gives every element the new padding as its side; the result tells
    /// whether the padding changed, that is whether the elements must be
    /// drawn again. Positions are left for the next layout.
    pub fn resize(&mut self, padding: u32) -> (changed: bool)
        ensures
            final(self).padding == padding,
            changed == (old(self).padding != padding),
            forall|i: int|
                0 <= i < 4 ==> #[trigger] final(self).corners@[i] == (XdgWindowBorder {
                    size: (padding, padding),
                    ..old(self).corners@[i]
                }),
            old(self).wf() ==> final(self).wf(),
    {
        let changed = self.padding != padding;
        self.padding = padding;
        let size = (padding, padding);
        let c0 = self.corners[0];
        let c1 = self.corners[1];
        let c2 = self.corners[2];
        let c3 = self.corners[3];
        self.corners = [
            XdgWindowBorder { size, ..c0 },
            XdgWindowBorder { size, ..c1 },
            XdgWindowBorder { size, ..c2 },
            XdgWindowBorder { size, ..c3 },
        ];
        changed
    }

    /// Lays the elements out around a parent of size `(width, height)`:
    /// each keeps its anchor and is recomputed from that size alone, centred
    /// on its anchor point, with the padding as its side.
    pub fn move_(&mut self, width: i32, height: i32)
        requires
            0 <= width,
            0 <= height,
        ensures
            final(self).padding == old(self).padding,
            final(self).corners@ == placed_corners(old(self).corners@, old(self).padding, width as int, height as int),
            forall|i: int| 0 <= i < 4 ==> (#[trigger] final(self).corners@[i]).dir == old(self).corners@[i].dir,
            final(self).laid_out(width as int, height as int),
            old(self).wf() ==> final(self).wf(),
    {
        let p = self.padding;
        let ghost before = self.corners@;
        let c0 = self.corners[0];
        let c1 = self.corners[1];
        let c2 = self.corners[2];
        let c3 = self.corners[3];
        self.corners = [
            place_border(c0, p, width, height),
            place_border(c1, p, width, height),
            place_border(c2, p, width, height),
            place_border(c3, p, width, height),
        ];
        assert(self.corners@ =~= placed_corners(before, p, width as int, height as int));
        proof {
            lemma_layout_idempotent(before, p, width, height);
        }
    }

    /// The element at `index`, in the order top-left, top-right, bottom-left,
    /// bottom-right.
    pub fn corner(&self, index: usize) -> (r: XdgWindowBorder)
        requires
            index < 4,
        ensures
            r == self.corners@[index as int],
    {
        self.corners[index]
    }
}

/// After a layout for a parent of size `(w, h)`, the top-left corner sits at
/// minus half the padding on both axes, the bottom-right one at the parent's
/// size minus half the padding, the other two in between; and when both
/// sides of the parent exceed the padding, no two corners share a position.
pub proof fn lemma_corner_positions(f: XdgWindowFrame, w: i32, h: i32)
    requires
        0 <= w,
        0 <= h,
        f.wf(),
        f.laid_out(w as int, h as int),
    ensures
        f.corners@[0].pos.0 == -(f.padding / 2),
        f.corners@[0].pos.1 == -(f.padding / 2),
        f.corners@[1].pos.0 == w - f.padding / 2,
        f.corners@[1].pos.1 == -(f.padding / 2),
        f.corners@[2].pos.0 == -(f.padding / 2),
        f.corners@[2].pos.1 == h - f.padding / 2,
        f.corners@[3].pos.0 == w - f.padding / 2,
        f.corners@[3].pos.1 == h - f.padding / 2,
        w > f.padding && h > f.padding ==> forall|i: int, j: int|
            0 <= i < 4 && 0 <= j < 4 && i != j ==> #[trigger] f.corners@[i].pos != #[trigger] f.corners@[j].pos,
{
    assert(0 <= f.padding / 2 < 0x8000_0000);
    let c = f.corners@;
    assert(c[0] == placed(c[0], f.padding, w as int, h as int));
    assert(c[1] == placed(c[1], f.padding, w as int, h as int));
    assert(c[2] == placed(c[2], f.padding, w as int, h as int));
    assert(c[3] == placed(c[3], f.padding, w as int, h as int));
    assert(c[0].dir == Dir::Diagonal(DiagOrientation::TopLeft));
    assert(c[1].dir == Dir::Diagonal(DiagOrientation::TopRight));
    assert(c[2].dir == Dir::Diagonal(DiagOrientation::BottomLeft));
    assert(c[3].dir == Dir::Diagonal(DiagOrientation::BottomRight));
}

/// Laying elements out twice for one parent size gives what laying them out
/// once gives: each layout depends on the anchors, the padding and the
/// parent's size alone.
pub proof fn lemma_layout_idempotent(c: Seq<XdgWindowBorder>, padding: u32, w: i32, h: i32)
    ensures
        placed_corners(placed_corners(c, padding, w as int, h as int), padding, w as int, h as int)
            == placed_corners(c, padding, w as int, h as int),
{
    assert(placed_corners(placed_corners(c, padding, w as int, h as int), padding, w as int, h as int)
        =~= placed_corners(c, padding, w as int, h as int));
}

fn place_border(b: XdgWindowBorder, padding: u32, width: i32, height: i32) -> (r: XdgWindowBorder)
    requires
        0 <= width,
        0 <= height,
    ensures
        r == placed(b, padding, width as int, height as int),
{
    let anchor = b.dir.translate_coords([width, height]);
    let half = (padding / 2) as i32;
    XdgWindowBorder { pos: (anchor[0] - half, anchor[1] - half), size: (padding, padding), dir: b.dir }
}

} // verus!
