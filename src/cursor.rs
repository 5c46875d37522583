//! Pointer tracking for one watched surface: whether the pointer is over it,
//! where, and the serial that cursor requests must carry.
use vstd::prelude::*;
use vstd::string::StringSliceAdditionalSpecFns;

verus! {

/// Sub-pixel units per pixel in pointer coordinates (fixed point, 24.8).
pub const FIXED_ONE: i32 = 256;

/// The cursor size used when the environment gives no usable hint.
pub const DEFAULT_CURSOR_SIZE: u32 = 24;

/// Whether `c` is an ASCII decimal digit.
pub open spec fn is_digit(c: u8) -> bool {
    0x30 <= c <= 0x39
}

/// The number that the decimal digits `b` write.
pub open spec fn decimal_value(b: Seq<u8>) -> int
    decreases b.len(),
{
    if b.len() == 0 {
        0
    } else {
        decimal_value(b.drop_last()) * 10 + (b.last() - 0x30)
    }
}

/// The digits of an unsigned decimal: `b` without one leading `+`.
pub open spec fn unsigned_digits(b: Seq<u8>) -> Seq<u8> {
    if b.len() > 0 && b[0] == 0x2b {
        b.skip(1)
    } else {
        b
    }
}

/// The `u32` that the text `b` writes in decimal, as std's `u32::from_str`
/// reads it: an optional `+`, then one or more digits, of a value that fits.
pub open spec fn parse_u32_spec(b: Seq<u8>) -> Option<u32> {
    let d = unsigned_digits(b);
    if d.len() > 0 && (forall|i: int| 0 <= i < d.len() ==> is_digit(#[trigger] d[i])) && decimal_value(d)
        <= u32::MAX {
        Some(decimal_value(d) as u32)
    } else {
        None
    }
}

proof fn lemma_decimal_nonneg(b: Seq<u8>)
    requires
        forall|i: int| 0 <= i < b.len() ==> is_digit(#[trigger] b[i]),
    ensures
        0 <= decimal_value(b),
    decreases b.len(),
{
    if b.len() > 0 {
        lemma_decimal_nonneg(b.drop_last());
        assert(is_digit(b[b.len() - 1]));
    }
}

proof fn lemma_decimal_prefix_le(b: Seq<u8>, j: int)
    requires
        0 <= j <= b.len(),
        forall|i: int| 0 <= i < b.len() ==> is_digit(#[trigger] b[i]),
    ensures
        decimal_value(b.subrange(0, j)) <= decimal_value(b),
    decreases b.len(),
{
    if j == b.len() {
        assert(b.subrange(0, j) =~= b);
    } else {
        let init = b.drop_last();
        assert(b.subrange(0, j) =~= init.subrange(0, j));
        lemma_decimal_prefix_le(init, j);
        lemma_decimal_nonneg(init);
        assert(is_digit(b[b.len() - 1]));
    }
}

/// The number that the text `s` writes in decimal, read as `u32::from_str`
/// reads it; `None` where that would fail.
pub fn parse_cursor_size(s: &str) -> (r: Option<u32>)
    ensures
        r == parse_u32_spec(s.spec_bytes()),
{
    let b = s.as_bytes();
    let ghost whole = b@;
    let start: usize = if b.len() > 0 && b[0] == 0x2b {
        1
    } else {
        0
    };
    let ghost d = unsigned_digits(whole);
    assert(d =~= whole.subrange(start as int, whole.len() as int));
    if start >= b.len() {
        return None;
    }
    let mut acc: u64 = 0;
    let mut i: usize = start;
    while i < b.len()
        invariant
            start <= i <= b.len(),
            b@ == whole,
            whole == s.spec_bytes(),
            d == unsigned_digits(whole),
            d == whole.subrange(start as int, whole.len() as int),
            forall|k: int| 0 <= k < i - start ==> is_digit(#[trigger] d[k]),
            acc == decimal_value(d.subrange(0, i - start)),
            acc <= u32::MAX,
        decreases b.len() - i,
    {
        let c = b[i];
        assert(d[i - start] == c);
        if c < 0x30 || c > 0x39 {
            assert(!is_digit(d[i - start]));
            return None;
        }
        let next = acc * 10 + (c - 0x30) as u64;
        assert(d.subrange(0, i + 1 - start).drop_last() =~= d.subrange(0, i - start));
        assert(d.subrange(0, i + 1 - start).last() == c);
        if next > u32::MAX as u64 {
            proof {
                let j = i + 1 - start;
                if forall|k: int| 0 <= k < d.len() ==> is_digit(#[trigger] d[k]) {
                    lemma_decimal_prefix_le(d, j);
                }
            }
            return None;
        }
        acc = next;
        i = i + 1;
    }
    assert(d.subrange(0, d.len() as int) =~= d);
    Some(acc as u32)
}

/// The cursor size to load, from the environment's hint: the hint when it
/// reads as a number, else `DEFAULT_CURSOR_SIZE`.
pub fn cursor_size(hint: Option<&str>) -> (r: u32)
    ensures
        r == match hint {
            Some(s) => match parse_u32_spec(s.spec_bytes()) {
                Some(n) => n,
                None => DEFAULT_CURSOR_SIZE,
            },
            None => DEFAULT_CURSOR_SIZE,
        },
{
    match hint {
        Some(s) => match parse_cursor_size(s) {
            Some(n) => n,
            None => DEFAULT_CURSOR_SIZE,
        },
        None => DEFAULT_CURSOR_SIZE,
    }
}

/// A pointer event as the compositor sends it. Surfaces are named by their
/// protocol object id; coordinates are surface-local, in 1/256 pixel.
#[derive(Debug, Clone, Copy, PartialEq, Eq, Structural)]
pub enum PointerEvent {
    Enter { serial: u32, surface: u32, x: i32, y: i32 },
    Leave { serial: u32, surface: u32 },
    Motion { x: i32, y: i32 },
    Button { serial: u32, button: u32, pressed: bool },
    Other,
}

/// What the caller must do after a pointer event.
#[derive(Debug, Clone, Copy, PartialEq, Eq, Structural)]
pub enum PointerAction {
    /// Nothing to send.
    Nothing,
    /// Show the watched surface's cursor image, tagged with `serial`.
    SetCursor { serial: u32 },
    /// Show no cursor, tagged with `serial`.
    HideCursor { serial: u32 },
    /// Hand a button event to the click callback, with the last known
    /// position `(x, y)` in whole pixels and whether the button went down.
    Clicked { x: i32, y: i32, pressed: bool },
}

/// The pointer as seen from one watched surface.
#[derive(Debug, Clone, Copy)]
pub struct PointerInfo {
    /// The protocol id of the watched surface.
    pub surface: u32,
    /// Last known position over the surface, in 1/256 pixel.
    pub cursor_pos: (i32, i32),
    /// The serial of the last pointer event that carried one.
    pub serial: u32,
    /// Whether the pointer is over the surface.
    pub is_inside: bool,
}

/// A coordinate in 1/256 pixel as whole pixels, rounded toward zero.
pub open spec fn whole_pixels(v: int) -> int {
    if v >= 0 {
        v / 256
    } else {
        -((-v) / 256)
    }
}

/// The tracker after `evt`, and what the caller must do.
pub open spec fn pointer_step(p: PointerInfo, evt: PointerEvent) -> (PointerInfo, PointerAction) {
    match evt {
        PointerEvent::Enter { serial, surface, x, y } => {
            if !p.is_inside && surface == p.surface {
                (
                    PointerInfo { is_inside: true, cursor_pos: (x, y), serial, ..p },
                    PointerAction::SetCursor { serial },
                )
            } else {
                (p, PointerAction::Nothing)
            }
        },
        PointerEvent::Motion { x, y } => {
            if p.is_inside {
                (PointerInfo { cursor_pos: (x, y), ..p }, PointerAction::Nothing)
            } else {
                (p, PointerAction::Nothing)
            }
        },
        PointerEvent::Button { serial, pressed, .. } => (
            PointerInfo { serial, ..p },
            PointerAction::Clicked {
                x: whole_pixels(p.cursor_pos.0 as int) as i32,
                y: whole_pixels(p.cursor_pos.1 as int) as i32,
                pressed,
            },
        ),
        PointerEvent::Leave { serial, surface } => {
            if p.is_inside && surface == p.surface {
                (
                    PointerInfo { is_inside: false, serial, ..p },
                    PointerAction::HideCursor { serial },
                )
            } else {
                (p, PointerAction::Nothing)
            }
        },
        PointerEvent::Other => (p, PointerAction::Nothing),
    }
}

/// An Enter naming surface `a` followed by a Motion to `(x, y)` moves the
/// tracked position to `(x, y)` when the tracker, outside before, watches
/// `a`, and leaves the tracker as it was when it watches another surface.
pub proof fn lemma_enter_then_motion(p: PointerInfo, serial: u32, a: u32, ex: i32, ey: i32, x: i32, y: i32)
    requires
        !p.is_inside,
    ensures
        ({
            let entered = pointer_step(p, PointerEvent::Enter { serial, surface: a, x: ex, y: ey }).0;
            let moved = pointer_step(entered, PointerEvent::Motion { x, y }).0;
            &&& a == p.surface ==> moved.is_inside && moved.cursor_pos == (x, y)
            &&& a != p.surface ==> moved == p
        }),
{
}

/// A Leave naming a surface other than the watched one changes nothing and
/// asks for nothing; in particular a tracker inside stays inside.
pub proof fn lemma_leave_other_surface(p: PointerInfo, serial: u32, b: u32)
    requires
        b != p.surface,
    ensures
        pointer_step(p, PointerEvent::Leave { serial, surface: b }) == (p, PointerAction::Nothing),
{
}

fn to_whole_pixels(v: i32) -> (r: i32)
    ensures
        r == whole_pixels(v as int),
{
    if v >= 0 {
        v / 256
    } else {
        -((-(v as i64)) / 256) as i32
    }
}

impl PointerInfo {
    /// A tracker for the surface with protocol id `surface`; the pointer is
    /// not over it yet.
    pub fn new(surface: u32) -> (r: Self)
        ensures
            r.surface == surface,
            r.cursor_pos == (0i32, 0i32),
            r.serial == 0,
            !r.is_inside,
    {
        PointerInfo { surface, cursor_pos: (0, 0), serial: 0, is_inside: false }
    }

    /// Last known position over the surface, in 1/256 pixel.
    pub fn cursor_pos(&self) -> (r: (i32, i32))
        ensures
            r == self.cursor_pos,
    {
        self.cursor_pos
    }

    /// The serial of the last pointer event that carried one.
    pub fn serial(&self) -> (r: u32)
        ensures
            r == self.serial,
    {
        self.serial
    }

    /// Whether the pointer is over the surface.
    pub fn is_inside(&self) -> (r: bool)
        ensures
            r == self.is_inside,
    {
        self.is_inside
    }

    /// Records `serial` as the latest one.
    pub fn update_serial(&mut self, serial: u32)
        ensures
            *final(self) == (PointerInfo { serial, ..*old(self) }),
    {
        self.serial = serial;
    }

    /// Records `(x, y)` as the latest position.
    pub fn update_pointer_pos(&mut self, x: i32, y: i32)
        ensures
            *final(self) == (PointerInfo { cursor_pos: (x, y), ..*old(self) }),
    {
        self.cursor_pos = (x, y);
    }

    /// Takes one pointer event. Enter and Leave count only when they name
    /// the watched surface; Enter while inside and Leave while outside are
    /// ignored. Motion moves the position only while inside. Every Button
    /// records its serial, leaves inside or outside as it was, and goes to
    /// the click callback with the last known position.
    pub fn handle_pointer_event(&mut self, evt: PointerEvent) -> (r: PointerAction)
        ensures
            (*final(self), r) == pointer_step(*old(self), evt),
    {
        match evt {
            PointerEvent::Enter { serial, surface, x, y } => {
                if !self.is_inside && surface == self.surface {
                    self.is_inside = true;
                    self.update_pointer_pos(x, y);
                    self.serial = serial;
                    PointerAction::SetCursor { serial: self.serial }
                } else {
                    PointerAction::Nothing
                }
            },
            PointerEvent::Motion { x, y } => {
                if self.is_inside {
                    self.update_pointer_pos(x, y);
                }
                PointerAction::Nothing
            },
            PointerEvent::Button { serial, pressed, .. } => {
                self.serial = serial;
                PointerAction::Clicked {
                    x: to_whole_pixels(self.cursor_pos.0),
                    y: to_whole_pixels(self.cursor_pos.1),
                    pressed,
                }
            },
            PointerEvent::Leave { serial, surface } => {
                if self.is_inside && surface == self.surface {
                    self.is_inside = false;
                    self.serial = serial;
                    PointerAction::HideCursor { serial: self.serial }
                } else {
                    PointerAction::Nothing
                }
            },
            PointerEvent::Other => PointerAction::Nothing,
        }
    }
}

} // verus!
