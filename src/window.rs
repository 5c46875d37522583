//! The toplevel window: the configure handshake with the compositor, the
//! size it settles on, and the close request.
use crate::buffer::{gradient_result, BufferError, PixelBuffer};
use crate::frame::{initial_corners, placed_corners, XdgWindowBorder, XdgWindowFrame};
use vstd::prelude::*;

verus! {

/// The size a window takes when the compositor leaves the choice to it.
pub const DEFAULT_WIDTH: i32 = 320;

/// See `DEFAULT_WIDTH`.
pub const DEFAULT_HEIGHT: i32 = 320;

/// The side of the window's corner elements, in pixels.
pub const FRAME_PADDING: u32 = 40;

/// An event for the window from the compositor.
#[derive(Debug, Clone, Copy, PartialEq, Eq, Structural)]
pub enum WindowEvent {
    /// The toplevel proposes a size; zero leaves the choice to the client.
    ToplevelConfigure { width: i32, height: i32 },
    /// Ends a configure round; `serial` must be acknowledged.
    SurfaceConfigure { serial: u32 },
    /// The compositor asks the window to close.
    Close,
}

/// A request the caller must send, in the order given.
#[derive(Debug, Clone, Copy, PartialEq, Eq, Structural)]
pub enum WindowAction {
    /// Draw the background for the new size (`WindowCommon::resize`) into a
    /// fresh buffer, attach it to the main surface and damage all of it.
    Resize { width: i32, height: i32 },
    /// Place corner element `index` of the frame at `(x, y)` relative to the
    /// main surface.
    PlaceCorner { index: usize, x: i32, y: i32 },
    /// Declare the window's geometry as the whole main surface.
    SetGeometry { width: i32, height: i32 },
    /// Commit the main surface.
    Commit,
    /// Acknowledge the configure round tagged `serial`.
    AckConfigure { serial: u32 },
}

/// Where the window stands in its handshake with the compositor.
#[derive(Debug, Clone, Copy, PartialEq, Eq, Structural)]
pub enum HandshakeState {
    /// No configure round has been applied yet.
    Unconfigured,
    /// At least one configure round has been applied.
    Configured,
    /// The compositor asked the window to close; this never changes again.
    Closing,
}

/// The window's applied size and whether it should close.
#[derive(Debug, Clone, Copy)]
pub struct WindowCommon {
    pub should_close: bool,
    pub width: i32,
    pub height: i32,
}

impl WindowCommon {
    /// A window of no size that need not close.
    pub fn new() -> (r: Self)
        ensures
            r.width == 0,
            r.height == 0,
            !r.should_close,
    {
        WindowCommon { should_close: false, width: 0, height: 0 }
    }

    /// Applies `(width, height)` and draws the background for it: on success
    /// the size is recorded and the result is the window's gradient of that
    /// size, `width * height * 4` bytes long; when no such buffer can be had
    /// the window is left as it was.
    pub fn resize(&mut self, width: i32, height: i32) -> (r: Result<PixelBuffer, BufferError>)
        ensures
            gradient_result(r, width as int, height as int),
            r is Ok ==> *final(self) == (WindowCommon { width, height, ..*old(self) }),
            r is Err ==> *final(self) == *old(self),
    {
        let r = PixelBuffer::gradient(width, height);
        if r.is_ok() {
            self.width = width;
            self.height = height;
        }
        r
    }
}

/// What a window is, for contracts: its applied size, the close flag, the
/// handshake state, the last proposed size, and its frame.
pub struct WindowView {
    pub width: i32,
    pub height: i32,
    pub should_close: bool,
    pub state: HandshakeState,
    pub proposed: (i32, i32),
    pub padding: u32,
    pub corners: Seq<XdgWindowBorder>,
}

/// The size a window applies when `(w, h)` was proposed: the proposal when
/// both sides are positive, else the default size.
pub open spec fn applied_size(w: i32, h: i32) -> (i32, i32) {
    if w > 0 && h > 0 {
        (w, h)
    } else {
        (DEFAULT_WIDTH, DEFAULT_HEIGHT)
    }
}

/// The requests of one configure round that applies `(w, h)` to a frame
/// whose corners are `c`, acknowledged with `serial`: resize, place the
/// corners, set the geometry, commit, and only then acknowledge.
pub open spec fn configure_actions(w: i32, h: i32, c: Seq<XdgWindowBorder>, serial: u32) -> Seq<WindowAction> {
    seq![
        WindowAction::Resize { width: w, height: h },
        WindowAction::PlaceCorner { index: 0, x: c[0].pos.0, y: c[0].pos.1 },
        WindowAction::PlaceCorner { index: 1, x: c[1].pos.0, y: c[1].pos.1 },
        WindowAction::PlaceCorner { index: 2, x: c[2].pos.0, y: c[2].pos.1 },
        WindowAction::PlaceCorner { index: 3, x: c[3].pos.0, y: c[3].pos.1 },
        WindowAction::SetGeometry { width: w, height: h },
        WindowAction::Commit,
        WindowAction::AckConfigure { serial },
    ]
}

/// The window after `evt`, and the requests the caller must send.
pub open spec fn window_step(v: WindowView, evt: WindowEvent) -> (WindowView, Seq<WindowAction>) {
    match evt {
        WindowEvent::ToplevelConfigure { width, height } => (
            WindowView { proposed: (width, height), ..v },
            Seq::empty(),
        ),
        WindowEvent::SurfaceConfigure { serial } => {
            let (w, h) = applied_size(v.proposed.0, v.proposed.1);
            let c = placed_corners(v.corners, v.padding, w as int, h as int);
            (
                WindowView {
                    width: w,
                    height: h,
                    state: if v.state == HandshakeState::Closing {
                        HandshakeState::Closing
                    } else {
                        HandshakeState::Configured
                    },
                    corners: c,
                    ..v
                },
                configure_actions(w, h, c, serial),
            )
        },
        WindowEvent::Close => (
            WindowView { should_close: true, state: HandshakeState::Closing, ..v },
            Seq::empty(),
        ),
    }
}

/// The window and all the requests after taking `evts` in order from `v`.
pub open spec fn run(v: WindowView, evts: Seq<WindowEvent>) -> (WindowView, Seq<WindowAction>)
    decreases evts.len(),
{
    if evts.len() == 0 {
        (v, Seq::empty())
    } else {
        let before = run(v, evts.drop_last());
        let last = window_step(before.0, evts.last());
        (last.0, before.1 + last.1)
    }
}

/// The serials acknowledged by `actions`, in order.
pub open spec fn acks(actions: Seq<WindowAction>) -> Seq<u32>
    decreases actions.len(),
{
    if actions.len() == 0 {
        Seq::empty()
    } else {
        acks(actions.drop_last()) + match actions.last() {
            WindowAction::AckConfigure { serial } => seq![serial],
            _ => Seq::empty(),
        }
    }
}

/// The serials of the configure rounds in `evts`, in order.
pub open spec fn configure_serials(evts: Seq<WindowEvent>) -> Seq<u32>
    decreases evts.len(),
{
    if evts.len() == 0 {
        Seq::empty()
    } else {
        configure_serials(evts.drop_last()) + match evts.last() {
            WindowEvent::SurfaceConfigure { serial } => seq![serial],
            _ => Seq::empty(),
        }
    }
}

/// Whether every acknowledgement in `actions` comes right after a commit.
pub open spec fn acks_follow_commits(actions: Seq<WindowAction>) -> bool {
    forall|i: int|
        0 <= i < actions.len() && (#[trigger] actions[i] is AckConfigure) ==> i > 0 && actions[i - 1]
            is Commit
}

proof fn lemma_acks_append(a: Seq<WindowAction>, b: Seq<WindowAction>)
    ensures
        acks(a + b) == acks(a) + acks(b),
    decreases b.len(),
{
    if b.len() == 0 {
        assert(a + b =~= a);
        assert(acks(a) + acks(b) =~= acks(a));
    } else {
        assert((a + b).drop_last() =~= a + b.drop_last());
        assert((a + b).last() == b.last());
        lemma_acks_append(a, b.drop_last());
        assert(acks(a + b) =~= acks(a) + acks(b));
    }
}

proof fn lemma_step_acks(v: WindowView, evt: WindowEvent)
    ensures
        acks(window_step(v, evt).1) == match evt {
            WindowEvent::SurfaceConfigure { serial } => seq![serial],
            _ => Seq::<u32>::empty(),
        },
        acks_follow_commits(window_step(v, evt).1),
{
    reveal_with_fuel(acks, 9);
    let out = window_step(v, evt).1;
    match evt {
        WindowEvent::SurfaceConfigure { serial } => {
            assert(out.drop_last().drop_last().drop_last().drop_last().drop_last().drop_last().drop_last().drop_last() =~= Seq::<WindowAction>::empty());
            assert(acks(out) =~= seq![serial]);
        },
        _ => {
            assert(acks(out) =~= Seq::<u32>::empty());
        },
    }
}

/// Over any sequence of events, the window acknowledges exactly the
/// configure rounds it received, each with its own serial, in the order
/// received; and every acknowledgement comes right after a commit.
pub proof fn lemma_every_configure_acked_once(v: WindowView, evts: Seq<WindowEvent>)
    ensures
        acks(run(v, evts).1) == configure_serials(evts),
        acks_follow_commits(run(v, evts).1),
    decreases evts.len(),
{
    if evts.len() == 0 {
        assert(acks(Seq::<WindowAction>::empty()) =~= Seq::<u32>::empty());
    } else {
        let before = run(v, evts.drop_last());
        let last = window_step(before.0, evts.last());
        lemma_every_configure_acked_once(v, evts.drop_last());
        lemma_step_acks(before.0, evts.last());
        lemma_acks_append(before.1, last.1);
        let all = before.1 + last.1;
        assert forall|i: int| 0 <= i < all.len() && (#[trigger] all[i] is AckConfigure) implies i > 0
            && all[i - 1] is Commit by {
            if i < before.1.len() {
                assert(all[i] == before.1[i]);
                assert(all[i - 1] == before.1[i - 1]);
            } else {
                let j = i - before.1.len();
                assert(all[i] == last.1[j]);
                assert(j > 0 && last.1[j - 1] is Commit);
                assert(all[i - 1] == last.1[j - 1]);
            }
        }
    }
}

/// The close flag, false at first, is set by the first close request and
/// stays set whatever follows: after any sequence of events it holds
/// exactly when it held before or the sequence holds a close request.
pub proof fn lemma_should_close_sticky(v: WindowView, evts: Seq<WindowEvent>)
    ensures
        run(v, evts).0.should_close == (v.should_close || exists|i: int|
            0 <= i < evts.len() && #[trigger] evts[i] == WindowEvent::Close),
    decreases evts.len(),
{
    if evts.len() > 0 {
        let init = evts.drop_last();
        lemma_should_close_sticky(v, init);
        if exists|i: int| 0 <= i < init.len() && #[trigger] init[i] == WindowEvent::Close {
            let i = choose|i: int| 0 <= i < init.len() && #[trigger] init[i] == WindowEvent::Close;
            assert(evts[i] == WindowEvent::Close);
        }
        if evts.last() == WindowEvent::Close {
            assert(evts[evts.len() - 1] == WindowEvent::Close);
        }
        if exists|i: int| 0 <= i < evts.len() && #[trigger] evts[i] == WindowEvent::Close {
            let i = choose|i: int| 0 <= i < evts.len() && #[trigger] evts[i] == WindowEvent::Close;
            if i < init.len() {
                assert(init[i] == WindowEvent::Close);
            }
        }
    }
}

/// A toplevel window decorated with a frame, driven by compositor events.
#[derive(Debug, Clone, Copy)]
pub struct XdgWindow {
    pub window: WindowCommon,
    pub frame: XdgWindowFrame,
    pub state: HandshakeState,
    pub proposed: (i32, i32),
}

impl View for XdgWindow {
    type V = WindowView;

    open spec fn view(&self) -> WindowView {
        WindowView {
            width: self.window.width,
            height: self.window.height,
            should_close: self.window.should_close,
            state: self.state,
            proposed: self.proposed,
            padding: self.frame.padding,
            corners: self.frame.corners@,
        }
    }
}

impl XdgWindow {
    /// A window that has seen no event: no size, no proposal, a frame of
    /// `FRAME_PADDING` with its corners at the origin.
    pub fn new() -> (r: Self)
        ensures
            r@.width == 0,
            r@.height == 0,
            !r@.should_close,
            r@.state == HandshakeState::Unconfigured,
            r@.proposed == (0i32, 0i32),
            r@.padding == FRAME_PADDING,
            r@.corners == initial_corners(FRAME_PADDING),
    {
        XdgWindow {
            window: WindowCommon::new(),
            frame: XdgWindowFrame::new(FRAME_PADDING),
            state: HandshakeState::Unconfigured,
            proposed: (0, 0),
        }
    }

    /// Whether the compositor has asked the window to close.
    pub fn should_close(&self) -> (r: bool)
        ensures
            r == self@.should_close,
    {
        self.window.should_close
    }

    /// The window's applied size and close flag.
    pub fn window_common(&self) -> (r: WindowCommon)
        ensures
            r == self.window,
    {
        self.window
    }

    /// Takes one compositor event and returns the requests to send, in
    /// order. A toplevel configure records the proposed size. A surface
    /// configure applies the last proposal (the default size when a side is
    /// not positive), lays the frame out for it, and asks to resize, place
    /// the corners, set the geometry, commit, and then acknowledge its
    /// serial: every round is acknowledged exactly once, last. A close
    /// request sets the close flag for good; later rounds are still applied
    /// and acknowledged.
    pub fn handle_event(&mut self, evt: WindowEvent) -> (r: Vec<WindowAction>)
        ensures
            (final(self)@, r@) == window_step(old(self)@, evt),
    {
        match evt {
            WindowEvent::ToplevelConfigure { width, height } => {
                self.proposed = (width, height);
                Vec::new()
            },
            WindowEvent::SurfaceConfigure { serial } => {
                let (w, h) = if self.proposed.0 > 0 && self.proposed.1 > 0 {
                    self.proposed
                } else {
                    (DEFAULT_WIDTH, DEFAULT_HEIGHT)
                };
                self.window.width = w;
                self.window.height = h;
                self.frame.move_(w, h);
                if self.state != HandshakeState::Closing {
                    self.state = HandshakeState::Configured;
                }
                let mut actions: Vec<WindowAction> = Vec::new();
                actions.push(WindowAction::Resize { width: w, height: h });
                let mut i: usize = 0;
                while i < 4
                    invariant
                        i <= 4,
                        self.frame.corners@.len() == 4,
                        actions@ == configure_actions(w, h, self.frame.corners@, serial).subrange(0, i + 1),
                    decreases 4 - i,
                {
                    let c = self.frame.corner(i);
                    actions.push(WindowAction::PlaceCorner { index: i, x: c.pos.0, y: c.pos.1 });
                    proof {
                        assert(actions@ =~= configure_actions(w, h, self.frame.corners@, serial).subrange(0, i + 2));
                    }
                    i = i + 1;
                }
                actions.push(WindowAction::SetGeometry { width: w, height: h });
                actions.push(WindowAction::Commit);
                actions.push(WindowAction::AckConfigure { serial });
                assert(actions@ =~= configure_actions(w, h, self.frame.corners@, serial));
                actions
            },
            WindowEvent::Close => {
                self.window.should_close = true;
                self.state = HandshakeState::Closing;
                Vec::new()
            },
        }
    }
}

} // verus!
