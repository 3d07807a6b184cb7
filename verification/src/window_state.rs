//! Per-surface window state.
//!
//! A floating surface is redrawn from scratch every frame, so everything
//! about it that must survive a frame — last occupied rectangle, drag status,
//! queued position/size overrides, the height to restore after a full
//! collapse, the "first frame" flag, and the minimized flag — lives here.
//! Once per frame the owning layout calls [`WindowState::create_window`],
//! which consumes the pending one-shot overrides and yields a
//! [`WindowDescriptor`] for the render pass; afterwards the render pass
//! reports the actual placement back through [`WindowState::set_screen_rect`]
//! and [`WindowState::set_dragged`].

use vstd::prelude::*;

use crate::geometry::{Point, Rect, Size, finite_bits};

verus! {

/// The spec-level image of a [`WindowState`]: one field per stored field.
#[verifier::ext_equal]
pub struct WindowStateView {
    pub screen_rect: Option<Rect>,
    pub dragged: bool,
    pub next_position: Option<Point>,
    pub next_size: Option<Size>,
    pub expanded_height: Option<u32>,
    pub new: bool,
    pub minimized: bool,
}

impl WindowStateView {
    /// Every stored coordinate is finite, so the whole state survives a
    /// structured encoding that rejects non-finite numbers.
    pub open spec fn wf(self) -> bool {
        &&& (self.screen_rect matches Some(r) ==> r.wf())
        &&& (self.next_position matches Some(p) ==> p.wf())
        &&& (self.next_size matches Some(s) ==> s.wf())
        &&& (self.expanded_height matches Some(h) ==> finite_bits(h))
    }
}

/// The state a freshly constructed [`WindowState`] holds: nothing queued,
/// nothing drawn yet, not dragged, not minimized, flagged new.
pub open spec fn init_view() -> WindowStateView {
    WindowStateView {
        screen_rect: None,
        dragged: false,
        next_position: None,
        next_size: None,
        expanded_height: None,
        new: true,
        minimized: false,
    }
}

/// What [`WindowState::rect`] reads off a state: the last observed rectangle,
/// or the finite empty sentinel while the surface has never been drawn.
pub open spec fn rect_view(s: WindowStateView) -> Rect {
    match s.screen_rect {
        Some(r) => r,
        None => Rect::empty_sentinel(),
    }
}

/// The one-shot description of a window for a single frame's render pass,
/// produced by [`WindowState::create_window`]. It is built fresh every frame
/// and never stored.
#[derive(Clone, Copy, Debug, PartialEq)]
pub struct WindowDescriptor {
    /// The caller-supplied identity of the surface for this frame.
    pub id: u64,
    /// The area the window is constrained to.
    pub bounds: Rect,
    /// Whether the window shows a title bar; floating surfaces never do.
    pub title_bar: bool,
    /// A queued position override, applied this frame only.
    pub position: Option<Point>,
    /// A queued size override, applied this frame only.
    pub size: Option<Size>,
    /// A height the window is pinned to this frame (both minimum and
    /// maximum), as the bit pattern of a finite single-precision number; set
    /// only on a window's first frame when an expanded height was cached.
    pub height_clamp: Option<u32>,
}

/// The descriptor [`WindowState::create_window`] builds from state `s`:
/// no title bar, constrained to `bounds`, position and size overridden by
/// whatever was queued, and — only on the first frame after construction or
/// re-flagging (`s.new`) — height pinned to the cached expanded height.
pub open spec fn materialized_descriptor(s: WindowStateView, id: u64, bounds: Rect) -> WindowDescriptor {
    WindowDescriptor {
        id,
        bounds,
        title_bar: false,
        position: s.next_position,
        size: s.next_size,
        height_clamp: if s.new { s.expanded_height } else { None },
    }
}

/// The state left behind by [`WindowState::create_window`]: the position and
/// size overrides are consumed, the cached expanded height is consumed
/// exactly when it was read (that is, when `s.new`), and the new flag is
/// cleared; everything else is untouched.
pub open spec fn materialized_state(s: WindowStateView) -> WindowStateView {
    WindowStateView {
        next_position: None,
        next_size: None,
        expanded_height: if s.new { None } else { s.expanded_height },
        new: false,
        ..s
    }
}

/// The state left behind by [`WindowState::toggle_minimized`]: only the
/// minimized flag flips.
pub open spec fn toggled(s: WindowStateView) -> WindowStateView {
    WindowStateView { minimized: !s.minimized, ..s }
}

/// A freshly constructed window state observes as blank: its rectangle is
/// the finite empty sentinel (never an unbounded value), it is not dragged,
/// and it is not minimized.
pub proof fn lemma_new_window_observations()
    ensures
        rect_view(init_view()) == Rect::empty_sentinel(),
        rect_view(init_view()).wf(),
        !init_view().dragged,
        !init_view().minimized,
        init_view().wf(),
{
    crate::geometry::lemma_zero_bits_finite();
}

/// A queued position is one-shot: the first frame materialized after
/// `set_position(p)` forces position `p`, and the frame after that — with no
/// position queued in between — forces none.
pub proof fn lemma_position_override_is_one_shot(s: WindowStateView, p: Point, id1: u64, b1: Rect, id2: u64, b2: Rect)
    ensures
        materialized_descriptor((WindowStateView { next_position: Some(p), ..s }), id1, b1).position == Some(p),
        materialized_descriptor(
            materialized_state((WindowStateView { next_position: Some(p), ..s })),
            id2,
            b2,
        ).position == Option::<Point>::None,
{
}

/// A queued size is one-shot, exactly like a queued position.
pub proof fn lemma_size_override_is_one_shot(s: WindowStateView, z: Size, id1: u64, b1: Rect, id2: u64, b2: Rect)
    ensures
        materialized_descriptor((WindowStateView { next_size: Some(z), ..s }), id1, b1).size == Some(z),
        materialized_descriptor(
            materialized_state((WindowStateView { next_size: Some(z), ..s })),
            id2,
            b2,
        ).size == Option::<Size>::None,
{
}

/// Toggling the minimized flag twice restores the state exactly.
pub proof fn lemma_toggle_minimized_involutive(s: WindowStateView)
    ensures
        toggled(toggled(s)) == s,
{
    assert(toggled(toggled(s)) =~= s);
}

/// A cached expanded height pins the window's height for exactly one frame:
/// on a new window's first materialized frame the descriptor clamps to the
/// cached height, and the immediately following frame — with no re-flag and
/// no new cache — leaves the height unconstrained.
pub proof fn lemma_expanded_height_restores_once(s: WindowStateView, h: u32, id1: u64, b1: Rect, id2: u64, b2: Rect)
    requires
        s.new,
        s.expanded_height == Some(h),
    ensures
        materialized_descriptor(s, id1, b1).height_clamp == Some(h),
        materialized_descriptor(materialized_state(s), id2, b2).height_clamp == Option::<u32>::None,
{
}

/// The state of a floating surface, kept across frames.
///
/// Doubles as a handle for the surface: the owner can queue a position or
/// size for the next frame through the builder-style setters.
#[derive(Clone, Debug)]
pub struct WindowState {
    /// The rectangle this window was last taking up.
    screen_rect: Option<Rect>,
    /// Was this window dragged in the last frame?
    dragged: bool,
    /// The position this window should be moved to on the next frame.
    next_position: Option<Point>,
    /// The size this window should be set to on the next frame.
    next_size: Option<Size>,
    /// The height of the window before it was fully collapsed, as the bit
    /// pattern of a finite single-precision number.
    expanded_height: Option<u32>,
    /// True until the first frame this window is drawn; governs whether the
    /// expanded-height restoration applies.
    new: bool,
    /// True if the window is minimized.
    minimized: bool,
}

impl View for WindowState {
    type V = WindowStateView;

    closed spec fn view(&self) -> WindowStateView {
        WindowStateView {
            screen_rect: self.screen_rect,
            dragged: self.dragged,
            next_position: self.next_position,
            next_size: self.next_size,
            expanded_height: self.expanded_height,
            new: self.new,
            minimized: self.minimized,
        }
    }
}

impl Default for WindowState {
    fn default() -> (r: Self)
        ensures
            r@ == init_view(),
    {
        WindowState {
            screen_rect: None,
            dragged: false,
            next_position: None,
            next_size: None,
            expanded_height: None,
            new: true,
            minimized: false,
        }
    }
}

impl WindowState {
    /// Create a default window state.
    pub fn new() -> (r: Self)
        ensures
            r@ == init_view(),
            r@.wf(),
    {
        Self::default()
    }

    /// Rebuild a window state from its stored fields, for a host that
    /// persists layout state across sessions and reads it back.
    pub fn from_parts(
        screen_rect: Option<Rect>,
        dragged: bool,
        next_position: Option<Point>,
        next_size: Option<Size>,
        expanded_height: Option<u32>,
        new: bool,
        minimized: bool,
    ) -> (r: Self)
        ensures
            r@ == (WindowStateView {
                screen_rect,
                dragged,
                next_position,
                next_size,
                expanded_height,
                new,
                minimized,
            }),
    {
        WindowState { screen_rect, dragged, next_position, next_size, expanded_height, new, minimized }
    }

    /// The last reported rectangle, if the window has ever been drawn;
    /// unlike [`WindowState::rect`] this does not substitute the sentinel.
    pub fn screen_rect(&self) -> (r: Option<Rect>)
        ensures
            r == self@.screen_rect,
    {
        self.screen_rect
    }

    /// The queued position override, left in place (unlike
    /// [`WindowState::next_position`], which consumes it).
    pub fn peek_next_position(&self) -> (r: Option<Point>)
        ensures
            r == self@.next_position,
    {
        self.next_position
    }

    /// The queued size override, left in place.
    pub fn peek_next_size(&self) -> (r: Option<Size>)
        ensures
            r == self@.next_size,
    {
        self.next_size
    }

    /// The cached expanded height, left in place.
    pub fn peek_expanded_height(&self) -> (r: Option<u32>)
        ensures
            r == self@.expanded_height,
    {
        self.expanded_height
    }

    /// Whether the next materialized frame is this window's first since
    /// construction or re-flagging.
    pub fn is_new(&self) -> (r: bool)
        ensures
            r == self@.new,
    {
        self.new
    }

    /// The rectangle this window occupies. If the window has never been
    /// shown, this is the finite empty sentinel, never an unbounded value.
    pub fn rect(&self) -> (r: Rect)
        ensures
            r == rect_view(self@),
            self@.wf() ==> r.wf(),
    {
        match self.screen_rect {
            Some(r) => r,
            None => Rect::empty(),
        }
    }

    /// Whether this window was being dragged during the last frame.
    pub fn dragged(&self) -> (r: bool)
        ensures
            r == self@.dragged,
    {
        self.dragged
    }

    /// Whether this window is minimized.
    pub fn is_minimized(&self) -> (r: bool)
        ensures
            r == self@.minimized,
    {
        self.minimized
    }

    /// Flip the minimized flag; nothing else changes.
    pub fn toggle_minimized(&mut self)
        ensures
            final(self)@ == toggled(old(self)@),
    {
        self.minimized = !self.minimized;
    }

    /// Queue a position, in screen coordinates, for this window to take on
    /// the next frame. The override is consumed by the next
    /// [`WindowState::create_window`] call; any finite point is accepted.
    /// Returns the receiver for chained configuration.
    pub fn set_position(&mut self, position: Point) -> (r: &mut Self)
        requires
            position.wf(),
        ensures
            (*r)@ == (WindowStateView { next_position: Some(position), ..old(self)@ }),
            *final(self) == *final(r),
    {
        self.next_position = Some(position);
        self
    }

    /// Queue a size for this window to take on the next frame; one-shot like
    /// [`WindowState::set_position`]. Returns the receiver for chaining.
    pub fn set_size(&mut self, size: Size) -> (r: &mut Self)
        requires
            size.wf(),
        ensures
            (*r)@ == (WindowStateView { next_size: Some(size), ..old(self)@ }),
            *final(self) == *final(r),
    {
        self.next_size = Some(size);
        self
    }

    /// Cache the height this window had before it was fully collapsed, as
    /// the bit pattern of a finite single-precision number; consumed by the
    /// first [`WindowState::create_window`] call that finds the window new.
    /// Returns the receiver for chaining.
    pub fn set_expanded_height(&mut self, height_bits: u32) -> (r: &mut Self)
        requires
            finite_bits(height_bits),
        ensures
            (*r)@ == (WindowStateView { expanded_height: Some(height_bits), ..old(self)@ }),
            *final(self) == *final(r),
    {
        self.expanded_height = Some(height_bits);
        self
    }

    /// Flag or unflag this window as new. The owning layout re-flags a
    /// window when it transitions from fully collapsed back to expanded, so
    /// that exactly one following frame restores the cached height.
    /// Returns the receiver for chaining.
    pub fn set_new(&mut self, new: bool) -> (r: &mut Self)
        ensures
            (*r)@ == (WindowStateView { new, ..old(self)@ }),
            *final(self) == *final(r),
    {
        self.new = new;
        self
    }

    /// Record the rectangle the render pass actually placed this window in;
    /// read back by [`WindowState::rect`]. The rectangle must be finite so
    /// that what [`WindowState::rect`] exposes stays encodable.
    pub fn set_screen_rect(&mut self, rect: Rect)
        requires
            rect.wf(),
        ensures
            final(self)@ == (WindowStateView { screen_rect: Some(rect), ..old(self)@ }),
    {
        self.screen_rect = Some(rect);
    }

    /// Record whether the render pass saw this window being dragged.
    pub fn set_dragged(&mut self, dragged: bool)
        ensures
            final(self)@ == (WindowStateView { dragged, ..old(self)@ }),
    {
        self.dragged = dragged;
    }

    /// Take the queued position override, clearing it.
    pub fn next_position(&mut self) -> (r: Option<Point>)
        ensures
            r == old(self)@.next_position,
            final(self)@ == (WindowStateView { next_position: None, ..old(self)@ }),
    {
        self.next_position.take()
    }

    /// Take the queued size override, clearing it.
    pub fn next_size(&mut self) -> (r: Option<Size>)
        ensures
            r == old(self)@.next_size,
            final(self)@ == (WindowStateView { next_size: None, ..old(self)@ }),
    {
        self.next_size.take()
    }

    /// Take the cached expanded height, clearing it.
    pub fn expanded_height(&mut self) -> (r: Option<u32>)
        ensures
            r == old(self)@.expanded_height,
            final(self)@ == (WindowStateView { expanded_height: None, ..old(self)@ }),
    {
        self.expanded_height.take()
    }

    /// Build the descriptor for this frame's render pass and advance the
    /// state: the queued position and size are consumed, the cached expanded
    /// height is consumed exactly when this is the window's first frame
    /// since construction or re-flagging, and the new flag is cleared.
    pub fn create_window(&mut self, id: u64, bounds: Rect) -> (d: WindowDescriptor)
        ensures
            d == materialized_descriptor(old(self)@, id, bounds),
            final(self)@ == materialized_state(old(self)@),
    {
        let new = self.new;
        let position = self.next_position();
        let size = self.next_size();
        let height_clamp = if new {
            self.expanded_height()
        } else {
            None
        };
        self.new = false;
        WindowDescriptor { id, bounds, title_bar: false, position, size, height_clamp }
    }
}

} // verus!
