use vstd::prelude::*;

use crate::geometry::{fits_i32, LogicalPosition, LogicalSize, PhysicalPosition, PhysicalSize, Position, Size};

verus! {

/// The placement state of an overlay that is a separate top-level window
/// owned by the main window.  Such a window is positioned in screen
/// coordinates, so the overlay's origin, which is given relative to the main
/// window, has to be translated by the main window's position.
///
/// The overlay window itself is held by the caller, which may find it gone;
/// each method is told whether it still exists (`overlay_alive`) and returns
/// what must be applied to it, if anything.
#[derive(Clone, Copy, Debug, PartialEq, Eq, Structural)]
pub struct WindowsOverlayView {
    /// The main window's position on the screen.
    pub parent_pos: Position,
    /// The overlay's origin relative to the main window, as last applied.
    pub last_origin: Position,
}

/// Whether `origin` can be translated by `parent`: both are physical and the
/// sums fit in `i32`.  Logical positions are not supported.
pub open spec fn can_translate(origin: Position, parent: Position) -> bool {
    match (origin, parent) {
        (Position::Physical(o), Position::Physical(p)) => fits_i32(o.x + p.x) && fits_i32(o.y + p.y),
        _ => false,
    }
}

/// `origin` translated by `parent`, where `can_translate(origin, parent)`.
pub open spec fn translate(origin: Position, parent: Position) -> PhysicalPosition
    recommends
        can_translate(origin, parent),
{
    match (origin, parent) {
        (Position::Physical(o), Position::Physical(p)) => PhysicalPosition {
            x: (o.x + p.x) as i32,
            y: (o.y + p.y) as i32,
        },
        _ => PhysicalPosition { x: 0, y: 0 },
    }
}

/// The physical origin `(0, 0)`.
pub open spec fn zero_position() -> Position {
    Position::Physical(PhysicalPosition { x: 0, y: 0 })
}

/// Whether `origin` can be translated by `parent` (see `can_translate`):
/// callers of `set_origin` and `set_parent_position` test this first.
pub fn translation_defined(origin: Position, parent: Position) -> (ok: bool)
    ensures
        ok == can_translate(origin, parent),
        origin matches Position::Physical(o) ==> parent matches Position::Physical(p) ==> (ok <==> (
            i32::MIN <= o.x + p.x <= i32::MAX && i32::MIN <= o.y + p.y <= i32::MAX)),
        origin is Logical ==> !ok,
        parent is Logical ==> !ok,
{
    match (origin, parent) {
        (Position::Physical(o), Position::Physical(p)) => {
            let x: i64 = o.x as i64 + p.x as i64;
            let y: i64 = o.y as i64 + p.y as i64;
            i32::MIN as i64 <= x && x <= i32::MAX as i64 && i32::MIN as i64 <= y && y <= i32::MAX as i64
        },
        _ => false,
    }
}

impl WindowsOverlayView {
    /// Where the overlay window belongs on the screen in this state.
    pub open spec fn placement(self) -> PhysicalPosition {
        translate(self.last_origin, self.parent_pos)
    }

    /// The state after `set_origin(pos, overlay_alive)`: the origin is
    /// recorded only while the overlay window exists.
    pub open spec fn after_set_origin(self, pos: Position, overlay_alive: bool) -> Self {
        if overlay_alive {
            WindowsOverlayView { last_origin: pos, ..self }
        } else {
            self
        }
    }

    /// The state after `set_parent_position(pos, _)`: the parent position is
    /// always recorded.
    pub open spec fn after_set_parent_position(self, pos: Position) -> Self {
        WindowsOverlayView { parent_pos: pos, ..self }
    }

    /// A fresh overlay: parent at the screen origin, overlay at the parent's
    /// origin.
    pub fn new() -> (view: Self)
        ensures
            view.parent_pos == zero_position(),
            view.last_origin == zero_position(),
            view.parent_pos == Position::Physical(PhysicalPosition { x: 0, y: 0 }),
            view.last_origin == Position::Physical(PhysicalPosition { x: 0, y: 0 }),
    {
        WindowsOverlayView {
            parent_pos: Position::Physical(PhysicalPosition { x: 0, y: 0 }),
            last_origin: Position::Physical(PhysicalPosition { x: 0, y: 0 }),
        }
    }

    /// The main window moved to `pos`.  The new parent position is recorded,
    /// and the last origin is applied again relative to it: if the overlay
    /// window exists, the returned screen position is where it must be moved.
    pub fn set_parent_position(&mut self, pos: Position, overlay_alive: bool) -> (placed: Option<PhysicalPosition>)
        requires
            overlay_alive ==> can_translate(old(self).last_origin, pos),
        ensures
            *final(self) == old(self).after_set_parent_position(pos),
            placed == (if overlay_alive {
                Some(translate(old(self).last_origin, pos))
            } else {
                None::<PhysicalPosition>
            }),
            placed matches Some(q) ==> q == final(self).placement(),
            final(self).parent_pos == pos,
            final(self).last_origin == old(self).last_origin,
            overlay_alive <==> placed is Some,
            overlay_alive ==> (old(self).last_origin matches Position::Physical(o) ==> (pos matches Position::Physical(p)
                ==> placed == Some(PhysicalPosition { x: (o.x + p.x) as i32, y: (o.y + p.y) as i32 }))),
            placed matches Some(q) ==> (old(self).last_origin matches Position::Physical(o)
                && pos matches Position::Physical(p) && q.x == o.x + p.x && q.y == o.y + p.y),
    {
        self.parent_pos = pos;
        let origin = self.last_origin;
        self.set_origin(origin, overlay_alive)
    }

    /// The overlay's origin relative to the main window becomes `pos`.  If
    /// the overlay window exists, the origin is recorded and the returned
    /// screen position (`pos` translated by the parent's position) is where it
    /// must be moved; otherwise nothing changes.
    pub fn set_origin(&mut self, pos: Position, overlay_alive: bool) -> (placed: Option<PhysicalPosition>)
        requires
            overlay_alive ==> can_translate(pos, old(self).parent_pos),
        ensures
            *final(self) == old(self).after_set_origin(pos, overlay_alive),
            placed == (if overlay_alive {
                Some(translate(pos, old(self).parent_pos))
            } else {
                None::<PhysicalPosition>
            }),
            placed matches Some(q) ==> q == final(self).placement(),
            final(self).parent_pos == old(self).parent_pos,
            final(self).last_origin == (if overlay_alive { pos } else { old(self).last_origin }),
            overlay_alive <==> placed is Some,
            overlay_alive ==> (pos matches Position::Physical(o) ==> (old(self).parent_pos matches Position::Physical(p)
                ==> placed == Some(PhysicalPosition { x: (o.x + p.x) as i32, y: (o.y + p.y) as i32 }))),
            placed matches Some(q) ==> (pos matches Position::Physical(o)
                && old(self).parent_pos matches Position::Physical(p) && q.x == o.x + p.x && q.y == o.y + p.y),
    {
        if !overlay_alive {
            return None;
        }
        self.last_origin = pos;
        match (pos, self.parent_pos) {
            (Position::Physical(o), Position::Physical(p)) => {
                Some(PhysicalPosition { x: o.x + p.x, y: o.y + p.y })
            },
            _ => None,
        }
    }

    /// The overlay's size becomes `size`: it is to be applied unchanged if
    /// the overlay window exists.
    pub fn set_size(&self, size: Size, overlay_alive: bool) -> (applied: Option<Size>)
        ensures
            applied == (if overlay_alive { Some(size) } else { None::<Size> }),
            overlay_alive ==> applied == Some(size),
            !overlay_alive ==> applied is None,
    {
        if overlay_alive {
            Some(size)
        } else {
            None
        }
    }
}

/// The overlay's placement depends only on the latest origin and the latest
/// parent position, not on the order in which they arrived.
pub proof fn lemma_origin_parent_commute(view: WindowsOverlayView, origin: Position, parent: Position)
    ensures
        view.after_set_origin(origin, true).after_set_parent_position(parent)
            == view.after_set_parent_position(parent).after_set_origin(origin, true),
{
}

/// Whatever the order, once origin `o` and parent position `p` have both been
/// applied to a live overlay, it is placed at `o` translated by `p`.
pub proof fn lemma_placement_after_both(view: WindowsOverlayView, o: Position, p: Position)
    requires
        can_translate(o, p),
    ensures
        view.after_set_origin(o, true).after_set_parent_position(p).placement() == translate(o, p),
        view.after_set_parent_position(p).after_set_origin(o, true).placement() == translate(o, p),
{
}

/// An origin given while the overlay window is gone is forgotten: the next
/// move of the main window re-applies the origin recorded before.
pub proof fn lemma_dead_overlay_keeps_origin(view: WindowsOverlayView, o: Position, p: Position)
    ensures
        view.after_set_origin(o, false).after_set_parent_position(p).last_origin == view.last_origin,
{
}

/// Translating by the physical origin `(0, 0)` leaves a physical position
/// where it is: a fresh overlay is placed at exactly its own origin.
pub proof fn lemma_translate_by_zero(origin: PhysicalPosition)
    ensures
        can_translate(Position::Physical(origin), zero_position()),
        translate(Position::Physical(origin), zero_position()) == origin,
{
}

/// Translation adds coordinates: two physical positions whose sums fit in
/// `i32`, whatever their signs, can be translated, and the result is their
/// componentwise sum; a logical position can never be translated.
pub proof fn lemma_translation_is_sum(o: PhysicalPosition, p: PhysicalPosition, l: LogicalPosition)
    ensures
        can_translate(Position::Physical(o), Position::Physical(p))
            == (i32::MIN <= o.x + p.x <= i32::MAX && i32::MIN <= o.y + p.y <= i32::MAX),
        (i32::MIN <= o.x + p.x <= i32::MAX && i32::MIN <= o.y + p.y <= i32::MAX) ==> ({
            let t = translate(Position::Physical(o), Position::Physical(p));
            &&& t.x == o.x + p.x
            &&& t.y == o.y + p.y
        }),
        !can_translate(Position::Logical(l), Position::Physical(p)),
        !can_translate(Position::Physical(o), Position::Logical(l)),
{
}

/// A live overlay with physical origin `o` whose main window is at physical
/// position `p` is placed at `(o.x + p.x, o.y + p.y)`, for positions of any
/// sign; moving the main window by `(dx, dy)` moves the placement by the same.
pub proof fn lemma_placement_follows_parent(o: PhysicalPosition, p: PhysicalPosition, q: PhysicalPosition)
    requires
        i32::MIN <= o.x + p.x <= i32::MAX,
        i32::MIN <= o.y + p.y <= i32::MAX,
        i32::MIN <= o.x + q.x <= i32::MAX,
        i32::MIN <= o.y + q.y <= i32::MAX,
    ensures
        ({
            let v = WindowsOverlayView { parent_pos: Position::Physical(p), last_origin: Position::Physical(o) };
            let w = v.after_set_parent_position(Position::Physical(q));
            &&& v.placement().x == o.x + p.x
            &&& v.placement().y == o.y + p.y
            &&& w.placement().x - v.placement().x == q.x - p.x
            &&& w.placement().y - v.placement().y == q.y - p.y
        }),
{
}

/// The frame an overlay view embedded in the main window's content view is
/// given for a requested size: its width is the requested width, and so is
/// its height.
pub open spec fn frame_for(size: Size) -> Size {
    match size {
        Size::Physical(s) => Size::Physical(PhysicalSize { width: s.width, height: s.width }),
        Size::Logical(s) => Size::Logical(LogicalSize { width_bits: s.width_bits, height_bits: s.width_bits }),
    }
}

/// The frame size an embedded overlay view takes when asked for `size`:
/// a square whose side is the requested width, in the requested units.
pub fn embedded_frame_size(size: Size) -> (frame: Size)
    ensures
        frame == frame_for(size),
        size matches Size::Physical(s) ==> frame == Size::Physical(PhysicalSize { width: s.width, height: s.width }),
        size matches Size::Logical(s) ==> frame == Size::Logical(LogicalSize { width_bits: s.width_bits, height_bits: s.width_bits }),
{
    match size {
        Size::Physical(s) => Size::Physical(PhysicalSize { width: s.width, height: s.width }),
        Size::Logical(s) => Size::Logical(LogicalSize { width_bits: s.width_bits, height_bits: s.width_bits }),
    }
}

/// An embedded overlay view's frame is square, keeps the requested width and
/// units, and asking for it twice gives the same frame.
pub proof fn lemma_embedded_frame_square(size: Size)
    ensures
        frame_for(frame_for(size)) == frame_for(size),
        match (size, frame_for(size)) {
            (Size::Physical(s), Size::Physical(f)) => f.width == s.width && f.height == f.width,
            (Size::Logical(s), Size::Logical(f)) => f.width_bits == s.width_bits && f.height_bits == f.width_bits,
            _ => false,
        },
{
}

} // verus!
