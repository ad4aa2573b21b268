use vstd::prelude::*;

use crate::geometry::{PhysicalPosition, PhysicalSize, Position, Size};
use crate::layout::{layout_for, overlay_layout};
use crate::surface::{is_renderable, resized, WgpuState};

verus! {

/// The events of the main window that the overlay reacts to.
#[derive(Clone, Copy, Debug, PartialEq, Eq, Structural)]
pub enum WindowEvent {
    /// The main window moved; its new position on the screen.
    Moved(PhysicalPosition),
    /// The main window was resized; its new inner size.
    Resized(PhysicalSize),
    /// Any other window event.
    Other,
}

/// What the overlay (and the surface rendering into it) must be told, in
/// order, after a window event.
#[derive(Clone, Copy, Debug, PartialEq, Eq, Structural)]
pub enum OverlayCommand {
    /// Pass the main window's position to the overlay.
    SetParentPosition(Position),
    /// Move the overlay, relative to the main window.
    SetOrigin(Position),
    /// Resize the overlay.
    SetSize(Size),
    /// Resize the render surface.
    ResizeSurface(PhysicalSize),
}

/// The commands a window event gives rise to.
pub open spec fn commands_for(event: WindowEvent) -> Seq<OverlayCommand> {
    match event {
        WindowEvent::Moved(pos) => seq![OverlayCommand::SetParentPosition(Position::Physical(pos))],
        WindowEvent::Resized(size) => {
            let l = layout_for(size);
            seq![
                OverlayCommand::SetOrigin(Position::Physical(l.origin)),
                OverlayCommand::SetSize(Size::Physical(l.size)),
                OverlayCommand::ResizeSurface(l.size),
            ]
        },
        WindowEvent::Other => Seq::empty(),
    }
}

/// Decides what a window event means for the overlay.  A move is passed on
/// as the overlay's parent position.  A resize lays the overlay out again
/// (see `overlay_layout`): it is moved to its new origin, given its new size,
/// and the render surface is resized to the same size.  Other events change
/// nothing.
pub fn overlay_commands(event: WindowEvent) -> (commands: Vec<OverlayCommand>)
    ensures
        commands@ == commands_for(event),
        event matches WindowEvent::Moved(pos) ==> commands@ == seq![
            OverlayCommand::SetParentPosition(Position::Physical(pos)),
        ],
        event is Other ==> commands@.len() == 0,
        event matches WindowEvent::Resized(w) ==> resize_commands_are_centred_strip(w, commands@),
{
    proof {
        match event {
            WindowEvent::Resized(w) => lemma_resize_commands(w),
            WindowEvent::Moved(pos) => lemma_move_passes_position(pos),
            WindowEvent::Other => {},
        }
    }
    let mut commands: Vec<OverlayCommand> = Vec::new();
    match event {
        WindowEvent::Moved(pos) => {
            commands.push(OverlayCommand::SetParentPosition(Position::Physical(pos)));
        },
        WindowEvent::Resized(size) => {
            let l = overlay_layout(size);
            commands.push(OverlayCommand::SetOrigin(Position::Physical(l.origin)));
            commands.push(OverlayCommand::SetSize(Size::Physical(l.size)));
            commands.push(OverlayCommand::ResizeSurface(l.size));
        },
        WindowEvent::Other => {},
    }
    commands
}

/// What the commands for a resize of the main window to `w` must be, stated
/// by what they achieve rather than how they are computed: three commands,
/// moving the overlay to `(x, OVERLAY_TOP)`, sizing it `width x height`, and
/// sizing the surface the same, where
/// - `width` is 30% of the window's width and `height` 10% of its height,
///   each rounded down (`10 * width <= 3 * w.width < 10 * width + 10`, and
///   likewise for the height);
/// - the overlay is centred: `x` is half the space it leaves free, rounded
///   down, so the gap on its right is the gap on its left plus 0, 1 or 2;
/// - its top is 100 pixels below the window's top, whatever the height.
pub open spec fn resize_commands_are_centred_strip(w: PhysicalSize, commands: Seq<OverlayCommand>) -> bool {
    &&& commands.len() == 3
    &&& commands[0] matches OverlayCommand::SetOrigin(Position::Physical(origin))
    &&& commands[1] matches OverlayCommand::SetSize(Size::Physical(size))
    &&& commands[2] == OverlayCommand::ResizeSurface(size)
    &&& origin.y == 100
    &&& 10 * size.width <= 3 * w.width < 10 * size.width + 10
    &&& 10 * size.height <= w.height < 10 * size.height + 10
    &&& 0 <= origin.x
    &&& 2 * origin.x <= w.width - size.width <= 2 * origin.x + 2
    &&& 20 * origin.x <= 7 * w.width < 20 * origin.x + 20
}

/// A resize of the main window moves the overlay to the centre of the
/// window's width, 100 pixels from its top, and gives the overlay and the
/// surface the same size, 30% by 10% of the window (rounded down).
pub proof fn lemma_resize_commands(w: PhysicalSize)
    ensures
        resize_commands_are_centred_strip(w, commands_for(WindowEvent::Resized(w))),
        commands_for(WindowEvent::Resized(w))[0] == OverlayCommand::SetOrigin(
            Position::Physical(layout_for(w).origin),
        ),
{
}

/// A move of the main window is passed on unchanged, whatever the sign of
/// its coordinates, as the overlay's parent position and nothing else; any
/// other event gives no command.
pub proof fn lemma_move_passes_position(pos: PhysicalPosition)
    ensures
        commands_for(WindowEvent::Moved(pos)).len() == 1,
        commands_for(WindowEvent::Moved(pos))[0] == OverlayCommand::SetParentPosition(Position::Physical(pos)),
        commands_for(WindowEvent::Other).len() == 0,
{
}

/// After a resize, the render surface is sized exactly like the overlay when
/// the overlay has a nonzero extent (a window at least 4 pixels wide and 10
/// high); in a smaller window the surface keeps its previous size.
pub proof fn lemma_surface_follows_overlay(state: WgpuState, window: PhysicalSize)
    requires
        state.well_formed(),
    ensures
        ({
            let overlay = layout_for(window).size;
            let after = resized(state, overlay);
            &&& (window.width >= 4 && window.height >= 10) ==> after.size == overlay
            &&& (window.width >= 4 && window.height >= 10) ==> is_renderable(overlay)
            &&& !(window.width >= 4 && window.height >= 10) ==> after == state
        }),
{
}

/// The size given to the overlay and the size given to the surface after a
/// resize are the same.
pub proof fn lemma_resize_commands_agree(window: PhysicalSize)
    ensures
        commands_for(WindowEvent::Resized(window)).len() == 3,
        commands_for(WindowEvent::Resized(window))[1] == OverlayCommand::SetSize(
            Size::Physical(layout_for(window).size),
        ),
        commands_for(WindowEvent::Resized(window))[2] == OverlayCommand::ResizeSurface(
            layout_for(window).size,
        ),
{
}

} // verus!
