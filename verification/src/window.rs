//! Where the board's window goes: its first position, and what it does on window events.
use vstd::prelude::*;

verus! {

/// A window position in physical pixels.
#[derive(Clone, Copy)]
pub struct WinPos {
    pub x: i32,
    pub y: i32,
}

/// Whether a saved position still shows the window on a screen `screen_w` by `screen_h`
/// pixels, for a window `win_w` pixels wide: at least 40 pixels of it must remain on the
/// screen on every side.
pub open spec fn position_visible(p: WinPos, win_w: i32, screen_w: u32, screen_h: u32) -> bool {
    &&& p.x > -(win_w - 40)
    &&& p.y > -40
    &&& p.x < (screen_w as i32) - 40
    &&& p.y < (screen_h as i32) - 40
}

/// The inputs on which checking `saved` meets no arithmetic overflow, in the order the checks
/// are made (each only when the ones before it passed).
pub open spec fn position_check_in_range(
    saved: Option<WinPos>,
    win_w: i32,
    screen_w: u32,
    screen_h: u32,
) -> bool {
    saved matches Some(p) ==> {
        &&& win_w > i32::MIN + 40
        &&& (p.x > -(win_w - 40) && p.y > -40) ==> (screen_w as i32) >= i32::MIN + 40
        &&& (p.x > -(win_w - 40) && p.y > -40 && p.x < (screen_w as i32) - 40) ==> (screen_h
            as i32) >= i32::MIN + 40
    }
}

/// Whether checking `saved` against the screen meets no arithmetic overflow.
pub fn position_check_ok(saved: Option<WinPos>, win_w: i32, screen_w: u32, screen_h: u32) -> (b:
    bool)
    ensures
        b == position_check_in_range(saved, win_w, screen_w, screen_h),
{
    match saved {
        None => true,
        Some(p) => {
            if win_w <= i32::MIN + 40 {
                return false;
            }
            if !(p.x > -(win_w - 40) && p.y > -40) {
                return true;
            }
            if (screen_w as i32) < i32::MIN + 40 {
                return false;
            }
            if !(p.x < (screen_w as i32) - 40) {
                return true;
            }
            (screen_h as i32) >= i32::MIN + 40
        },
    }
}

/// The position to open the board at: the saved position when there is one and it is still
/// visible on the current screen, else `fallback` (the top-right corner).
pub fn initial_position(
    saved: Option<WinPos>,
    win_w: i32,
    screen_w: u32,
    screen_h: u32,
    fallback: WinPos,
) -> (r: WinPos)
    requires
        position_check_in_range(saved, win_w, screen_w, screen_h),
    ensures
        r == (match saved {
            Some(p) => if position_visible(p, win_w, screen_w, screen_h) {
                p
            } else {
                fallback
            },
            None => fallback,
        }),
{
    match saved {
        Some(p) => {
            if p.x > -(win_w - 40) && p.y > -40 && p.x < (screen_w as i32) - 40 && p.y < (
            screen_h as i32) - 40 {
                p
            } else {
                fallback
            }
        },
        None => fallback,
    }
}

/// On screens whose sizes fit in an `i32`, a saved position is restored exactly when more
/// than 40 pixels of the window remain on each side: `x` above `40 - win_w` and below the
/// screen's width less 40, `y` above -40 and below the screen's height less 40.
pub proof fn lemma_restored_exactly_when_on_screen(
    p: WinPos,
    win_w: i32,
    screen_w: u32,
    screen_h: u32,
)
    requires
        screen_w <= i32::MAX,
        screen_h <= i32::MAX,
    ensures
        position_visible(p, win_w, screen_w, screen_h) <==> (p.x as int > 40 - win_w as int
            && p.y as int > -40 && (p.x as int) < screen_w as int - 40 && (p.y as int)
            < screen_h as int - 40),
{
}

/// The width bounds only `x` and the height bounds only `y`: changing the screen's height
/// does not change whether a position is restored while `y` stays inside both heights, and
/// changing its width does not while `x` stays inside both widths.
pub proof fn lemma_each_dimension_bounds_its_coordinate(
    p: WinPos,
    win_w: i32,
    screen_w: u32,
    screen_w2: u32,
    screen_h: u32,
    screen_h2: u32,
)
    ensures
        ((p.y as int) < (screen_h as i32) as int - 40 && (p.y as int) < (screen_h2 as i32) as int
            - 40) ==> (position_visible(p, win_w, screen_w, screen_h) == position_visible(
            p,
            win_w,
            screen_w,
            screen_h2,
        )),
        ((p.x as int) < (screen_w as i32) as int - 40 && (p.x as int) < (screen_w2 as i32) as int
            - 40) ==> (position_visible(p, win_w, screen_w, screen_h) == position_visible(
            p,
            win_w,
            screen_w2,
            screen_h,
        )),
{
}

/// What happens to the board's window.
pub enum WindowEvent {
    /// The window is asked to close (Alt+F4 and the like).
    CloseRequested,
    /// The window gained (`true`) or lost (`false`) the focus.
    Focused(bool),
    /// The window's size changed.
    Resized { width: u32, height: u32 },
    /// Anything else.
    Other,
}

/// What the board does about a window event.
pub enum WindowReaction {
    /// Remember the window's position.
    SavePosition,
    /// Put the window back below all other windows.
    SendToBottom,
    /// Show the window again without activating it, and put it below all other windows.
    RestoreAndSendToBottom,
    /// Nothing.
    Ignore,
}

/// The reaction to a window event: closing saves the position, losing the focus sends the
/// board back to the bottom, and being shrunk to nothing (as "show desktop" does) restores it
/// and sends it to the bottom.
pub open spec fn reaction(event: WindowEvent) -> WindowReaction {
    match event {
        WindowEvent::CloseRequested => WindowReaction::SavePosition,
        WindowEvent::Focused(focused) => if focused {
            WindowReaction::Ignore
        } else {
            WindowReaction::SendToBottom
        },
        WindowEvent::Resized { width, height } => if width == 0 || height == 0 {
            WindowReaction::RestoreAndSendToBottom
        } else {
            WindowReaction::Ignore
        },
        WindowEvent::Other => WindowReaction::Ignore,
    }
}

/// The board's reaction to a window event.
pub fn reaction_to(event: WindowEvent) -> (r: WindowReaction)
    ensures
        r == reaction(event),
{
    match event {
        WindowEvent::CloseRequested => WindowReaction::SavePosition,
        WindowEvent::Focused(focused) => {
            if focused {
                WindowReaction::Ignore
            } else {
                WindowReaction::SendToBottom
            }
        },
        WindowEvent::Resized { width, height } => {
            if width == 0 || height == 0 {
                WindowReaction::RestoreAndSendToBottom
            } else {
                WindowReaction::Ignore
            }
        },
        WindowEvent::Other => WindowReaction::Ignore,
    }
}

/// Closing saves the position; losing the focus sends the board to the bottom, gaining it
/// does nothing; a resize restores the board and sends it to the bottom exactly when a side
/// became 0; other events do nothing.
pub proof fn lemma_window_reactions(focused: bool, width: u32, height: u32)
    ensures
        reaction(WindowEvent::CloseRequested) == WindowReaction::SavePosition,
        reaction(WindowEvent::Focused(focused)) == (if focused {
            WindowReaction::Ignore
        } else {
            WindowReaction::SendToBottom
        }),
        (reaction(WindowEvent::Resized { width, height }) == WindowReaction::RestoreAndSendToBottom)
            <==> (width == 0 || height == 0),
        (reaction(WindowEvent::Resized { width, height }) == WindowReaction::Ignore) <==> (width
            != 0 && height != 0),
        reaction(WindowEvent::Other) == WindowReaction::Ignore,
{
}

/// The new always-on-top setting when the pin is toggled: the opposite of the current one.
pub fn toggle_pin(on_top: bool) -> (pinned: bool)
    ensures
        pinned == !on_top,
{
    !on_top
}

} // verus!
