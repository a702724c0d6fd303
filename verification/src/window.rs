//! The companion's window and its tray icon.
use vstd::prelude::*;
use crate::text::same_text;

verus! {

/// The distance that the window keeps from the right edge of the monitor.
pub const RIGHT_MARGIN: i32 = 16;

/// The distance that the window keeps from the bottom edge of the monitor.
pub const BOTTOM_MARGIN: i32 = 48;

/// The signed number with the same 32 bits.
pub open spec fn signed_32(n: u32) -> int {
    if n < 0x8000_0000 {
        n as int
    } else {
        n - 0x1_0000_0000
    }
}

/// Whether 32 signed bits hold a number.
pub open spec fn fits_32(n: int) -> bool {
    i32::MIN <= n <= i32::MAX
}

/// Where the window begins along one axis so that it ends a margin before the
/// monitor does.
pub open spec fn aligned(position: i32, monitor: u32, window: u32, margin: int) -> int {
    position + (signed_32(monitor) - signed_32(window)) - margin
}

/// Whether that can be worked out in 32 signed bits.
pub open spec fn can_align(position: i32, monitor: u32, window: u32, margin: int) -> bool {
    &&& fits_32(signed_32(monitor) - signed_32(window))
    &&& fits_32(position + (signed_32(monitor) - signed_32(window)))
    &&& fits_32(aligned(position, monitor, window, margin))
}

fn to_signed(n: u32) -> (signed: i32)
    ensures
        signed == signed_32(n),
{
    let signed: i32 = #[verifier::truncate]
    (n as i32);
    proof {
        assert(n < 0x8000_0000 ==> signed == n) by (bit_vector)
            requires
                signed == n as i32,
        ;
        assert(n >= 0x8000_0000 ==> signed == n - 0x1_0000_0000) by (bit_vector)
            requires
                signed == n as i32,
        ;
    }
    signed
}

fn align(position: i32, monitor: u32, window: u32, margin: i32) -> (start: Option<i32>)
    requires
        0 <= margin,
    ensures
        match start {
            Some(x) => can_align(position, monitor, window, margin as int) && x == aligned(
                position,
                monitor,
                window,
                margin as int,
            ),
            None => !can_align(position, monitor, window, margin as int),
        },
{
    match to_signed(monitor).checked_sub(to_signed(window)) {
        Some(room) => match position.checked_add(room) {
            Some(end) => end.checked_sub(margin),
            None => None,
        },
        None => None,
    }
}

/// The position at the bottom right of a monitor, with a margin, or `None` where a
/// coordinate on the way to it does not fit.
pub fn bottom_right(position: (i32, i32), monitor: (u32, u32), window: (u32, u32)) -> (corner: Option<
    (i32, i32),
>)
    ensures
        match corner {
            Some((x, y)) => {
                &&& can_align(position.0, monitor.0, window.0, RIGHT_MARGIN as int)
                &&& can_align(position.1, monitor.1, window.1, BOTTOM_MARGIN as int)
                &&& x == aligned(position.0, monitor.0, window.0, RIGHT_MARGIN as int)
                &&& y == aligned(position.1, monitor.1, window.1, BOTTOM_MARGIN as int)
            },
            None => {
                ||| !can_align(position.0, monitor.0, window.0, RIGHT_MARGIN as int)
                ||| !can_align(position.1, monitor.1, window.1, BOTTOM_MARGIN as int)
            },
        },
{
    match align(position.0, monitor.0, window.0, RIGHT_MARGIN) {
        Some(x) => match align(position.1, monitor.1, window.1, BOTTOM_MARGIN) {
            Some(y) => Some((x, y)),
            None => None,
        },
        None => None,
    }
}

/// A window that leaves room for the margins lies on the monitor, with its corner
/// as far from the monitor's corner as the margins say.
pub proof fn law_window_lies_on_the_monitor(position: i32, monitor: u32, window: u32, margin: int)
    requires
        0 <= margin,
        monitor < 0x8000_0000,
        window + margin <= monitor,
    ensures
        position <= aligned(position, monitor, window, margin),
        aligned(position, monitor, window, margin) + window == position + monitor - margin,
{
}

/// What the user does to the window or the tray icon.
pub enum UiEvent {
    /// An entry of the tray menu was chosen.
    Menu(String),
    /// The tray icon was clicked: with the left button or not, and on its release
    /// or not.
    TrayClick { left: bool, released: bool },
    /// The window is to be closed.
    CloseRequested,
}

/// What comes of it.
#[derive(Debug, Clone, Copy, PartialEq, Eq, Structural)]
pub enum UiAction {
    /// The window is shown and gets the focus.
    ShowWindow,
    /// The window goes to the tray.
    HideWindow,
    /// The companion ends.
    Quit,
    Nothing,
}

/// What comes of what the user does. Closing the window does not end the companion;
/// the tray menu does.
pub fn ui_action(event: &UiEvent) -> (action: UiAction)
    ensures
        action == (match *event {
            UiEvent::Menu(entry) => if entry@ == "show"@ {
                UiAction::ShowWindow
            } else if entry@ == "quit"@ {
                UiAction::Quit
            } else {
                UiAction::Nothing
            },
            UiEvent::TrayClick { left, released } => if left && released {
                UiAction::ShowWindow
            } else {
                UiAction::Nothing
            },
            UiEvent::CloseRequested => UiAction::HideWindow,
        }),
{
    match event {
        UiEvent::Menu(entry) => if same_text(entry.as_str(), "show") {
            UiAction::ShowWindow
        } else if same_text(entry.as_str(), "quit") {
            UiAction::Quit
        } else {
            UiAction::Nothing
        },
        UiEvent::TrayClick { left, released } => if *left && *released {
            UiAction::ShowWindow
        } else {
            UiAction::Nothing
        },
        UiEvent::CloseRequested => UiAction::HideWindow,
    }
}

/// A size is a signed number as long as it is below two to the thirty-first, and else
/// that number less two to the thirty-second.
pub proof fn law_sizes_are_signed(n: u32)
    ensures
        n < 0x8000_0000 ==> signed_32(n) == n,
        n >= 0x8000_0000 ==> signed_32(n) == n - 0x1_0000_0000,
{
}

/// On a monitor and with a window of any size that is a positive signed number, the
/// window ends sixteen before the right edge and forty-eight before the bottom edge,
/// wherever all of that can be worked out in signed numbers, and there only is a position
/// told.
pub proof fn law_the_window_ends_before_the_edges(
    position: (i32, i32),
    monitor: (u32, u32),
    window: (u32, u32),
    corner: Option<(i32, i32)>,
)
    requires
        call_ensures(bottom_right, (position, monitor, window), corner),
        monitor.0 < 0x8000_0000,
        monitor.1 < 0x8000_0000,
        window.0 < 0x8000_0000,
        window.1 < 0x8000_0000,
    ensures
        corner matches Some((x, y)) ==> {
            &&& x + window.0 + 16 == position.0 + monitor.0
            &&& y + window.1 + 48 == position.1 + monitor.1
        },
        ({
            let right = position.0 + monitor.0 - window.0;
            let bottom = position.1 + monitor.1 - window.1;
            corner is Some <==> {
                &&& i32::MIN + 16 <= right <= i32::MAX
                &&& i32::MIN + 48 <= bottom <= i32::MAX
            }
        }),
{
}

/// Sizes that are no positive signed numbers count as the negative ones with the same
/// bits, on each axis by itself.
pub proof fn law_the_axes_are_alike(position: i32, monitor: u32, window: u32, margin: int)
    ensures
        aligned(position, monitor, window, margin) == position + signed_32(monitor) - signed_32(
            window,
        ) - margin,
        can_align(position, monitor, window, margin) <==> {
            let room = signed_32(monitor) - signed_32(window);
            &&& i32::MIN <= room <= i32::MAX
            &&& i32::MIN <= position + room <= i32::MAX
            &&& i32::MIN <= position + room - margin <= i32::MAX
        },
{
}

/// Closing the window only hides it. The menu and a left click that is released show it,
/// only the menu ends the companion, and nothing else does anything.
pub proof fn law_only_the_menu_ends_the_companion(event: &UiEvent, action: UiAction)
    requires
        call_ensures(ui_action, (event,), action),
    ensures
        action is Quit <==> (*event matches UiEvent::Menu(entry) && entry@ == "quit"@),
        action is HideWindow <==> *event is CloseRequested,
        action is ShowWindow <==> {
            ||| (*event matches UiEvent::Menu(entry) && entry@ == "show"@)
            ||| (*event matches UiEvent::TrayClick { left, released } && left && released)
        },
{
    reveal_strlit("show");
    reveal_strlit("quit");
    assert("show"@[0] == 's');
    assert("quit"@[0] == 'q');
}

} // verus!
