//! The quick-insert controller: what to tell the windows when the hotkey
//! fires, when the user picks from the tray, and when the main window is
//! asked to close.
//!
//! The hotkey callback runs outside the context that owns the windows. It
//! calls nothing here that touches a window: these functions name the window
//! calls to make, and the caller posts them to the owning context.

use crate::text::str_eq;
use vstd::prelude::*;

verus! {

/// What the platform reports of the hotkey.
#[derive(Clone, Copy, Debug, PartialEq, Eq, Structural)]
pub enum HotkeyEvent {
    /// The combination went down.
    Pressed,
    /// The combination was let go.
    Released,
}

/// What is known of the popup window.
#[derive(Clone, Copy, Debug, PartialEq, Eq, Structural)]
pub enum PopupStatus {
    /// There is no popup window.
    Absent,
    /// The popup is on screen.
    Visible,
    /// The popup is hidden.
    Hidden,
    /// The popup exists and would not say whether it is visible.
    Unknown,
}

/// A call on the popup window.
#[derive(Clone, Copy, Debug, PartialEq, Eq, Structural)]
pub enum WindowCall {
    /// Move the window to this physical position.
    SetPosition(i32, i32),
    Show,
    Focus,
    Hide,
}

/// A call on the popup window, and whether its failure matters.
#[derive(Clone, Copy, Debug, PartialEq, Eq, Structural)]
pub struct PopupStep {
    pub call: WindowCall,
    /// Where this is set, a failure of the call ends the sequence and is
    /// reported; otherwise a failure is passed over.
    pub must_succeed: bool,
}

/// The calls that put the popup on screen at `at`, `strict` saying whether a
/// failure to show it matters.
pub open spec fn showing(at: (i32, i32), strict: bool) -> Seq<PopupStep> {
    seq![
        PopupStep { call: WindowCall::SetPosition(at.0, at.1), must_succeed: false },
        PopupStep { call: WindowCall::Show, must_succeed: strict },
        PopupStep { call: WindowCall::Focus, must_succeed: false },
    ]
}

/// The calls that take the popup off screen.
pub open spec fn hiding(strict: bool) -> Seq<PopupStep> {
    seq![PopupStep { call: WindowCall::Hide, must_succeed: strict }]
}

/// What a hotkey event does to the popup: a press hides a visible popup and
/// shows any other at `at`; a release does nothing, and neither does
/// anything where there is no popup. No failure matters.
pub open spec fn hotkey_steps(event: HotkeyEvent, status: PopupStatus, at: (i32, i32)) -> Seq<
    PopupStep,
> {
    match (event, status) {
        (HotkeyEvent::Released, _) => Seq::<PopupStep>::empty(),
        (HotkeyEvent::Pressed, PopupStatus::Absent) => Seq::<PopupStep>::empty(),
        (HotkeyEvent::Pressed, PopupStatus::Visible) => hiding(false),
        (HotkeyEvent::Pressed, _) => showing(at, false),
    }
}

fn bring_up(at: (i32, i32), strict: bool) -> (steps: Vec<PopupStep>)
    ensures
        steps@ == showing(at, strict),
{
    let mut steps: Vec<PopupStep> = Vec::new();
    steps.push(PopupStep { call: WindowCall::SetPosition(at.0, at.1), must_succeed: false });
    steps.push(PopupStep { call: WindowCall::Show, must_succeed: strict });
    steps.push(PopupStep { call: WindowCall::Focus, must_succeed: false });
    proof {
        assert(steps@ =~= showing(at, strict));
    }
    steps
}

fn take_down(strict: bool) -> (steps: Vec<PopupStep>)
    ensures
        steps@ == hiding(strict),
{
    let mut steps: Vec<PopupStep> = Vec::new();
    steps.push(PopupStep { call: WindowCall::Hide, must_succeed: strict });
    proof {
        assert(steps@ =~= hiding(strict));
    }
    steps
}

/// The window calls for a hotkey event. `status` is what the popup says of
/// itself when the calls are about to be made; `at` is the placement worked
/// out from the cursor when the event came in.
pub fn on_hotkey(event: HotkeyEvent, status: PopupStatus, at: (i32, i32)) -> (steps: Vec<PopupStep>)
    ensures
        steps@ == hotkey_steps(event, status, at),
{
    match (event, status) {
        (HotkeyEvent::Released, _) => Vec::new(),
        (HotkeyEvent::Pressed, PopupStatus::Absent) => Vec::new(),
        (HotkeyEvent::Pressed, PopupStatus::Visible) => take_down(false),
        (HotkeyEvent::Pressed, _) => bring_up(at, false),
    }
}

/// The window calls that show the popup on request: position, show and
/// focus, of which only showing must succeed. Nothing where there is no
/// popup.
pub fn show_popup(status: PopupStatus, at: (i32, i32)) -> (steps: Vec<PopupStep>)
    ensures
        steps@ == if status == PopupStatus::Absent {
            Seq::<PopupStep>::empty()
        } else {
            showing(at, true)
        },
{
    match status {
        PopupStatus::Absent => Vec::new(),
        _ => bring_up(at, true),
    }
}

/// The window calls that hide the popup on request: hiding must succeed.
/// Nothing where there is no popup.
pub fn hide_popup(status: PopupStatus) -> (steps: Vec<PopupStep>)
    ensures
        steps@ == if status == PopupStatus::Absent {
            Seq::<PopupStep>::empty()
        } else {
            hiding(true)
        },
{
    match status {
        PopupStatus::Absent => Vec::new(),
        _ => take_down(true),
    }
}

/// What to do with the application and its main window.
#[derive(Clone, Copy, Debug, PartialEq, Eq, Structural)]
pub enum MainCommand {
    Nothing,
    /// Show the main window and give it the focus.
    ShowAndFocus,
    /// Refuse the close and hide the main window.
    HideInsteadOfClosing,
    /// Leave the application with this exit code.
    Exit(i32),
}

/// A mouse button on the tray icon.
#[derive(Clone, Copy, Debug, PartialEq, Eq, Structural)]
pub enum MouseButton {
    Left,
    Right,
    Middle,
}

/// Which way a mouse button went.
#[derive(Clone, Copy, Debug, PartialEq, Eq, Structural)]
pub enum ButtonState {
    Up,
    Down,
}

/// What happened on the tray icon.
#[derive(Clone, Copy, Debug, PartialEq, Eq, Structural)]
pub enum TrayEvent {
    Click(MouseButton, ButtonState),
    /// Anything that is not a click.
    Other,
}

/// What the tray menu entry with this id stands for.
pub open spec fn menu_command(id: Seq<char>) -> MainCommand {
    if id == "show"@ {
        MainCommand::ShowAndFocus
    } else if id == "quit"@ {
        MainCommand::Exit(0)
    } else {
        MainCommand::Nothing
    }
}

/// What to do when the tray menu entry `id` was picked.
pub fn on_menu_event(id: &str) -> (command: MainCommand)
    ensures
        command == menu_command(id@),
{
    if str_eq(id, "show") {
        MainCommand::ShowAndFocus
    } else if str_eq(id, "quit") {
        MainCommand::Exit(0)
    } else {
        MainCommand::Nothing
    }
}

/// What to do on a tray icon event: the main window comes up when the left
/// button is let go over the icon.
pub fn on_tray_event(event: TrayEvent) -> (command: MainCommand)
    ensures
        command == if event == TrayEvent::Click(MouseButton::Left, ButtonState::Up) {
            MainCommand::ShowAndFocus
        } else {
            MainCommand::Nothing
        },
{
    match event {
        TrayEvent::Click(MouseButton::Left, ButtonState::Up) => MainCommand::ShowAndFocus,
        _ => MainCommand::Nothing,
    }
}

/// What to do when the main window is asked to close: it hides, and the
/// application goes on in the tray.
pub fn on_close_requested() -> (command: MainCommand)
    ensures
        command == MainCommand::HideInsteadOfClosing,
{
    MainCommand::HideInsteadOfClosing
}

} // verus!
