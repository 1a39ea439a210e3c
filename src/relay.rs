//! The fixed table from user triggers (explicit calls, tray menu items, global
//! shortcuts) to the named events that the frontend listens for.
use vstd::prelude::*;
use crate::state::same_text;

verus! {

/// An event sent to the frontend, without payload.
#[derive(Debug, Clone, Copy, PartialEq, Eq, Structural)]
pub enum FrontendEvent {
    RecordingStart,
    RecordingStop,
    RecordingPause,
    RecordingResume,
    TrayStartStop,
    TrayPauseResume,
    TrayOpenFolder,
    ShortcutToggleRecording,
    ShortcutTogglePause,
    WindowCloseRequested,
}

impl FrontendEvent {
    pub open spec fn spec_name(&self) -> Seq<char> {
        match self {
            FrontendEvent::RecordingStart => "recording:start"@,
            FrontendEvent::RecordingStop => "recording:stop"@,
            FrontendEvent::RecordingPause => "recording:pause"@,
            FrontendEvent::RecordingResume => "recording:resume"@,
            FrontendEvent::TrayStartStop => "tray:start_stop"@,
            FrontendEvent::TrayPauseResume => "tray:pause_resume"@,
            FrontendEvent::TrayOpenFolder => "tray:open_folder"@,
            FrontendEvent::ShortcutToggleRecording => "shortcut:toggle_recording"@,
            FrontendEvent::ShortcutTogglePause => "shortcut:toggle_pause"@,
            FrontendEvent::WindowCloseRequested => "window:close_requested"@,
        }
    }

    /// The name under which the frontend subscribes to the event.
    pub fn name(&self) -> (r: &'static str)
        ensures
            r@ == self.spec_name(),
    {
        match self {
            FrontendEvent::RecordingStart => "recording:start",
            FrontendEvent::RecordingStop => "recording:stop",
            FrontendEvent::RecordingPause => "recording:pause",
            FrontendEvent::RecordingResume => "recording:resume",
            FrontendEvent::TrayStartStop => "tray:start_stop",
            FrontendEvent::TrayPauseResume => "tray:pause_resume",
            FrontendEvent::TrayOpenFolder => "tray:open_folder",
            FrontendEvent::ShortcutToggleRecording => "shortcut:toggle_recording",
            FrontendEvent::ShortcutTogglePause => "shortcut:toggle_pause",
            FrontendEvent::WindowCloseRequested => "window:close_requested",
        }
    }
}

/// An explicit call from the frontend that is relayed back as an event.
#[derive(Debug, Clone, Copy, PartialEq, Eq, Structural)]
pub enum RecordingCommand {
    Start,
    Stop,
    Pause,
    Resume,
}

impl RecordingCommand {
    pub open spec fn spec_event(&self) -> FrontendEvent {
        match self {
            RecordingCommand::Start => FrontendEvent::RecordingStart,
            RecordingCommand::Stop => FrontendEvent::RecordingStop,
            RecordingCommand::Pause => FrontendEvent::RecordingPause,
            RecordingCommand::Resume => FrontendEvent::RecordingResume,
        }
    }

    /// The event that the call is relayed as.
    pub fn event(&self) -> (r: FrontendEvent)
        ensures
            r == self.spec_event(),
    {
        match self {
            RecordingCommand::Start => FrontendEvent::RecordingStart,
            RecordingCommand::Stop => FrontendEvent::RecordingStop,
            RecordingCommand::Pause => FrontendEvent::RecordingPause,
            RecordingCommand::Resume => FrontendEvent::RecordingResume,
        }
    }
}

/// What the tray does in answer to a menu selection or a click.
#[derive(Debug, Clone, Copy, PartialEq, Eq, Structural)]
pub enum TrayAction {
    /// Send this event to the frontend.
    Emit(FrontendEvent),
    /// Bring the main window back and give it focus.
    RestoreWindow,
    /// End the process with a success status.
    Quit,
    /// Nothing: the selection is not one of the menu's items.
    Ignore,
}

/// The items of the tray menu, top to bottom (separators aside).
#[derive(Debug, Clone, Copy, PartialEq, Eq, Structural)]
pub enum TrayItem {
    StartStop,
    PauseResume,
    ShowWindow,
    OpenFolder,
    Quit,
}

/// The action of the menu item with the given identifier.
pub open spec fn spec_tray_menu_action(id: Seq<char>) -> TrayAction {
    if id == "start_stop"@ {
        TrayAction::Emit(FrontendEvent::TrayStartStop)
    } else if id == "pause_resume"@ {
        TrayAction::Emit(FrontendEvent::TrayPauseResume)
    } else if id == "show_window"@ {
        TrayAction::RestoreWindow
    } else if id == "open_folder"@ {
        TrayAction::Emit(FrontendEvent::TrayOpenFolder)
    } else if id == "quit"@ {
        TrayAction::Quit
    } else {
        TrayAction::Ignore
    }
}

impl TrayItem {
    pub open spec fn spec_id(&self) -> Seq<char> {
        match self {
            TrayItem::StartStop => "start_stop"@,
            TrayItem::PauseResume => "pause_resume"@,
            TrayItem::ShowWindow => "show_window"@,
            TrayItem::OpenFolder => "open_folder"@,
            TrayItem::Quit => "quit"@,
        }
    }

    pub open spec fn spec_action(&self) -> TrayAction {
        match self {
            TrayItem::StartStop => TrayAction::Emit(FrontendEvent::TrayStartStop),
            TrayItem::PauseResume => TrayAction::Emit(FrontendEvent::TrayPauseResume),
            TrayItem::ShowWindow => TrayAction::RestoreWindow,
            TrayItem::OpenFolder => TrayAction::Emit(FrontendEvent::TrayOpenFolder),
            TrayItem::Quit => TrayAction::Quit,
        }
    }

    /// The identifier that the menu reports when the item is selected.
    pub fn id(&self) -> (r: &'static str)
        ensures
            r@ == self.spec_id(),
    {
        match self {
            TrayItem::StartStop => "start_stop",
            TrayItem::PauseResume => "pause_resume",
            TrayItem::ShowWindow => "show_window",
            TrayItem::OpenFolder => "open_folder",
            TrayItem::Quit => "quit",
        }
    }

    /// The text shown for the item.
    pub fn label(&self) -> (r: &'static str)
        ensures
            r@ == match self {
                TrayItem::StartStop => "开始录制"@,
                TrayItem::PauseResume => "暂停录制"@,
                TrayItem::ShowWindow => "显示主窗口"@,
                TrayItem::OpenFolder => "打开保存目录"@,
                TrayItem::Quit => "退出"@,
            },
    {
        match self {
            TrayItem::StartStop => "开始录制",
            TrayItem::PauseResume => "暂停录制",
            TrayItem::ShowWindow => "显示主窗口",
            TrayItem::OpenFolder => "打开保存目录",
            TrayItem::Quit => "退出",
        }
    }

    /// Whether the item can be selected when the menu is built: pausing needs
    /// a recording, so that item starts disabled.
    pub fn enabled_at_start(&self) -> (r: bool)
        ensures
            r == (*self != TrayItem::PauseResume),
    {
        match self {
            TrayItem::PauseResume => false,
            _ => true,
        }
    }
}

/// The action of a tray menu selection; an unknown identifier does nothing.
pub fn tray_menu_action(id: &str) -> (r: TrayAction)
    ensures
        r == spec_tray_menu_action(id@),
{
    if same_text(id, "start_stop") {
        TrayAction::Emit(FrontendEvent::TrayStartStop)
    } else if same_text(id, "pause_resume") {
        TrayAction::Emit(FrontendEvent::TrayPauseResume)
    } else if same_text(id, "show_window") {
        TrayAction::RestoreWindow
    } else if same_text(id, "open_folder") {
        TrayAction::Emit(FrontendEvent::TrayOpenFolder)
    } else if same_text(id, "quit") {
        TrayAction::Quit
    } else {
        TrayAction::Ignore
    }
}

/// A click on the tray icon always restores the main window; it never hides
/// it, so a minimized window is not mistaken for a visible one.
pub fn tray_click_action() -> (r: TrayAction)
    ensures
        r == TrayAction::RestoreWindow,
{
    TrayAction::RestoreWindow
}

/// Each menu item's identifier leads back to that item's action, and the
/// identifiers of different items differ.
pub proof fn lemma_tray_ids_dispatch(a: TrayItem, b: TrayItem)
    ensures
        spec_tray_menu_action(a.spec_id()) == a.spec_action(),
        a != b ==> a.spec_id() != b.spec_id(),
{
    reveal_strlit("start_stop");
    reveal_strlit("pause_resume");
    reveal_strlit("show_window");
    reveal_strlit("open_folder");
    reveal_strlit("quit");
    assert("start_stop"@[0] != "pause_resume"@[0]);
    assert("start_stop"@[1] != "show_window"@[1]);
    assert("start_stop"@[0] != "open_folder"@[0]);
    assert("start_stop"@[0] != "quit"@[0]);
    assert("pause_resume"@[0] != "show_window"@[0]);
    assert("pause_resume"@[0] != "open_folder"@[0]);
    assert("pause_resume"@[0] != "quit"@[0]);
    assert("show_window"@[0] != "open_folder"@[0]);
    assert("show_window"@[0] != "quit"@[0]);
    assert("open_folder"@[0] != "quit"@[0]);
}

/// A system-wide keyboard shortcut.
#[derive(Debug, Clone, Copy, PartialEq, Eq, Structural)]
pub enum Shortcut {
    ToggleRecording,
    TogglePause,
}

impl Shortcut {
    pub open spec fn spec_event(&self) -> FrontendEvent {
        match self {
            Shortcut::ToggleRecording => FrontendEvent::ShortcutToggleRecording,
            Shortcut::TogglePause => FrontendEvent::ShortcutTogglePause,
        }
    }

    /// The key combination.
    pub fn accelerator(&self) -> (r: &'static str)
        ensures
            r@ == match self {
                Shortcut::ToggleRecording => "Ctrl+Alt+R"@,
                Shortcut::TogglePause => "Ctrl+Alt+P"@,
            },
    {
        match self {
            Shortcut::ToggleRecording => "Ctrl+Alt+R",
            Shortcut::TogglePause => "Ctrl+Alt+P",
        }
    }

    /// The event sent when the combination is pressed.
    pub fn event(&self) -> (r: FrontendEvent)
        ensures
            r == self.spec_event(),
    {
        match self {
            Shortcut::ToggleRecording => FrontendEvent::ShortcutToggleRecording,
            Shortcut::TogglePause => FrontendEvent::ShortcutTogglePause,
        }
    }
}

/// The exit status of a requested quit.
pub const EXIT_SUCCESS: i32 = 0;

} // verus!
