//! The single source of truth for what dockyard can do.
//!
//! Key handling, the footer key-bar, the `?` help sheet and the `:` command
//! palette all read from the same table, so a binding can never appear in one
//! and be missing from another.

use vstd::prelude::*;

use crate::text::{cat2, cat3, dec, decimal, owned};

verus! {

broadcast use vstd::string::group_string_axioms;

/// Everything a user can ask for.
#[derive(Debug, Clone, Copy, PartialEq, Eq, Structural)]
pub enum Command {
    // Navigation
    NextTab,
    PrevTab,
    TabContainers,
    TabImages,
    TabVolumes,
    TabNetworks,
    Down,
    Up,
    PageDown,
    PageUp,
    Top,
    Bottom,

    // Grouping
    ToggleGroup,
    ToggleCollapse,
    ToggleCollapseAll,

    // Panes
    ToggleDetail,
    ToggleLogs,
    FocusNext,
    ToggleFollow,
    ToggleWrap,
    ToggleTimestamps,

    // Container lifecycle
    Start,
    Stop,
    Restart,
    Pause,
    Kill,
    Remove,
    Exec,

    // Bulk
    Prune,

    // Misc
    CopyId,
    Filter,
    ClearFilter,
    Palette,
    Help,
    Refresh,
    ToggleAll,
    SortNext,
    SortReverse,
    Quit,
}

/// Which tab(s) a command applies to.
#[derive(Debug, Clone, Copy, PartialEq, Eq, Structural)]
pub enum Scope {
    /// Available everywhere.
    Global,
    /// Only on the containers tab.
    Containers,
    /// On any tab that lists removable resources.
    Removable,
}

/// A media key.
#[derive(Debug, Clone, Copy, PartialEq, Eq, Structural)]
pub enum MediaKeyCode {
    Play,
    Pause,
    PlayPause,
    Reverse,
    Stop,
    FastForward,
    Rewind,
    TrackNext,
    TrackPrevious,
    Record,
    LowerVolume,
    RaiseVolume,
    MuteVolume,
}

/// A modifier key pressed by itself.
#[derive(Debug, Clone, Copy, PartialEq, Eq, Structural)]
pub enum ModifierKeyCode {
    LeftShift,
    LeftControl,
    LeftAlt,
    LeftSuper,
    LeftHyper,
    LeftMeta,
    RightShift,
    RightControl,
    RightAlt,
    RightSuper,
    RightHyper,
    RightMeta,
    IsoLevel3Shift,
    IsoLevel5Shift,
}

/// A key on the keyboard.
#[derive(Debug, Clone, Copy, PartialEq, Eq, Structural)]
pub enum KeyCode {
    Backspace,
    Enter,
    Left,
    Right,
    Up,
    Down,
    Home,
    End,
    PageUp,
    PageDown,
    Tab,
    BackTab,
    Delete,
    Insert,
    F(u8),
    Char(char),
    Null,
    Esc,
    CapsLock,
    ScrollLock,
    NumLock,
    PrintScreen,
    Pause,
    Menu,
    KeypadBegin,
    Media(MediaKeyCode),
    Modifier(ModifierKeyCode),
}

/// Whether a key went down, is being held, or came up.
#[derive(Debug, Clone, Copy, PartialEq, Eq, Structural)]
pub enum KeyEventKind {
    Press,
    Repeat,
    Release,
}

/// A key event, as far as anything here depends on it. Shift is already
/// encoded in the character for printable keys.
#[derive(Debug, Clone, Copy, PartialEq, Eq, Structural)]
pub struct KeyEvent {
    pub code: KeyCode,
    /// Whether control was held.
    pub ctrl: bool,
    pub kind: KeyEventKind,
}

impl KeyEvent {
    /// A key going down.
    pub fn new(code: KeyCode, ctrl: bool) -> (out: KeyEvent)
        ensures
            out == (KeyEvent { code, ctrl, kind: KeyEventKind::Press }),
    {
        KeyEvent { code, ctrl, kind: KeyEventKind::Press }
    }
}

/// A key, reduced to what we actually discriminate on. Shift is already encoded
/// in the character for printable keys, so only Ctrl needs its own flag.
#[derive(Debug, Clone, Copy, PartialEq, Eq, Structural)]
pub struct Key {
    pub code: KeyCode,
    pub ctrl: bool,
}

/// The name of a media key.
pub open spec fn media_text(code: MediaKeyCode) -> Seq<char> {
    match code {
        MediaKeyCode::Play => "play"@,
        MediaKeyCode::Pause => "pause"@,
        MediaKeyCode::PlayPause => "playpause"@,
        MediaKeyCode::Reverse => "reverse"@,
        MediaKeyCode::Stop => "stop"@,
        MediaKeyCode::FastForward => "fastforward"@,
        MediaKeyCode::Rewind => "rewind"@,
        MediaKeyCode::TrackNext => "tracknext"@,
        MediaKeyCode::TrackPrevious => "trackprevious"@,
        MediaKeyCode::Record => "record"@,
        MediaKeyCode::LowerVolume => "lowervolume"@,
        MediaKeyCode::RaiseVolume => "raisevolume"@,
        MediaKeyCode::MuteVolume => "mutevolume"@,
    }
}

fn media_name(code: MediaKeyCode) -> (out: &'static str)
    ensures
        out@ == media_text(code),
{
    match code {
        MediaKeyCode::Play => "play",
        MediaKeyCode::Pause => "pause",
        MediaKeyCode::PlayPause => "playpause",
        MediaKeyCode::Reverse => "reverse",
        MediaKeyCode::Stop => "stop",
        MediaKeyCode::FastForward => "fastforward",
        MediaKeyCode::Rewind => "rewind",
        MediaKeyCode::TrackNext => "tracknext",
        MediaKeyCode::TrackPrevious => "trackprevious",
        MediaKeyCode::Record => "record",
        MediaKeyCode::LowerVolume => "lowervolume",
        MediaKeyCode::RaiseVolume => "raisevolume",
        MediaKeyCode::MuteVolume => "mutevolume",
    }
}

/// The name of a modifier key.
pub open spec fn modifier_text(code: ModifierKeyCode) -> Seq<char> {
    match code {
        ModifierKeyCode::LeftShift => "leftshift"@,
        ModifierKeyCode::LeftControl => "leftcontrol"@,
        ModifierKeyCode::LeftAlt => "leftalt"@,
        ModifierKeyCode::LeftSuper => "leftsuper"@,
        ModifierKeyCode::LeftHyper => "lefthyper"@,
        ModifierKeyCode::LeftMeta => "leftmeta"@,
        ModifierKeyCode::RightShift => "rightshift"@,
        ModifierKeyCode::RightControl => "rightcontrol"@,
        ModifierKeyCode::RightAlt => "rightalt"@,
        ModifierKeyCode::RightSuper => "rightsuper"@,
        ModifierKeyCode::RightHyper => "righthyper"@,
        ModifierKeyCode::RightMeta => "rightmeta"@,
        ModifierKeyCode::IsoLevel3Shift => "isolevel3shift"@,
        ModifierKeyCode::IsoLevel5Shift => "isolevel5shift"@,
    }
}

fn modifier_name(code: ModifierKeyCode) -> (out: &'static str)
    ensures
        out@ == modifier_text(code),
{
    match code {
        ModifierKeyCode::LeftShift => "leftshift",
        ModifierKeyCode::LeftControl => "leftcontrol",
        ModifierKeyCode::LeftAlt => "leftalt",
        ModifierKeyCode::LeftSuper => "leftsuper",
        ModifierKeyCode::LeftHyper => "lefthyper",
        ModifierKeyCode::LeftMeta => "leftmeta",
        ModifierKeyCode::RightShift => "rightshift",
        ModifierKeyCode::RightControl => "rightcontrol",
        ModifierKeyCode::RightAlt => "rightalt",
        ModifierKeyCode::RightSuper => "rightsuper",
        ModifierKeyCode::RightHyper => "righthyper",
        ModifierKeyCode::RightMeta => "rightmeta",
        ModifierKeyCode::IsoLevel3Shift => "isolevel3shift",
        ModifierKeyCode::IsoLevel5Shift => "isolevel5shift",
    }
}

/// How a key is written in the UI, control aside.
pub open spec fn code_text(code: KeyCode) -> Seq<char> {
    match code {
        KeyCode::Char(c) => if c == ' ' {
            "space"@
        } else {
            seq![c]
        },
        KeyCode::Enter => "⏎"@,
        KeyCode::Esc => "esc"@,
        KeyCode::Tab => "tab"@,
        KeyCode::BackTab => "⇧tab"@,
        KeyCode::Up => "↑"@,
        KeyCode::Down => "↓"@,
        KeyCode::Left => "←"@,
        KeyCode::Right => "→"@,
        KeyCode::PageUp => "pgup"@,
        KeyCode::PageDown => "pgdn"@,
        KeyCode::Home => "home"@,
        KeyCode::End => "end"@,
        KeyCode::Backspace => "backspace"@,
        KeyCode::Delete => "delete"@,
        KeyCode::Insert => "insert"@,
        KeyCode::Null => "null"@,
        KeyCode::CapsLock => "capslock"@,
        KeyCode::ScrollLock => "scrolllock"@,
        KeyCode::NumLock => "numlock"@,
        KeyCode::PrintScreen => "printscreen"@,
        KeyCode::Pause => "pause"@,
        KeyCode::Menu => "menu"@,
        KeyCode::KeypadBegin => "keypadbegin"@,
        KeyCode::F(n) => "f("@ + dec(n as nat) + ")"@,
        KeyCode::Media(m) => "media("@ + media_text(m) + ")"@,
        KeyCode::Modifier(m) => "modifier("@ + modifier_text(m) + ")"@,
    }
}

fn code_name(code: KeyCode) -> (out: String)
    ensures
        out@ == code_text(code),
{
    match code {
        KeyCode::Char(c) => if c == ' ' {
            owned("space")
        } else {
            let mut out = String::new();
            out.push(c);
            assert(out@ =~= seq![c]);
            out
        },
        KeyCode::Enter => owned("⏎"),
        KeyCode::Esc => owned("esc"),
        KeyCode::Tab => owned("tab"),
        KeyCode::BackTab => owned("⇧tab"),
        KeyCode::Up => owned("↑"),
        KeyCode::Down => owned("↓"),
        KeyCode::Left => owned("←"),
        KeyCode::Right => owned("→"),
        KeyCode::PageUp => owned("pgup"),
        KeyCode::PageDown => owned("pgdn"),
        KeyCode::Home => owned("home"),
        KeyCode::End => owned("end"),
        KeyCode::Backspace => owned("backspace"),
        KeyCode::Delete => owned("delete"),
        KeyCode::Insert => owned("insert"),
        KeyCode::Null => owned("null"),
        KeyCode::CapsLock => owned("capslock"),
        KeyCode::ScrollLock => owned("scrolllock"),
        KeyCode::NumLock => owned("numlock"),
        KeyCode::PrintScreen => owned("printscreen"),
        KeyCode::Pause => owned("pause"),
        KeyCode::Menu => owned("menu"),
        KeyCode::KeypadBegin => owned("keypadbegin"),
        KeyCode::F(n) => cat3("f(", &decimal(n as u64), ")"),
        KeyCode::Media(m) => cat3("media(", media_name(m), ")"),
        KeyCode::Modifier(m) => cat3("modifier(", modifier_name(m), ")"),
    }
}

/// How a key is written in the UI.
pub open spec fn key_text(k: Key) -> Seq<char> {
    if k.ctrl {
        "^"@ + code_text(k.code)
    } else {
        code_text(k.code)
    }
}

impl Key {
    /// A printable key by itself.
    pub fn c(ch: char) -> (out: Key)
        ensures
            out == (Key { code: KeyCode::Char(ch), ctrl: false }),
    {
        Key { code: KeyCode::Char(ch), ctrl: false }
    }

    /// A printable key with control held.
    pub fn ctrl(ch: char) -> (out: Key)
        ensures
            out == (Key { code: KeyCode::Char(ch), ctrl: true }),
    {
        Key { code: KeyCode::Char(ch), ctrl: true }
    }

    /// Any key by itself.
    pub fn code(code: KeyCode) -> (out: Key)
        ensures
            out == (Key { code, ctrl: false }),
    {
        Key { code, ctrl: false }
    }

    /// Whether `ev` is an event of this key.
    pub fn matches(&self, ev: &KeyEvent) -> (out: bool)
        ensures
            out == (*self == key_of(*ev)),
    {
        self.ctrl == ev.ctrl && self.code == ev.code
    }

    /// How the key is written in the UI.
    pub fn label(&self) -> (out: String)
        ensures
            out@ == key_text(*self),
    {
        let base = code_name(self.code);
        if self.ctrl {
            cat2("^", &base)
        } else {
            base
        }
    }
}

/// The key an event is about.
pub open spec fn key_of(ev: KeyEvent) -> Key {
    Key { code: ev.code, ctrl: ev.ctrl }
}

// ---------------------------------------------------------------------------
// The table
// ---------------------------------------------------------------------------

/// The keys a command is bound to.
pub open spec fn keys_of(command: Command) -> Seq<Key> {
    match command {
        Command::NextTab => seq![Key { code: KeyCode::Tab, ctrl: false }],
        Command::PrevTab => seq![Key { code: KeyCode::BackTab, ctrl: false }],
        Command::TabContainers => seq![Key { code: KeyCode::Char('1'), ctrl: false }],
        Command::TabImages => seq![Key { code: KeyCode::Char('2'), ctrl: false }],
        Command::TabVolumes => seq![Key { code: KeyCode::Char('3'), ctrl: false }],
        Command::TabNetworks => seq![Key { code: KeyCode::Char('4'), ctrl: false }],
        Command::Down => seq![Key { code: KeyCode::Down, ctrl: false }, Key { code: KeyCode::Char('j'), ctrl: false }],
        Command::Up => seq![Key { code: KeyCode::Up, ctrl: false }, Key { code: KeyCode::Char('k'), ctrl: false }],
        Command::PageDown => seq![Key { code: KeyCode::PageDown, ctrl: false }, Key { code: KeyCode::Char('d'), ctrl: true }],
        Command::PageUp => seq![Key { code: KeyCode::PageUp, ctrl: false }, Key { code: KeyCode::Char('u'), ctrl: true }],
        Command::Top => seq![Key { code: KeyCode::Char('g'), ctrl: false }, Key { code: KeyCode::Home, ctrl: false }],
        Command::Bottom => seq![Key { code: KeyCode::Char('G'), ctrl: false }, Key { code: KeyCode::End, ctrl: false }],
        Command::ToggleGroup => seq![Key { code: KeyCode::Char('z'), ctrl: false }],
        Command::ToggleCollapse => seq![Key { code: KeyCode::Char(' '), ctrl: false }],
        Command::ToggleCollapseAll => seq![Key { code: KeyCode::Char('Z'), ctrl: false }],
        Command::ToggleDetail => seq![Key { code: KeyCode::Enter, ctrl: false }],
        Command::ToggleLogs => seq![Key { code: KeyCode::Char('l'), ctrl: false }],
        Command::FocusNext => seq![Key { code: KeyCode::Char('w'), ctrl: true }],
        Command::ToggleFollow => seq![Key { code: KeyCode::Char('f'), ctrl: false }],
        Command::ToggleWrap => seq![Key { code: KeyCode::Char('w'), ctrl: false }],
        Command::ToggleTimestamps => seq![Key { code: KeyCode::Char('t'), ctrl: false }],
        Command::Start => seq![Key { code: KeyCode::Char('u'), ctrl: false }],
        Command::Stop => seq![Key { code: KeyCode::Char('S'), ctrl: false }],
        Command::Restart => seq![Key { code: KeyCode::Char('r'), ctrl: false }],
        Command::Pause => seq![Key { code: KeyCode::Char('p'), ctrl: false }],
        Command::Kill => seq![Key { code: KeyCode::Char('K'), ctrl: false }],
        Command::Exec => seq![Key { code: KeyCode::Char('s'), ctrl: false }],
        Command::Remove => seq![Key { code: KeyCode::Char('d'), ctrl: false }],
        Command::Prune => seq![Key { code: KeyCode::Char('P'), ctrl: false }],
        Command::CopyId => seq![Key { code: KeyCode::Char('y'), ctrl: false }],
        Command::Filter => seq![Key { code: KeyCode::Char('/'), ctrl: false }],
        Command::ClearFilter => seq![Key { code: KeyCode::Esc, ctrl: false }],
        Command::Palette => seq![Key { code: KeyCode::Char(':'), ctrl: false }],
        Command::ToggleAll => seq![Key { code: KeyCode::Char('a'), ctrl: false }],
        Command::SortNext => seq![Key { code: KeyCode::Char('o'), ctrl: false }],
        Command::SortReverse => seq![Key { code: KeyCode::Char('O'), ctrl: false }],
        Command::Refresh => seq![Key { code: KeyCode::Char('r'), ctrl: true }],
        Command::Help => seq![Key { code: KeyCode::Char('?'), ctrl: false }],
        Command::Quit => seq![Key { code: KeyCode::Char('q'), ctrl: false }, Key { code: KeyCode::Char('c'), ctrl: true }],
    }
}

/// The palette entry of a command.
pub open spec fn name_of(command: Command) -> Seq<char> {
    match command {
        Command::NextTab => "go: next tab"@,
        Command::PrevTab => "go: previous tab"@,
        Command::TabContainers => "go: containers"@,
        Command::TabImages => "go: images"@,
        Command::TabVolumes => "go: volumes"@,
        Command::TabNetworks => "go: networks"@,
        Command::Down => "go: down"@,
        Command::Up => "go: up"@,
        Command::PageDown => "go: page down"@,
        Command::PageUp => "go: page up"@,
        Command::Top => "go: first"@,
        Command::Bottom => "go: last"@,
        Command::ToggleGroup => "group by stack"@,
        Command::ToggleCollapse => "stack: fold"@,
        Command::ToggleCollapseAll => "stack: fold all"@,
        Command::ToggleDetail => "view: toggle details"@,
        Command::ToggleLogs => "view: toggle logs"@,
        Command::FocusNext => "view: switch pane focus"@,
        Command::ToggleFollow => "logs: toggle follow"@,
        Command::ToggleWrap => "logs: toggle wrap"@,
        Command::ToggleTimestamps => "logs: toggle timestamps"@,
        Command::Start => "container: start"@,
        Command::Stop => "container: stop"@,
        Command::Restart => "container: restart"@,
        Command::Pause => "container: pause / unpause"@,
        Command::Kill => "container: kill"@,
        Command::Exec => "container: shell"@,
        Command::Remove => "remove selected"@,
        Command::Prune => "prune unused"@,
        Command::CopyId => "copy id"@,
        Command::Filter => "filter"@,
        Command::ClearFilter => "clear filter"@,
        Command::Palette => "command palette"@,
        Command::ToggleAll => "toggle stopped"@,
        Command::SortNext => "sort: next column"@,
        Command::SortReverse => "sort: reverse"@,
        Command::Refresh => "refresh"@,
        Command::Help => "help"@,
        Command::Quit => "quit"@,
    }
}

/// What a command does, in a sentence.
pub open spec fn help_of(command: Command) -> Seq<char> {
    match command {
        Command::NextTab => "Move to the next tab"@,
        Command::PrevTab => "Move to the previous tab"@,
        Command::TabContainers => "Show the containers tab"@,
        Command::TabImages => "Show the images tab"@,
        Command::TabVolumes => "Show the volumes tab"@,
        Command::TabNetworks => "Show the networks tab"@,
        Command::Down => "Move down one row"@,
        Command::Up => "Move up one row"@,
        Command::PageDown => "Move down a page"@,
        Command::PageUp => "Move up a page"@,
        Command::Top => "Jump to the first row"@,
        Command::Bottom => "Jump to the last row"@,
        Command::ToggleGroup => "Group containers by their compose project or swarm stack"@,
        Command::ToggleCollapse => "Fold or unfold the stack the cursor is in"@,
        Command::ToggleCollapseAll => "Fold every stack, or unfold them all if none are folded"@,
        Command::ToggleDetail => "Show or hide the detail pane"@,
        Command::ToggleLogs => "Show or hide the log pane"@,
        Command::FocusNext => "Move focus between the list and the log pane"@,
        Command::ToggleFollow => "Follow new log lines, or stay put"@,
        Command::ToggleWrap => "Wrap long log lines"@,
        Command::ToggleTimestamps => "Show or hide log timestamps"@,
        Command::Start => "Start the selected container"@,
        Command::Stop => "Stop the selected container"@,
        Command::Restart => "Restart the selected container"@,
        Command::Pause => "Freeze or resume the selected container"@,
        Command::Kill => "Send SIGKILL to the selected container"@,
        Command::Exec => "Open an interactive shell inside the container"@,
        Command::Remove => "Delete the selected resource (asks first)"@,
        Command::Prune => "Delete every unused resource on this tab (asks first)"@,
        Command::CopyId => "Copy the selected resource's id to the clipboard"@,
        Command::Filter => "Fuzzy-filter the current list"@,
        Command::ClearFilter => "Drop the current filter and show everything again"@,
        Command::Palette => "Search every command by name"@,
        Command::ToggleAll => "Show or hide stopped containers"@,
        Command::SortNext => "Cycle the sort column"@,
        Command::SortReverse => "Reverse the sort direction"@,
        Command::Refresh => "Re-read everything from the daemon now"@,
        Command::Help => "Show every keybinding"@,
        Command::Quit => "Leave dockyard"@,
    }
}

/// Where a command applies.
pub open spec fn scope_of(command: Command) -> Scope {
    match command {
        Command::ToggleGroup | Command::ToggleCollapse | Command::ToggleCollapseAll
            | Command::ToggleLogs | Command::FocusNext | Command::ToggleFollow
            | Command::ToggleWrap | Command::ToggleTimestamps | Command::Start
            | Command::Stop | Command::Restart | Command::Pause | Command::Kill
            | Command::Exec | Command::ToggleAll => Scope::Containers,
        Command::Remove | Command::Prune => Scope::Removable,
        _ => Scope::Global,
    }
}

/// Whether a command is in the footer key-bar.
pub open spec fn in_footer(command: Command) -> bool {
    match command {
        Command::ToggleGroup | Command::ToggleDetail | Command::ToggleLogs
            | Command::Start | Command::Stop | Command::Restart | Command::Exec
            | Command::Remove | Command::Filter | Command::Help | Command::Quit => true,
        _ => false,
    }
}

/// Every command, in the order the palette and the help sheet list them.
pub open spec fn command_table() -> Seq<Command> {
    seq![
        Command::NextTab,
        Command::PrevTab,
        Command::TabContainers,
        Command::TabImages,
        Command::TabVolumes,
        Command::TabNetworks,
        Command::Down,
        Command::Up,
        Command::PageDown,
        Command::PageUp,
        Command::Top,
        Command::Bottom,
        Command::ToggleGroup,
        Command::ToggleCollapse,
        Command::ToggleCollapseAll,
        Command::ToggleDetail,
        Command::ToggleLogs,
        Command::FocusNext,
        Command::ToggleFollow,
        Command::ToggleWrap,
        Command::ToggleTimestamps,
        Command::Start,
        Command::Stop,
        Command::Restart,
        Command::Pause,
        Command::Kill,
        Command::Exec,
        Command::Remove,
        Command::Prune,
        Command::CopyId,
        Command::Filter,
        Command::ClearFilter,
        Command::Palette,
        Command::ToggleAll,
        Command::SortNext,
        Command::SortReverse,
        Command::Refresh,
        Command::Help,
        Command::Quit,
    ]
}

/// The number of commands there are.
pub const COMMAND_COUNT: usize = 39;

/// One line of the table.
pub struct CommandSpec {
    pub command: Command,
    pub keys: Vec<Key>,
    /// Palette entry, e.g. `container: restart`.
    pub name: &'static str,
    pub help: &'static str,
    pub scope: Scope,
    /// Shown in the footer key-bar when true. The footer only has room for the
    /// handful of things people reach for constantly.
    pub footer: bool,
}

impl CommandSpec {
    /// Whether this is the table's line for `command`.
    pub open spec fn describes(&self, command: Command) -> bool {
        &&& self.command == command
        &&& self.keys@ == keys_of(command)
        &&& self.name@ == name_of(command)
        &&& self.help@ == help_of(command)
        &&& self.scope == scope_of(command)
        &&& self.footer == in_footer(command)
    }

    /// The table's line for `command`.
    pub fn of(command: Command) -> (out: CommandSpec)
        ensures
            out.describes(command),
    {
        CommandSpec {
            command,
            keys: command.keys(),
            name: command.name(),
            help: command.help(),
            scope: command.scope(),
            footer: command.footer(),
        }
    }
}

impl Command {
    /// The keys this command is bound to.
    pub fn keys(self) -> (out: Vec<Key>)
        ensures
            out@ == keys_of(self),
    {
        match self {
            Command::NextTab => vec![Key { code: KeyCode::Tab, ctrl: false }],
            Command::PrevTab => vec![Key { code: KeyCode::BackTab, ctrl: false }],
            Command::TabContainers => vec![Key { code: KeyCode::Char('1'), ctrl: false }],
            Command::TabImages => vec![Key { code: KeyCode::Char('2'), ctrl: false }],
            Command::TabVolumes => vec![Key { code: KeyCode::Char('3'), ctrl: false }],
            Command::TabNetworks => vec![Key { code: KeyCode::Char('4'), ctrl: false }],
            Command::Down => vec![Key { code: KeyCode::Down, ctrl: false }, Key { code: KeyCode::Char('j'), ctrl: false }],
            Command::Up => vec![Key { code: KeyCode::Up, ctrl: false }, Key { code: KeyCode::Char('k'), ctrl: false }],
            Command::PageDown => vec![Key { code: KeyCode::PageDown, ctrl: false }, Key { code: KeyCode::Char('d'), ctrl: true }],
            Command::PageUp => vec![Key { code: KeyCode::PageUp, ctrl: false }, Key { code: KeyCode::Char('u'), ctrl: true }],
            Command::Top => vec![Key { code: KeyCode::Char('g'), ctrl: false }, Key { code: KeyCode::Home, ctrl: false }],
            Command::Bottom => vec![Key { code: KeyCode::Char('G'), ctrl: false }, Key { code: KeyCode::End, ctrl: false }],
            Command::ToggleGroup => vec![Key { code: KeyCode::Char('z'), ctrl: false }],
            Command::ToggleCollapse => vec![Key { code: KeyCode::Char(' '), ctrl: false }],
            Command::ToggleCollapseAll => vec![Key { code: KeyCode::Char('Z'), ctrl: false }],
            Command::ToggleDetail => vec![Key { code: KeyCode::Enter, ctrl: false }],
            Command::ToggleLogs => vec![Key { code: KeyCode::Char('l'), ctrl: false }],
            Command::FocusNext => vec![Key { code: KeyCode::Char('w'), ctrl: true }],
            Command::ToggleFollow => vec![Key { code: KeyCode::Char('f'), ctrl: false }],
            Command::ToggleWrap => vec![Key { code: KeyCode::Char('w'), ctrl: false }],
            Command::ToggleTimestamps => vec![Key { code: KeyCode::Char('t'), ctrl: false }],
            Command::Start => vec![Key { code: KeyCode::Char('u'), ctrl: false }],
            Command::Stop => vec![Key { code: KeyCode::Char('S'), ctrl: false }],
            Command::Restart => vec![Key { code: KeyCode::Char('r'), ctrl: false }],
            Command::Pause => vec![Key { code: KeyCode::Char('p'), ctrl: false }],
            Command::Kill => vec![Key { code: KeyCode::Char('K'), ctrl: false }],
            Command::Exec => vec![Key { code: KeyCode::Char('s'), ctrl: false }],
            Command::Remove => vec![Key { code: KeyCode::Char('d'), ctrl: false }],
            Command::Prune => vec![Key { code: KeyCode::Char('P'), ctrl: false }],
            Command::CopyId => vec![Key { code: KeyCode::Char('y'), ctrl: false }],
            Command::Filter => vec![Key { code: KeyCode::Char('/'), ctrl: false }],
            Command::ClearFilter => vec![Key { code: KeyCode::Esc, ctrl: false }],
            Command::Palette => vec![Key { code: KeyCode::Char(':'), ctrl: false }],
            Command::ToggleAll => vec![Key { code: KeyCode::Char('a'), ctrl: false }],
            Command::SortNext => vec![Key { code: KeyCode::Char('o'), ctrl: false }],
            Command::SortReverse => vec![Key { code: KeyCode::Char('O'), ctrl: false }],
            Command::Refresh => vec![Key { code: KeyCode::Char('r'), ctrl: true }],
            Command::Help => vec![Key { code: KeyCode::Char('?'), ctrl: false }],
            Command::Quit => vec![Key { code: KeyCode::Char('q'), ctrl: false }, Key { code: KeyCode::Char('c'), ctrl: true }],
        }
    }

    /// The palette entry, e.g. `container: restart`.
    pub fn name(self) -> (out: &'static str)
        ensures
            out@ == name_of(self),
    {
        match self {
            Command::NextTab => "go: next tab",
            Command::PrevTab => "go: previous tab",
            Command::TabContainers => "go: containers",
            Command::TabImages => "go: images",
            Command::TabVolumes => "go: volumes",
            Command::TabNetworks => "go: networks",
            Command::Down => "go: down",
            Command::Up => "go: up",
            Command::PageDown => "go: page down",
            Command::PageUp => "go: page up",
            Command::Top => "go: first",
            Command::Bottom => "go: last",
            Command::ToggleGroup => "group by stack",
            Command::ToggleCollapse => "stack: fold",
            Command::ToggleCollapseAll => "stack: fold all",
            Command::ToggleDetail => "view: toggle details",
            Command::ToggleLogs => "view: toggle logs",
            Command::FocusNext => "view: switch pane focus",
            Command::ToggleFollow => "logs: toggle follow",
            Command::ToggleWrap => "logs: toggle wrap",
            Command::ToggleTimestamps => "logs: toggle timestamps",
            Command::Start => "container: start",
            Command::Stop => "container: stop",
            Command::Restart => "container: restart",
            Command::Pause => "container: pause / unpause",
            Command::Kill => "container: kill",
            Command::Exec => "container: shell",
            Command::Remove => "remove selected",
            Command::Prune => "prune unused",
            Command::CopyId => "copy id",
            Command::Filter => "filter",
            Command::ClearFilter => "clear filter",
            Command::Palette => "command palette",
            Command::ToggleAll => "toggle stopped",
            Command::SortNext => "sort: next column",
            Command::SortReverse => "sort: reverse",
            Command::Refresh => "refresh",
            Command::Help => "help",
            Command::Quit => "quit",
        }
    }

    /// What this command does, in a sentence.
    pub fn help(self) -> (out: &'static str)
        ensures
            out@ == help_of(self),
    {
        match self {
            Command::NextTab => "Move to the next tab",
            Command::PrevTab => "Move to the previous tab",
            Command::TabContainers => "Show the containers tab",
            Command::TabImages => "Show the images tab",
            Command::TabVolumes => "Show the volumes tab",
            Command::TabNetworks => "Show the networks tab",
            Command::Down => "Move down one row",
            Command::Up => "Move up one row",
            Command::PageDown => "Move down a page",
            Command::PageUp => "Move up a page",
            Command::Top => "Jump to the first row",
            Command::Bottom => "Jump to the last row",
            Command::ToggleGroup => "Group containers by their compose project or swarm stack",
            Command::ToggleCollapse => "Fold or unfold the stack the cursor is in",
            Command::ToggleCollapseAll => "Fold every stack, or unfold them all if none are folded",
            Command::ToggleDetail => "Show or hide the detail pane",
            Command::ToggleLogs => "Show or hide the log pane",
            Command::FocusNext => "Move focus between the list and the log pane",
            Command::ToggleFollow => "Follow new log lines, or stay put",
            Command::ToggleWrap => "Wrap long log lines",
            Command::ToggleTimestamps => "Show or hide log timestamps",
            Command::Start => "Start the selected container",
            Command::Stop => "Stop the selected container",
            Command::Restart => "Restart the selected container",
            Command::Pause => "Freeze or resume the selected container",
            Command::Kill => "Send SIGKILL to the selected container",
            Command::Exec => "Open an interactive shell inside the container",
            Command::Remove => "Delete the selected resource (asks first)",
            Command::Prune => "Delete every unused resource on this tab (asks first)",
            Command::CopyId => "Copy the selected resource's id to the clipboard",
            Command::Filter => "Fuzzy-filter the current list",
            Command::ClearFilter => "Drop the current filter and show everything again",
            Command::Palette => "Search every command by name",
            Command::ToggleAll => "Show or hide stopped containers",
            Command::SortNext => "Cycle the sort column",
            Command::SortReverse => "Reverse the sort direction",
            Command::Refresh => "Re-read everything from the daemon now",
            Command::Help => "Show every keybinding",
            Command::Quit => "Leave dockyard",
        }
    }

    /// Where this command applies.
    pub fn scope(self) -> (out: Scope)
        ensures
            out == scope_of(self),
    {
        match self {
            Command::ToggleGroup | Command::ToggleCollapse | Command::ToggleCollapseAll
                | Command::ToggleLogs | Command::FocusNext | Command::ToggleFollow
                | Command::ToggleWrap | Command::ToggleTimestamps | Command::Start
                | Command::Stop | Command::Restart | Command::Pause | Command::Kill
                | Command::Exec | Command::ToggleAll => Scope::Containers,
            Command::Remove | Command::Prune => Scope::Removable,
            _ => Scope::Global,
        }
    }

    /// Whether this command is in the footer key-bar.
    pub fn footer(self) -> (out: bool)
        ensures
            out == in_footer(self),
    {
        match self {
            Command::ToggleGroup | Command::ToggleDetail | Command::ToggleLogs
                | Command::Start | Command::Stop | Command::Restart | Command::Exec
                | Command::Remove | Command::Filter | Command::Help | Command::Quit => true,
            _ => false,
        }
    }
}

/// The command in line `index` of the table.
pub fn command_at(index: usize) -> (out: Command)
    requires
        index < COMMAND_COUNT,
    ensures
        out == command_table()[index as int],
{
    if index == 0 {
        Command::NextTab
    } else if index == 1 {
        Command::PrevTab
    } else if index == 2 {
        Command::TabContainers
    } else if index == 3 {
        Command::TabImages
    } else if index == 4 {
        Command::TabVolumes
    } else if index == 5 {
        Command::TabNetworks
    } else if index == 6 {
        Command::Down
    } else if index == 7 {
        Command::Up
    } else if index == 8 {
        Command::PageDown
    } else if index == 9 {
        Command::PageUp
    } else if index == 10 {
        Command::Top
    } else if index == 11 {
        Command::Bottom
    } else if index == 12 {
        Command::ToggleGroup
    } else if index == 13 {
        Command::ToggleCollapse
    } else if index == 14 {
        Command::ToggleCollapseAll
    } else if index == 15 {
        Command::ToggleDetail
    } else if index == 16 {
        Command::ToggleLogs
    } else if index == 17 {
        Command::FocusNext
    } else if index == 18 {
        Command::ToggleFollow
    } else if index == 19 {
        Command::ToggleWrap
    } else if index == 20 {
        Command::ToggleTimestamps
    } else if index == 21 {
        Command::Start
    } else if index == 22 {
        Command::Stop
    } else if index == 23 {
        Command::Restart
    } else if index == 24 {
        Command::Pause
    } else if index == 25 {
        Command::Kill
    } else if index == 26 {
        Command::Exec
    } else if index == 27 {
        Command::Remove
    } else if index == 28 {
        Command::Prune
    } else if index == 29 {
        Command::CopyId
    } else if index == 30 {
        Command::Filter
    } else if index == 31 {
        Command::ClearFilter
    } else if index == 32 {
        Command::Palette
    } else if index == 33 {
        Command::ToggleAll
    } else if index == 34 {
        Command::SortNext
    } else if index == 35 {
        Command::SortReverse
    } else if index == 36 {
        Command::Refresh
    } else if index == 37 {
        Command::Help
    } else {
        Command::Quit
    }
}

/// The whole table, in order.
pub fn commands() -> (out: Vec<CommandSpec>)
    ensures
        out.len() == COMMAND_COUNT,
        forall|i: int| 0 <= i < COMMAND_COUNT ==> (#[trigger] out@[i]).describes(command_table()[i]),
{
    let mut out: Vec<CommandSpec> = Vec::new();
    let mut i: usize = 0;
    while i < COMMAND_COUNT
        invariant
            i <= COMMAND_COUNT,
            out.len() == i,
            forall|k: int| 0 <= k < i ==> (#[trigger] out@[k]).describes(command_table()[k]),
        decreases COMMAND_COUNT - i,
    {
        out.push(CommandSpec::of(command_at(i)));
        i += 1;
    }
    out
}

/// The first command, from line `i` of the table on, that `key` is bound to.
pub open spec fn bound_from(key: Key, i: int) -> Option<Command>
    decreases COMMAND_COUNT - i,
{
    if i >= COMMAND_COUNT {
        None
    } else if keys_of(command_table()[i]).contains(key) {
        Some(command_table()[i])
    } else {
        bound_from(key, i + 1)
    }
}

/// Look up the command bound to a key press.
pub fn resolve(ev: &KeyEvent) -> (out: Option<Command>)
    ensures
        out == bound_from(key_of(*ev), 0),
{
    let ghost key = key_of(*ev);
    let mut i: usize = 0;
    while i < COMMAND_COUNT
        invariant
            i <= COMMAND_COUNT,
            key == key_of(*ev),
            bound_from(key, 0) == bound_from(key, i as int),
        decreases COMMAND_COUNT - i,
    {
        let command = command_at(i);
        let keys = command.keys();
        let mut k: usize = 0;
        while k < keys.len()
            invariant
                k <= keys.len(),
                key == key_of(*ev),
                keys@ == keys_of(command),
                i < COMMAND_COUNT,
                command == command_table()[i as int],
                bound_from(key, 0) == bound_from(key, i as int),
                forall|j: int| 0 <= j < k ==> #[trigger] keys@[j] != key,
            decreases keys.len() - k,
        {
            if keys[k].matches(ev) {
                assert(keys_of(command).contains(key));
                return Some(command);
            }
            k += 1;
        }
        assert(!keys_of(command).contains(key));
        i += 1;
    }
    None
}

// ---------------------------------------------------------------------------
// What the table promises
// ---------------------------------------------------------------------------

/// Every command has at least one key.
pub proof fn every_command_is_bound(command: Command)
    ensures
        keys_of(command).len() > 0,
{
}

/// The position of a command in the table.
pub open spec fn line_of(command: Command) -> int {
    match command {
        Command::NextTab => 0,
        Command::PrevTab => 1,
        Command::TabContainers => 2,
        Command::TabImages => 3,
        Command::TabVolumes => 4,
        Command::TabNetworks => 5,
        Command::Down => 6,
        Command::Up => 7,
        Command::PageDown => 8,
        Command::PageUp => 9,
        Command::Top => 10,
        Command::Bottom => 11,
        Command::ToggleGroup => 12,
        Command::ToggleCollapse => 13,
        Command::ToggleCollapseAll => 14,
        Command::ToggleDetail => 15,
        Command::ToggleLogs => 16,
        Command::FocusNext => 17,
        Command::ToggleFollow => 18,
        Command::ToggleWrap => 19,
        Command::ToggleTimestamps => 20,
        Command::Start => 21,
        Command::Stop => 22,
        Command::Restart => 23,
        Command::Pause => 24,
        Command::Kill => 25,
        Command::Exec => 26,
        Command::Remove => 27,
        Command::Prune => 28,
        Command::CopyId => 29,
        Command::Filter => 30,
        Command::ClearFilter => 31,
        Command::Palette => 32,
        Command::ToggleAll => 33,
        Command::SortNext => 34,
        Command::SortReverse => 35,
        Command::Refresh => 36,
        Command::Help => 37,
        Command::Quit => 38,
    }
}

/// The table lists every command, and each only once.
pub proof fn the_table_is_complete(command: Command, i: int)
    ensures
        command_table().len() == COMMAND_COUNT,
        0 <= line_of(command) < COMMAND_COUNT,
        command_table()[line_of(command)] == command,
        0 <= i < COMMAND_COUNT && command_table()[i] == command ==> i == line_of(command),
{
}

spec fn owner(key: Key) -> Command {
    match (key.code, key.ctrl) {
        (KeyCode::Tab, false) => Command::NextTab,
        (KeyCode::BackTab, false) => Command::PrevTab,
        (KeyCode::Char('1'), false) => Command::TabContainers,
        (KeyCode::Char('2'), false) => Command::TabImages,
        (KeyCode::Char('3'), false) => Command::TabVolumes,
        (KeyCode::Char('4'), false) => Command::TabNetworks,
        (KeyCode::Down, false) => Command::Down,
        (KeyCode::Char('j'), false) => Command::Down,
        (KeyCode::Up, false) => Command::Up,
        (KeyCode::Char('k'), false) => Command::Up,
        (KeyCode::PageDown, false) => Command::PageDown,
        (KeyCode::Char('d'), true) => Command::PageDown,
        (KeyCode::PageUp, false) => Command::PageUp,
        (KeyCode::Char('u'), true) => Command::PageUp,
        (KeyCode::Char('g'), false) => Command::Top,
        (KeyCode::Home, false) => Command::Top,
        (KeyCode::Char('G'), false) => Command::Bottom,
        (KeyCode::End, false) => Command::Bottom,
        (KeyCode::Char('z'), false) => Command::ToggleGroup,
        (KeyCode::Char(' '), false) => Command::ToggleCollapse,
        (KeyCode::Char('Z'), false) => Command::ToggleCollapseAll,
        (KeyCode::Enter, false) => Command::ToggleDetail,
        (KeyCode::Char('l'), false) => Command::ToggleLogs,
        (KeyCode::Char('w'), true) => Command::FocusNext,
        (KeyCode::Char('f'), false) => Command::ToggleFollow,
        (KeyCode::Char('w'), false) => Command::ToggleWrap,
        (KeyCode::Char('t'), false) => Command::ToggleTimestamps,
        (KeyCode::Char('u'), false) => Command::Start,
        (KeyCode::Char('S'), false) => Command::Stop,
        (KeyCode::Char('r'), false) => Command::Restart,
        (KeyCode::Char('p'), false) => Command::Pause,
        (KeyCode::Char('K'), false) => Command::Kill,
        (KeyCode::Char('s'), false) => Command::Exec,
        (KeyCode::Char('d'), false) => Command::Remove,
        (KeyCode::Char('P'), false) => Command::Prune,
        (KeyCode::Char('y'), false) => Command::CopyId,
        (KeyCode::Char('/'), false) => Command::Filter,
        (KeyCode::Esc, false) => Command::ClearFilter,
        (KeyCode::Char(':'), false) => Command::Palette,
        (KeyCode::Char('a'), false) => Command::ToggleAll,
        (KeyCode::Char('o'), false) => Command::SortNext,
        (KeyCode::Char('O'), false) => Command::SortReverse,
        (KeyCode::Char('r'), true) => Command::Refresh,
        (KeyCode::Char('?'), false) => Command::Help,
        (KeyCode::Char('q'), false) => Command::Quit,
        (KeyCode::Char('c'), true) => Command::Quit,
        _ => Command::Quit,
    }
}

proof fn keys_belong(command: Command, i: int)
    requires
        0 <= i < keys_of(command).len(),
    ensures
        owner(keys_of(command)[i]) == command,
{
}

/// No key is bound to two commands.
pub proof fn no_key_is_bound_twice(a: Command, b: Command, key: Key)
    requires
        keys_of(a).contains(key),
        keys_of(b).contains(key),
    ensures
        a == b,
{
    let i = choose|i: int| 0 <= i < keys_of(a).len() && keys_of(a)[i] == key;
    let j = choose|j: int| 0 <= j < keys_of(b).len() && keys_of(b)[j] == key;
    keys_belong(a, i);
    keys_belong(b, j);
}

proof fn bound_from_finds(command: Command, key: Key, i: int)
    requires
        0 <= i <= line_of(command),
        keys_of(command).contains(key),
    ensures
        bound_from(key, i) == Some(command),
    decreases line_of(command) - i,
{
    the_table_is_complete(command, i);
    if keys_of(command_table()[i]).contains(key) {
        no_key_is_bound_twice(command, command_table()[i], key);
    } else {
        bound_from_finds(command, key, i + 1);
    }
}

/// Pressing any of a command's keys resolves to that command.
pub proof fn every_binding_resolves(command: Command, key: Key)
    requires
        keys_of(command).contains(key),
    ensures
        bound_from(key, 0) == Some(command),
{
    the_table_is_complete(command, 0);
    bound_from_finds(command, key, 0);
}

/// A printable key goes by its character, and one with control held by that with a caret
/// in front.
pub proof fn keys_go_by_their_character(c: char)
    requires
        c != ' ',
    ensures
        key_text(Key { code: KeyCode::Char(c), ctrl: false }) == seq![c],
        key_text(Key { code: KeyCode::Char(c), ctrl: true }) == seq!['^', c],
{
    reveal_strlit("^");
    assert("^"@ + seq![c] =~= seq!['^', c]);
}

} // verus!
