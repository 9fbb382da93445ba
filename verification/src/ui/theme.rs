//! Colours and glyphs.
//!
//! Everything the UI draws pulls its colour from a named role here rather than
//! naming a colour directly, so the whole app can be re-skinned (or stripped
//! back to plain ANSI / monochrome) from one place.

use vstd::prelude::*;

use crate::text::{owned, same};

verus! {

broadcast use vstd::string::group_string_axioms;

/// How adventurous we can be with non-ASCII glyphs.
#[derive(Debug, Clone, Copy, PartialEq, Eq, Structural)]
pub enum Glyphs {
    /// Pure 7-bit ASCII. Always safe.
    Ascii,
    /// Geometric shapes and box drawing — present in essentially every
    /// monospace font. The default.
    Unicode,
    /// Nerd Font private-use icons. Only if the user opted in.
    Nerd,
}

impl Default for Glyphs {
    fn default() -> (out: Glyphs)
        ensures
            out == Glyphs::Unicode,
    {
        Glyphs::Unicode
    }
}

/// Which colour space to render in.
#[derive(Debug, Clone, Copy, PartialEq, Eq, Structural)]
pub enum Palette {
    /// A curated 24-bit palette (Tokyo Night). Consistent everywhere.
    TrueColor,
    /// The terminal's own 16 ANSI colours, so the app inherits the user's theme.
    Ansi,
    /// No colour at all — weight and reverse video only.
    Mono,
}

impl Default for Palette {
    fn default() -> (out: Palette)
        ensures
            out == Palette::TrueColor,
    {
        Palette::TrueColor
    }
}

/// A colour.
#[derive(Debug, Clone, Copy, PartialEq, Eq, Structural)]
pub enum Color {
    Reset,
    Black,
    Red,
    Green,
    Yellow,
    Blue,
    Magenta,
    Cyan,
    Gray,
    DarkGray,
    Rgb(u8, u8, u8),
}

/// How text is drawn: in which colours, if any are asked for, and how heavily.
#[derive(Debug, Clone, Copy, PartialEq, Eq, Structural)]
pub struct Style {
    pub fg: Option<Color>,
    pub bg: Option<Color>,
    pub bold: bool,
    pub dim: bool,
    pub reversed: bool,
}

/// Text as it comes.
pub open spec fn plain() -> Style {
    Style { fg: None, bg: None, bold: false, dim: false, reversed: false }
}

/// Text in a colour.
pub open spec fn colored(c: Color) -> Style {
    Style { fg: Some(c), ..plain() }
}

/// Heavy text in a colour.
pub open spec fn strong(c: Color) -> Style {
    Style { fg: Some(c), bold: true, ..plain() }
}

/// Text on a colour.
pub open spec fn filled(c: Color) -> Style {
    Style { bg: Some(c), ..plain() }
}

impl Default for Style {
    /// Text as it comes.
    fn default() -> (out: Style)
        ensures
            out == plain(),
    {
        Style { fg: None, bg: None, bold: false, dim: false, reversed: false }
    }
}

impl Style {
    /// The same in another text colour.
    pub fn fg(self, c: Color) -> (out: Style)
        ensures
            out == (Style { fg: Some(c), ..self }),
    {
        Style { fg: Some(c), ..self }
    }

    /// The same on another background.
    pub fn bg(self, c: Color) -> (out: Style)
        ensures
            out == (Style { bg: Some(c), ..self }),
    {
        Style { bg: Some(c), ..self }
    }

    /// The same, heavier.
    pub fn bold(self) -> (out: Style)
        ensures
            out == (Style { bold: true, ..self }),
    {
        Style { bold: true, ..self }
    }

    /// The same, fainter.
    pub fn dim(self) -> (out: Style)
        ensures
            out == (Style { dim: true, ..self }),
    {
        Style { dim: true, ..self }
    }

    /// The same with text and background exchanged.
    pub fn reversed(self) -> (out: Style)
        ensures
            out == (Style { reversed: true, ..self }),
    {
        Style { reversed: true, ..self }
    }
}

/// A colour for every role, resolved once for the chosen [`Palette`].
#[derive(Debug, Clone, Copy, PartialEq, Eq, Structural)]
pub struct Theme {
    pub palette: Palette,
    pub glyphs: Glyphs,
    // Structural roles.
    pub text: Color,
    pub subtle: Color,
    pub faint: Color,
    pub border: Color,
    pub border_focus: Color,
    pub surface: Color,
    pub surface_alt: Color,
    pub selection: Color,
    pub selection_text: Color,
    // Semantic roles.
    pub primary: Color,
    pub accent: Color,
    pub success: Color,
    pub warn: Color,
    pub danger: Color,
    pub info: Color,
}

/// The theme of a palette.
pub open spec fn theme_of(palette: Palette, glyphs: Glyphs) -> Theme {
    match palette {
        Palette::TrueColor => Theme {
            palette,
            glyphs,
            text: Color::Rgb(0xC0, 0xCA, 0xF5),
            subtle: Color::Rgb(0x7A, 0x88, 0xB8),
            faint: Color::Rgb(0x56, 0x5F, 0x89),
            border: Color::Rgb(0x3B, 0x42, 0x61),
            border_focus: Color::Rgb(0x7A, 0xA2, 0xF7),
            surface: Color::Rgb(0x1A, 0x1B, 0x26),
            surface_alt: Color::Rgb(0x1F, 0x23, 0x35),
            selection: Color::Rgb(0x2E, 0x3C, 0x64),
            selection_text: Color::Rgb(0xE6, 0xEC, 0xFF),
            primary: Color::Rgb(0x7A, 0xA2, 0xF7),
            accent: Color::Rgb(0xBB, 0x9A, 0xF7),
            success: Color::Rgb(0x9E, 0xCE, 0x6A),
            warn: Color::Rgb(0xE0, 0xAF, 0x68),
            danger: Color::Rgb(0xF7, 0x76, 0x8E),
            info: Color::Rgb(0x7D, 0xCF, 0xFF),
        },
        Palette::Ansi => Theme {
            palette,
            glyphs,
            text: Color::Reset,
            subtle: Color::Gray,
            faint: Color::DarkGray,
            border: Color::DarkGray,
            border_focus: Color::Blue,
            surface: Color::Reset,
            surface_alt: Color::Reset,
            selection: Color::Blue,
            selection_text: Color::Black,
            primary: Color::Blue,
            accent: Color::Magenta,
            success: Color::Green,
            warn: Color::Yellow,
            danger: Color::Red,
            info: Color::Cyan,
        },
        Palette::Mono => Theme {
            palette,
            glyphs,
            text: Color::Reset,
            subtle: Color::Reset,
            faint: Color::Reset,
            border: Color::Reset,
            border_focus: Color::Reset,
            surface: Color::Reset,
            surface_alt: Color::Reset,
            selection: Color::Reset,
            selection_text: Color::Reset,
            primary: Color::Reset,
            accent: Color::Reset,
            success: Color::Reset,
            warn: Color::Reset,
            danger: Color::Reset,
            info: Color::Reset,
        },
    }
}

impl Theme {
    /// The theme of a palette.
    pub fn new(palette: Palette, glyphs: Glyphs) -> (out: Theme)
        ensures
            out == theme_of(palette, glyphs),
    {
        match palette {
            Palette::TrueColor => Theme {
                palette,
                glyphs,
                text: Color::Rgb(0xC0, 0xCA, 0xF5),
                subtle: Color::Rgb(0x7A, 0x88, 0xB8),
                faint: Color::Rgb(0x56, 0x5F, 0x89),
                border: Color::Rgb(0x3B, 0x42, 0x61),
                border_focus: Color::Rgb(0x7A, 0xA2, 0xF7),
                surface: Color::Rgb(0x1A, 0x1B, 0x26),
                surface_alt: Color::Rgb(0x1F, 0x23, 0x35),
                selection: Color::Rgb(0x2E, 0x3C, 0x64),
                selection_text: Color::Rgb(0xE6, 0xEC, 0xFF),
                primary: Color::Rgb(0x7A, 0xA2, 0xF7),
                accent: Color::Rgb(0xBB, 0x9A, 0xF7),
                success: Color::Rgb(0x9E, 0xCE, 0x6A),
                warn: Color::Rgb(0xE0, 0xAF, 0x68),
                danger: Color::Rgb(0xF7, 0x76, 0x8E),
                info: Color::Rgb(0x7D, 0xCF, 0xFF),
            },
            Palette::Ansi => Theme {
                palette,
                glyphs,
                text: Color::Reset,
                subtle: Color::Gray,
                faint: Color::DarkGray,
                border: Color::DarkGray,
                border_focus: Color::Blue,
                surface: Color::Reset,
                surface_alt: Color::Reset,
                selection: Color::Blue,
                selection_text: Color::Black,
                primary: Color::Blue,
                accent: Color::Magenta,
                success: Color::Green,
                warn: Color::Yellow,
                danger: Color::Red,
                info: Color::Cyan,
            },
            Palette::Mono => Theme {
                palette,
                glyphs,
                text: Color::Reset,
                subtle: Color::Reset,
                faint: Color::Reset,
                border: Color::Reset,
                border_focus: Color::Reset,
                surface: Color::Reset,
                surface_alt: Color::Reset,
                selection: Color::Reset,
                selection_text: Color::Reset,
                primary: Color::Reset,
                accent: Color::Reset,
                success: Color::Reset,
                warn: Color::Reset,
                danger: Color::Reset,
                info: Color::Reset,
            },
        }
    }

    /// Whether there is no colour to spend.
    pub open spec fn mono(self) -> bool {
        self.palette == Palette::Mono
    }

    /// Whether there is no colour to spend.
    pub fn is_mono(&self) -> (out: bool)
        ensures
            out == self.mono(),
    {
        self.palette == Palette::Mono
    }

    // ---- Convenience styles -------------------------------------------------

    /// Ordinary text.
    pub fn base(&self) -> (out: Style)
        ensures
            out == colored(self.text),
    {
        Style::default().fg(self.text)
    }

    /// Less important text.
    pub open spec fn dim_style(self) -> Style {
        if self.mono() {
            Style { dim: true, ..plain() }
        } else {
            colored(self.subtle)
        }
    }

    /// Less important text.
    pub fn dim(&self) -> (out: Style)
        ensures
            out == self.dim_style(),
    {
        if self.is_mono() {
            Style::default().dim()
        } else {
            Style::default().fg(self.subtle)
        }
    }

    /// The least important text.
    pub open spec fn faintest(self) -> Style {
        if self.mono() {
            Style { dim: true, ..plain() }
        } else {
            colored(self.faint)
        }
    }

    /// The least important text.
    pub fn faint_style(&self) -> (out: Style)
        ensures
            out == self.faintest(),
    {
        if self.is_mono() {
            Style::default().dim()
        } else {
            Style::default().fg(self.faint)
        }
    }

    /// A pane's border.
    pub open spec fn edge(self, focused: bool) -> Style {
        if self.mono() {
            if focused {
                Style { bold: true, ..plain() }
            } else {
                Style { dim: true, ..plain() }
            }
        } else if focused {
            colored(self.border_focus)
        } else {
            colored(self.border)
        }
    }

    /// Border style for a pane, brighter when that pane has focus.
    pub fn border_style(&self, focused: bool) -> (out: Style)
        ensures
            out == self.edge(focused),
    {
        if self.is_mono() {
            if focused {
                Style::default().bold()
            } else {
                Style::default().dim()
            }
        } else if focused {
            Style::default().fg(self.border_focus)
        } else {
            Style::default().fg(self.border)
        }
    }

    /// A pane's title.
    pub open spec fn caption(self, focused: bool) -> Style {
        if focused {
            strong(
                if self.mono() {
                    self.text
                } else {
                    self.border_focus
                },
            )
        } else {
            colored(self.subtle)
        }
    }

    /// Title style for a pane, likewise focus-sensitive.
    pub fn title_style(&self, focused: bool) -> (out: Style)
        ensures
            out == self.caption(focused),
    {
        if focused {
            let color = if self.is_mono() {
                self.text
            } else {
                self.border_focus
            };
            Style::default().fg(color).bold()
        } else {
            Style::default().fg(self.subtle)
        }
    }

    /// The highlighted table row.
    pub open spec fn highlight(self, focused: bool) -> Style {
        if self.mono() {
            Style { reversed: true, ..plain() }
        } else if focused {
            Style {
                bg: Some(self.selection),
                fg: Some(self.selection_text),
                bold: true,
                ..plain()
            }
        } else {
            filled(self.surface_alt)
        }
    }

    /// The highlighted table row.
    pub fn selected_style(&self, focused: bool) -> (out: Style)
        ensures
            out == self.highlight(focused),
    {
        if self.is_mono() {
            return Style::default().reversed();
        }
        if focused {
            Style::default().bg(self.selection).fg(self.selection_text).bold()
        } else {
            Style::default().bg(self.surface_alt)
        }
    }

    /// A dialog button.
    pub open spec fn button(self, focused: bool, destructive: bool) -> Style {
        if self.mono() {
            if focused {
                Style { reversed: true, bold: true, ..plain() }
            } else {
                plain()
            }
        } else if focused {
            Style {
                fg: Some(self.selection_text),
                bg: Some(
                    if destructive {
                        self.danger
                    } else {
                        self.primary
                    },
                ),
                bold: true,
                ..plain()
            }
        } else {
            Style { fg: Some(self.subtle), bg: Some(self.surface_alt), ..plain() }
        }
    }

    /// A dialog button. Only the focused one is filled, so the pair reads as a
    /// choice rather than as one recommendation next to some small print.
    /// `destructive` tints that fill red, which is what makes an armed "yes"
    /// on a delete look different from an armed "cancel".
    pub fn button_style(&self, focused: bool, destructive: bool) -> (out: Style)
        ensures
            out == self.button(focused, destructive),
    {
        if self.is_mono() {
            // No colour to spend, so the fill has to come from the modifier.
            return if focused {
                Style::default().reversed().bold()
            } else {
                Style::default()
            };
        }
        if focused {
            let fill = if destructive {
                self.danger
            } else {
                self.primary
            };
            Style::default().fg(self.selection_text).bg(fill).bold()
        } else {
            Style::default().fg(self.subtle).bg(self.surface_alt)
        }
    }

    /// The background of a striped row.
    pub open spec fn stripe_at(self, index: int) -> Option<Color> {
        if self.palette == Palette::TrueColor && index % 2 == 1 {
            Some(self.surface_alt)
        } else {
            None
        }
    }

    /// Zebra striping for tables. Returns `None` for rows that should keep the
    /// terminal's own background.
    pub fn stripe(&self, index: usize) -> (out: Option<Color>)
        ensures
            out == self.stripe_at(index as int),
    {
        if self.palette == Palette::TrueColor && index % 2 == 1 {
            Some(self.surface_alt)
        } else {
            None
        }
    }

    /// A keycap.
    pub open spec fn keycap(self) -> Style {
        if self.mono() {
            Style { bold: true, ..plain() }
        } else {
            strong(self.warn)
        }
    }

    /// Style for a keycap in the footer / help.
    pub fn key_style(&self) -> (out: Style)
        ensures
            out == self.keycap(),
    {
        if self.is_mono() {
            Style::default().bold()
        } else {
            Style::default().fg(self.warn).bold()
        }
    }
}

/// Every glyph the UI uses, resolved once for the chosen [`Glyphs`] level.
#[derive(Debug, Clone, Copy)]
pub struct Symbols {
    pub running: &'static str,
    pub stopped: &'static str,
    pub paused: &'static str,
    pub restarting: &'static str,
    pub created: &'static str,
    pub dead: &'static str,
    pub unhealthy: &'static str,
    pub tab_containers: &'static str,
    pub tab_images: &'static str,
    pub tab_volumes: &'static str,
    pub tab_networks: &'static str,
    pub arrow_right: &'static str,
    pub arrow_down: &'static str,
    pub arrow_up: &'static str,
    pub key_up: &'static str,
    pub key_down: &'static str,
    pub bullet: &'static str,
    pub prompt: &'static str,
    pub check: &'static str,
    pub cross: &'static str,
    /// Where the next character will be typed.
    pub caret: &'static str,
    /// The enter key.
    pub enter: &'static str,
    /// Something that is still going on.
    pub ellipsis: &'static str,
    pub dash: &'static str,
    /// From a host port to the container's.
    pub leads_to: &'static str,
    pub received: &'static str,
    pub sent: &'static str,
    /// Whether the spinner has to make do with ASCII too.
    pub ascii: bool,
}

/// The mathematical value of [`Symbols`].
#[verifier::ext_equal]
pub struct SymbolsView {
    pub running: Seq<char>,
    pub stopped: Seq<char>,
    pub paused: Seq<char>,
    pub restarting: Seq<char>,
    pub created: Seq<char>,
    pub dead: Seq<char>,
    pub unhealthy: Seq<char>,
    pub tab_containers: Seq<char>,
    pub tab_images: Seq<char>,
    pub tab_volumes: Seq<char>,
    pub tab_networks: Seq<char>,
    pub arrow_right: Seq<char>,
    pub arrow_down: Seq<char>,
    pub arrow_up: Seq<char>,
    pub key_up: Seq<char>,
    pub key_down: Seq<char>,
    pub bullet: Seq<char>,
    pub prompt: Seq<char>,
    pub check: Seq<char>,
    pub cross: Seq<char>,
    pub caret: Seq<char>,
    pub enter: Seq<char>,
    pub ellipsis: Seq<char>,
    pub dash: Seq<char>,
    pub leads_to: Seq<char>,
    pub received: Seq<char>,
    pub sent: Seq<char>,
    pub ascii: bool,
}

impl DeepView for Symbols {
    type V = SymbolsView;

    open spec fn deep_view(&self) -> SymbolsView {
        SymbolsView {
            running: self.running@,
            stopped: self.stopped@,
            paused: self.paused@,
            restarting: self.restarting@,
            created: self.created@,
            dead: self.dead@,
            unhealthy: self.unhealthy@,
            tab_containers: self.tab_containers@,
            tab_images: self.tab_images@,
            tab_volumes: self.tab_volumes@,
            tab_networks: self.tab_networks@,
            arrow_right: self.arrow_right@,
            arrow_down: self.arrow_down@,
            arrow_up: self.arrow_up@,
            key_up: self.key_up@,
            key_down: self.key_down@,
            bullet: self.bullet@,
            prompt: self.prompt@,
            check: self.check@,
            cross: self.cross@,
            caret: self.caret@,
            enter: self.enter@,
            ellipsis: self.ellipsis@,
            dash: self.dash@,
            leads_to: self.leads_to@,
            received: self.received@,
            sent: self.sent@,
            ascii: self.ascii,
        }
    }
}

/// The glyphs of a level.
pub open spec fn symbols_of(glyphs: Glyphs) -> SymbolsView {
    match glyphs {
        Glyphs::Ascii => SymbolsView {
            running: "*"@,
            stopped: "-"@,
            paused: "="@,
            restarting: "~"@,
            created: "+"@,
            dead: "x"@,
            unhealthy: "!"@,
            tab_containers: ""@,
            tab_images: ""@,
            tab_volumes: ""@,
            tab_networks: ""@,
            arrow_right: ">"@,
            arrow_down: "v"@,
            arrow_up: "^"@,
            key_up: "up"@,
            key_down: "/down"@,
            bullet: "-"@,
            prompt: ">"@,
            check: "ok"@,
            cross: "x"@,
            caret: "_"@,
            enter: "enter"@,
            ellipsis: "..."@,
            dash: "-"@,
            leads_to: "->"@,
            received: "v"@,
            sent: "^"@,
            ascii: true,
        },
        Glyphs::Unicode => SymbolsView {
            running: "●"@,
            stopped: "○"@,
            paused: "◐"@,
            restarting: "◌"@,
            created: "◇"@,
            dead: "✖"@,
            unhealthy: "▲"@,
            tab_containers: ""@,
            tab_images: ""@,
            tab_volumes: ""@,
            tab_networks: ""@,
            arrow_right: "▸"@,
            arrow_down: "▾"@,
            arrow_up: "▴"@,
            key_up: "↑"@,
            key_down: "↓"@,
            bullet: "·"@,
            prompt: "❯"@,
            check: "✓"@,
            cross: "✗"@,
            caret: "▏"@,
            enter: "⏎"@,
            ellipsis: "…"@,
            dash: "—"@,
            leads_to: "→"@,
            received: "↓"@,
            sent: "↑"@,
            ascii: false,
        },
        Glyphs::Nerd => SymbolsView {
            running: "●"@,
            stopped: "○"@,
            paused: "◐"@,
            restarting: "◌"@,
            created: "◇"@,
            dead: "✖"@,
            unhealthy: "▲"@,
            tab_containers: "\u{f1b2} "@,
            tab_images: "\u{f487} "@,
            tab_volumes: "\u{f1c0} "@,
            tab_networks: "\u{f0e8} "@,
            arrow_right: "▸"@,
            arrow_down: "▾"@,
            arrow_up: "▴"@,
            key_up: "↑"@,
            key_down: "↓"@,
            bullet: "·"@,
            prompt: "\u{f054} "@,
            check: "\u{f00c}"@,
            cross: "\u{f00d}"@,
            caret: "▏"@,
            enter: "⏎"@,
            ellipsis: "…"@,
            dash: "—"@,
            leads_to: "→"@,
            received: "↓"@,
            sent: "↑"@,
            ascii: false,
        },
    }
}

/// One frame of the spinner.
pub open spec fn spin_text(ascii: bool, frame: int) -> Seq<char> {
    if ascii {
        let k = frame % 4;
        if k == 0 {
            "|"@
        } else if k == 1 {
            "/"@
        } else if k == 2 {
            "-"@
        } else {
            "\\"@
        }
    } else {
        let k = frame % 10;
        if k == 0 {
            "⠋"@
        } else if k == 1 {
            "⠙"@
        } else if k == 2 {
            "⠹"@
        } else if k == 3 {
            "⠸"@
        } else if k == 4 {
            "⠼"@
        } else if k == 5 {
            "⠴"@
        } else if k == 6 {
            "⠦"@
        } else if k == 7 {
            "⠧"@
        } else if k == 8 {
            "⠇"@
        } else {
            "⠏"@
        }
    }
}

impl Symbols {
    /// The glyphs of a level.
    pub fn new(glyphs: Glyphs) -> (out: Symbols)
        ensures
            out.deep_view() == symbols_of(glyphs),
    {
        match glyphs {
            Glyphs::Ascii => Symbols {
                running: "*",
                stopped: "-",
                paused: "=",
                restarting: "~",
                created: "+",
                dead: "x",
                unhealthy: "!",
                tab_containers: "",
                tab_images: "",
                tab_volumes: "",
                tab_networks: "",
                arrow_right: ">",
                arrow_down: "v",
                arrow_up: "^",
                key_up: "up",
                key_down: "/down",
                bullet: "-",
                prompt: ">",
                check: "ok",
                cross: "x",
                caret: "_",
                enter: "enter",
                ellipsis: "...",
                dash: "-",
                leads_to: "->",
                received: "v",
                sent: "^",
                ascii: true,
            },
            Glyphs::Unicode => Symbols {
                running: "●",
                stopped: "○",
                paused: "◐",
                restarting: "◌",
                created: "◇",
                dead: "✖",
                unhealthy: "▲",
                tab_containers: "",
                tab_images: "",
                tab_volumes: "",
                tab_networks: "",
                arrow_right: "▸",
                arrow_down: "▾",
                arrow_up: "▴",
                key_up: "↑",
                key_down: "↓",
                bullet: "·",
                prompt: "❯",
                check: "✓",
                cross: "✗",
                caret: "▏",
                enter: "⏎",
                ellipsis: "…",
                dash: "—",
                leads_to: "→",
                received: "↓",
                sent: "↑",
                ascii: false,
            },
            // Classic Font Awesome codepoints, present in every Nerd Font.
            Glyphs::Nerd => Symbols {
                running: "●",
                stopped: "○",
                paused: "◐",
                restarting: "◌",
                created: "◇",
                dead: "✖",
                unhealthy: "▲",
                tab_containers: "\u{f1b2} ",
                tab_images: "\u{f487} ",
                tab_volumes: "\u{f1c0} ",
                tab_networks: "\u{f0e8} ",
                arrow_right: "▸",
                arrow_down: "▾",
                arrow_up: "▴",
                key_up: "↑",
                key_down: "↓",
                bullet: "·",
                prompt: "\u{f054} ",
                check: "\u{f00c}",
                cross: "\u{f00d}",
                caret: "▏",
                enter: "⏎",
                ellipsis: "…",
                dash: "—",
                leads_to: "→",
                received: "↓",
                sent: "↑",
                ascii: false,
            },
        }
    }

    /// One frame of the spinner.
    pub fn spin(&self, frame: usize) -> (out: &'static str)
        ensures
            out@ == spin_text(self.ascii, frame as int),
    {
        if self.ascii {
            let k: usize = frame % 4;
            if k == 0 {
                "|"
            } else if k == 1 {
                "/"
            } else if k == 2 {
                "-"
            } else {
                "\\"
            }
        } else {
            let k: usize = frame % 10;
            if k == 0 {
                "⠋"
            } else if k == 1 {
                "⠙"
            } else if k == 2 {
                "⠹"
            } else if k == 3 {
                "⠸"
            } else if k == 4 {
                "⠼"
            } else if k == 5 {
                "⠴"
            } else if k == 6 {
                "⠦"
            } else if k == 7 {
                "⠧"
            } else if k == 8 {
                "⠇"
            } else {
                "⠏"
            }
        }
    }
}

/// The ASCII spelling of a key's name.
pub open spec fn ascii_key(label: Seq<char>) -> Seq<char> {
    if label == "⏎"@ {
        "enter"@
    } else if label == "⇧tab"@ {
        "s-tab"@
    } else if label == "↑"@ {
        "up"@
    } else if label == "↓"@ {
        "down"@
    } else if label == "←"@ {
        "left"@
    } else if label == "→"@ {
        "right"@
    } else {
        label
    }
}

/// Rewrite the symbolic key names ([`crate::action::Key::label`] returns `⏎`,
/// `↑` and friends) into ASCII. Only used when the theme is in ASCII mode, so
/// the pretty forms stay the default.
pub fn asciify_key(label: &str) -> (out: String)
    ensures
        out@ == ascii_key(label@),
{
    if same(label, "⏎") {
        owned("enter")
    } else if same(label, "⇧tab") {
        owned("s-tab")
    } else if same(label, "↑") {
        owned("up")
    } else if same(label, "↓") {
        owned("down")
    } else if same(label, "←") {
        owned("left")
    } else if same(label, "→") {
        owned("right")
    } else {
        owned(label)
    }
}

} // verus!
