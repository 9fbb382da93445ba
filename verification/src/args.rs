//! What the command line asks for.

use vstd::prelude::*;

use crate::config::{no_opinions, Config, ConfigView};
use crate::text::owned;
use crate::ui::theme::{theme_of, Glyphs, Palette, Theme};

verus! {

/// How often to poll the daemon when nothing else is said, in milliseconds.
pub const DEFAULT_INTERVAL: u64 = 2_000;

/// How often the UI wakes up to animate spinners and expire toasts, in
/// milliseconds.
pub const TICK: u64 = 100;

/// The command line.
#[derive(Debug, Clone)]
pub struct Args {
    /// Docker host to connect to. Defaults to `DOCKER_HOST`, then the local
    /// socket.
    pub host: Option<String>,
    /// How often to poll the daemon, in milliseconds, if that was said.
    pub interval: Option<u64>,
    /// Draw with plain ASCII instead of Unicode glyphs.
    pub ascii: bool,
    /// Use Nerd Font icons in the tab bar.
    pub icons: bool,
    /// Use the terminal's own 16 ANSI colours instead of the built-in palette.
    pub ansi: bool,
    /// Draw without colour.
    pub no_color: bool,
    /// Don't capture the mouse.
    pub no_mouse: bool,
}

/// Which variables of the environment are set.
#[derive(Debug, Clone, Copy, PartialEq, Eq, Structural)]
pub struct Environment {
    /// `NO_COLOR` is a de-facto standard; it is honoured without needing a flag.
    pub no_color: bool,
    /// `DOCKYARD_ASCII`.
    pub ascii: bool,
    /// `DOCKYARD_ICONS`.
    pub icons: bool,
    /// `DOCKER_HOST`, which the client reads for itself.
    pub docker_host: bool,
}

/// What the command line, the environment and the config file come to.
#[derive(Debug, Clone)]
pub struct Settings {
    /// Where to connect to; nothing where that is left to the client, which goes by
    /// `DOCKER_HOST`, then by the local socket.
    pub host: Option<String>,
    /// How often to poll the daemon, in milliseconds.
    pub interval: u64,
    pub theme: Theme,
    /// Whether to capture the mouse.
    pub mouse: bool,
    /// Whether the containers start out grouped.
    pub group_by_stack: bool,
}

impl Args {
    /// The colours asked for.
    pub open spec fn palette_in(&self, env: Environment) -> Palette {
        if self.no_color || env.no_color {
            Palette::Mono
        } else if self.ansi {
            Palette::Ansi
        } else {
            Palette::TrueColor
        }
    }

    /// The glyphs asked for.
    pub open spec fn glyphs_in(&self, env: Environment) -> Glyphs {
        if self.ascii || env.ascii {
            Glyphs::Ascii
        } else if self.icons || env.icons {
            Glyphs::Nerd
        } else {
            Glyphs::Unicode
        }
    }

    /// How to draw.
    pub fn theme(&self, env: Environment) -> (out: Theme)
        ensures
            out == theme_of(self.palette_in(env), self.glyphs_in(env)),
    {
        let palette = if self.no_color || env.no_color {
            Palette::Mono
        } else if self.ansi {
            Palette::Ansi
        } else {
            Palette::TrueColor
        };
        let glyphs = if self.ascii || env.ascii {
            Glyphs::Ascii
        } else if self.icons || env.icons {
            Glyphs::Nerd
        } else {
            Glyphs::Unicode
        };
        Theme::new(palette, glyphs)
    }
}

// ---------------------------------------------------------------------------
// With a config file
// ---------------------------------------------------------------------------

impl Args {
    /// The colours asked for: by a flag, else by the environment, else by the file.
    pub open spec fn palette_with(&self, env: Environment, file: ConfigView) -> Palette {
        if self.no_color {
            Palette::Mono
        } else if self.ansi {
            Palette::Ansi
        } else if env.no_color {
            Palette::Mono
        } else {
            match file.palette {
                Some(palette) => palette,
                None => Palette::TrueColor,
            }
        }
    }

    /// The glyphs asked for: by a flag, else by the environment, else by the file.
    pub open spec fn glyphs_with(&self, env: Environment, file: ConfigView) -> Glyphs {
        if self.ascii {
            Glyphs::Ascii
        } else if self.icons {
            Glyphs::Nerd
        } else if env.ascii {
            Glyphs::Ascii
        } else if env.icons {
            Glyphs::Nerd
        } else {
            match file.glyphs {
                Some(glyphs) => glyphs,
                None => Glyphs::Unicode,
            }
        }
    }

    /// Where to connect to: the flag, else whatever the environment says, which is
    /// left to the client, else the file.
    pub open spec fn host_with(&self, env: Environment, file: ConfigView) -> Option<Seq<char>> {
        match self.host.deep_view() {
            Some(host) => Some(host),
            None => if env.docker_host {
                None
            } else {
                file.host
            },
        }
    }

    /// How often to poll: the flag, else the file.
    pub open spec fn interval_with(&self, file: ConfigView) -> u64 {
        match (self.interval, file.interval) {
            (Some(ms), _) => ms,
            (None, Some(ms)) => ms,
            (None, None) => DEFAULT_INTERVAL,
        }
    }

    /// Whether to capture the mouse: the flag, else the file.
    pub open spec fn mouse_with(&self, file: ConfigView) -> bool {
        if self.no_mouse {
            false
        } else {
            match file.mouse {
                Some(mouse) => mouse,
                None => true,
            }
        }
    }

    /// How to draw, where there is a config file: a flag wins over the environment,
    /// which wins over the file.
    pub fn theme_with(&self, env: Environment, file: &Config) -> (out: Theme)
        ensures
            out == theme_of(
                self.palette_with(env, file.deep_view()),
                self.glyphs_with(env, file.deep_view()),
            ),
    {
        let palette = if self.no_color {
            Palette::Mono
        } else if self.ansi {
            Palette::Ansi
        } else if env.no_color {
            Palette::Mono
        } else {
            match file.palette {
                Some(palette) => palette,
                None => Palette::TrueColor,
            }
        };
        let glyphs = if self.ascii {
            Glyphs::Ascii
        } else if self.icons {
            Glyphs::Nerd
        } else if env.ascii {
            Glyphs::Ascii
        } else if env.icons {
            Glyphs::Nerd
        } else {
            match file.glyphs {
                Some(glyphs) => glyphs,
                None => Glyphs::Unicode,
            }
        };
        Theme::new(palette, glyphs)
    }

    /// What the command line, the environment and the config file come to, each
    /// having a say only where those before it have none.
    pub fn settings(&self, env: Environment, file: &Config) -> (out: Settings)
        ensures
            out.host.deep_view() == self.host_with(env, file.deep_view()),
            out.interval == self.interval_with(file.deep_view()),
            out.theme == theme_of(
                self.palette_with(env, file.deep_view()),
                self.glyphs_with(env, file.deep_view()),
            ),
            out.mouse == self.mouse_with(file.deep_view()),
            out.group_by_stack == (file.deep_view().group_by_stack == Some(true)),
    {
        let host = match &self.host {
            Some(host) => Some(owned(host)),
            None => if env.docker_host {
                None
            } else {
                match &file.host {
                    Some(host) => Some(owned(host)),
                    None => None,
                }
            },
        };
        let interval: u64 = match (self.interval, file.interval) {
            (Some(ms), _) => ms,
            (None, Some(ms)) => ms,
            (None, None) => DEFAULT_INTERVAL,
        };
        let mouse = if self.no_mouse {
            false
        } else {
            match file.mouse {
                Some(mouse) => mouse,
                None => true,
            }
        };
        let group_by_stack = match file.group_by_stack {
            Some(grouped) => grouped,
            None => false,
        };
        Settings { host, interval, theme: self.theme_with(env, file), mouse, group_by_stack }
    }
}

/// What a flag says stands, whatever the environment and the file say.
pub proof fn flags_win(args: Args, env: Environment, file: ConfigView)
    ensures
        args.no_color ==> args.palette_with(env, file) == Palette::Mono,
        args.ansi && !args.no_color ==> args.palette_with(env, file) == Palette::Ansi,
        args.ascii ==> args.glyphs_with(env, file) == Glyphs::Ascii,
        args.icons && !args.ascii ==> args.glyphs_with(env, file) == Glyphs::Nerd,
        args.host is Some ==> args.host_with(env, file) == args.host.deep_view(),
        args.interval matches Some(ms) ==> args.interval_with(file) == ms,
        args.no_mouse ==> !args.mouse_with(file),
{
}

/// Where no flag says anything, what the environment says stands, whatever the file
/// says.
pub proof fn the_environment_beats_the_file(
    args: Args,
    env: Environment,
    file: ConfigView,
    other: ConfigView,
)
    ensures
        env.no_color ==> args.palette_with(env, file) == args.palette_with(env, other),
        env.no_color && !args.ansi ==> args.palette_with(env, file) == Palette::Mono,
        env.ascii || env.icons ==> args.glyphs_with(env, file) == args.glyphs_with(env, other),
        env.ascii && !args.icons ==> args.glyphs_with(env, file) == Glyphs::Ascii,
        env.icons && !env.ascii && !args.ascii ==> args.glyphs_with(env, file) == Glyphs::Nerd,
        env.docker_host ==> args.host_with(env, file) == args.host_with(env, other),
{
}

/// Where neither a flag nor the environment says anything, what the file says stands;
/// and where it says nothing either, there is a default.
pub proof fn the_file_beats_the_defaults(args: Args, env: Environment, file: ConfigView)
    ensures
        !args.no_color && !args.ansi && !env.no_color ==> args.palette_with(env, file)
            == match file.palette {
            Some(palette) => palette,
            None => Palette::TrueColor,
        },
        !args.ascii && !args.icons && !env.ascii && !env.icons ==> args.glyphs_with(env, file)
            == match file.glyphs {
            Some(glyphs) => glyphs,
            None => Glyphs::Unicode,
        },
        args.host is None && !env.docker_host ==> args.host_with(env, file) == file.host,
        args.interval is None ==> args.interval_with(file) == match file.interval {
            Some(ms) => ms,
            None => DEFAULT_INTERVAL,
        },
        !args.no_mouse ==> args.mouse_with(file) == match file.mouse {
            Some(mouse) => mouse,
            None => true,
        },
{
}

/// A file without opinions changes nothing, unless a flag and the environment are at
/// odds: without a file, `NO_COLOR` and `DOCKYARD_ASCII` outdo a flag that asks for
/// another palette or for icons.
pub proof fn silent_files_change_nothing(args: Args, env: Environment)
    requires
        !(args.ansi && env.no_color),
        !(args.icons && env.ascii),
    ensures
        args.palette_with(env, no_opinions()) == args.palette_in(env),
        args.glyphs_with(env, no_opinions()) == args.glyphs_in(env),
{
}

/// `NO_COLOR` is honoured whatever else is asked for.
pub proof fn no_color_is_honoured(args: Args, env: Environment)
    requires
        env.no_color,
    ensures
        args.palette_in(env) == Palette::Mono,
{
}

} // verus!
