# dockyard

A terminal UI for managing Docker: containers, images, volumes and networks. Its logic
is a library whose behaviour is stated in contracts and proved by Verus; the program
around it talks to the terminal and to the daemon, and does what floating point there
is.

## Layout

`src/` is the verified library.

| | |
|---|---|
| `action` | the command table: every key, its command, and what help says of it |
| `app` | the application's state and its reducers for keys, the mouse, ticks and events |
| `args`, `config` | what the command line, the environment and the config file come to |
| `docker` | view models, jobs, log framing, stats, polling and shell sessions |
| `event` | what the background tasks can tell the application |
| `geometry`, `names`, `order`, `text` | rectangles, maps by name, stable sorting, strings |
| `ui` | what a frame shows, as a list of widgets, and where it can be clicked |
| `util` | formatting, fuzzy matching, the clipboard |

`app/` is the program: argument parsing, the terminal, the daemon's API, and painting
the widgets that `ui` lists. `tests/` run the library.

## How it is stated

`App` has a mathematical value, `AppState`, and each reducer's contract names the
state it leads to: `on_key` leads to `typed`, `on_mouse` to `moused`, `on_app_event`
to `told`, `on_tick` to `ticked`. `App::wf` is the invariant that all of them keep:
the rows of every list point at something, the sort order is one that the tab has,
and the log pane is within its buffer. What the application asks of the world (start
a job, attach to a log, copy a text) it puts in `App::effects`, which the program
drains.

A frame is a list of `Paint`s. `ui::draw` says what it shows for every state, and
records in `App::hits` where everything went, which is what the mouse is tested
against.

Laws that span functions are proof functions: `app/laws.rs`, `ui/laws.rs` and
`ui/ascii.rs` hold those of the application and of the frame, the other modules their
own.

## What is taken on trust

Outside crates are called in a few places, each behind a function whose contract is
not proved: terminal layout and ANSI parsing (`ratatui`, `ansi-to-tui`), character
widths (`unicode-width`), base64, the clock and local time (`chrono`), and lossy
decoding of bytes (`std`). Their doc comments say what is claimed, and what is left
open: which of several fixed columns give way in a list that is too narrow for them,
the local time, and the clock.

Floating point stays outside: the program computes CPU and memory shares and hands
them in by their bits, which order as the numbers do.
