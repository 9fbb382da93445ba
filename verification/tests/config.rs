//! The configuration file and the command line.

use dockyard::args::{Args, Environment, DEFAULT_INTERVAL};
use dockyard::config::{load, parse, path, Base, Config, ConfigError, Fault, ReadOutcome};
use dockyard::ui::theme::{Glyphs, Palette};

fn ok(text: &str) -> Config {
    match parse(text) {
        Ok((config, _)) => config,
        Err(err) => panic!("{}", err.message()),
    }
}

fn err(text: &str) -> ConfigError {
    match parse(text) {
        Ok(_) => panic!("{text} parses"),
        Err(err) => err,
    }
}

#[test]
fn an_empty_file_has_no_opinions() {
    assert_eq!(ok(""), Config::default());
    assert_eq!(ok("\n  \n# just a comment\n"), Config::default());
}

#[test]
fn every_key_round_trips() {
    let config = ok(r#"
            host = "tcp://10.0.0.5:2375"
            interval = 1_000
            glyphs = "nerd"
            palette = "ansi"
            mouse = false
            group_by_stack = true
        "#);
    assert_eq!(config.host.as_deref(), Some("tcp://10.0.0.5:2375"));
    assert_eq!(config.interval, Some(1000));
    assert_eq!(config.glyphs, Some(Glyphs::Nerd));
    assert_eq!(config.palette, Some(Palette::Ansi));
    assert_eq!(config.mouse, Some(false));
    assert_eq!(config.group_by_stack, Some(true));
}

#[test]
fn comments_and_blank_lines_are_ignored() {
    let config = ok("# leading\n\n  mouse = false  # trailing\n\n");
    assert_eq!(config.mouse, Some(false));
}

#[test]
fn a_hash_inside_a_string_is_not_a_comment() {
    let config = ok(r##"host = "tcp://host/#frag" # real comment"##);
    assert_eq!(config.host.as_deref(), Some("tcp://host/#frag"));
}

#[test]
fn literal_strings_keep_their_backslashes() {
    let config = ok(r#"host = 'npipe:\\.\pipe\docker_engine'"#);
    assert_eq!(config.host.as_deref(), Some(r"npipe:\\.\pipe\docker_engine"));
}

#[test]
fn basic_strings_honour_escapes() {
    let config = ok(r#"host = "a\\b\"c""#);
    assert_eq!(config.host.as_deref(), Some(r#"a\b"c"#));
}

#[test]
fn unknown_keys_warn_rather_than_fail() {
    let (config, warnings) = match parse("colour = \"blue\"\nmouse = true\n") {
        Ok(parsed) => parsed,
        Err(err) => panic!("parses: {}", err.message()),
    };
    assert_eq!(warnings, vec!["colour".to_string()]);
    // The keys we do understand still take effect.
    assert_eq!(config.mouse, Some(true));
}

#[test]
fn bad_values_name_their_line() {
    let err = err("mouse = true\nglyphs = \"emoji\"\n").message();
    assert!(err.contains("line 2"), "{err}");
    assert!(err.contains("emoji"), "{err}");
}

#[test]
fn a_zero_interval_is_refused() {
    // tokio's interval panics on it, so catch it here rather than there.
    assert!(parse("interval = 0").is_err());
}

#[test]
fn tables_are_refused_by_name() {
    let err = err("[appearance]\nglyphs = \"ascii\"\n").message();
    assert!(err.contains("no tables"), "{err}");
}

#[test]
fn a_duplicate_key_is_an_error() {
    let err = err("mouse = true\nmouse = false\n").message();
    assert!(err.contains("set twice"), "{err}");
}

#[test]
fn unquoted_and_unterminated_strings_are_refused() {
    assert!(parse("glyphs = ascii").is_err());
    assert!(parse("host = \"tcp://x").is_err());
    assert!(parse("host = 'tcp://x").is_err());
}

#[test]
fn a_missing_home_is_not_a_crash() {
    // Whatever the environment holds, there is an answer.
    assert!(path(false, false).is_none());
    assert!(matches!(path(true, false), Some(Base::Xdg)));
    assert!(matches!(path(true, true), Some(Base::Xdg)));
    assert!(matches!(path(false, true), Some(Base::Home)));
    assert_eq!(Base::Xdg.components(), vec!["dockmate.toml"]);
    assert_eq!(Base::Home.components(), vec![".config", "dockmate.toml"]);
}

#[test]
fn every_fault_has_its_input() {
    assert_eq!(err("[x]").fault, Fault::NoTables);
    assert_eq!(err("mouse").fault, Fault::NotAPair("mouse".to_string()));
    assert_eq!(err("= true").fault, Fault::MissingKey);
    assert_eq!(
        err("mouse = true\nmouse = true").fault,
        Fault::SetTwice("mouse".to_string())
    );
    assert_eq!(err("interval = 0").fault, Fault::ZeroInterval);
    assert_eq!(err("glyphs = \"big\"").fault, Fault::BadGlyphs("big".to_string()));
    assert_eq!(err("palette = \"big\"").fault, Fault::BadPalette("big".to_string()));
    assert_eq!(err("mouse = yes").fault, Fault::NotBoolean("yes".to_string()));
    assert_eq!(err("interval = soon").fault, Fault::NotInteger("soon".to_string()));
    assert_eq!(err("host = tcp").fault, Fault::NotQuoted("tcp".to_string()));
    assert!(matches!(err("host = \"tcp").fault, Fault::Unterminated(_)));
    assert_eq!(err("host = \"\\q\"").fault, Fault::UnknownEscape('q'));
    assert_eq!(err("\n\nmouse = yes").line, 3);
}

#[test]
fn known_words_are_read() {
    assert_eq!(ok("glyphs = \"ascii\"").glyphs, Some(Glyphs::Ascii));
    assert_eq!(ok("glyphs = 'unicode'").glyphs, Some(Glyphs::Unicode));
    assert_eq!(ok("palette = \"truecolor\"").palette, Some(Palette::TrueColor));
    assert_eq!(ok("palette = \"none\"").palette, Some(Palette::Mono));
    assert_eq!(ok("interval = 250").interval, Some(250));
}

#[test]
fn loading_tells_a_missing_file_from_a_bad_one() {
    let nothing = load(ReadOutcome::Nowhere).unwrap();
    assert_eq!(nothing.config, Config::default());
    assert!(nothing.path.is_none());
    let missing = load(ReadOutcome::Missing { path: "/c".to_string() }).unwrap();
    assert_eq!(missing.config, Config::default());
    let failed = load(ReadOutcome::Failed { path: "/c".to_string(), error: "no".to_string() });
    assert!(failed.is_err());
    let read = load(ReadOutcome::Text { path: "/c".to_string(), text: "mouse = true\nx = 1".to_string() })
        .unwrap();
    assert_eq!(read.config.mouse, Some(true));
    assert_eq!(read.warnings, vec!["x".to_string()]);
    let bad = load(ReadOutcome::Text { path: "/c".to_string(), text: "mouse = 1".to_string() });
    assert!(bad.is_err());
}

fn args() -> Args {
    Args {
        host: None,
        interval: None,
        ascii: false,
        icons: false,
        ansi: false,
        no_color: false,
        no_mouse: false,
    }
}

#[test]
fn flags_and_environment_choose_the_theme() {
    let quiet = Environment { no_color: false, ascii: false, icons: false, docker_host: false };
    let plain = args().theme(quiet);
    assert_eq!((plain.palette, plain.glyphs), (Palette::TrueColor, Glyphs::Unicode));
    let ansi = Args { ansi: true, ..args() }.theme(quiet);
    assert_eq!(ansi.palette, Palette::Ansi);
    let ascii = Args { ascii: true, icons: true, ..args() }.theme(quiet);
    assert_eq!(ascii.glyphs, Glyphs::Ascii);
    let icons = args().theme(Environment { no_color: false, ascii: false, icons: true, docker_host: false });
    assert_eq!(icons.glyphs, Glyphs::Nerd);
    // NO_COLOR wins over a palette that was asked for.
    let mono = Args { ansi: true, ..args() }
        .theme(Environment { no_color: true, ascii: false, icons: false, docker_host: false });
    assert_eq!(mono.palette, Palette::Mono);
}

#[test]
fn flags_beat_the_environment_which_beats_the_file() {
    let quiet = Environment { no_color: false, ascii: false, icons: false, docker_host: false };
    let loud = Environment { no_color: true, ascii: true, icons: false, docker_host: true };
    let silent = ok("");
    let file = ok(
        "host = 'tcp://file:1'\ninterval = 250\nglyphs = 'nerd'\npalette = 'ansi'\nmouse = false\ngroup_by_stack = true",
    );

    // Nobody says anything.
    let out = args().settings(quiet, &silent);
    assert_eq!((out.theme.palette, out.theme.glyphs), (Palette::TrueColor, Glyphs::Unicode));
    assert_eq!((out.host, out.interval), (None, DEFAULT_INTERVAL));
    assert!(out.mouse && !out.group_by_stack);

    // Only the file does.
    let out = args().settings(quiet, &file);
    assert_eq!((out.theme.palette, out.theme.glyphs), (Palette::Ansi, Glyphs::Nerd));
    assert_eq!((out.host.as_deref(), out.interval), (Some("tcp://file:1"), 250));
    assert!(!out.mouse && out.group_by_stack);

    // The environment wins over it.
    let out = args().settings(loud, &file);
    assert_eq!((out.theme.palette, out.theme.glyphs), (Palette::Mono, Glyphs::Ascii));
    assert_eq!(out.host, None);

    // A flag wins over both.
    let flags = Args {
        host: Some("tcp://flag:1".to_string()),
        interval: Some(DEFAULT_INTERVAL),
        icons: true,
        ansi: true,
        no_mouse: true,
        ..args()
    };
    let out = flags.settings(loud, &ok("mouse = true\ninterval = 250\nhost = 'tcp://file:1'"));
    assert_eq!((out.theme.palette, out.theme.glyphs), (Palette::Ansi, Glyphs::Nerd));
    assert_eq!((out.host.as_deref(), out.interval), (Some("tcp://flag:1"), DEFAULT_INTERVAL));
    assert!(!out.mouse);
    assert_eq!(flags.theme_with(loud, &file).palette, Palette::Ansi);
}
