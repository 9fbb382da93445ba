//! Formatting, fuzzy matching and the clipboard.

use dockyard::util::clipboard::{copy, osc52};
use dockyard::util::format::{
    age_at, age_from_epoch, bytes, bytes_i64, duration_short, seconds_between, short_id, truncate,
    truncate_in, truncate_start, truncate_start_in, width,
};
use dockyard::util::fuzzy::{match_str, rank, rank_keys, SUBSTRING_BAND};

#[test]
fn bytes_scales() {
    assert_eq!(bytes(512), "512B");
    assert_eq!(bytes(1024), "1.00kB");
    assert_eq!(bytes(1024 * 1024 * 5), "5.00MB");
    assert_eq!(bytes(1024 * 1024 * 812), "812MB");
}

/// The same text by floating-point arithmetic.
fn bytes_by_floats(n: u64) -> String {
    const UNITS: [&str; 6] = ["B", "kB", "MB", "GB", "TB", "PB"];
    if n < 1000 {
        return format!("{n}B");
    }
    let mut value = n as f64;
    let mut unit = 0;
    while value >= 1000.0 && unit < UNITS.len() - 1 {
        value /= 1024.0;
        unit += 1;
    }
    if value >= 100.0 {
        format!("{:.0}{}", value, UNITS[unit])
    } else if value >= 10.0 {
        format!("{:.1}{}", value, UNITS[unit])
    } else {
        format!("{:.2}{}", value, UNITS[unit])
    }
}

#[test]
fn bytes_agree_with_floating_point() {
    let mut n: u64 = 1;
    for step in 0..4000u64 {
        assert_eq!(bytes(n), bytes_by_floats(n), "{n}");
        n = n.wrapping_mul(6364136223846793005).wrapping_add(step) >> (step % 60);
    }
    for shift in 0..64u32 {
        let base = 1u64 << shift;
        for n in [base - 1, base, base + 1, base + base / 2, base / 100 * 99] {
            assert_eq!(bytes(n), bytes_by_floats(n), "{n}");
        }
    }
    assert_eq!(bytes(u64::MAX), bytes_by_floats(u64::MAX));
}

#[test]
fn negative_sizes_are_dashes() {
    assert_eq!(bytes_i64(-1), "-");
    assert_eq!(bytes_i64(0), "-");
    assert_eq!(bytes_i64(2048), "2.00kB");
}

#[test]
fn truncate_respects_width() {
    assert_eq!(truncate("hello", 10), "hello");
    assert_eq!(truncate("hello world", 8), "hello w…");
    assert_eq!(width(&truncate("hello world", 8)), 8);
    // Wide characters must not overflow the budget.
    assert!(width(&truncate("日本語テキスト", 5)) <= 5);
}

#[test]
fn truncate_start_keeps_tail() {
    assert_eq!(truncate_start("registry.io/team/app", 10), "…/team/app");
    assert!(width(&truncate_start("registry.io/team/app", 10)) <= 10);
}

#[test]
fn nothing_fits_in_no_cells() {
    assert_eq!(truncate("hello", 0), "");
    assert_eq!(truncate_start("hello", 0), "");
    assert_eq!(truncate("hello", 1), "…");
}

#[test]
fn wide_characters_take_two_cells() {
    assert_eq!(width("日本"), 4);
    assert_eq!(width("ab"), 2);
    assert_eq!(width("e\u{301}"), 1);
    assert_eq!(truncate("日本語テキスト", 5), "日本…");
}

#[test]
fn durations_read_naturally() {
    assert_eq!(duration_short(45), "45s");
    assert_eq!(duration_short(60 * 5), "5m");
    assert_eq!(duration_short(3600 * 5), "5h");
    assert_eq!(duration_short(86_400 * 2), "2d");
}

#[test]
fn ages_are_measured_from_a_moment() {
    assert_eq!(age_at(1_000, 955), "45s ago");
    assert_eq!(age_at(1_000, 0), "-");
    assert_eq!(age_at(86_400 * 3, 86_400), "2d ago");
    assert_eq!(seconds_between(10, 4), 6);
    assert_eq!(age_from_epoch(0), "-");
    // The clock is decades past its epoch.
    assert!(age_from_epoch(1).ends_with("y ago"));
}

#[test]
fn ids_are_shortened_past_their_algorithm() {
    assert_eq!(short_id("sha256:0123456789abcdef"), "0123456789ab");
    assert_eq!(short_id("abc"), "abc");
}

#[test]
fn non_subsequence_fails() {
    assert!(match_str("postgres", "xyz").is_none());
}

#[test]
fn empty_needle_matches() {
    assert!(match_str("anything", "").is_some());
}

#[test]
fn contiguous_beats_scattered() {
    let contiguous = match_str("evalm8-server", "server").unwrap().score;
    let scattered = match_str("some-very-random-thing", "server");
    // "server" isn't a subsequence of that string at all.
    assert!(scattered.is_none());
    let loose = match_str("s-e-r-v-e-r", "server").unwrap().score;
    assert!(contiguous > loose, "{contiguous} !> {loose}");
}

#[test]
fn indices_point_at_matched_chars() {
    // p-o-s-t-g-r-e-s → 'p' at 0, 'g' at 4.
    let m = match_str("postgres", "pg").unwrap();
    assert_eq!(m.indices, vec![0, 4]);
}

#[test]
fn substring_indices_are_contiguous() {
    let m = match_str("container: restart", "rest").unwrap();
    assert_eq!(m.indices, vec![11, 12, 13, 14]);
}

#[test]
fn literal_hit_beats_a_scattered_one() {
    // The greedy scan alone would latch onto the 'r' in "container" and
    // rank "remove selected" higher.
    let items = vec!["remove selected", "container: restart", "refresh"];
    let ranked = rank(&items, "rest", |s| s.to_string());
    assert_eq!(items[ranked[0]], "container: restart");
}

#[test]
fn subsequence_never_reaches_the_substring_band() {
    let scattered = match_str("s-e-r-v-e-r-s-e-r-v-e-r", "server").unwrap();
    let literal = match_str("webserver", "server").unwrap();
    assert!(scattered.score < literal.score, "{} !< {}", scattered.score, literal.score);
    assert!(scattered.score < SUBSTRING_BAND);
}

#[test]
fn ranking_puts_best_first() {
    let items = vec!["argilla-postgres-1", "postgres", "prometheus-gateway"];
    let ranked = rank(&items, "postgres", |s| s.to_string());
    assert_eq!(items[ranked[0]], "postgres");
}

#[test]
fn matching_ignores_case() {
    let upper = match_str("PostGres", "POST").unwrap();
    assert_eq!(upper.indices, vec![0, 1, 2, 3]);
    assert_eq!(match_str("PostGres", "post").unwrap().score, upper.score);
}

#[test]
fn a_literal_hit_wins_however_long_the_text() {
    let long = format!("{}rest", "x".repeat(20_000));
    let literal = match_str(&long, "rest").unwrap();
    assert_eq!(literal.score, SUBSTRING_BAND);
    let scattered = match_str("r-e-s-t", "rest").unwrap();
    assert!(literal.score > scattered.score && scattered.score < SUBSTRING_BAND);
}

#[test]
fn ranking_keeps_ties_in_order() {
    let keys: Vec<String> = ["b-web", "a-web", "web", "c-web"].iter().map(|s| s.to_string()).collect();
    assert_eq!(rank_keys(&keys, "web"), vec![2, 0, 1, 3]);
    assert_eq!(rank_keys(&keys, ""), vec![0, 1, 2, 3]);
}

#[test]
fn plain_text_is_as_wide_as_it_is_long() {
    assert_eq!(width("~plain text~"), 12);
    assert_eq!(truncate_in(true, "~plain text~", 12), "~plain text~");
    assert_eq!(truncate_in(true, "plain text", 6), "plain~");
    assert_eq!(truncate_start_in(true, "plain text", 6), "~ text");
    assert_eq!(truncate_in(false, "plain text", 6), "plain…");
}

#[test]
fn ranking_drops_what_does_not_match() {
    let keys: Vec<String> = ["web", "db", "webdb"].iter().map(|s| s.to_string()).collect();
    let ranked = rank_keys(&keys, "web");
    assert_eq!(ranked, vec![0, 2]);
    assert_eq!(rank_keys(&keys, ""), vec![0, 1, 2]);
}

#[test]
fn copying_is_an_escape_sequence() {
    assert_eq!(copy("hello", false), "\u{1b}]52;c;aGVsbG8=\u{7}");
    assert_eq!(
        copy("hello", true),
        "\u{1b}Ptmux;\u{1b}\u{1b}]52;c;aGVsbG8=\u{7}\u{1b}\\"
    );
    assert_eq!(osc52("aGk=", false), "\u{1b}]52;c;aGk=\u{7}");
}
