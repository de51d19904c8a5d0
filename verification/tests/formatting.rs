use jukebox::commands::queue::{
    link_title, queue_size_fmt, render_progress_bar, track_duration, track_title,
};
use jukebox::decimal::{push_decimal, push_decimal_pad2};
use jukebox::timespan::TimeSpan;
use jukebox::track::{LoopState, PlayMode, TrackState};
use jukebox::utils::human_print_time;

fn bar_with_marker_at(at: Option<usize>, width: usize) -> String {
    (0..width).map(|i| if Some(i) == at { "🔘" } else { "▬" }).collect()
}

fn numeral(n: u128) -> String {
    let mut text = String::from("n=");
    push_decimal(&mut text, n);
    text
}

fn padded(n: u64) -> String {
    let mut text = String::from("n=");
    push_decimal_pad2(&mut text, n);
    text
}

#[test]
fn decimal_numerals() {
    assert_eq!(numeral(0), "n=0");
    assert_eq!(numeral(7), "n=7");
    assert_eq!(numeral(10), "n=10");
    assert_eq!(numeral(1234567890), "n=1234567890");
    assert_eq!(numeral(u64::MAX as u128), "n=18446744073709551615");
    assert_eq!(numeral(u128::MAX), "n=340282366920938463463374607431768211455");
}

#[test]
fn decimal_numerals_padded() {
    assert_eq!(padded(0), "n=00");
    assert_eq!(padded(9), "n=09");
    assert_eq!(padded(10), "n=10");
    assert_eq!(padded(100), "n=100");
}

#[test]
fn elapsed_time_pads_both_parts() {
    assert_eq!(human_print_time(TimeSpan::from_secs(0)), "[00:00]");
    assert_eq!(human_print_time(TimeSpan::from_secs(5)), "[00:05]");
    assert_eq!(human_print_time(TimeSpan::from_secs(59)), "[00:59]");
    assert_eq!(human_print_time(TimeSpan::from_secs(60)), "[01:00]");
    assert_eq!(human_print_time(TimeSpan::from_secs(75)), "[01:15]");
    assert_eq!(human_print_time(TimeSpan::from_secs(600)), "[10:00]");
}

#[test]
fn elapsed_time_lets_minutes_grow() {
    assert_eq!(human_print_time(TimeSpan::from_secs(3600)), "[60:00]");
    assert_eq!(human_print_time(TimeSpan::from_secs(6000 + 7)), "[100:07]");
    assert_eq!(human_print_time(TimeSpan::from_secs(u64::MAX)), "[307445734561825860:15]");
}

#[test]
fn elapsed_time_drops_the_fraction_of_a_second() {
    let span = TimeSpan::new(61, 999_999_999).unwrap();
    assert_eq!(human_print_time(span), "[01:01]");
}

#[test]
fn elapsed_time_seconds_stay_below_sixty() {
    for secs in 0..4000u64 {
        let text = human_print_time(TimeSpan::from_secs(secs));
        let inner = &text[1..text.len() - 1];
        let (minutes, seconds) = inner.rsplit_once(':').unwrap();
        assert_eq!(seconds.len(), 2);
        assert!(seconds.parse::<u64>().unwrap() < 60);
        assert_eq!(minutes.parse::<u64>().unwrap(), secs / 60);
        assert_eq!(seconds.parse::<u64>().unwrap(), secs % 60);
    }
}

#[test]
fn time_span_parts() {
    assert_eq!(TimeSpan::new(1, 1_000_000_000), None);
    let span = TimeSpan::new(3, 500_000_000).unwrap();
    assert_eq!(span.as_secs(), 3);
    assert_eq!(span.subsec_nanos(), 500_000_000);
    assert_eq!(span.as_nanos(), 3_500_000_000);
    assert!(span.exceeds(&TimeSpan::from_secs(3)));
    assert!(!span.exceeds(&span));
    assert!(!TimeSpan::from_secs(3).exceeds(&span));
    assert_eq!(TimeSpan::from_secs(u64::MAX).as_nanos(), u64::MAX as u128 * 1_000_000_000);
}

#[test]
fn title_defaults() {
    assert_eq!(track_title(None, None), "[Untitled](https://www.youtube.com)");
    assert_eq!(
        track_title(Some("https://youtu.be/abc".to_string()), None),
        "[Untitled](https://youtu.be/abc)"
    );
    assert_eq!(
        track_title(None, Some("Some song".to_string())),
        "[Some song](https://www.youtube.com)"
    );
}

#[test]
fn title_loses_bracketed_remarks() {
    assert_eq!(
        track_title(
            Some("https://youtu.be/abc".to_string()),
            Some("Song [Official Video]".to_string())
        ),
        "[Song ](https://youtu.be/abc)"
    );
    assert_eq!(
        track_title(None, Some("A [x] B [y] C".to_string())),
        "[A  C](https://www.youtube.com)"
    );
    assert_eq!(track_title(None, Some("[]".to_string())), "[](https://www.youtube.com)");
}

#[test]
fn title_keeps_unclosed_brackets() {
    assert_eq!(track_title(None, Some("A [x".to_string())), "[A [x](https://www.youtube.com)");
    assert_eq!(track_title(None, Some("x] A".to_string())), "[x] A](https://www.youtube.com)");
    assert_eq!(
        track_title(None, Some("[a\nb]".to_string())),
        "[[a\nb]](https://www.youtube.com)"
    );
}

#[test]
fn title_is_cut_at_48_characters() {
    let exact = "a".repeat(48);
    assert_eq!(
        track_title(None, Some(exact.clone())),
        format!("[{}](https://www.youtube.com)", exact)
    );
    let longer = "a".repeat(49);
    assert_eq!(
        track_title(None, Some(longer)),
        format!("[{}...](https://www.youtube.com)", exact)
    );
}

#[test]
fn title_is_cut_by_characters_not_bytes() {
    let title = "é".repeat(50);
    assert_eq!(
        track_title(None, Some(title)),
        format!("[{}...](https://www.youtube.com)", "é".repeat(48))
    );
}

#[test]
fn title_is_cut_after_stripping() {
    let title = format!("{}[{}]", "a".repeat(40), "b".repeat(40));
    assert_eq!(
        track_title(None, Some(title)),
        format!("[{}](https://www.youtube.com)", "a".repeat(40))
    );
}

#[test]
fn link_title_keeps_brackets() {
    assert_eq!(link_title("Song [live]", "u"), "[Song [live]](u)");
    assert_eq!(link_title("", ""), "[]()");
}

#[test]
fn queue_size_words() {
    assert_eq!(queue_size_fmt(0), "-");
    assert_eq!(queue_size_fmt(1), "1 song");
    assert_eq!(queue_size_fmt(2), "2 songs");
    assert_eq!(queue_size_fmt(11), "11 songs");
    assert_eq!(queue_size_fmt(1000), "1000 songs");
}

#[test]
fn progress_bar_is_empty_without_total() {
    assert_eq!(render_progress_bar(TimeSpan::from_secs(3), None, 15), "");
}

#[test]
fn progress_bar_marks_the_position() {
    let total = Some(TimeSpan::from_secs(60));
    assert_eq!(
        render_progress_bar(TimeSpan::from_secs(0), total, 15),
        "🔘▬▬▬▬▬▬▬▬▬▬▬▬▬▬"
    );
    assert_eq!(
        render_progress_bar(TimeSpan::from_secs(30), total, 15),
        "▬▬▬▬▬▬▬🔘▬▬▬▬▬▬▬"
    );
    assert_eq!(
        render_progress_bar(TimeSpan::new(59, 999_999_999).unwrap(), total, 15),
        "▬▬▬▬▬▬▬▬▬▬▬▬▬▬🔘"
    );
}

#[test]
fn progress_bar_has_one_marker_before_the_end() {
    for width in 1..=20u8 {
        for total in 1..=40u64 {
            for position in 0..total {
                let bar = render_progress_bar(
                    TimeSpan::from_secs(position),
                    Some(TimeSpan::from_secs(total)),
                    width,
                );
                let at = (width as u64 * position / total) as usize;
                assert_eq!(bar, bar_with_marker_at(Some(at), width as usize));
                assert_eq!(bar.chars().count(), width as usize);
                assert_eq!(bar.chars().filter(|c| *c == '🔘').count(), 1);
            }
        }
    }
}

#[test]
fn progress_bar_has_no_marker_at_or_past_the_end() {
    let total = Some(TimeSpan::from_secs(60));
    assert_eq!(render_progress_bar(TimeSpan::from_secs(60), total, 15), "▬".repeat(15));
    assert_eq!(render_progress_bar(TimeSpan::from_secs(61), total, 15), "▬".repeat(15));
}

#[test]
fn progress_bar_of_a_track_without_length() {
    let total = Some(TimeSpan::from_secs(0));
    assert_eq!(
        render_progress_bar(TimeSpan::from_secs(0), total, 15),
        bar_with_marker_at(Some(0), 15)
    );
    assert_eq!(
        render_progress_bar(TimeSpan::new(0, 1).unwrap(), total, 15),
        bar_with_marker_at(None, 15)
    );
}

#[test]
fn progress_bar_of_no_width() {
    assert_eq!(render_progress_bar(TimeSpan::from_secs(1), Some(TimeSpan::from_secs(2)), 0), "");
}

#[test]
fn progress_bar_counts_nanoseconds() {
    let total = Some(TimeSpan::new(0, 15).unwrap());
    assert_eq!(
        render_progress_bar(TimeSpan::new(0, 14).unwrap(), total, 15),
        bar_with_marker_at(Some(14), 15)
    );
    let long = Some(TimeSpan::from_secs(u64::MAX));
    assert_eq!(
        render_progress_bar(TimeSpan::from_secs(u64::MAX - 1), long, 255),
        bar_with_marker_at(Some(254), 255)
    );
}

#[test]
fn playback_line_of_a_playing_track() {
    let info = TrackState {
        playing: PlayMode::Play,
        position: TimeSpan::from_secs(65),
        loops: LoopState::Infinite,
    };
    assert_eq!(
        track_duration(Some(TimeSpan::from_secs(180)), info),
        "▶️🔁▬▬▬▬▬🔘▬▬▬▬▬▬▬▬▬`[01:05]/[03:00]`"
    );
}

#[test]
fn playback_line_by_state() {
    let at = |playing, loops| TrackState { playing, position: TimeSpan::from_secs(0), loops };
    let length = Some(TimeSpan::from_secs(10));
    let rest = "🔘▬▬▬▬▬▬▬▬▬▬▬▬▬▬`[00:00]/[00:10]`";
    assert_eq!(
        track_duration(length, at(PlayMode::Pause, LoopState::Finite(0))),
        format!("⏸️{}", rest)
    );
    assert_eq!(
        track_duration(length, at(PlayMode::Pause, LoopState::Finite(3))),
        format!("⏸️🔁{}", rest)
    );
    assert_eq!(
        track_duration(length, at(PlayMode::Stop, LoopState::Finite(0))),
        format!("⏹️{}", rest)
    );
    assert_eq!(
        track_duration(length, at(PlayMode::End, LoopState::Finite(0))),
        format!("⏹️{}", rest)
    );
    assert_eq!(
        track_duration(length, at(PlayMode::Errored, LoopState::Infinite)),
        format!("⏹️🔁{}", rest)
    );
}

#[test]
fn playback_line_is_empty_without_length() {
    let info = TrackState {
        playing: PlayMode::Play,
        position: TimeSpan::from_secs(65),
        loops: LoopState::Infinite,
    };
    assert_eq!(track_duration(None, info), "");
}
