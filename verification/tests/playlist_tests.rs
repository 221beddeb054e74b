use hifi_replayer::playlist::{
    buffer_frames_for, decode_key, directory_step, next_result, next_track, position_in,
    prev_result, prev_track, push_log, unescape_shell_path, Advance, DialogState, KeyPress,
    OutputModeChoice, RepeatMode, SkipCommand, LOG_LINES,
};

#[test]
fn repeat_mode_cycles() {
    assert_eq!(RepeatMode::default(), RepeatMode::Off);
    assert_eq!(RepeatMode::Off.cycle(), RepeatMode::All);
    assert_eq!(RepeatMode::All.cycle(), RepeatMode::Track);
    assert_eq!(RepeatMode::Track.cycle(), RepeatMode::Off);
}

#[test]
fn output_mode_choice() {
    assert_eq!(OutputModeChoice::default(), OutputModeChoice::HalExclusive);
    assert_eq!(OutputModeChoice::from_index(0), OutputModeChoice::HalExclusive);
    assert_eq!(OutputModeChoice::from_index(1), OutputModeChoice::SystemMixer);
    assert_eq!(OutputModeChoice::from_index(7), OutputModeChoice::SystemMixer);
    assert!(OutputModeChoice::HalExclusive.use_hal());
    assert!(!OutputModeChoice::SystemMixer.use_hal());
    assert!(matches!(DialogState::default(), DialogState::Closed));
}

#[test]
fn next_track_in_order() {
    assert_eq!(next_track(0, 3, None, RepeatMode::Off, false), Advance::Go(1));
    assert_eq!(next_track(2, 3, None, RepeatMode::Off, true), Advance::Finished);
    assert_eq!(next_track(2, 3, None, RepeatMode::All, true), Advance::Go(0));
    // at the end of a track that repeats: again; on a skip by hand: on
    assert_eq!(next_track(1, 3, None, RepeatMode::Track, true), Advance::Replay);
    assert_eq!(next_track(1, 3, None, RepeatMode::Track, false), Advance::Go(2));
    assert_eq!(next_track(2, 3, None, RepeatMode::Track, false), Advance::Finished);
    assert_eq!(next_track(0, 0, None, RepeatMode::All, true), Advance::Finished);
    assert_eq!(next_track(usize::MAX, 3, None, RepeatMode::Off, false), Advance::Finished);
}

#[test]
fn next_track_shuffled() {
    let order = [2usize, 0, 1];
    assert_eq!(next_track(2, 3, Some(&order), RepeatMode::Off, false), Advance::Go(0));
    assert_eq!(next_track(0, 3, Some(&order), RepeatMode::Off, false), Advance::Go(1));
    assert_eq!(next_track(1, 3, Some(&order), RepeatMode::Off, false), Advance::Finished);
    assert_eq!(next_track(1, 3, Some(&order), RepeatMode::All, false), Advance::Go(2));
    // the current track is not in the order: from the top
    assert_eq!(next_track(9, 3, Some(&order), RepeatMode::Off, false), Advance::Go(2));
    assert_eq!(next_track(0, 3, Some(&[]), RepeatMode::All, false), Advance::Finished);
    assert_eq!(position_in(&order, 0), Some(1));
    assert_eq!(position_in(&[1, 1], 1), Some(0));
    assert_eq!(position_in(&order, 5), None);
}

#[test]
fn prev_track_wraps() {
    assert_eq!(prev_track(2, 3, None), 1);
    assert_eq!(prev_track(0, 3, None), 2);
    let order = [2usize, 0, 1];
    assert_eq!(prev_track(0, 3, Some(&order)), 2);
    assert_eq!(prev_track(1, 3, Some(&order)), 0);
    // the first of the order: round to the last
    assert_eq!(prev_track(2, 3, Some(&order)), 1);
    assert_eq!(prev_track(9, 3, Some(&order)), 2);
    assert_eq!(prev_track(1, 3, Some(&[])), 0);
}

#[test]
fn search_results_wrap() {
    assert_eq!(next_result(0, 3), 1);
    assert_eq!(next_result(2, 3), 0);
    assert_eq!(next_result(0, 1), 0);
    assert_eq!(prev_result(0, 3), 2);
    assert_eq!(prev_result(2, 3), 1);
}

#[test]
fn directory_steps() {
    assert_eq!(directory_step(1, 3, SkipCommand::Continue, false), 2);
    assert_eq!(directory_step(2, 3, SkipCommand::Next, true), 3);
    assert_eq!(directory_step(1, 3, SkipCommand::Previous, false), 0);
    assert_eq!(directory_step(0, 3, SkipCommand::Previous, false), 0);
    assert_eq!(directory_step(0, 3, SkipCommand::Previous, true), 2);
}

#[test]
fn keys() {
    assert_eq!(decode_key(b' ', None), KeyPress::Space);
    assert_eq!(decode_key(0x1B, Some((b'[', b'C'))), KeyPress::Right);
    assert_eq!(decode_key(0x1B, Some((b'[', b'D'))), KeyPress::Left);
    assert_eq!(decode_key(0x1B, Some((b'[', b'A'))), KeyPress::Other(0x1B));
    assert_eq!(decode_key(0x1B, Some((b'O', b'C'))), KeyPress::Other(0x1B));
    assert_eq!(decode_key(0x1B, None), KeyPress::Other(0x1B));
    assert_eq!(decode_key(b'q', Some((b'[', b'C'))), KeyPress::Other(b'q'));
}

#[test]
fn shell_paths() {
    assert_eq!(unescape_shell_path(b"/Music/My\\ Album/01\\ -\\ Intro.flac"), b"/Music/My Album/01 - Intro.flac");
    assert_eq!(unescape_shell_path(b"a\\\\b"), b"a\\b");
    assert_eq!(unescape_shell_path(b"it\\'s\\(1\\)"), b"it's(1)");
    // a backslash at the very end stays
    assert_eq!(unescape_shell_path(b"end\\"), b"end\\");
    assert_eq!(unescape_shell_path(b""), b"");
    assert_eq!(unescape_shell_path("caf\\ \u{e9}".as_bytes()), "caf \u{e9}".as_bytes());
}

#[test]
fn log_keeps_the_latest() {
    let mut logs: Vec<String> = Vec::new();
    for k in 0..60 {
        push_log(&mut logs, format!("line {}", k));
    }
    assert_eq!(logs.len(), LOG_LINES);
    assert_eq!(logs[0], "line 10");
    assert_eq!(logs[49], "line 59");
    assert_eq!(buffer_frames_for(2000), 97_000);
    assert_eq!(buffer_frames_for(u32::MAX), u32::MAX as u64 * 48 + 1000);
}
