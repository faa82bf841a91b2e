//! End-to-end scan scenarios: key presses assemble an identifier, the
//! terminator hands it to the playback controller, and the controller
//! resolves and supersedes playback.

use jukebox::assembler::Assembler;
use jukebox::dispatch::{handle_event, InputEvent};
use jukebox::keys;
use jukebox::player::{MediaStatus, PlayError, Player};

fn chars(s: &str) -> Vec<char> {
    s.chars().collect()
}

fn press(code: u16) -> InputEvent {
    InputEvent { event_type: keys::EV_KEY, code, value: keys::KEY_PRESS_VALUE }
}

fn demo_player() -> Player {
    Player::new(vec![
        (chars("1234"), String::from("song_a.mp3")),
        (chars("5678"), String::from("song_b.mp3")),
    ])
}

#[test]
fn digits_then_terminator_deliver_exact_identifier() {
    let mut assembler = Assembler::new();
    for code in [keys::KEY_1, keys::KEY_2, keys::KEY_3, keys::KEY_4] {
        assert_eq!(handle_event(&mut assembler, press(code)), None);
    }
    let delivered = handle_event(&mut assembler, press(keys::KEY_ENTER));
    assert_eq!(delivered, Some(chars("1234")));
    // The buffer is empty immediately after the completed scan.
    let next = handle_event(&mut assembler, press(keys::KEY_ENTER));
    assert_eq!(next, Some(chars("")));
}

#[test]
fn releases_repeats_and_other_events_are_ignored() {
    let mut assembler = Assembler::new();
    // A key release and a key repeat of a digit key.
    let release = InputEvent { event_type: keys::EV_KEY, code: keys::KEY_5, value: 0 };
    let repeat = InputEvent { event_type: keys::EV_KEY, code: keys::KEY_5, value: 2 };
    // A non-key event (e.g. a synchronization event).
    let non_key = InputEvent { event_type: 0, code: 0, value: 1 };
    // A release of the terminator must not complete a scan.
    let enter_release = InputEvent { event_type: keys::EV_KEY, code: keys::KEY_ENTER, value: 0 };
    assert_eq!(handle_event(&mut assembler, press(keys::KEY_9)), None);
    assert_eq!(handle_event(&mut assembler, release), None);
    assert_eq!(handle_event(&mut assembler, repeat), None);
    assert_eq!(handle_event(&mut assembler, non_key), None);
    assert_eq!(handle_event(&mut assembler, enter_release), None);
    let delivered = handle_event(&mut assembler, press(keys::KEY_ENTER));
    assert_eq!(delivered, Some(chars("9")));
}

#[test]
fn non_digit_keys_are_ignored() {
    let mut assembler = Assembler::new();
    // Key code 30 is a letter key; the assembler must not take it.
    assert_eq!(handle_event(&mut assembler, press(30)), None);
    assert_eq!(handle_event(&mut assembler, press(keys::KEY_7)), None);
    let delivered = handle_event(&mut assembler, press(keys::KEY_ENTER));
    assert_eq!(delivered, Some(chars("7")));
}

#[test]
fn scanned_identifier_starts_playback() {
    let mut assembler = Assembler::new();
    let mut player = demo_player();
    for code in [keys::KEY_1, keys::KEY_2, keys::KEY_3, keys::KEY_4] {
        handle_event(&mut assembler, press(code));
    }
    let id = handle_event(&mut assembler, press(keys::KEY_ENTER)).unwrap();
    assert_eq!(id, chars("1234"));
    assert_eq!(player.resolve(&id), Ok(String::from("song_a.mp3")));
    assert_eq!(player.play_by_id(&id, MediaStatus::Ready), Ok(()));
    assert_eq!(player.queued(), Some(&String::from("song_a.mp3")));
}

#[test]
fn unmapped_identifier_reports_not_mapped_and_leaves_playback_alone() {
    let mut player = demo_player();
    assert_eq!(player.play_by_id(&chars("1234"), MediaStatus::Ready), Ok(()));
    let r = player.play_by_id(&chars("9999"), MediaStatus::Ready);
    assert_eq!(r, Err(PlayError::NotMapped));
    // The sound that was playing is unaffected.
    assert_eq!(player.queued(), Some(&String::from("song_a.mp3")));
    // The controller keeps working: the next scan still plays.
    assert_eq!(player.play_by_id(&chars("5678"), MediaStatus::Ready), Ok(()));
}

#[test]
fn missing_file_reports_missing_without_crashing() {
    let mut player = demo_player();
    assert_eq!(player.play_by_id(&chars("1234"), MediaStatus::Ready), Ok(()));
    // song_b.mp3 is mapped but absent from the sound root.
    let r = player.play_by_id(&chars("5678"), MediaStatus::Missing);
    assert_eq!(r, Err(PlayError::MissingFile));
    // The channel was not touched before the file check.
    assert_eq!(player.queued(), Some(&String::from("song_a.mp3")));
}

#[test]
fn undecodable_file_leaves_channel_stopped() {
    let mut player = demo_player();
    assert_eq!(player.play_by_id(&chars("1234"), MediaStatus::Ready), Ok(()));
    let r = player.play_by_id(&chars("5678"), MediaStatus::Undecodable);
    assert_eq!(r, Err(PlayError::DecodeError));
    // The channel was halted before decoding began, and stays stopped.
    assert_eq!(player.queued(), None);
}

#[test]
fn second_play_supersedes_first() {
    let mut player = demo_player();
    assert_eq!(player.play_by_id(&chars("1234"), MediaStatus::Ready), Ok(()));
    assert_eq!(player.queued(), Some(&String::from("song_a.mp3")));
    assert_eq!(player.play_by_id(&chars("5678"), MediaStatus::Ready), Ok(()));
    // Only the second sound is on the channel; the first is gone.
    assert_eq!(player.queued(), Some(&String::from("song_b.mp3")));
}

#[test]
fn assembler_takes_digits_only_and_resets() {
    let mut assembler = Assembler::new();
    assembler.push('4');
    assembler.push('x');
    assembler.push(' ');
    assembler.push('2');
    assert_eq!(assembler.take_and_reset(), chars("42"));
    assert_eq!(assembler.take_and_reset(), chars(""));
}

#[test]
fn identifier_is_trimmed_before_lookup() {
    let player = demo_player();
    assert_eq!(player.resolve(&chars("  1234 \n")), Ok(String::from("song_a.mp3")));
    assert_eq!(player.resolve(&chars(" \t ")), Err(PlayError::NotMapped));
}
