//! Volume clamping and button debouncing: the gain never leaves its bounds,
//! and a held button fires at the hold-off cadence.

use jukebox::debounce::{DebounceState, HOLD_OFF_MS};
use jukebox::keys;
use jukebox::player::{Player, VOLUME_STEP};

fn empty_player() -> Player {
    Player::new(Vec::new())
}

#[test]
fn volume_starts_full() {
    let player = empty_player();
    assert_eq!(player.volume(), 100);
}

#[test]
fn repeated_raises_never_pass_one_hundred() {
    let mut player = empty_player();
    player.set_volume(95);
    for _ in 0..20 {
        player.raise_volume();
        assert!(player.volume() <= 100);
    }
    assert_eq!(player.volume(), 100);
}

#[test]
fn repeated_lowers_never_drop_below_zero() {
    let mut player = empty_player();
    player.set_volume(5);
    for _ in 0..20 {
        player.lower_volume();
        assert!(player.volume() <= 100);
    }
    assert_eq!(player.volume(), 0);
}

#[test]
fn raise_and_lower_move_by_one_step() {
    let mut player = empty_player();
    player.set_volume(50);
    player.raise_volume();
    assert_eq!(player.volume(), 50 + VOLUME_STEP);
    player.lower_volume();
    player.lower_volume();
    assert_eq!(player.volume(), 50 - VOLUME_STEP);
}

#[test]
fn set_volume_clamps_to_one_hundred() {
    let mut player = empty_player();
    player.set_volume(250);
    assert_eq!(player.volume(), 100);
    player.set_volume(55);
    assert_eq!(player.volume(), 55);
    player.set_volume(0);
    assert_eq!(player.volume(), 0);
}

#[test]
fn held_button_fires_at_holdoff_cadence() {
    // Red button held active for 1200 ms, polled every 100 ms with a 500 ms
    // hold-off: exactly three actions fire, at 0, 500 and 1000 ms.
    let mut state = DebounceState::new();
    let mut fired_at: Vec<u64> = Vec::new();
    let mut now: u64 = 0;
    while now <= 1200 {
        if state.poll(now, true) {
            fired_at.push(now);
        }
        now += 100;
    }
    assert_eq!(fired_at, vec![0, 500, 1000]);
}

#[test]
fn inactive_button_never_fires() {
    let mut state = DebounceState::new();
    for tick in 0..20u64 {
        assert!(!state.poll(tick * 100, false));
    }
}

#[test]
fn bounce_within_holdoff_is_suppressed() {
    let mut state = DebounceState::new();
    assert!(state.poll(0, true));
    // Contact bounce shortly after the accepted press.
    assert!(!state.poll(5, true));
    assert!(!state.poll(HOLD_OFF_MS - 1, true));
    // Exactly one hold-off later the next press is accepted.
    assert!(state.poll(HOLD_OFF_MS, true));
}

#[test]
fn two_buttons_debounce_independently() {
    let mut red = DebounceState::new();
    let mut blue = DebounceState::new();
    // Both pressed in the same tick: both actions fire.
    assert!(red.poll(0, true));
    assert!(blue.poll(0, true));
    // Red stays held and is suppressed; blue was released and re-pressed,
    // but is still inside its own hold-off.
    assert!(!red.poll(300, true));
    assert!(!blue.poll(300, true));
    assert!(red.poll(600, true));
    assert!(blue.poll(600, true));
}

#[test]
fn digit_keys_map_to_their_digits() {
    let expected: [(u16, char); 10] = [
        (keys::KEY_1, '1'),
        (keys::KEY_2, '2'),
        (keys::KEY_3, '3'),
        (keys::KEY_4, '4'),
        (keys::KEY_5, '5'),
        (keys::KEY_6, '6'),
        (keys::KEY_7, '7'),
        (keys::KEY_8, '8'),
        (keys::KEY_9, '9'),
        (keys::KEY_0, '0'),
    ];
    for (code, ch) in expected {
        assert_eq!(keys::get_char(code), Some(ch));
    }
    assert_eq!(keys::get_char(keys::KEY_ENTER), None);
    assert_eq!(keys::get_char(0), None);
}
