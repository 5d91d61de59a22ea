use stim::load_album_and_track_lists::Track;
use stim::player::{
    DecodeError, PlaybackError, PlaybackState, Player, SessionCommand, DEFAULT_VOLUME, MAX_VOLUME,
};

fn song(name: &str, length: u64) -> Track {
    Track::new(
        "Artist".to_string(),
        name.to_string(),
        3,
        format!("/music/{}.mp3", name),
        "Album".to_string(),
        length,
    )
}

#[test]
fn new_player_is_empty() {
    let player = Player::new(true);
    assert_eq!(player.state(), PlaybackState::Empty);
    assert!(player.current_track().is_none());
    assert_eq!(player.position(12_345), 0);
    assert_eq!(player.get_volume(), 75);
    assert_eq!(DEFAULT_VOLUME, 75);
    assert_eq!(MAX_VOLUME, 200);
}

#[test]
fn load_resets_position_and_sets_current_track() {
    let mut player = Player::new(true);
    assert_eq!(player.load_track(song("A", 180), Ok(()), 1_000), Ok(()));
    assert_eq!(player.position(5_000), 4_000);
    assert_eq!(player.load_track(song("B", 200), Ok(()), 9_000), Ok(()));
    assert_eq!(player.position(9_000), 0);
    assert_eq!(player.state(), PlaybackState::Playing);
    let current = player.current_track().unwrap();
    assert_eq!(current.track_name, "B");
    assert_eq!(current.length, 200);
    assert_eq!(current.path, "/music/B.mp3");
}

#[test]
fn load_while_paused_starts_playing() {
    let mut player = Player::new(true);
    player.load_track(song("A", 180), Ok(()), 0).unwrap();
    player.toggle_play(700);
    assert_eq!(player.state(), PlaybackState::Paused);
    player.load_track(song("B", 180), Ok(()), 900).unwrap();
    assert_eq!(player.state(), PlaybackState::Playing);
    assert_eq!(player.position(1_000), 100);
}

#[test]
fn failed_load_leaves_player_empty() {
    let mut player = Player::new(true);
    player.load_track(song("A", 180), Ok(()), 0).unwrap();
    assert_eq!(
        player.load_track(song("B", 1), Err(DecodeError::FileNotFound), 500),
        Err(PlaybackError::Decode(DecodeError::FileNotFound))
    );
    assert_eq!(player.state(), PlaybackState::Empty);
    assert!(player.current_track().is_none());
    assert_eq!(player.position(9_999), 0);
    assert_eq!(
        player.load_track(song("C", 1), Err(DecodeError::UnsupportedFormat), 600),
        Err(PlaybackError::Decode(DecodeError::UnsupportedFormat))
    );
    assert_eq!(player.state(), PlaybackState::Empty);
}

#[test]
fn player_without_device_never_loads() {
    let mut player = Player::new(false);
    assert_eq!(
        player.load_track(song("A", 180), Ok(()), 0),
        Err(PlaybackError::DeviceUnavailable)
    );
    assert_eq!(player.state(), PlaybackState::Empty);
    assert!(player.current_track().is_none());
    assert_eq!(player.toggle_play(10), SessionCommand::Nothing);
    assert_eq!(player.position(20), 0);
}

#[test]
fn toggle_play_pauses_and_resumes() {
    let mut player = Player::new(true);
    player.load_track(song("A", 180), Ok(()), 100).unwrap();
    assert_eq!(player.position(350), 250);
    assert_eq!(player.toggle_play(400), SessionCommand::Pause);
    assert_eq!(player.state(), PlaybackState::Paused);
    assert_eq!(player.position(400), 300);
    assert_eq!(player.position(900), 300);
    assert_eq!(player.toggle_play(1_000), SessionCommand::Resume);
    assert_eq!(player.state(), PlaybackState::Playing);
    assert_eq!(player.position(1_000), 300);
    assert_eq!(player.position(1_250), 550);
    assert_eq!(player.current_track().unwrap().track_name, "A");
}

#[test]
fn toggle_play_while_empty_is_a_no_op() {
    let mut player = Player::new(true);
    assert_eq!(player.toggle_play(5), SessionCommand::Nothing);
    assert_eq!(player.state(), PlaybackState::Empty);
    assert_eq!(player.position(50), 0);
}

#[test]
fn position_never_decreases_over_toggles() {
    let mut player = Player::new(true);
    player.load_track(song("A", 180), Ok(()), 10).unwrap();
    let mut last = player.position(10);
    let mut now: u64 = 10;
    for step in [5u64, 0, 17, 1, 0, 200, 3, 3, 90] {
        now += step;
        let read = player.position(now);
        assert!(read >= last);
        last = read;
        player.toggle_play(now);
        let read = player.position(now);
        assert!(read >= last);
        last = read;
    }
    assert_eq!(last, 5 + 17 + 0 + 3 + 90);
}

#[test]
fn clock_that_runs_backwards_adds_nothing() {
    let mut player = Player::new(true);
    player.load_track(song("A", 180), Ok(()), 1_000).unwrap();
    assert_eq!(player.position(400), 0);
    player.toggle_play(400);
    assert_eq!(player.position(2_000), 0);
}

#[test]
fn position_is_held_at_the_largest_value() {
    let mut player = Player::new(true);
    player.load_track(song("A", 180), Ok(()), 0).unwrap();
    player.toggle_play(u64::MAX - 5);
    player.toggle_play(0);
    assert_eq!(player.position(100), u64::MAX);
}

#[test]
fn volume_is_clamped() {
    let mut player = Player::new(true);
    assert_eq!(player.set_volume(500), 200);
    assert_eq!(player.get_volume(), 200);
    assert_eq!(player.set_volume(-100), 0);
    assert_eq!(player.get_volume(), 0);
    assert_eq!(player.set_volume(135), 135);
    assert_eq!(player.get_volume(), 135);
    assert_eq!(player.set_volume(200), 200);
    assert_eq!(player.set_volume(201), 200);
    assert_eq!(player.set_volume(0), 0);
    assert_eq!(player.set_volume(i64::MIN), 0);
    assert_eq!(player.set_volume(i64::MAX), 200);
}

#[test]
fn volume_can_be_set_while_idle_and_survives_a_load() {
    let mut player = Player::new(true);
    player.set_volume(40);
    player.load_track(song("A", 180), Ok(()), 0).unwrap();
    assert_eq!(player.get_volume(), 40);
    assert_eq!(player.state(), PlaybackState::Playing);
}

#[test]
fn current_track_is_a_snapshot() {
    let mut player = Player::new(true);
    player.load_track(song("A", 180), Ok(()), 0).unwrap();
    let snapshot = player.current_track().unwrap();
    player.load_track(song("B", 200), Ok(()), 10).unwrap();
    assert_eq!(snapshot.track_name, "A");
    assert_eq!(player.current_track().unwrap().track_name, "B");
}
