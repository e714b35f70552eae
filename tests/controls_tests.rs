use music_tray::controls::{control_action, key_action, Action, App, ButtonMap, Control, Region};
use music_tray::sync::{PlaybackStatus, PlayerCommand, PlayerReport};
use music_tray::ticker::{tick_due, wait_budget_ms, TICK_MS};

fn row() -> ButtonMap {
    ButtonMap {
        previous: Region { x: 1, y: 20, width: 10, height: 5 },
        play_pause: Region { x: 11, y: 20, width: 10, height: 5 },
        next: Region { x: 21, y: 20, width: 10, height: 5 },
        quit: Region { x: 31, y: 20, width: 10, height: 5 },
    }
}

fn playing_app() -> App {
    let mut app = App::new(0);
    assert!(app.music_player.update(2000));
    app.music_player.select_player(Some(vec!["vlc".to_string()]));
    app.music_player.record_report(Some(PlayerReport {
        status: PlaybackStatus::Playing,
        title: None,
        artists: None,
        album: None,
        length_micros: Some(10_000_000),
        position_micros: 1_000_000,
        art_url: None,
    }));
    app.set_buttons(row());
    app
}

#[test]
fn hit_test_half_open_regions() {
    let m = row();
    assert_eq!(m.hit_test(1, 20), Some(Control::Previous));
    assert_eq!(m.hit_test(10, 24), Some(Control::Previous));
    assert_eq!(m.hit_test(11, 20), Some(Control::PlayPause));
    assert_eq!(m.hit_test(21, 22), Some(Control::Next));
    assert_eq!(m.hit_test(40, 24), Some(Control::Quit));
    assert_eq!(m.hit_test(41, 20), None);
    assert_eq!(m.hit_test(5, 25), None);
    assert_eq!(m.hit_test(0, 20), None);
    assert_eq!(m.hit_test(5, 19), None);
}

#[test]
fn region_at_the_edge_of_the_grid() {
    let r = Region { x: 65_530, y: 65_530, width: 10, height: 10 };
    assert!(r.contains(65_535, 65_535));
    assert!(!r.contains(65_529, 65_535));
    let empty = Region { x: 3, y: 3, width: 0, height: 4 };
    assert!(!empty.contains(3, 3));
}

#[test]
fn click_outside_does_nothing() {
    let mut app = playing_app();
    assert_eq!(app.handle_button_click(50, 50), None);
    assert_eq!(app.handle_button_click(0, 0), None);
    assert!(!app.quit_requested());
    assert!(app.music_player.get_current_track().is_playing);
}

#[test]
fn click_fires_the_control() {
    let mut app = playing_app();
    assert_eq!(app.handle_button_click(2, 21), Some(PlayerCommand::Previous));
    assert_eq!(app.handle_button_click(12, 21), Some(PlayerCommand::PlayPause));
    assert_eq!(app.handle_button_click(22, 21), Some(PlayerCommand::Next));
    assert!(!app.quit_requested());
    assert_eq!(app.handle_button_click(32, 21), None);
    assert!(app.quit_requested());
}

#[test]
fn clicks_before_first_frame_do_nothing() {
    let mut app = App::new(0);
    assert_eq!(app.handle_button_click(2, 21), None);
    assert!(!app.quit_requested());
}

#[test]
fn commands_without_player_are_dropped() {
    let mut app = App::new(0);
    app.set_buttons(row());
    assert_eq!(app.handle_button_click(12, 21), None);
    assert_eq!(app.on_key(' '), None);
}

#[test]
fn keys_map_to_actions() {
    let mut app = playing_app();
    assert_eq!(app.on_key(' '), Some(PlayerCommand::PlayPause));
    assert_eq!(app.on_key('n'), Some(PlayerCommand::Next));
    assert_eq!(app.on_key('p'), Some(PlayerCommand::Previous));
    assert_eq!(app.on_key('x'), None);
    assert!(!app.quit_requested());
    assert_eq!(app.on_key('q'), None);
    assert!(app.quit_requested());
    assert_eq!(key_action('Q'), None);
    assert_eq!(key_action('q'), Some(Action::Quit));
}

#[test]
fn each_control_has_one_action() {
    assert_eq!(control_action(Control::Previous), Action::Send(PlayerCommand::Previous));
    assert_eq!(control_action(Control::PlayPause), Action::Send(PlayerCommand::PlayPause));
    assert_eq!(control_action(Control::Next), Action::Send(PlayerCommand::Next));
    assert_eq!(control_action(Control::Quit), Action::Quit);
}

#[test]
fn tick_schedule() {
    assert_eq!(TICK_MS, 250);
    assert_eq!(wait_budget_ms(0), 250);
    assert_eq!(wait_budget_ms(100), 150);
    assert_eq!(wait_budget_ms(250), 0);
    assert_eq!(wait_budget_ms(1000), 0);
    assert!(!tick_due(249));
    assert!(tick_due(250));
    assert!(tick_due(400));
}
