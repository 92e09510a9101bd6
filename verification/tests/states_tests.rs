use oogaxi::main_menu::{
    activate_item, menu_highlight, menu_item, menu_keyboard_system, menu_mouse_system,
    Interaction, MenuAction, MenuCommand, MENU_LEN,
};
use oogaxi::states::{
    build_when_ready, end_game_on_crash, gameover_input, ingame_input, toggle_pause, AppState,
    InGameRequests, IsPaused,
};

#[test]
fn default_states() {
    assert_eq!(AppState::default(), AppState::Menu);
    assert_eq!(IsPaused::default(), IsPaused::Running);
}

#[test]
fn pause_toggles_twice_back() {
    assert_eq!(toggle_pause(IsPaused::Running), IsPaused::Paused);
    assert_eq!(toggle_pause(toggle_pause(IsPaused::Running)), IsPaused::Running);
}

#[test]
fn escape_pauses_only_in_game() {
    assert_eq!(
        ingame_input(AppState::InGame, IsPaused::Running, true, false),
        InGameRequests { pause: Some(IsPaused::Paused), crash: false }
    );
    assert_eq!(
        ingame_input(AppState::InGame, IsPaused::Paused, true, false),
        InGameRequests { pause: Some(IsPaused::Running), crash: false }
    );
    assert_eq!(
        ingame_input(AppState::InGame, IsPaused::Running, false, false),
        InGameRequests { pause: None, crash: false }
    );
    assert_eq!(
        ingame_input(AppState::Menu, IsPaused::Running, true, false),
        InGameRequests { pause: None, crash: false }
    );
}

#[test]
fn crash_key_ends_the_game() {
    let r = ingame_input(AppState::InGame, IsPaused::Running, false, true);
    assert_eq!(r, InGameRequests { pause: None, crash: true });
    assert_eq!(end_game_on_crash(AppState::InGame, r.crash), Some(AppState::GameOver));
    assert_eq!(
        ingame_input(AppState::Menu, IsPaused::Running, false, true),
        InGameRequests { pause: None, crash: false }
    );
    assert_eq!(
        ingame_input(AppState::InGame, IsPaused::Paused, true, true),
        InGameRequests { pause: Some(IsPaused::Running), crash: true }
    );
}

#[test]
fn screen_graph_round_trip() {
    // Menu -> Loading -> InGame -> GameOver -> Menu
    let s = match activate_item(menu_item(0)) {
        MenuCommand::Goto(s) => s,
        MenuCommand::Exit => panic!("play must not exit"),
    };
    assert_eq!(s, AppState::Loading);
    assert_eq!(build_when_ready(s, false), None);
    let s = build_when_ready(s, true).unwrap();
    assert_eq!(s, AppState::InGame);
    assert_eq!(end_game_on_crash(s, false), None);
    let s = end_game_on_crash(s, true).unwrap();
    assert_eq!(s, AppState::GameOver);
    let s = gameover_input(s, true).unwrap();
    assert_eq!(s, AppState::Menu);
}

#[test]
fn routers_ignore_other_screens() {
    assert_eq!(gameover_input(AppState::InGame, true), None);
    assert_eq!(end_game_on_crash(AppState::GameOver, true), None);
    assert_eq!(build_when_ready(AppState::Menu, true), None);
}

#[test]
fn menu_rows_and_commands() {
    assert_eq!(MENU_LEN, 3);
    assert_eq!(menu_item(0), MenuAction::Play);
    assert_eq!(menu_item(1), MenuAction::Options);
    assert_eq!(menu_item(2), MenuAction::Quit);
    assert_eq!(activate_item(MenuAction::Options), MenuCommand::Goto(AppState::Options));
    assert_eq!(activate_item(MenuAction::Quit), MenuCommand::Exit);
    assert_eq!(MenuAction::Play.label(), "Play");
    assert_eq!(MenuAction::Options.label(), "Options");
    assert_eq!(MenuAction::Quit.label(), "Quit");
}

#[test]
fn menu_keyboard_wraps() {
    assert_eq!(menu_keyboard_system(2, true, false, false), (0, None));
    assert_eq!(menu_keyboard_system(0, false, true, false), (2, None));
    assert_eq!(menu_keyboard_system(1, true, true, false), (1, None));
    assert_eq!(
        menu_keyboard_system(1, true, false, true),
        (2, Some(MenuCommand::Exit))
    );
    assert_eq!(
        menu_keyboard_system(0, false, false, true),
        (0, Some(MenuCommand::Goto(AppState::Loading)))
    );
    // a row past the menu is brought back by either arrow
    assert_eq!(menu_keyboard_system(7, true, false, false), (2, None));
    assert_eq!(menu_keyboard_system(7, false, true, false), (0, None));
}

#[test]
fn menu_down_three_times_is_identity() {
    let mut sel = 1;
    for _ in 0..MENU_LEN {
        sel = menu_keyboard_system(sel, true, false, false).0;
    }
    assert_eq!(sel, 1);
}

#[test]
fn menu_mouse_hover_and_press() {
    assert_eq!(
        menu_mouse_system(Interaction::Hovered, 2, MenuAction::Quit, 0),
        (2, None)
    );
    assert_eq!(
        menu_mouse_system(Interaction::Pressed, 2, MenuAction::Quit, 0),
        (0, Some(MenuCommand::Exit))
    );
    assert_eq!(
        menu_mouse_system(Interaction::Idle, 2, MenuAction::Quit, 1),
        (1, None)
    );
    assert!(menu_highlight(1, 1));
    assert!(!menu_highlight(0, 1));
}
