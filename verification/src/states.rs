use vstd::prelude::*;

verus! {

/// The screens of the game.
#[derive(Debug, Clone, Copy, PartialEq, Eq, Structural)]
pub enum AppState {
    Menu,
    InGame,
    GameOver,
    Loading,
    Options,
}

/// Exists only while the game is in `AppState::InGame`.
#[derive(Debug, Clone, Copy, PartialEq, Eq, Structural)]
pub enum IsPaused {
    Running,
    Paused,
}

impl Default for AppState {
    fn default() -> (r: Self)
        ensures
            r == AppState::Menu,
    {
        AppState::Menu
    }
}

impl Default for IsPaused {
    fn default() -> (r: Self)
        ensures
            r == IsPaused::Running,
    {
        IsPaused::Running
    }
}

/// The edges of the screen graph:
/// Menu -> Loading -> InGame -> GameOver -> Menu, and Menu -> Options.
pub open spec fn app_edge(from: AppState, to: AppState) -> bool {
    ||| from == AppState::Menu && to == AppState::Loading
    ||| from == AppState::Menu && to == AppState::Options
    ||| from == AppState::Loading && to == AppState::InGame
    ||| from == AppState::InGame && to == AppState::GameOver
    ||| from == AppState::GameOver && to == AppState::Menu
}

/// The other side of the pause switch.
pub open spec fn spec_toggled(p: IsPaused) -> IsPaused {
    match p {
        IsPaused::Running => IsPaused::Paused,
        IsPaused::Paused => IsPaused::Running,
    }
}

/// Flip the pause switch.
pub fn toggle_pause(p: IsPaused) -> (r: IsPaused)
    ensures
        r == spec_toggled(p),
        r != p,
{
    match p {
        IsPaused::Running => IsPaused::Paused,
        IsPaused::Paused => IsPaused::Running,
    }
}

/// What the in-game router asks for this frame.
#[derive(Debug, Clone, Copy, PartialEq, Eq, Structural)]
pub struct InGameRequests {
    /// The pause state to switch to, if any.
    pub pause: Option<IsPaused>,
    /// Whether to crash the copter on purpose (the crash key).
    pub crash: bool,
}

/// What the in-game router asks for: a Pause press while playing asks for
/// the other side of the pause switch, and the crash key while playing
/// crashes the copter (which ends the game); nothing happens outside of
/// `InGame`.
pub open spec fn spec_ingame_input(
    current: AppState,
    paused: IsPaused,
    pause_pressed: bool,
    crash_pressed: bool,
) -> InGameRequests {
    InGameRequests {
        pause: if current == AppState::InGame && pause_pressed {
            Some(spec_toggled(paused))
        } else {
            None
        },
        crash: current == AppState::InGame && crash_pressed,
    }
}

/// Game-over screen: Enter goes back to the menu.
pub open spec fn spec_gameover_input(current: AppState, enter_pressed: bool) -> Option<AppState> {
    if current == AppState::GameOver && enter_pressed {
        Some(AppState::Menu)
    } else {
        None
    }
}

/// A crash message while playing ends the game.
pub open spec fn spec_end_game_on_crash(current: AppState, crashed: bool) -> Option<AppState> {
    if current == AppState::InGame && crashed {
        Some(AppState::GameOver)
    } else {
        None
    }
}

/// The loading screen hands over to the game once every sheet is in.
pub open spec fn spec_build_when_ready(current: AppState, all_loaded: bool) -> Option<AppState> {
    if current == AppState::Loading && all_loaded {
        Some(AppState::InGame)
    } else {
        None
    }
}

/// In-game input router (see `spec_ingame_input`).
pub fn ingame_input(
    current: AppState,
    paused: IsPaused,
    pause_pressed: bool,
    crash_pressed: bool,
) -> (r: InGameRequests)
    ensures
        r == spec_ingame_input(current, paused, pause_pressed, crash_pressed),
        r.pause is Some <==> current == AppState::InGame && pause_pressed,
        r.pause matches Some(p) ==> p != paused,
        r.crash <==> current == AppState::InGame && crash_pressed,
{
    let in_game = current == AppState::InGame;
    let pause = if in_game && pause_pressed {
        Some(toggle_pause(paused))
    } else {
        None
    };
    InGameRequests { pause, crash: in_game && crash_pressed }
}

/// Game-over router (see `spec_gameover_input`).
pub fn gameover_input(current: AppState, enter_pressed: bool) -> (r: Option<AppState>)
    ensures
        r == spec_gameover_input(current, enter_pressed),
        r is Some <==> current == AppState::GameOver && enter_pressed,
        r is Some ==> r == Some(AppState::Menu),
{
    if current == AppState::GameOver && enter_pressed {
        Some(AppState::Menu)
    } else {
        None
    }
}

/// Crash handler (see `spec_end_game_on_crash`).
pub fn end_game_on_crash(current: AppState, crashed: bool) -> (r: Option<AppState>)
    ensures
        r == spec_end_game_on_crash(current, crashed),
        r is Some <==> current == AppState::InGame && crashed,
        r is Some ==> r == Some(AppState::GameOver),
{
    if current == AppState::InGame && crashed {
        Some(AppState::GameOver)
    } else {
        None
    }
}

/// Loading-screen poll (see `spec_build_when_ready`).
pub fn build_when_ready(current: AppState, all_loaded: bool) -> (r: Option<AppState>)
    ensures
        r == spec_build_when_ready(current, all_loaded),
        r is Some <==> current == AppState::Loading && all_loaded,
        r is Some ==> r == Some(AppState::InGame),
{
    if current == AppState::Loading && all_loaded {
        Some(AppState::InGame)
    } else {
        None
    }
}

/// Pausing twice gives back the state one started from, and a toggle always
/// changes the state.
pub proof fn lemma_toggle_involutive(p: IsPaused)
    ensures
        spec_toggled(spec_toggled(p)) == p,
        spec_toggled(p) != p,
{
}

/// Every screen change that the game-over, crash and loading routers ask for
/// is an edge of the screen graph, and the crash key takes a running game
/// over to the game-over screen.
pub proof fn lemma_routers_follow_graph(current: AppState, pressed: bool)
    ensures
        spec_gameover_input(current, pressed) matches Some(to) ==> app_edge(current, to),
        spec_end_game_on_crash(current, pressed) matches Some(to) ==> app_edge(current, to),
        spec_build_when_ready(current, pressed) matches Some(to) ==> app_edge(current, to),
        forall|paused: IsPaused, pause_pressed: bool|
            #[trigger] spec_ingame_input(current, paused, pause_pressed, pressed).crash
                ==> spec_end_game_on_crash(current, true) == Some(AppState::GameOver)
                && app_edge(current, AppState::GameOver),
{
}

/// Each router acts only on its own trigger: the game-over screen stays up
/// until Enter and then goes back to the menu; a game ends only on a crash;
/// loading hands over only once everything is in; in game, the pause switch
/// moves only on a Pause press and a crash is asked only with the crash key.
pub proof fn lemma_routers_wait_for_their_trigger(
    current: AppState,
    paused: IsPaused,
    pressed: bool,
    crash_pressed: bool,
)
    ensures
        spec_gameover_input(current, pressed) is Some <==> current == AppState::GameOver && pressed,
        spec_gameover_input(current, pressed) is Some ==> spec_gameover_input(current, pressed)
            == Some(AppState::Menu),
        spec_end_game_on_crash(current, pressed) is Some <==> current == AppState::InGame && pressed,
        spec_build_when_ready(current, pressed) is Some <==> current == AppState::Loading && pressed,
        spec_ingame_input(current, paused, pressed, crash_pressed).pause is Some <==> current
            == AppState::InGame && pressed,
        spec_ingame_input(current, paused, pressed, crash_pressed).pause matches Some(p) ==> p
            != paused,
        spec_ingame_input(current, paused, pressed, crash_pressed).crash <==> current
            == AppState::InGame && crash_pressed,
{
}

} // verus!
