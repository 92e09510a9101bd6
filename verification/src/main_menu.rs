use vstd::prelude::*;

use crate::states::{AppState, app_edge};

verus! {

/// What a menu row does when activated.
#[derive(Debug, Clone, Copy, PartialEq, Eq, Structural)]
pub enum MenuAction {
    Play,
    Options,
    Quit,
}

/// The outcome of activating a menu row: move to another screen, or leave
/// the game.
#[derive(Debug, Clone, Copy, PartialEq, Eq, Structural)]
pub enum MenuCommand {
    Goto(AppState),
    Exit,
}

/// How the pointer relates to a menu button this frame.
#[derive(Debug, Clone, Copy, PartialEq, Eq, Structural)]
pub enum Interaction {
    Pressed,
    Hovered,
    Idle,
}

/// Number of rows in the main menu.
pub const MENU_LEN: usize = 3;

/// The rows of the main menu, top to bottom.
pub open spec fn spec_menu_item(i: int) -> MenuAction {
    if i == 0 {
        MenuAction::Play
    } else if i == 1 {
        MenuAction::Options
    } else {
        MenuAction::Quit
    }
}

/// The row at position `i` (top to bottom: Play, Options, Quit).
pub fn menu_item(i: usize) -> (a: MenuAction)
    requires
        i < MENU_LEN,
    ensures
        a == spec_menu_item(i as int),
        i == 0 ==> a == MenuAction::Play,
        i == 1 ==> a == MenuAction::Options,
        i == 2 ==> a == MenuAction::Quit,
{
    if i == 0 {
        MenuAction::Play
    } else if i == 1 {
        MenuAction::Options
    } else {
        MenuAction::Quit
    }
}

impl MenuAction {
    /// The text on the row's button.
    pub fn label(self) -> (s: &'static str)
        ensures
            self == MenuAction::Play ==> s@ == "Play"@,
            self == MenuAction::Options ==> s@ == "Options"@,
            self == MenuAction::Quit ==> s@ == "Quit"@,
    {
        match self {
            MenuAction::Play => "Play",
            MenuAction::Options => "Options",
            MenuAction::Quit => "Quit",
        }
    }
}

/// Play loads the game, Options opens the options screen, Quit exits.
pub open spec fn spec_activate(action: MenuAction) -> MenuCommand {
    match action {
        MenuAction::Play => MenuCommand::Goto(AppState::Loading),
        MenuAction::Options => MenuCommand::Goto(AppState::Options),
        MenuAction::Quit => MenuCommand::Exit,
    }
}

/// Carry out a menu row (see `spec_activate`).
pub fn activate_item(action: MenuAction) -> (c: MenuCommand)
    ensures
        c == spec_activate(action),
        action == MenuAction::Play ==> c == MenuCommand::Goto(AppState::Loading),
        action == MenuAction::Options ==> c == MenuCommand::Goto(AppState::Options),
        action == MenuAction::Quit ==> c == MenuCommand::Exit,
{
    match action {
        MenuAction::Play => MenuCommand::Goto(AppState::Loading),
        MenuAction::Options => MenuCommand::Goto(AppState::Options),
        MenuAction::Quit => MenuCommand::Exit,
    }
}

/// The row below `selected`, wrapping from the last row to the first.
pub open spec fn spec_next_row(selected: int) -> int {
    (selected + 1) % (MENU_LEN as int)
}

/// The row above `selected`, wrapping from the first row to the last.
pub open spec fn spec_prev_row(selected: int) -> int {
    (selected + MENU_LEN - 1) % (MENU_LEN as int)
}

/// Keyboard navigation: Down moves the highlight down, Up moves it up (both
/// wrap around, Down is applied first), and Enter activates the row that is
/// highlighted after the moves. A row index past the menu is brought back in
/// range by either arrow; Enter alone needs a row of the menu.
pub fn menu_keyboard_system(selected: usize, down: bool, up: bool, enter: bool) -> (r: (
    usize,
    Option<MenuCommand>,
))
    requires
        selected + MENU_LEN <= usize::MAX,
        enter && !down && !up ==> selected < MENU_LEN,
    ensures
        ({
            let after_down = if down {
                spec_next_row(selected as int)
            } else {
                selected as int
            };
            let after_up = if up {
                spec_prev_row(after_down)
            } else {
                after_down
            };
            &&& r.0 == after_up
            &&& r.1 == (if enter {
                Some(spec_activate(spec_menu_item(after_up)))
            } else {
                None
            })
        }),
        down || up || selected < MENU_LEN ==> r.0 < MENU_LEN,
{
    let count = MENU_LEN;
    let mut sel = selected;
    if down {
        sel = (sel + 1) % count;
    }
    if up {
        sel = (sel + count - 1) % count;
    }
    if enter {
        (sel, Some(activate_item(menu_item(sel))))
    } else {
        (sel, None)
    }
}

/// Pointer handling for one menu button: pressing activates its row,
/// hovering highlights it, and otherwise nothing changes.
pub fn menu_mouse_system(
    interaction: Interaction,
    index: usize,
    action: MenuAction,
    selected: usize,
) -> (r: (usize, Option<MenuCommand>))
    ensures
        r == (match interaction {
            Interaction::Pressed => (selected, Some(spec_activate(action))),
            Interaction::Hovered => (index, None),
            Interaction::Idle => (selected, None),
        }),
{
    match interaction {
        Interaction::Pressed => (selected, Some(activate_item(action))),
        Interaction::Hovered => (index, None),
        Interaction::Idle => (selected, None),
    }
}

/// A row is drawn highlighted exactly when it is the selected one.
pub fn menu_highlight(index: usize, selected: usize) -> (highlighted: bool)
    ensures
        highlighted == (index == selected),
{
    index == selected
}

/// Moving down then up (or up then down) comes back to the same row, and
/// both moves stay inside the menu.
pub proof fn lemma_menu_moves_are_inverse(selected: int)
    requires
        0 <= selected < MENU_LEN,
    ensures
        0 <= spec_next_row(selected) < MENU_LEN,
        0 <= spec_prev_row(selected) < MENU_LEN,
        spec_prev_row(spec_next_row(selected)) == selected,
        spec_next_row(spec_prev_row(selected)) == selected,
{
}

/// Pressing Down once per row brings the highlight back where it started.
pub proof fn lemma_menu_wraps_around(selected: int)
    requires
        0 <= selected < MENU_LEN,
    ensures
        spec_next_row(spec_next_row(spec_next_row(selected))) == selected,
{
}

/// Every screen the menu can lead to is an edge of the screen graph out of
/// the menu.
pub proof fn lemma_menu_follows_graph(action: MenuAction)
    ensures
        spec_activate(action) matches MenuCommand::Goto(to) ==> app_edge(AppState::Menu, to),
{
}

} // verus!
