//! The menus: which button is selected, and what confirming it asks for.

use vstd::prelude::*;
use crate::state::{GameState, StateChange};

verus! {

/// What a menu button does when it is confirmed.
#[derive(Clone, Copy, Debug, PartialEq, Eq, Structural)]
pub enum MenuButtonAction {
    Play,
    Quit,
}

/// The texts of a menu.
#[derive(Clone, Copy, Debug)]
pub struct MenuOptions<'a> {
    pub title: &'a str,
    pub play_text: &'a str,
}

/// The texts of the menu that a state shows. Only the main menu and the
/// pause menu have a play button.
pub fn menu_options(state: GameState) -> (options: Option<MenuOptions<'static>>)
    ensures
        state == GameState::MainMenu ==> options.is_some() && options.unwrap().title@
            == "Breakout!!"@ && options.unwrap().play_text@ == "Start"@,
        state == GameState::Paused ==> options.is_some() && options.unwrap().title@ == "Paused"@
            && options.unwrap().play_text@ == "Continue"@,
        state != GameState::MainMenu && state != GameState::Paused ==> options.is_none(),
{
    match state {
        GameState::MainMenu => Some(MenuOptions { title: "Breakout!!", play_text: "Start" }),
        GameState::Paused => Some(MenuOptions { title: "Paused", play_text: "Continue" }),
        _ => None,
    }
}

/// A menu: its buttons from first to last, and the one that is selected.
#[derive(Debug)]
pub struct Menu {
    pub buttons: Vec<MenuButtonAction>,
    pub selected: Option<usize>,
}

/// A menu as a value: the buttons as a sequence.
pub struct MenuView {
    pub buttons: Seq<MenuButtonAction>,
    pub selected: Option<usize>,
}

impl MenuView {
    /// The selected button, if there is one, is one of the menu's buttons.
    pub open spec fn wf(self) -> bool {
        self.selected matches Some(i) ==> i < self.buttons.len()
    }

    /// The action of the selected button.
    pub open spec fn selected_action(self) -> Option<MenuButtonAction> {
        match self.selected {
            Some(i) => Some(self.buttons[i as int]),
            None => None,
        }
    }

    /// The menu of a state with a play button: play, selected, above quit.
    pub open spec fn fresh() -> MenuView {
        MenuView {
            buttons: seq![MenuButtonAction::Play, MenuButtonAction::Quit],
            selected: Some(0usize),
        }
    }

    /// The menu after a tick's key presses.
    pub open spec fn after_keys(self, up_pressed: bool, down_pressed: bool) -> MenuView {
        MenuView {
            buttons: self.buttons,
            selected: if up_pressed || down_pressed {
                next_selection(self.selected, self.buttons.len())
            } else {
                self.selected
            },
        }
    }
}

impl View for Menu {
    type V = MenuView;

    open spec fn view(&self) -> MenuView {
        MenuView { buttons: self.buttons@, selected: self.selected }
    }
}

impl Menu {
    pub open spec fn wf(&self) -> bool {
        self@.wf()
    }

    pub open spec fn selected_action(&self) -> Option<MenuButtonAction> {
        self@.selected_action()
    }

    /// A new menu: play, selected, above quit.
    pub fn new() -> (menu: Menu)
        ensures
            menu@ == MenuView::fresh(),
            menu.wf(),
    {
        let mut buttons: Vec<MenuButtonAction> = Vec::new();
        buttons.push(MenuButtonAction::Play);
        buttons.push(MenuButtonAction::Quit);
        assert(buttons@ =~= seq![MenuButtonAction::Play, MenuButtonAction::Quit]);
        Menu { buttons, selected: Some(0) }
    }

    pub fn action(&self) -> (action: Option<MenuButtonAction>)
        requires
            self.wf(),
        ensures
            action == self.selected_action(),
    {
        match self.selected {
            Some(i) => Some(self.buttons[i]),
            None => None,
        }
    }
}

/// Where the selection goes on a key press: to the next button, and at the
/// last button it is lost.
pub open spec fn next_selection(selected: Option<usize>, buttons: nat) -> Option<usize> {
    match selected {
        Some(i) => if i + 1 < buttons {
            Some((i + 1) as usize)
        } else {
            None
        },
        None => None,
    }
}

/// Moves the selection of a menu. The up key and the down key both move it
/// one button on; pressed together they move it once.
pub fn menu_interaction(menu: &mut Menu, up_pressed: bool, down_pressed: bool)
    requires
        old(menu).wf(),
    ensures
        final(menu).wf(),
        final(menu)@ == old(menu)@.after_keys(up_pressed, down_pressed),
{
    if up_pressed || down_pressed {
        let buttons = menu.buttons.len();
        let moved = match menu.selected {
            Some(i) => if i < buttons - 1 {
                Some(i + 1)
            } else {
                None
            },
            None => None,
        };
        menu.selected = moved;
    }
}

/// The change that confirming a button asks for. In the main menu play
/// starts a new game, in the pause menu it resumes the paused one, and quit
/// ends the process from either. Without the confirm key, and in a state
/// without such a menu, nothing is asked for.
pub open spec fn selected_change(
    state: GameState,
    menu_action: MenuButtonAction,
    confirm_pressed: bool,
) -> Option<StateChange> {
    if !confirm_pressed {
        None
    } else {
        match (state, menu_action) {
            (GameState::MainMenu, MenuButtonAction::Play) => Some(
                StateChange::Replace(GameState::InGame),
            ),
            (GameState::Paused, MenuButtonAction::Play) => Some(StateChange::Pop),
            (GameState::MainMenu, MenuButtonAction::Quit) => Some(StateChange::Exit),
            (GameState::Paused, MenuButtonAction::Quit) => Some(StateChange::Exit),
            _ => None,
        }
    }
}

pub fn select_menu_item(state: GameState, menu_action: MenuButtonAction, confirm_pressed: bool) -> (change:
    Option<StateChange>)
    ensures
        change == selected_change(state, menu_action, confirm_pressed),
{
    if !confirm_pressed {
        return None;
    }
    match state {
        GameState::MainMenu => match menu_action {
            MenuButtonAction::Play => Some(StateChange::Replace(GameState::InGame)),
            MenuButtonAction::Quit => Some(StateChange::Exit),
        },
        GameState::Paused => match menu_action {
            MenuButtonAction::Play => Some(StateChange::Pop),
            MenuButtonAction::Quit => Some(StateChange::Exit),
        },
        _ => None,
    }
}

} // verus!
