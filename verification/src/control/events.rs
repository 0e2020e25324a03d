use crate::control::states::{StateManager, StateType};
use crate::entities::player::{Player, PlayerView};
use crate::ui::menu::{cursor_down, cursor_up, game_labels, game_quit_labels, Menu};
use crate::ui::popup::Popup;
use crate::ui::viewport::Viewport;
use crate::world::manager::WorldManager;
use vstd::prelude::*;

verus! {

/// Id given to the player that a confirmed name creates.
pub const NEW_PLAYER_ID: u32 = 666;

/// Index of the entry of the in-game menu that asks to leave the game.
pub const GAME_QUIT_ENTRY: usize = 4;

/// An input event, as the controller sees it.
#[derive(Clone, Copy, Debug, PartialEq, Eq, Structural)]
pub enum Key {
    /// A character was typed.
    Char(char),
    Backspace,
    /// Confirm, or choose the entry under the cursor.
    Enter,
    /// Cancel.
    Esc,
    Up,
    Down,
    /// Any other key, and any event that is no key.
    Other,
}

/// The state that choosing entry `index` in `state` leads to, where the pair
/// has one.
pub open spec fn select_target(state: StateType, index: usize) -> Option<StateType> {
    match state {
        StateType::MainMenu => if index == 0 {
            Some(StateType::Name)
        } else {
            None
        },
        StateType::Game => if index == GAME_QUIT_ENTRY {
            Some(StateType::GameQuit)
        } else {
            None
        },
        StateType::GameQuit => if index == 0 {
            Some(StateType::MainMenu)
        } else if index == 1 {
            Some(StateType::Game)
        } else {
            None
        },
        _ => None,
    }
}

/// Whether choosing entry `index` in `state` asks the application to end.
pub open spec fn select_exits(state: StateType, index: usize) -> bool {
    state == StateType::MainMenu && index == 1
}

/// What the controller reads and changes.
pub struct Session {
    /// Mode that the application is in.
    pub state: StateType,
    /// Index of the menu entry under the cursor.
    pub cursor: usize,
    /// Number of entries that the menu shows.
    pub entries: nat,
    /// Text typed so far.
    pub input: Seq<char>,
    /// The player, once a name has been confirmed.
    pub player: Option<PlayerView>,
}

impl Session {
    /// The session after the entry under the cursor has been chosen, and
    /// whether the application goes on.
    pub open spec fn select(self) -> (Session, bool) {
        if select_exits(self.state, self.cursor) {
            (self, false)
        } else {
            match select_target(self.state, self.cursor) {
                Some(target) => (Session { state: target, cursor: 0, ..self }, true),
                None => (self, true),
            }
        }
    }

    /// The session after `key`, and whether the application goes on. While a
    /// name is typed or confirmed the keys edit, confirm or cancel the name;
    /// everywhere else they move the cursor or choose the entry under it.
    pub open spec fn dispatch(self, key: Key) -> (Session, bool) {
        match self.state {
            StateType::Name => match key {
                Key::Char(c) => (Session { input: self.input.push(c), ..self }, true),
                Key::Backspace => if self.input.len() > 0 {
                    (Session { input: self.input.drop_last(), ..self }, true)
                } else {
                    (self, true)
                },
                Key::Enter => (Session { state: StateType::NameConfirm, ..self }, true),
                Key::Esc => (
                    Session { state: StateType::MainMenu, input: Seq::empty(), ..self },
                    true,
                ),
                _ => (self, true),
            },
            StateType::NameConfirm => match key {
                Key::Enter => (
                    Session {
                        state: StateType::Game,
                        input: Seq::empty(),
                        player: Some(PlayerView { id: NEW_PLAYER_ID, name: self.input }),
                        ..self
                    },
                    true,
                ),
                Key::Esc => (
                    Session { state: StateType::MainMenu, input: Seq::empty(), ..self },
                    true,
                ),
                _ => (self, true),
            },
            _ => match key {
                Key::Up => (Session { cursor: cursor_up(self.cursor), ..self }, true),
                Key::Down => (
                    Session { cursor: cursor_down(self.cursor, self.entries), ..self },
                    true,
                ),
                Key::Enter => self.select(),
                _ => (self, true),
            },
        }
    }
}

/// Whether the pair of a state and a key, with the cursor on entry `cursor`,
/// is one of the transitions that the controller defines.
pub open spec fn is_transition(state: StateType, key: Key, cursor: usize) -> bool {
    match state {
        StateType::Name | StateType::NameConfirm => key == Key::Enter || key == Key::Esc,
        _ => key == Key::Enter && (select_exits(state, cursor) || select_target(state, cursor)
            is Some),
    }
}

/// Every pair that is no defined transition leaves the state as it is and
/// lets the application go on.
pub proof fn lemma_other_pairs_keep_state(session: Session, key: Key)
    requires
        !is_transition(session.state, key, session.cursor),
    ensures
        session.dispatch(key).0.state == session.state,
        session.dispatch(key).0.player == session.player,
        session.dispatch(key).1,
{
}

/// Only choosing the second entry of the main menu ends the application, and
/// doing so changes nothing.
pub proof fn lemma_exit_only_from_main_menu(session: Session, key: Key)
    ensures
        !session.dispatch(key).1 <==> session.state == StateType::MainMenu && key == Key::Enter
            && session.cursor == 1,
        !session.dispatch(key).1 ==> session.dispatch(key).0 == session,
{
}

/// The entry of the in-game menu that leads to the question whether to leave
/// is the one that reads "Quit", and the two answers to that question are the
/// entries that read "Yes" and "No".
pub proof fn lemma_quit_entries_read_as_they_act()
    ensures
        game_labels()[GAME_QUIT_ENTRY as int] == "Quit"@,
        select_target(StateType::Game, GAME_QUIT_ENTRY) == Some(StateType::GameQuit),
        game_quit_labels()[0] == "Yes"@,
        select_target(StateType::GameQuit, 0) == Some(StateType::MainMenu),
        game_quit_labels()[1] == "No"@,
        select_target(StateType::GameQuit, 1) == Some(StateType::Game),
{
}

/// Whether a name is being typed or confirmed in `state`.
pub open spec fn in_name_entry(state: StateType) -> bool {
    state == StateType::Name || state == StateType::NameConfirm
}

/// Whatever way the name entry is left, the text typed is gone afterwards;
/// and a player is made only by confirming, with the text as the name.
pub proof fn lemma_leaving_name_entry_clears_input(session: Session, key: Key)
    requires
        in_name_entry(session.state),
        !in_name_entry(session.dispatch(key).0.state),
    ensures
        session.dispatch(key).0.input == Seq::<char>::empty(),
        session.dispatch(key).0.state == StateType::Game ==> session.dispatch(key).0.player
            == Some(PlayerView { id: NEW_PLAYER_ID, name: session.input }),
        session.dispatch(key).0.state != StateType::Game ==> session.dispatch(key).0.player
            == session.player,
{
}

/// The player of a world manager, as contracts see it.
pub open spec fn player_view(player: Option<Player>) -> Option<PlayerView> {
    match player {
        Some(player) => Some(player@),
        None => None,
    }
}

/// The session that the given parts of the application make up.
pub open spec fn session_of(
    state_manager: StateManager,
    world_manager: WorldManager,
    menu: Menu,
    popup: Popup,
) -> Session {
    Session {
        state: state_manager.current_state,
        cursor: menu.selected_index,
        entries: menu.menu_options@.len(),
        input: popup.input@,
        player: player_view(world_manager.player),
    }
}

/// Handles input events according to the current state.
pub struct EventHander {}

impl EventHander {
    /// Applies one input event to the application and tells whether the
    /// application goes on.
    pub fn update(
        state_manager: &mut StateManager,
        world_manager: &mut WorldManager,
        menu: &mut Menu,
        viewport: &mut Viewport,
        popup: &mut Popup,
        key: Key,
    ) -> (proceed: bool)
        ensures
            (
                session_of(
                    *final(state_manager),
                    *final(world_manager),
                    *final(menu),
                    *final(popup),
                ),
                proceed,
            ) == session_of(*old(state_manager), *old(world_manager), *old(menu), *old(popup))
                .dispatch(key),
            final(menu).menu_options == old(menu).menu_options,
            final(world_manager).world == old(world_manager).world,
            *final(viewport) == *old(viewport),
    {
        match state_manager.current_state {
            StateType::Name => {
                match key {
                    Key::Char(c) => popup.input.push(c),
                    Key::Backspace => {
                        popup.input.pop();
                    },
                    Key::Enter => {
                        state_manager.current_state = StateType::NameConfirm;
                    },
                    Key::Esc => {
                        popup.input.clear();
                        state_manager.current_state = StateType::MainMenu;
                    },
                    _ => {},
                }
                true
            },
            StateType::NameConfirm => {
                match key {
                    Key::Enter => {
                        let player = Player::new(NEW_PLAYER_ID, popup.input.clone());
                        world_manager.player = Some(player);
                        popup.input.clear();
                        state_manager.current_state = StateType::Game;
                    },
                    Key::Esc => {
                        popup.input.clear();
                        state_manager.current_state = StateType::MainMenu;
                    },
                    _ => {},
                }
                true
            },
            _ => {
                match key {
                    Key::Up => {
                        menu.previous();
                        true
                    },
                    Key::Down => {
                        menu.next();
                        true
                    },
                    Key::Enter => select(state_manager, menu),
                    _ => true,
                }
            },
        }
    }
}

/// Chooses the menu entry under the cursor and tells whether the application
/// goes on. A choice that leads to another state puts the cursor on the first
/// entry; any other choice changes nothing.
pub fn select(state_manager: &mut StateManager, menu: &mut Menu) -> (proceed: bool)
    ensures
        proceed == !select_exits(old(state_manager).current_state, old(menu).selected_index),
        final(menu).menu_options == old(menu).menu_options,
        match select_target(old(state_manager).current_state, old(menu).selected_index) {
            Some(target) => {
                &&& final(state_manager).current_state == target
                &&& final(menu).selected_index == 0
            },
            None => {
                &&& *final(state_manager) == *old(state_manager)
                &&& final(menu).selected_index == old(menu).selected_index
            },
        },
{
    match state_manager.current_state {
        StateType::MainMenu => {
            if menu.selected_index == 0 {
                state_manager.current_state = StateType::Name;
                menu.selected_index = 0;
            } else if menu.selected_index == 1 {
                return false;
            }
        },
        StateType::Game => {
            if menu.selected_index == GAME_QUIT_ENTRY {
                state_manager.current_state = StateType::GameQuit;
                menu.selected_index = 0;
            }
        },
        StateType::GameQuit => {
            if menu.selected_index == 0 {
                state_manager.current_state = StateType::MainMenu;
                menu.selected_index = 0;
            } else if menu.selected_index == 1 {
                state_manager.current_state = StateType::Game;
                menu.selected_index = 0;
            }
        },
        _ => {},
    }
    true
}

} // verus!
