use crate::control::states::StateType;
use crate::ui::display::Managers;
use crate::ui::style::{StyledText, StyledTextView, TextStyle, Tint};
use crate::world::manager::World;
use vstd::prelude::*;

verus! {

/// Entries of the main menu.
pub open spec fn main_menu_labels() -> Seq<Seq<char>> {
    seq!["New Game"@, "Load Game"@, "Exit"@]
}

/// Entries shown while a name is typed or confirmed.
pub open spec fn confirm_labels() -> Seq<Seq<char>> {
    seq!["Enter to Confirm"@, "Esc to Cancel"@]
}

/// The one entry shown with a message that the player acknowledges.
pub open spec fn continue_labels() -> Seq<Seq<char>> {
    seq!["Enter to Continue"@]
}

/// Entries shown while the game runs.
pub open spec fn game_labels() -> Seq<Seq<char>> {
    seq!["Time"@, "Weather"@, "Travel"@, "Save"@, "Quit"@]
}

/// Entries shown when the player is asked whether to leave the game.
pub open spec fn game_quit_labels() -> Seq<Seq<char>> {
    seq!["Yes"@, "No"@]
}

/// Entries of the travel menu: the towns of the world in their order, then
/// the entry that leads back; nothing while there is no world.
pub open spec fn travel_labels(world: Option<World>) -> Seq<Seq<char>> {
    match world {
        Some(world) => world.town_names().push("Back"@),
        None => Seq::empty(),
    }
}

/// Entries that the menu shows in `state`.
pub open spec fn labels_for(state: StateType, world: Option<World>) -> Seq<Seq<char>> {
    match state {
        StateType::MainMenu => main_menu_labels(),
        StateType::Name | StateType::NameConfirm => confirm_labels(),
        StateType::Game => game_labels(),
        StateType::Travel => travel_labels(world),
        StateType::GameSaveSuccess
        | StateType::GameSaveError
        | StateType::GameLoadError
        | StateType::GameInitError => continue_labels(),
        StateType::GameQuit => game_quit_labels(),
    }
}

/// Whether the menu of `state` shows a cursor: the menus that only tell which
/// keys to press show none.
pub open spec fn shows_cursor(state: StateType) -> bool {
    match state {
        StateType::Name
        | StateType::NameConfirm
        | StateType::GameSaveSuccess
        | StateType::GameSaveError
        | StateType::GameLoadError
        | StateType::GameInitError => false,
        _ => true,
    }
}

/// Style of a menu entry in `state`: without a cursor every entry is plain;
/// with one, the entry under the cursor is bold yellow and the others green.
pub open spec fn entry_style(state: StateType, under_cursor: bool) -> TextStyle {
    if !shows_cursor(state) {
        TextStyle::plain_spec()
    } else if under_cursor {
        TextStyle { tint: Tint::Yellow, bold: true, italic: false }
    } else {
        TextStyle { tint: Tint::Green, bold: false, italic: false }
    }
}

/// The cursor after a move down in a menu of `entries` entries: one further,
/// unless it is on the last entry or beyond.
pub open spec fn cursor_down(cursor: usize, entries: nat) -> usize {
    if cursor + 1 < entries {
        (cursor + 1) as usize
    } else {
        cursor
    }
}

/// The cursor after a move up: one back, unless it is on the first entry.
pub open spec fn cursor_up(cursor: usize) -> usize {
    if cursor > 0 {
        (cursor - 1) as usize
    } else {
        cursor
    }
}

/// What the menu draws in `state`: its entries in their order, each in its
/// style.
pub open spec fn menu_lines(state: StateType, options: Seq<Seq<char>>, cursor: usize) -> Seq<
    StyledTextView,
> {
    Seq::new(
        options.len(),
        |i: int| StyledTextView { text: options[i], style: entry_style(state, i == cursor) },
    )
}

fn main_menu_options() -> (options: Vec<String>)
    ensures
        options.deep_view() == main_menu_labels(),
        options@.len() == main_menu_labels().len(),
{
    let mut options: Vec<String> = Vec::new();
    options.push("New Game".to_owned());
    options.push("Load Game".to_owned());
    options.push("Exit".to_owned());
    assert(options.deep_view() =~= main_menu_labels());
    options
}

fn confirm_options() -> (options: Vec<String>)
    ensures
        options.deep_view() == confirm_labels(),
        options@.len() == confirm_labels().len(),
{
    let mut options: Vec<String> = Vec::new();
    options.push("Enter to Confirm".to_owned());
    options.push("Esc to Cancel".to_owned());
    assert(options.deep_view() =~= confirm_labels());
    options
}

fn continue_options() -> (options: Vec<String>)
    ensures
        options.deep_view() == continue_labels(),
        options@.len() == continue_labels().len(),
{
    let mut options: Vec<String> = Vec::new();
    options.push("Enter to Continue".to_owned());
    assert(options.deep_view() =~= continue_labels());
    options
}

fn game_options() -> (options: Vec<String>)
    ensures
        options.deep_view() == game_labels(),
        options@.len() == game_labels().len(),
{
    let mut options: Vec<String> = Vec::new();
    options.push("Time".to_owned());
    options.push("Weather".to_owned());
    options.push("Travel".to_owned());
    options.push("Save".to_owned());
    options.push("Quit".to_owned());
    assert(options.deep_view() =~= game_labels());
    options
}

fn game_quit_options() -> (options: Vec<String>)
    ensures
        options.deep_view() == game_quit_labels(),
        options@.len() == game_quit_labels().len(),
{
    let mut options: Vec<String> = Vec::new();
    options.push("Yes".to_owned());
    options.push("No".to_owned());
    assert(options.deep_view() =~= game_quit_labels());
    options
}

fn travel_options(world: &Option<World>) -> (options: Vec<String>)
    ensures
        options.deep_view() == travel_labels(*world),
        options@.len() == travel_labels(*world).len(),
{
    let mut options: Vec<String> = Vec::new();
    match world {
        Some(world) => {
            let mut i: usize = 0;
            while i < world.towns.len()
                invariant
                    i <= world.towns@.len(),
                    options@.len() == i,
                    forall|j: int| 0 <= j < i ==> options@[j]@ == world.towns@[j].name@,
                decreases world.towns@.len() - i,
            {
                options.push(world.towns[i].name.clone());
                i = i + 1;
            }
            options.push("Back".to_owned());
            assert(options.deep_view() =~= travel_labels(Some(*world)));
        },
        None => {
            assert(options.deep_view() =~= travel_labels(None));
        },
    }
    options
}

/// The list of entries that the player chooses from, with the cursor.
#[derive(Debug, PartialEq, Eq)]
pub struct Menu {
    pub menu_options: Vec<String>,
    pub selected_index: usize,
}

impl Menu {
    /// Creates the main menu with the cursor on its first entry.
    pub fn new() -> (menu: Menu)
        ensures
            menu.menu_options.deep_view() == main_menu_labels(),
            menu.menu_options@.len() == 3,
            menu.selected_index == 0,
    {
        Menu { menu_options: main_menu_options(), selected_index: 0 }
    }

    /// Moves the cursor down by one entry; on the last entry it stays.
    pub fn next(&mut self)
        ensures
            final(self).selected_index == cursor_down(
                old(self).selected_index,
                old(self).menu_options@.len(),
            ),
            final(self).menu_options == old(self).menu_options,
    {
        if self.menu_options.len() > 0 && self.selected_index < self.menu_options.len() - 1 {
            self.selected_index += 1;
        }
    }

    /// Moves the cursor up by one entry; on the first entry it stays.
    pub fn previous(&mut self)
        ensures
            final(self).selected_index == cursor_up(old(self).selected_index),
            final(self).menu_options == old(self).menu_options,
    {
        if self.selected_index > 0 {
            self.selected_index -= 1;
        }
    }

    /// Replaces the entries by those of the current state; the cursor stays
    /// where it is.
    pub fn update(&mut self, managers: &Managers)
        ensures
            final(self).menu_options.deep_view() == labels_for(
                managers.state_manager.current_state,
                managers.world_manager.world,
            ),
            final(self).menu_options@.len() == labels_for(
                managers.state_manager.current_state,
                managers.world_manager.world,
            ).len(),
            final(self).selected_index == old(self).selected_index,
    {
        self.menu_options = match managers.state_manager.current_state {
            StateType::MainMenu => main_menu_options(),
            StateType::Name | StateType::NameConfirm => confirm_options(),
            StateType::Game => game_options(),
            StateType::Travel => travel_options(&managers.world_manager.world),
            StateType::GameSaveSuccess
            | StateType::GameSaveError
            | StateType::GameLoadError
            | StateType::GameInitError => continue_options(),
            StateType::GameQuit => game_quit_options(),
        };
    }

    /// Lays the entries out for drawing, each with the style that the
    /// current state and the cursor give it.
    pub fn render(&self, managers: &Managers) -> (items: Vec<StyledText>)
        ensures
            items.deep_view() == menu_lines(
                managers.state_manager.current_state,
                self.menu_options.deep_view(),
                self.selected_index,
            ),
    {
        let state = managers.state_manager.current_state;
        let with_cursor = match state {
            StateType::Name
            | StateType::NameConfirm
            | StateType::GameSaveSuccess
            | StateType::GameSaveError
            | StateType::GameLoadError
            | StateType::GameInitError => false,
            _ => true,
        };
        let mut items: Vec<StyledText> = Vec::new();
        let mut i: usize = 0;
        while i < self.menu_options.len()
            invariant
                i <= self.menu_options@.len(),
                items@.len() == i,
                with_cursor == shows_cursor(state),
                forall|j: int|
                    0 <= j < i ==> (#[trigger] items@[j])@ == (StyledTextView {
                        text: self.menu_options@[j]@,
                        style: entry_style(state, j == self.selected_index),
                    }),
            decreases self.menu_options@.len() - i,
        {
            let style = if !with_cursor {
                TextStyle::plain()
            } else if i == self.selected_index {
                TextStyle { tint: Tint::Yellow, bold: true, italic: false }
            } else {
                TextStyle::tinted(Tint::Green)
            };
            items.push(StyledText::new(self.menu_options[i].clone(), style));
            i = i + 1;
        }
        assert(items.deep_view() =~= menu_lines(
            state,
            self.menu_options.deep_view(),
            self.selected_index,
        ));
        items
    }
}

} // verus!
