use crate::ui::menu::{cursor_down, cursor_up};
use crate::ui::screen::{Screen, State};
use crate::ui::style::{StyledText, StyledTextView, TextStyle, Tint};
use vstd::prelude::*;
use vstd::string::StringExecFns;

verus! {

/// Entries of the main menu widget.
pub open spec fn widget_main_menu_labels() -> Seq<Seq<char>> {
    seq!["New Game"@, "Exit"@]
}

/// Entries of the new-game widget.
pub open spec fn widget_new_game_labels() -> Seq<Seq<char>> {
    seq!["Cancel"@]
}

/// Entries that the menu widget shows on `screen`.
pub open spec fn widget_labels(screen: Screen) -> Seq<Seq<char>> {
    match screen {
        Screen::MainMenu => widget_main_menu_labels(),
        Screen::NewGame => widget_new_game_labels(),
    }
}

fn widget_main_menu_options() -> (options: Vec<String>)
    ensures
        options.deep_view() == widget_main_menu_labels(),
{
    let mut options: Vec<String> = Vec::new();
    options.push("New Game".to_owned());
    options.push("Exit".to_owned());
    assert(options.deep_view() =~= widget_main_menu_labels());
    options
}

fn widget_new_game_options() -> (options: Vec<String>)
    ensures
        options.deep_view() == widget_new_game_labels(),
{
    let mut options: Vec<String> = Vec::new();
    options.push("Cancel".to_owned());
    assert(options.deep_view() =~= widget_new_game_labels());
    options
}

/// Tells whether `option` reads `label`.
fn reads(option: &str, label: &str) -> (same: bool)
    ensures
        same == (option@ == label@),
{
    option.to_owned() == label.to_owned()
}

/// What the menu widget is showing.
#[derive(Debug, PartialEq, Eq)]
pub enum MenuType {
    MainMenu,
    NewGame { name_input: String },
}

/// What the menu widget is showing, as contracts see it.
pub enum MenuKind {
    MainMenu,
    NewGame { name_input: Seq<char> },
}

impl View for MenuType {
    type V = MenuKind;

    open spec fn view(&self) -> MenuKind {
        match self {
            MenuType::MainMenu => MenuKind::MainMenu,
            MenuType::NewGame { name_input } => MenuKind::NewGame { name_input: name_input@ },
        }
    }
}

/// What a typed character does to the name on the new-game screen, and
/// whether it confirms the name: a line feed confirms, backspace and delete
/// take the last character away, any other character is added at the end.
/// On the main menu a character does nothing.
pub open spec fn typed(kind: MenuKind, key: char) -> (MenuKind, bool) {
    match kind {
        MenuKind::MainMenu => (kind, false),
        MenuKind::NewGame { name_input } => if key == '\n' {
            (kind, true)
        } else if key == '\x08' || key == '\x7f' {
            if name_input.len() > 0 {
                (MenuKind::NewGame { name_input: name_input.drop_last() }, false)
            } else {
                (kind, false)
            }
        } else {
            (MenuKind::NewGame { name_input: name_input.push(key) }, false)
        },
    }
}

/// The state after the entry that reads `label` has been chosen while the
/// widget shows `kind`, and whether the application goes on.
pub open spec fn chosen(kind: MenuKind, label: Seq<char>, state: State) -> (State, bool) {
    match kind {
        MenuKind::MainMenu => if label == "New Game"@ {
            (State { state_type: Screen::NewGame, last_state: Screen::MainMenu }, true)
        } else if label == "Exit"@ {
            (state, false)
        } else {
            (state, true)
        },
        MenuKind::NewGame { name_input } => if label == "Cancel"@ {
            (State { state_type: state.last_state, last_state: state.last_state }, true)
        } else {
            (state, true)
        },
    }
}

/// Style of an entry of the menu widget: bold green under the cursor, plain
/// elsewhere.
pub open spec fn widget_entry_style(under_cursor: bool) -> TextStyle {
    if under_cursor {
        TextStyle { tint: Tint::Green, bold: true, italic: false }
    } else {
        TextStyle::plain_spec()
    }
}

/// The line that shows the name typed so far.
pub open spec fn name_line(name_input: Seq<char>) -> StyledTextView {
    StyledTextView {
        text: "Name: "@ + name_input,
        style: TextStyle { tint: Tint::Yellow, bold: false, italic: false },
    }
}

/// What the menu widget draws: its entries, each in its style, and on the
/// new-game screen the line with the name after them.
pub open spec fn widget_lines(kind: MenuKind, options: Seq<Seq<char>>, cursor: usize) -> Seq<
    StyledTextView,
> {
    let entries = Seq::new(
        options.len(),
        |i: int| StyledTextView { text: options[i], style: widget_entry_style(i == cursor) },
    );
    match kind {
        MenuKind::MainMenu => entries,
        MenuKind::NewGame { name_input } => entries.push(name_line(name_input)),
    }
}

/// A menu with a cursor, for the main menu and the new-game screen.
#[derive(Debug, PartialEq, Eq)]
pub struct MenuWidget {
    pub menu_type: MenuType,
    pub options: Vec<String>,
    pub selected_index: usize,
}

impl MenuWidget {
    /// Creates the widget of the main menu with the cursor on its first
    /// entry.
    pub fn new() -> (widget: MenuWidget)
        ensures
            widget.menu_type@ == MenuKind::MainMenu,
            widget.options.deep_view() == widget_main_menu_labels(),
            widget.selected_index == 0,
    {
        MenuWidget {
            menu_type: MenuType::MainMenu,
            options: widget_main_menu_options(),
            selected_index: 0,
        }
    }

    /// Applies a typed character to the name on the new-game screen and
    /// tells whether it confirmed the name.
    pub fn handle_input(&mut self, key: char) -> (confirmed: bool)
        ensures
            (final(self).menu_type@, confirmed) == typed(old(self).menu_type@, key),
            final(self).options.deep_view() == old(self).options.deep_view(),
            final(self).selected_index == old(self).selected_index,
    {
        match &mut self.menu_type {
            MenuType::NewGame { name_input } => {
                if key == '\n' {
                    true
                } else if key == '\x08' || key == '\x7f' {
                    name_input.pop();
                    false
                } else {
                    name_input.push(key);
                    false
                }
            },
            MenuType::MainMenu => false,
        }
    }

    /// Moves the cursor down by one entry; on the last entry it stays.
    pub fn next(&mut self)
        ensures
            final(self).selected_index == cursor_down(old(self).selected_index, old(self).options.deep_view().len()),
            final(self).options.deep_view() == old(self).options.deep_view(),
            final(self).menu_type == old(self).menu_type,
    {
        if self.options.len() > 0 && self.selected_index < self.options.len() - 1 {
            self.selected_index += 1;
        }
    }

    /// Moves the cursor up by one entry; on the first entry it stays.
    pub fn previous(&mut self)
        ensures
            final(self).selected_index == cursor_up(old(self).selected_index),
            final(self).options.deep_view() == old(self).options.deep_view(),
            final(self).menu_type == old(self).menu_type,
    {
        if self.selected_index > 0 {
            self.selected_index -= 1;
        }
    }

    /// Tells whether the cursor is on an entry.
    pub fn has_selection(&self) -> (ok: bool)
        ensures
            ok == (self.selected_index < self.options.deep_view().len()),
    {
        self.selected_index < self.options.len()
    }

    /// Chooses the entry under the cursor and tells whether the application
    /// goes on.
    pub fn select(&self, state: &mut State) -> (proceed: bool)
        requires
            self.selected_index < self.options.deep_view().len(),
        ensures
            (*final(state), proceed) == chosen(
                self.menu_type@,
                self.options.deep_view()[self.selected_index as int],
                *old(state),
            ),
    {
        let option = self.selected_option();
        match &self.menu_type {
            MenuType::MainMenu => {
                if reads(option, "New Game") {
                    state.state_type = Screen::NewGame;
                    state.last_state = Screen::MainMenu;
                } else if reads(option, "Exit") {
                    return false;
                }
            },
            MenuType::NewGame { name_input: _ } => {
                if reads(option, "Cancel") {
                    state.state_type = state.last_state;
                }
            },
        }
        true
    }

    /// Returns the entry under the cursor.
    pub fn selected_option(&self) -> (option: &str)
        requires
            self.selected_index < self.options.deep_view().len(),
        ensures
            option@ == self.options.deep_view()[self.selected_index as int],
    {
        self.options[self.selected_index].as_str()
    }

    /// Shows the screen of `state`: its entries, and on the new-game screen
    /// an empty name. The cursor stays where it is.
    pub fn update(&mut self, state: &State)
        ensures
            final(self).menu_type@ == (match state.state_type {
                Screen::MainMenu => MenuKind::MainMenu,
                Screen::NewGame => MenuKind::NewGame { name_input: Seq::empty() },
            }),
            final(self).options.deep_view() == widget_labels(state.state_type),
            final(self).selected_index == old(self).selected_index,
    {
        match state.state_type {
            Screen::MainMenu => {
                self.menu_type = MenuType::MainMenu;
                self.options = widget_main_menu_options();
            },
            Screen::NewGame => {
                self.menu_type = MenuType::NewGame { name_input: String::new() };
                self.options = widget_new_game_options();
            },
        }
    }

    /// Lays the widget out for drawing.
    pub fn render(&self) -> (items: Vec<StyledText>)
        ensures
            items.deep_view() == widget_lines(self.menu_type@, self.options.deep_view(), self.selected_index),
    {
        let mut items: Vec<StyledText> = Vec::new();
        let mut i: usize = 0;
        while i < self.options.len()
            invariant
                i <= self.options@.len(),
                items@.len() == i,
                forall|j: int|
                    0 <= j < i ==> (#[trigger] items@[j])@ == (StyledTextView {
                        text: self.options@[j]@,
                        style: widget_entry_style(j == self.selected_index),
                    }),
            decreases self.options@.len() - i,
        {
            let style = if i == self.selected_index {
                TextStyle { tint: Tint::Green, bold: true, italic: false }
            } else {
                TextStyle::plain()
            };
            items.push(StyledText::new(self.options[i].clone(), style));
            i = i + 1;
        }
        match &self.menu_type {
            MenuType::NewGame { name_input } => {
                let text = "Name: ".to_owned().concat(name_input.as_str());
                items.push(StyledText::new(text, TextStyle::tinted(Tint::Yellow)));
            },
            MenuType::MainMenu => {},
        }
        assert(items.deep_view() =~= widget_lines(
            self.menu_type@,
            self.options.deep_view(),
            self.selected_index,
        ));
        items
    }
}

/// What the main widget is showing.
#[derive(Clone, Copy, Debug, PartialEq, Eq, Structural)]
pub enum MainType {
    MainMenu,
    NewGame,
}

/// The text of the main widget on each screen, line by line.
pub open spec fn main_text(main_type: MainType) -> Seq<Seq<StyledTextView>> {
    match main_type {
        MainType::MainMenu => seq![
            seq![
                StyledTextView { text: "This "@, style: TextStyle::plain_spec() },
                StyledTextView {
                    text: "is"@,
                    style: TextStyle { tint: Tint::Green, bold: false, italic: true },
                },
                StyledTextView { text: "..."@, style: TextStyle::plain_spec() },
            ],
            seq![
                StyledTextView {
                    text: "the"@,
                    style: TextStyle { tint: Tint::Red, bold: false, italic: false },
                },
            ],
            seq![StyledTextView { text: "main menu"@, style: TextStyle::plain_spec() }],
        ],
        MainType::NewGame => seq![
            seq![
                StyledTextView {
                    text: "Name thyself..."@,
                    style: TextStyle { tint: Tint::Yellow, bold: false, italic: false },
                },
            ],
            seq![StyledTextView { text: ">"@, style: TextStyle::plain_spec() }],
        ],
    }
}

/// The main part of the screen.
#[derive(Clone, Copy, Debug, PartialEq, Eq, Structural)]
pub struct MainWidget {
    main_type: MainType,
}

impl MainWidget {
    /// What the widget is showing.
    pub closed spec fn shown(&self) -> MainType {
        self.main_type
    }

    /// Creates the main widget, showing the main menu.
    pub fn new() -> (widget: MainWidget)
        ensures
            widget.shown() == MainType::MainMenu,
    {
        MainWidget { main_type: MainType::MainMenu }
    }

    /// Shows the screen of `state`.
    pub fn update(&mut self, state: &State)
        ensures
            final(self).shown() == (match state.state_type {
                Screen::MainMenu => MainType::MainMenu,
                Screen::NewGame => MainType::NewGame,
            }),
    {
        match state.state_type {
            Screen::MainMenu => {
                self.main_type = MainType::MainMenu;
            },
            Screen::NewGame => {
                self.main_type = MainType::NewGame;
            },
        }
    }

    /// Lays the widget's text out for drawing, line by line.
    pub fn render(&self) -> (lines: Vec<Vec<StyledText>>)
        ensures
            lines.deep_view() == main_text(self.shown()),
    {
        let mut lines: Vec<Vec<StyledText>> = Vec::new();
        match self.main_type {
            MainType::MainMenu => {
                let mut first: Vec<StyledText> = Vec::new();
                first.push(StyledText::new("This ".to_owned(), TextStyle::plain()));
                first.push(
                    StyledText::new(
                        "is".to_owned(),
                        TextStyle { tint: Tint::Green, bold: false, italic: true },
                    ),
                );
                first.push(StyledText::new("...".to_owned(), TextStyle::plain()));
                let mut second: Vec<StyledText> = Vec::new();
                second.push(StyledText::new("the".to_owned(), TextStyle::tinted(Tint::Red)));
                let mut third: Vec<StyledText> = Vec::new();
                third.push(StyledText::new("main menu".to_owned(), TextStyle::plain()));
                assert(first.deep_view() =~= main_text(MainType::MainMenu)[0]);
                assert(second.deep_view() =~= main_text(MainType::MainMenu)[1]);
                assert(third.deep_view() =~= main_text(MainType::MainMenu)[2]);
                lines.push(first);
                lines.push(second);
                lines.push(third);
            },
            MainType::NewGame => {
                let mut first: Vec<StyledText> = Vec::new();
                first.push(
                    StyledText::new("Name thyself...".to_owned(), TextStyle::tinted(Tint::Yellow)),
                );
                let mut second: Vec<StyledText> = Vec::new();
                second.push(StyledText::new(">".to_owned(), TextStyle::plain()));
                assert(first.deep_view() =~= main_text(MainType::NewGame)[0]);
                assert(second.deep_view() =~= main_text(MainType::NewGame)[1]);
                lines.push(first);
                lines.push(second);
            },
        }
        assert(lines.deep_view() =~= main_text(self.shown()));
        lines
    }
}

} // verus!
