use crate::tui::app::{effect_of, lemma_focus, App, AppView, Effect, MainView, Window};
use vstd::prelude::*;

verus! {

/// A key of the keyboard, as far as the program tells keys apart.
#[derive(Clone, Copy, Debug, PartialEq, Eq, Structural)]
pub enum Key {
    Char(char),
    Left,
    Right,
    Up,
    Down,
    Enter,
    Backspace,
    Esc,
    Tab,
    BackTab,
    Other,
}

/// What a key asks the program to do.
#[derive(Clone, Copy, Debug, PartialEq, Eq)]
pub enum Command {
    /// Nothing at all.
    Nothing,
    /// Move the cursor of the file variants one down.
    PopupNext,
    /// Move the cursor of the file variants one up.
    PopupPrevious,
    /// Close the choice of file variants.
    PopupClear,
    /// Act on the selected item.
    Select,
    /// Step to the sort order before.
    SortBack,
    /// Step to the next sort order.
    SortForward,
    /// Search the catalog.
    Search,
    /// Take the last character off the query.
    Backspace,
    /// Add a character to the query.
    Type(char),
    /// Give a window the focus.
    Focus(Window),
    /// Switch between the local collection and the catalog.
    ToggleView,
    /// Switch between the staged and the unstaged mods.
    ToggleSides,
    /// Show the preview image before.
    GalleryPrev,
    /// Show the next preview image.
    GalleryNext,
    /// Move the cursor of the shown list one down.
    Next,
    /// Move the cursor of the shown list one up.
    Previous,
    /// Step to the next kind of mod.
    SectionForward,
    /// Step to the kind of mod before.
    SectionBack,
    /// Move the cursor of the categories one down.
    CategoryNext,
    /// Move the cursor of the categories one up.
    CategoryPrevious,
    /// Give the next window the focus.
    WindowForward,
    /// Give the window before the focus.
    WindowBack,
    /// Leave the program.
    Exit,
}

/// The window that a digit key gives the focus to.
pub open spec fn window_of_digit(c: char) -> Option<Window> {
    if c == '1' {
        Some(Window::Search)
    } else if c == '2' {
        Some(Window::Main)
    } else if c == '3' {
        Some(Window::Category)
    } else if c == '4' {
        Some(Window::Section)
    } else {
        None
    }
}

/// What a key asks for wherever the focus is, unless the window has its own use for
/// it: escape leaves, tab and back-tab move the focus.
pub open spec fn common_command(key: Key) -> Command {
    match key {
        Key::Esc => Command::Exit,
        Key::Tab => Command::WindowForward,
        Key::BackTab => Command::WindowBack,
        _ => Command::Nothing,
    }
}

/// What a key asks for while file variants are offered for choice.
pub open spec fn popup_command(key: Key) -> Command {
    match key {
        Key::Char(c) => if c == 'j' {
            Command::PopupNext
        } else if c == 'k' {
            Command::PopupPrevious
        } else if c == 'q' {
            Command::PopupClear
        } else {
            Command::Nothing
        },
        Key::Esc => Command::PopupClear,
        Key::Enter => Command::Select,
        _ => Command::Nothing,
    }
}

/// What a key asks for while the search bar has the focus. A digit moves the focus
/// only while the query is empty; otherwise it is typed like any other character.
pub open spec fn search_command(key: Key, query_empty: bool) -> Command {
    match key {
        Key::Left => Command::SortBack,
        Key::Right => Command::SortForward,
        Key::Enter => Command::Search,
        Key::Backspace => Command::Backspace,
        Key::Char(c) => match window_of_digit(c) {
            Some(window) if query_empty => Command::Focus(window),
            _ => Command::Type(c),
        },
        _ => common_command(key),
    }
}

/// What a key asks for in any window but the search bar, unless the window has its
/// own use for it: a digit moves the focus and `q` leaves.
pub open spec fn window_command(key: Key) -> Command {
    match key {
        Key::Char(c) => match window_of_digit(c) {
            Some(window) => Command::Focus(window),
            None => if c == 'q' {
                Command::Exit
            } else {
                Command::Nothing
            },
        },
        _ => common_command(key),
    }
}

/// What a key asks for while the main window has the focus.
pub open spec fn main_command(key: Key, view: MainView) -> Command {
    match key {
        Key::Char(c) => if c == 'H' || c == 'L' {
            Command::ToggleView
        } else if c == 'h' {
            sideways_command(view, false)
        } else if c == 'l' {
            sideways_command(view, true)
        } else if c == 'j' {
            Command::Next
        } else if c == 'k' {
            Command::Previous
        } else {
            window_command(key)
        },
        Key::Left => sideways_command(view, false),
        Key::Right => sideways_command(view, true),
        Key::Down => Command::Next,
        Key::Up => Command::Previous,
        Key::Enter => Command::Select,
        _ => window_command(key),
    }
}

/// What a key to the left or to the right asks for in the main window: the other side
/// of the local collection, or another preview image of the catalog.
pub open spec fn sideways_command(view: MainView, right: bool) -> Command {
    match view {
        MainView::Manage(_) => Command::ToggleSides,
        MainView::Browse => if right {
            Command::GalleryNext
        } else {
            Command::GalleryPrev
        },
    }
}

/// Whether a key asks to go one down in a list.
pub open spec fn is_down(key: Key) -> bool {
    key == Key::Down || key == Key::Char('j')
}

/// Whether a key asks to go one up in a list.
pub open spec fn is_up(key: Key) -> bool {
    key == Key::Up || key == Key::Char('k')
}

/// What a key asks for, given the window that has the focus, what the main window
/// shows, whether file variants are offered for choice, and whether the query is
/// empty. The release of a key asks for nothing.
pub open spec fn command_for(
    window: Window,
    view: MainView,
    popup_open: bool,
    query_empty: bool,
    key: Key,
    released: bool,
) -> Command {
    if released {
        Command::Nothing
    } else if popup_open {
        popup_command(key)
    } else {
        match window {
            Window::Search => search_command(key, query_empty),
            Window::Main => main_command(key, view),
            Window::Section => if is_down(key) {
                Command::SectionForward
            } else if is_up(key) {
                Command::SectionBack
            } else {
                window_command(key)
            },
            Window::Category => if is_down(key) {
                Command::CategoryNext
            } else if is_up(key) {
                Command::CategoryPrevious
            } else {
                window_command(key)
            },
        }
    }
}

/// The window that a digit key gives the focus to.
fn digit_window(c: char) -> (r: Option<Window>)
    ensures
        r == window_of_digit(c),
{
    if c == '1' {
        Some(Window::Search)
    } else if c == '2' {
        Some(Window::Main)
    } else if c == '3' {
        Some(Window::Category)
    } else if c == '4' {
        Some(Window::Section)
    } else {
        None
    }
}

fn common(key: Key) -> (r: Command)
    ensures
        r == common_command(key),
{
    match key {
        Key::Esc => Command::Exit,
        Key::Tab => Command::WindowForward,
        Key::BackTab => Command::WindowBack,
        _ => Command::Nothing,
    }
}

fn in_window(key: Key) -> (r: Command)
    ensures
        r == window_command(key),
{
    match key {
        Key::Char(c) => match digit_window(c) {
            Some(window) => Command::Focus(window),
            None => if c == 'q' {
                Command::Exit
            } else {
                Command::Nothing
            },
        },
        _ => common(key),
    }
}

fn sideways(view: MainView, right: bool) -> (r: Command)
    ensures
        r == sideways_command(view, right),
{
    match view {
        MainView::Manage(_) => Command::ToggleSides,
        MainView::Browse => if right {
            Command::GalleryNext
        } else {
            Command::GalleryPrev
        },
    }
}

fn down(key: Key) -> (r: bool)
    ensures
        r == is_down(key),
{
    match key {
        Key::Down => true,
        Key::Char(c) => c == 'j',
        _ => false,
    }
}

fn up(key: Key) -> (r: bool)
    ensures
        r == is_up(key),
{
    match key {
        Key::Up => true,
        Key::Char(c) => c == 'k',
        _ => false,
    }
}

/// What a key asks for, given the window that has the focus, what the main window
/// shows, whether file variants are offered for choice, and whether the query is
/// empty.
pub fn decide(
    window: Window,
    view: MainView,
    popup_open: bool,
    query_empty: bool,
    key: Key,
    released: bool,
) -> (r: Command)
    ensures
        r == command_for(window, view, popup_open, query_empty, key, released),
{
    if released {
        return Command::Nothing;
    }
    if popup_open {
        return match key {
            Key::Char(c) => if c == 'j' {
                Command::PopupNext
            } else if c == 'k' {
                Command::PopupPrevious
            } else if c == 'q' {
                Command::PopupClear
            } else {
                Command::Nothing
            },
            Key::Esc => Command::PopupClear,
            Key::Enter => Command::Select,
            _ => Command::Nothing,
        };
    }
    match window {
        Window::Search => match key {
            Key::Left => Command::SortBack,
            Key::Right => Command::SortForward,
            Key::Enter => Command::Search,
            Key::Backspace => Command::Backspace,
            Key::Char(c) => match digit_window(c) {
                Some(window) if query_empty => Command::Focus(window),
                _ => Command::Type(c),
            },
            _ => common(key),
        },
        Window::Main => match key {
            Key::Char(c) => if c == 'H' || c == 'L' {
                Command::ToggleView
            } else if c == 'h' {
                sideways(view, false)
            } else if c == 'l' {
                sideways(view, true)
            } else if c == 'j' {
                Command::Next
            } else if c == 'k' {
                Command::Previous
            } else {
                in_window(key)
            },
            Key::Left => sideways(view, false),
            Key::Right => sideways(view, true),
            Key::Down => Command::Next,
            Key::Up => Command::Previous,
            Key::Enter => Command::Select,
            _ => in_window(key),
        },
        Window::Section => if down(key) {
            Command::SectionForward
        } else if up(key) {
            Command::SectionBack
        } else {
            in_window(key)
        },
        Window::Category => if down(key) {
            Command::CategoryNext
        } else if up(key) {
            Command::CategoryPrevious
        } else {
            in_window(key)
        },
    }
}

/// What a key asks for in the state `state`.
pub open spec fn command_in(state: AppView, key: Key, released: bool) -> Command {
    command_for(
        state.window.current(),
        state.view,
        state.popup.content.len() > 0,
        state.query().len() == 0,
        key,
        released,
    )
}

/// Takes in one key event: finds what the key asks for where the focus is, carries it
/// out as far as it changes the state by itself, and tells what is left to be done
/// outside.
pub fn handle_event(app: &mut App, key: Key, released: bool) -> (r: Effect)
    ensures
        final(app)@ == old(app)@.transition(command_in(old(app)@, key, released)),
        r == effect_of(command_in(old(app)@, key, released)),
        old(app)@.wf() ==> final(app)@.wf(),
{
    let command = decide(
        *app.window.item(),
        app.view,
        !app.popup_items.items.is_empty(),
        app.search_query().is_empty(),
        key,
        released,
    );
    app.perform(command)
}

/// A digit key gives its window the focus: in a state whose parts are in order, with
/// no file variants offered for choice and, where the search bar has the focus, an
/// empty query, pressing one of the keys `1` to `4` leaves the focus on the window of
/// that digit and changes nothing else.
pub proof fn lemma_digit_key_moves_focus(state: AppView, c: char, window: Window)
    requires
        state.wf(),
        state.popup.content.len() == 0,
        state.window.current() == Window::Search ==> state.query().len() == 0,
        window_of_digit(c) == Some(window),
    ensures
        command_in(state, Key::Char(c), false) == Command::Focus(window),
        state.transition(command_in(state, Key::Char(c), false)).window.current() == window,
        state.transition(command_in(state, Key::Char(c), false)) == (AppView {
            window: state.transition(command_in(state, Key::Char(c), false)).window,
            ..state
        }),
{
    lemma_focus(state, window);
}

} // verus!
