use crate::gamebanana::builder::{FeedFilter, TypeFilter};
use crate::tui::app::{App, MainView, ViewDir, Window};
use vstd::prelude::*;

verus! {

/// Whether the terminal is taken to show images.
pub fn image_support() -> (r: bool)
    ensures
        !r,
{
    false
}

/// The shares, in percent, into which a length is cut to centre a part of `percent`
/// percent in it: what is left is halved, rounded down, and put before and behind. A
/// part of more than all leaves nothing before and behind.
pub open spec fn centered_shares(percent: u16) -> (u16, u16, u16) {
    if percent <= 100 {
        (((100 - percent) / 2) as u16, percent, ((100 - percent) / 2) as u16)
    } else {
        (0u16, percent, 0u16)
    }
}

/// The shares, in percent, into which a length is cut to centre a part of `percent`
/// percent in it.
pub fn centered_rect(percent: u16) -> (r: (u16, u16, u16))
    ensures
        r == centered_shares(percent),
{
    if percent <= 100 {
        ((100 - percent) / 2, percent, (100 - percent) / 2)
    } else {
        (0, percent, 0)
    }
}

/// The column of the terminal's cursor in the search bar: one behind the cursor of
/// the query, counted from the bar's edge, as far as a column number holds it.
pub open spec fn column_of(cursor: Option<usize>) -> u16 {
    let typed = match cursor {
        Some(v) => v,
        None => 0usize,
    };
    let behind: int = if typed < usize::MAX {
        typed + 1
    } else {
        typed as int
    };
    (behind % 0x10000) as u16
}

/// The column of the terminal's cursor in the search bar.
pub fn cursor_column(app: &App) -> (r: u16)
    ensures
        r == column_of(app@.cursor),
{
    let typed = match app.cursor {
        Some(v) => v,
        None => 0,
    };
    let behind = if typed < usize::MAX {
        typed + 1
    } else {
        typed
    };
    (behind % 0x10000) as u16
}

/// Whether the side `dir` of the local collection is the one that is worked on: it is
/// shown and the main window has the focus.
pub fn side_active(app: &App, dir: ViewDir) -> (r: bool)
    ensures
        r == (app@.view == MainView::Manage(dir) && app@.window.current() == Window::Main),
{
    let shown = match app.view {
        MainView::Manage(ViewDir::Left) => match dir {
            ViewDir::Left => true,
            ViewDir::Right => false,
        },
        MainView::Manage(ViewDir::Right) => match dir {
            ViewDir::Left => false,
            ViewDir::Right => true,
        },
        MainView::Browse => false,
    };
    shown && *app.window.item() == Window::Main
}

/// The name under which a kind of mod is shown.
pub open spec fn kind_name(kind: TypeFilter) -> Seq<char> {
    match kind {
        TypeFilter::Skin => "Skin"@,
        TypeFilter::Sound => "Sound"@,
        TypeFilter::WiP => "WiP"@,
    }
}

/// The name under which a sort order is shown.
pub open spec fn feed_name(order: FeedFilter) -> Seq<char> {
    match order {
        FeedFilter::Recent => "Recent"@,
        FeedFilter::Popular => "Popular"@,
        FeedFilter::Featured => "Featured"@,
    }
}

/// The name under which the kind of mod `kind` is shown.
pub fn kind_label(kind: TypeFilter) -> (r: &'static str)
    ensures
        r@ == kind_name(kind),
{
    match kind {
        TypeFilter::Skin => "Skin",
        TypeFilter::Sound => "Sound",
        TypeFilter::WiP => "WiP",
    }
}

/// The name under which the sort order `order` is shown.
pub fn order_label(order: FeedFilter) -> (r: &'static str)
    ensures
        r@ == feed_name(order),
{
    match order {
        FeedFilter::Recent => "Recent",
        FeedFilter::Popular => "Popular",
        FeedFilter::Featured => "Featured",
    }
}

} // verus!
