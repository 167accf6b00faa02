use crate::error::ModError;
use crate::gamebanana::builder::{FeedFilter, TypeFilter};
use crate::gamebanana::models::category::GBModCategory;
use crate::gamebanana::models::file::GBFile;
use crate::gamebanana::models::modpage::GBModPage;
use crate::gamebanana::models::search_result::GBSearchEntry;
use crate::modz::records::{
    contains_id, position_of, unique_ids, views, with_staged, without,
};
use crate::modz::{
    after_toggle, built, staging_action_for, LocalCollection, Mod, ModView, StagingAction,
};
use crate::tui::gallery::{
    entries, has_entry, images_clear, images_contains, images_get_index, images_insert,
    images_len, images_new,
};
use crate::tui::handler::Command;
use crate::tui::state::{
    lemma_cursor_in_bounds, lemma_cycled_by, lemma_cycled_to, lemma_steps_until, search_url,
    steps_until, Categories, CyclicState, CyclicView, LocalItems, OnlineItems,
    PopupItems, SelectableListView,
};
use indexmap::IndexMap;
use vstd::prelude::*;
use vstd::std_specs::cmp::PartialEqSpecImpl;
use vstd::utf8::encode_utf8;

verus! {

/// The sides of the local collection.
#[derive(Clone, Copy, Debug, PartialEq, Eq, Structural)]
pub enum ViewDir {
    /// The staged mods.
    Left,
    /// The unstaged mods.
    Right,
}

/// What the main window shows.
#[derive(Clone, Copy, Debug, PartialEq, Eq, Structural)]
pub enum MainView {
    /// One side of the local collection.
    Manage(ViewDir),
    /// The results of a search in the catalog.
    Browse,
}

/// The windows that can have the focus.
#[derive(Clone, Copy, Debug, Eq)]
pub enum Window {
    Search,
    Main,
    Category,
    Section,
}

impl PartialEq for Window {
    fn eq(&self, other: &Self) -> (r: bool) {
        match (self, other) {
            (Window::Search, Window::Search) => true,
            (Window::Main, Window::Main) => true,
            (Window::Category, Window::Category) => true,
            (Window::Section, Window::Section) => true,
            _ => false,
        }
    }
}

impl PartialEqSpecImpl for Window {
    open spec fn obeys_eq_spec() -> bool {
        true
    }

    open spec fn eq_spec(&self, other: &Self) -> bool {
        *self == *other
    }
}

impl Window {
    /// Every window, in declared order.
    pub open spec fn all() -> Seq<Window> {
        seq![Window::Search, Window::Main, Window::Category, Window::Section]
    }

    /// Every window, in declared order.
    pub fn variants() -> (v: Vec<Window>)
        ensures
            v@ == Window::all(),
    {
        let mut v = Vec::new();
        v.push(Window::Search);
        v.push(Window::Main);
        v.push(Window::Category);
        v.push(Window::Section);
        proof {
            assert(v@ =~= Window::all());
        }
        v
    }
}

/// A list of mods as plain values.
pub open spec fn local_view(list: SelectableListView<Mod>) -> SelectableListView<ModView> {
    SelectableListView { content: views(list.content), cursor: list.cursor, query: list.query }
}

/// The cursor in the search bar after a character was typed: one further, or behind
/// the first character where there was none.
pub open spec fn cursor_after_typing(cursor: Option<usize>) -> Option<usize> {
    match cursor {
        Some(v) => if v < usize::MAX {
            Some((v + 1) as usize)
        } else {
            Some(v)
        },
        None => Some(1usize),
    }
}

/// The cursor in the search bar after a character was erased: one back, but not before
/// the start.
pub open spec fn cursor_after_erasing(cursor: Option<usize>) -> Option<usize> {
    match cursor {
        Some(v) => if v > 0 {
            Some((v - 1) as usize)
        } else {
            Some(v)
        },
        None => None,
    }
}

/// The cursor in the search bar behind the query `query`: as far in as the query has
/// bytes, or none where the query is empty.
pub open spec fn cursor_behind(query: Seq<char>) -> Option<usize> {
    let length = encode_utf8(query).len() as usize;
    if length == 0 {
        None
    } else {
        Some(length)
    }
}

/// The help that is shown while `window` has the focus.
pub open spec fn help_for(window: Window) -> Seq<char> {
    match window {
        Window::Main =>
            "Space - Install / Uninstall from game dir\nH / L - Switch local/gamebanana mods\nh / l - local - Switch sides\nonline - Scroll pages\nx - local - Delete mod permanently"@,
        Window::Category => "j/k - scroll"@,
        Window::Section => "j/k - scroll"@,
        Window::Search => "type and press enter to search\narrow keys to sort by different stuff"@,
    }
}

/// What has to happen outside the program's state after a command.
#[derive(Clone, Copy, Debug, PartialEq, Eq, Structural)]
pub enum Effect {
    /// Nothing.
    Stay,
    /// The program ends.
    Exit,
    /// The selected item is acted on.
    Select,
    /// The catalog is searched.
    Search,
}

/// What a command leaves to be done outside the program's state.
pub open spec fn effect_of(command: Command) -> Effect {
    match command {
        Command::Exit => Effect::Exit,
        Command::Select => Effect::Select,
        Command::Search => Effect::Search,
        _ => Effect::Stay,
    }
}

/// What is to be done about the selected item, as plain values.
pub ghost enum SelectPlan {
    /// Register the file variant at position `file_index`.
    Register { file_index: usize },
    /// Move the mod with the id `id` to the other state.
    Toggle { id: nat },
    /// Offer the files of the selected search result.
    OpenPopup,
    /// Only bring the lists up to date.
    Refresh,
}

/// What is to be done about the selected item.
pub enum SelectAction {
    /// Fetch the page of `entry` and its file variant `file_index`, then register it.
    Register { entry: GBSearchEntry, file_index: usize },
    /// Carry out `action` on disk, then record its outcome for the mod `id`.
    Toggle { id: usize, action: StagingAction },
    /// Fetch the page of `entry`, then offer its files.
    OpenPopup { entry: GBSearchEntry },
    /// Only bring the lists up to date.
    Refresh,
}

/// Whether two search results hold the same values.
pub open spec fn same_entry(a: GBSearchEntry, b: GBSearchEntry) -> bool {
    &&& a.date_updated == b.date_updated
    &&& a.date_added == b.date_added
    &&& a.model_name == b.model_name
    &&& a.name == b.name
    &&& a.is_nsfw == b.is_nsfw
    &&& a.row == b.row
    &&& a.preview_media@ == b.preview_media@
    &&& a.download_count == b.download_count
    &&& a.view_count == b.view_count
    &&& a.like_count == b.like_count
    &&& a.text == b.text
    &&& a.description == b.description
    &&& a.category == b.category
    &&& a.game == b.game
}

/// The state of the program as plain values.
pub ghost struct AppView {
    pub collection: Seq<ModView>,
    pub page: usize,
    pub gallery_page: usize,
    pub popup: SelectableListView<GBFile>,
    pub popup_entry: Option<GBSearchEntry>,
    pub online: SelectableListView<GBSearchEntry>,
    pub staged: SelectableListView<ModView>,
    pub unstaged: SelectableListView<ModView>,
    pub categories: SelectableListView<GBModCategory>,
    pub section: CyclicView<TypeFilter>,
    pub cursor: Option<usize>,
    pub view: MainView,
    pub window: CyclicView<Window>,
    pub sort: CyclicView<FeedFilter>,
    pub images: Seq<(Seq<char>, usize)>,
}

impl AppView {
    /// The parts of the state are in order: no two mods of the collection share an id,
    /// the cursor of every list is on an item or nowhere, and the cycles of kinds,
    /// windows and sort orders each hold their variants in declared order with one of
    /// them current.
    pub open spec fn wf(self) -> bool {
        &&& unique_ids(self.collection)
        &&& self.popup.wf()
        &&& self.online.wf()
        &&& self.staged.wf()
        &&& self.unstaged.wf()
        &&& self.categories.wf()
        &&& self.section.wf()
        &&& self.section.variants == TypeFilter::all()
        &&& self.window.wf()
        &&& self.window.variants == Window::all()
        &&& self.sort.wf()
        &&& self.sort.variants == FeedFilter::all()
    }

    /// The state in which the program starts: the staged mods of the collection are
    /// shown, the search bar has the focus, skins are asked for, newest first.
    pub open spec fn initial(
        collection: Seq<ModView>,
        categories: SelectableListView<GBModCategory>,
    ) -> AppView {
        (AppView {
            collection,
            page: 0,
            gallery_page: 0,
            popup: SelectableListView::<GBFile>::refreshed(Seq::empty()),
            popup_entry: None,
            online: SelectableListView::<GBSearchEntry>::refreshed(Seq::empty()),
            staged: SelectableListView::<ModView>::refreshed(Seq::empty()),
            unstaged: SelectableListView::<ModView>::refreshed(Seq::empty()),
            categories,
            section: CyclicView { variants: TypeFilter::all(), position: 0 },
            cursor: None,
            view: MainView::Manage(ViewDir::Left),
            window: CyclicView { variants: Window::all(), position: 0 },
            sort: CyclicView { variants: FeedFilter::all(), position: 0 },
            images: Seq::empty(),
        }).reregistered()
    }

    /// Both sides of the local collection brought up to date with the collection.
    pub open spec fn reregistered(self) -> AppView {
        AppView {
            staged: SelectableListView::<ModView>::refreshed(with_staged(self.collection, true)),
            unstaged: SelectableListView::<ModView>::refreshed(
                with_staged(self.collection, false),
            ),
            ..self
        }
    }

    /// The side `dir` of the local collection.
    pub open spec fn local(self, dir: ViewDir) -> SelectableListView<ModView> {
        match dir {
            ViewDir::Left => self.staged,
            ViewDir::Right => self.unstaged,
        }
    }

    /// The state with the cursor of the shown list one down.
    pub open spec fn after_next(self) -> AppView {
        match self.view {
            MainView::Manage(ViewDir::Left) => AppView { staged: self.staged.after_next(), ..self },
            MainView::Manage(ViewDir::Right) => AppView {
                unstaged: self.unstaged.after_next(),
                ..self
            },
            MainView::Browse => AppView { online: self.online.after_next(), ..self },
        }
    }

    /// The state with the cursor of the shown list one up.
    pub open spec fn after_previous(self) -> AppView {
        match self.view {
            MainView::Manage(ViewDir::Left) => AppView {
                staged: self.staged.after_previous(),
                ..self
            },
            MainView::Manage(ViewDir::Right) => AppView {
                unstaged: self.unstaged.after_previous(),
                ..self
            },
            MainView::Browse => AppView { online: self.online.after_previous(), ..self },
        }
    }

    /// The query of the shown list.
    pub open spec fn query(self) -> Seq<char> {
        match self.view {
            MainView::Manage(dir) => self.local(dir).query,
            MainView::Browse => self.online.query,
        }
    }

    /// The cursor of the shown list.
    pub open spec fn list_cursor(self) -> Option<usize> {
        match self.view {
            MainView::Manage(dir) => self.local(dir).cursor,
            MainView::Browse => self.online.cursor,
        }
    }

    /// The state after `c` was typed into the query of the shown list.
    pub open spec fn typed(self, c: char) -> AppView {
        let moved = AppView { cursor: cursor_after_typing(self.cursor), ..self };
        match self.view {
            MainView::Manage(ViewDir::Left) => AppView { staged: self.staged.typed(c), ..moved },
            MainView::Manage(ViewDir::Right) => AppView {
                unstaged: self.unstaged.typed(c),
                ..moved
            },
            MainView::Browse => AppView { online: self.online.typed(c), ..moved },
        }
    }

    /// The state after the last character was taken off the query of the shown list.
    pub open spec fn erased(self) -> AppView {
        let moved = AppView { cursor: cursor_after_erasing(self.cursor), ..self };
        match self.view {
            MainView::Manage(ViewDir::Left) => AppView { staged: self.staged.erased(), ..moved },
            MainView::Manage(ViewDir::Right) => AppView {
                unstaged: self.unstaged.erased(),
                ..moved
            },
            MainView::Browse => AppView { online: self.online.erased(), ..moved },
        }
    }

    /// The state with the cursor of the search bar behind the query of the shown list.
    pub open spec fn cursor_reset(self) -> AppView {
        AppView { cursor: cursor_behind(self.query()), ..self }
    }

    /// The state after a switch between the local collection and the catalog, which
    /// takes place only while the main window has the focus.
    pub open spec fn view_toggled(self) -> AppView {
        let switched = if self.window.current() == Window::Main {
            AppView {
                view: match self.view {
                    MainView::Manage(_) => MainView::Browse,
                    MainView::Browse => MainView::Manage(ViewDir::Left),
                },
                ..self
            }
        } else {
            self
        };
        switched.cursor_reset()
    }

    /// The state after a switch between the staged and the unstaged mods.
    pub open spec fn sides_toggled(self) -> AppView {
        match self.view {
            MainView::Manage(ViewDir::Left) => AppView {
                view: MainView::Manage(ViewDir::Right),
                ..self
            },
            MainView::Manage(ViewDir::Right) => AppView {
                view: MainView::Manage(ViewDir::Left),
                ..self
            },
            MainView::Browse => self,
        }
    }

    /// The state with the preview image before shown, if there is one.
    pub open spec fn gallery_back(self) -> AppView {
        if self.gallery_page == 0 {
            self
        } else {
            AppView { gallery_page: (self.gallery_page - 1) as usize, ..self }
        }
    }

    /// The state with the next preview image shown, if there is one.
    pub open spec fn gallery_forth(self) -> AppView {
        if self.gallery_page + 1 < self.images.len() {
            AppView { gallery_page: (self.gallery_page + 1) as usize, ..self }
        } else {
            self
        }
    }

    /// The state after the mod that is selected in the local collection was removed
    /// from the collection. Nothing changes where the catalog is shown, where no mod
    /// is selected, or where the collection does not hold the selected mod.
    pub open spec fn removed(self) -> AppView {
        match self.selected_local() {
            Some(id) => if contains_id(self.collection, id) {
                (AppView { collection: without(self.collection, id), ..self }).reregistered()
            } else {
                self
            },
            None => self,
        }
    }

    /// The id of the mod that is selected in the shown side of the local collection.
    pub open spec fn selected_local(self) -> Option<nat> {
        match self.view {
            MainView::Manage(dir) => match self.local(dir).selected() {
                Some(m) => Some(m.id),
                None => None,
            },
            MainView::Browse => None,
        }
    }

    /// The address that asks the catalog for what the state describes: the page, kind
    /// and order that are set, the selected category and the query. There is none
    /// while the local collection is shown.
    pub open spec fn search_address(self) -> Option<Seq<char>> {
        match self.view {
            MainView::Manage(_) => None,
            MainView::Browse => Some(
                search_url(
                    self.section.current(),
                    self.sort.current(),
                    match self.categories.selected() {
                        Some(category) => Some(category.row),
                        None => None,
                    },
                    self.online.query,
                    self.page as nat,
                ),
            ),
        }
    }

    /// What is to be done about the selected item: a chosen file variant is
    /// registered; else a selected mod of the collection is moved to the other state,
    /// or the files of a selected search result are offered; else the lists are only
    /// brought up to date.
    pub open spec fn select_plan(self) -> SelectPlan {
        if self.popup.content.len() > 0 && self.popup.cursor is Some {
            match self.popup_entry {
                Some(_) => SelectPlan::Register { file_index: self.popup.cursor->0 },
                None => SelectPlan::Refresh,
            }
        } else {
            match self.view {
                MainView::Manage(_) => match self.selected_local() {
                    Some(id) => match position_of(self.collection, id) {
                        Some(_) => SelectPlan::Toggle { id },
                        None => SelectPlan::Refresh,
                    },
                    None => SelectPlan::Refresh,
                },
                MainView::Browse => match self.online.selected() {
                    Some(_) => SelectPlan::OpenPopup,
                    None => SelectPlan::Refresh,
                },
            }
        }
    }

    /// The state after the mod `m` was registered: it is in the collection in place of
    /// any mod that had its id, no file variants are offered, no preview images are
    /// kept, and both sides of the collection are up to date.
    pub open spec fn registered(self, m: ModView) -> AppView {
        (AppView {
            collection: without(self.collection, m.id).push(m),
            popup: SelectableListView::<GBFile>::refreshed(Seq::empty()),
            images: Seq::empty(),
            ..self
        }).reregistered()
    }

    /// The state after the staging action of the mod with the id `id` ended with
    /// `outcome`.
    pub open spec fn toggled(self, id: nat, outcome: Result<(), ModError>) -> AppView {
        (AppView {
            collection: match position_of(self.collection, id) {
                Some(i) => self.collection.update(i, after_toggle(self.collection[i], outcome)),
                None => self.collection,
            },
            ..self
        }).reregistered()
    }

    /// The state after `command` was carried out, as far as the command changes the
    /// state by itself.
    pub open spec fn transition(self, command: Command) -> AppView {
        match command {
            Command::Nothing | Command::Select | Command::Search | Command::Exit => self,
            Command::PopupNext => AppView { popup: self.popup.after_next(), ..self },
            Command::PopupPrevious => AppView { popup: self.popup.after_previous(), ..self },
            Command::PopupClear => AppView {
                popup: SelectableListView::<GBFile>::refreshed(Seq::empty()),
                ..self
            },
            Command::SortBack => AppView { sort: self.sort.cycled_back(), ..self },
            Command::SortForward => AppView { sort: self.sort.cycled(), ..self },
            Command::Backspace => self.erased(),
            Command::Type(c) => self.typed(c),
            Command::Focus(window) => AppView { window: self.window.cycled_to(window), ..self },
            Command::ToggleView => self.view_toggled(),
            Command::ToggleSides => self.sides_toggled(),
            Command::GalleryPrev => self.gallery_back(),
            Command::GalleryNext => self.gallery_forth(),
            Command::Next => self.after_next(),
            Command::Previous => self.after_previous(),
            Command::SectionForward => AppView { section: self.section.cycled(), ..self },
            Command::SectionBack => AppView { section: self.section.cycled_back(), ..self },
            Command::CategoryNext => AppView { categories: self.categories.after_next(), ..self },
            Command::CategoryPrevious => AppView {
                categories: self.categories.after_previous(),
                ..self
            },
            Command::WindowForward => AppView { window: self.window.cycled(), ..self },
            Command::WindowBack => AppView { window: self.window.cycled_back(), ..self },
        }
    }
}

/// The state of the program: the local collection, what was fetched from the catalog,
/// and where the user is.
pub struct App {
    pub collection: LocalCollection,
    pub page: usize,
    pub gallery_page: usize,
    pub popup_items: PopupItems,
    pub online_items: OnlineItems,
    pub staged_items: LocalItems,
    pub unstaged_items: LocalItems,
    pub categories: Categories,
    pub section: CyclicState<TypeFilter>,
    pub cursor: Option<usize>,
    pub view: MainView,
    pub window: CyclicState<Window>,
    pub sort: CyclicState<FeedFilter>,
    pub image_states: IndexMap<String, usize>,
}

impl View for App {
    type V = AppView;

    open spec fn view(&self) -> AppView {
        AppView {
            collection: self.collection@,
            page: self.page,
            gallery_page: self.gallery_page,
            popup: self.popup_items.items@,
            popup_entry: self.popup_items.entry,
            online: self.online_items@,
            staged: local_view(self.staged_items@),
            unstaged: local_view(self.unstaged_items@),
            categories: self.categories@,
            section: self.section@,
            cursor: self.cursor,
            view: self.view,
            window: self.window@,
            sort: self.sort@,
            images: entries(self.image_states),
        }
    }
}

impl App {
    /// The program's state at its start, around the local collection and the
    /// categories that the catalog listed.
    pub fn new(collection: LocalCollection, categories: Categories) -> (r: App)
        ensures
            r@ == AppView::initial(collection@, categories@),
            r@.wf(),
    {
        proof {
            use_type_invariant(&collection);
            use_type_invariant(&categories);
            lemma_steps_until(TypeFilter::all(), 0, TypeFilter::Skin, 0);
            lemma_steps_until(Window::all(), 0, Window::Search, 0);
            lemma_steps_until(FeedFilter::all(), 0, FeedFilter::Recent, 0);
        }
        let section = CyclicState::new(TypeFilter::variants(), TypeFilter::Skin).unwrap();
        let window = CyclicState::new(Window::variants(), Window::Search).unwrap();
        let sort = CyclicState::new(FeedFilter::variants(), FeedFilter::Recent).unwrap();
        let mut this = App {
            collection,
            page: 0,
            gallery_page: 0,
            popup_items: PopupItems::empty(),
            online_items: OnlineItems::new(),
            staged_items: LocalItems::new(),
            unstaged_items: LocalItems::new(),
            categories,
            section,
            cursor: None,
            view: MainView::Manage(ViewDir::Left),
            window,
            sort,
            image_states: images_new(),
        };
        proof {
            assert(views(Seq::<Mod>::empty()) =~= Seq::<ModView>::empty());
        }
        this.reregister();
        this
    }

    /// Brings both sides of the local collection up to date with the collection: the
    /// staged mods on the left, the unstaged mods on the right.
    pub fn reregister(&mut self)
        ensures
            final(self)@ == old(self)@.reregistered(),
            old(self)@.wf() ==> final(self)@.wf(),
    {
        let staged = self.collection.by_staged(true);
        let unstaged = self.collection.by_staged(false);
        self.staged_items.refresh(staged);
        self.unstaged_items.refresh(unstaged);
        proof {
            use_type_invariant(&self.collection);
            use_type_invariant(&self.popup_items.items);
            use_type_invariant(&self.online_items);
            use_type_invariant(&self.staged_items);
            use_type_invariant(&self.unstaged_items);
            use_type_invariant(&self.categories);
        }
    }

    /// The side `dir` of the local collection.
    pub fn local_items(&self, dir: ViewDir) -> (r: &LocalItems)
        ensures
            local_view(r@) == self@.local(dir),
    {
        match dir {
            ViewDir::Left => &self.staged_items,
            ViewDir::Right => &self.unstaged_items,
        }
    }

    /// The side `dir` of the local collection, to be changed in place.
    pub fn local_items_mut(&mut self, dir: ViewDir) -> (r: &mut LocalItems)
        ensures
            match dir {
                ViewDir::Left => *r == old(self).staged_items && *final(self) == (App {
                    staged_items: *final(r),
                    ..*old(self)
                }),
                ViewDir::Right => *r == old(self).unstaged_items && *final(self) == (App {
                    unstaged_items: *final(r),
                    ..*old(self)
                }),
            },
    {
        match dir {
            ViewDir::Left => &mut self.staged_items,
            ViewDir::Right => &mut self.unstaged_items,
        }
    }

    /// Moves the cursor of the shown list one down.
    pub fn next(&mut self)
        ensures
            final(self)@ == old(self)@.after_next(),
    {
        match self.view {
            MainView::Manage(dir) => self.local_items_mut(dir).next(),
            MainView::Browse => self.online_items.next(),
        }
    }

    /// Moves the cursor of the shown list one up.
    pub fn previous(&mut self)
        ensures
            final(self)@ == old(self)@.after_previous(),
    {
        match self.view {
            MainView::Manage(dir) => self.local_items_mut(dir).previous(),
            MainView::Browse => self.online_items.previous(),
        }
    }

    /// Types `c` into the query of the shown list.
    pub fn type_search(&mut self, c: char)
        ensures
            final(self)@ == old(self)@.typed(c),
    {
        match self.view {
            MainView::Manage(dir) => self.local_items_mut(dir).type_query(c),
            MainView::Browse => self.online_items.type_query(c),
        }
        self.cursor = match self.cursor {
            Some(v) => if v < usize::MAX {
                Some(v + 1)
            } else {
                Some(v)
            },
            None => Some(1),
        };
    }

    /// Takes the last character off the query of the shown list.
    pub fn backspace(&mut self)
        ensures
            final(self)@ == old(self)@.erased(),
    {
        match self.view {
            MainView::Manage(dir) => self.local_items_mut(dir).erase_query(),
            MainView::Browse => self.online_items.erase_query(),
        }
        self.cursor = match self.cursor {
            Some(v) => if v > 0 {
                Some(v - 1)
            } else {
                Some(v)
            },
            None => None,
        };
    }

    /// The query of the shown list.
    pub fn search_query(&self) -> (r: &str)
        ensures
            r@ == self@.query(),
    {
        match self.view {
            MainView::Manage(dir) => self.local_items(dir).query(),
            MainView::Browse => self.online_items.query(),
        }
    }

    /// The cursor of the shown list.
    pub fn search_state(&self) -> (r: Option<usize>)
        ensures
            r == self@.list_cursor(),
    {
        match self.view {
            MainView::Manage(dir) => self.local_items(dir).select_idx(),
            MainView::Browse => self.online_items.select_idx(),
        }
    }

    /// Puts the cursor of the search bar behind the query of the shown list.
    pub fn reset_cursor(&mut self)
        ensures
            final(self)@ == old(self)@.cursor_reset(),
    {
        let length = self.search_query().len();
        self.cursor = if length == 0 {
            None
        } else {
            Some(length)
        };
    }

    /// Switches between the local collection and the catalog, if the main window has
    /// the focus.
    pub fn toggle_view(&mut self)
        ensures
            final(self)@ == old(self)@.view_toggled(),
    {
        match self.window.item() {
            Window::Main => {
                self.view = match self.view {
                    MainView::Manage(_) => MainView::Browse,
                    MainView::Browse => MainView::Manage(ViewDir::Left),
                };
            },
            _ => {},
        }
        self.reset_cursor();
    }

    /// Switches between the staged and the unstaged mods.
    pub fn toggle_sides(&mut self)
        ensures
            final(self)@ == old(self)@.sides_toggled(),
    {
        match self.view {
            MainView::Manage(ViewDir::Left) => {
                self.view = MainView::Manage(ViewDir::Right);
            },
            MainView::Manage(ViewDir::Right) => {
                self.view = MainView::Manage(ViewDir::Left);
            },
            MainView::Browse => {},
        }
    }

    /// The help for the window that has the focus.
    pub fn help_text(&self) -> (r: &'static str)
        ensures
            r@ == help_for(self@.window.current()),
    {
        match self.window.item() {
            Window::Main =>
                "Space - Install / Uninstall from game dir\nH / L - Switch local/gamebanana mods\nh / l - local - Switch sides\nonline - Scroll pages\nx - local - Delete mod permanently",
            Window::Category => "j/k - scroll",
            Window::Section => "j/k - scroll",
            Window::Search => "type and press enter to search\narrow keys to sort by different stuff",
        }
    }

    /// Shows the preview image before, if there is one.
    pub fn gallery_prev(&mut self)
        ensures
            final(self)@ == old(self)@.gallery_back(),
    {
        if self.gallery_page == 0 {
            return ;
        }
        self.gallery_page = self.gallery_page - 1;
    }

    /// Shows the next preview image, if there is one.
    pub fn gallery_next(&mut self)
        ensures
            final(self)@ == old(self)@.gallery_forth(),
    {
        let n = images_len(&self.image_states);
        if self.gallery_page < n && self.gallery_page + 1 < n {
            self.gallery_page = self.gallery_page + 1;
        }
    }

    /// The position of the preview image that is shown.
    pub fn gallery_page(&self) -> (r: usize)
        ensures
            r == self@.gallery_page,
    {
        self.gallery_page
    }

    /// Whether `window` has the focus and no file variants are offered for choice.
    pub fn is_focused(&self, window: Window) -> (r: bool)
        ensures
            r == (self@.window.current() == window && self@.popup.content.len() == 0),
    {
        *self.window.item() == window && self.popup_items.items.is_empty()
    }

    /// Removes the mod that is selected in the local collection from the collection,
    /// for good. The result is `None` only where a mod is selected that the collection
    /// does not hold.
    pub fn remove(&mut self) -> (r: Option<()>)
        ensures
            final(self)@ == old(self)@.removed(),
            r is None <==> (old(self)@.selected_local() matches Some(id) && !contains_id(
                old(self)@.collection,
                id,
            )),
            old(self)@.wf() ==> final(self)@.wf(),
    {
        let chosen = match self.view {
            MainView::Manage(dir) => match self.local_items(dir).select() {
                Some(m) => Some(m.id),
                None => None,
            },
            MainView::Browse => None,
        };
        let r = match chosen {
            Some(id) => {
                match self.collection.remove(id) {
                    Ok(_) => {
                        self.reregister();
                        Some(())
                    },
                    Err(_) => None,
                }
            },
            None => Some(()),
        };
        proof {
            use_type_invariant(&self.collection);
            use_type_invariant(&self.popup_items.items);
            use_type_invariant(&self.online_items);
            use_type_invariant(&self.staged_items);
            use_type_invariant(&self.unstaged_items);
            use_type_invariant(&self.categories);
        }
        r
    }

    /// The address to ask the catalog for a search, where the catalog is shown.
    pub fn search_request(&self) -> (r: Option<String>)
        ensures
            match self@.search_address() {
                Some(address) => r matches Some(url) && url@ == address,
                None => r is None,
            },
    {
        match self.view {
            MainView::Manage(_) => None,
            MainView::Browse => Some(
                self.online_items.request(
                    *self.section.item(),
                    *self.sort.item(),
                    self.categories.selected_row(),
                    self.page,
                ),
            ),
        }
    }

    /// Takes in what the catalog answered to a search: on success the results are
    /// shown in place of the earlier ones; on failure nothing changes and the error is
    /// handed on.
    pub fn search(&mut self, fetched: Result<Vec<GBSearchEntry>, ModError>) -> (r: Result<
        (),
        ModError,
    >)
        ensures
            match fetched {
                Ok(results) => r is Ok && final(self)@ == (AppView {
                    online: SelectableListView::<GBSearchEntry>::refreshed(results@),
                    ..old(self)@
                }),
                Err(e) => r == Err::<(), ModError>(e) && final(self)@ == old(self)@,
            },
            old(self)@.wf() ==> final(self)@.wf(),
    {
        let r = self.online_items.search(fetched);
        proof {
            use_type_invariant(&self.collection);
            use_type_invariant(&self.popup_items.items);
            use_type_invariant(&self.online_items);
            use_type_invariant(&self.staged_items);
            use_type_invariant(&self.unstaged_items);
            use_type_invariant(&self.categories);
        }
        r
    }

    /// What is to be done about the selected item.
    pub fn select(&self) -> (r: SelectAction)
        ensures
            match self@.select_plan() {
                SelectPlan::Register { file_index } => r matches SelectAction::Register {
                    entry,
                    file_index: chosen,
                } && chosen == file_index && same_entry(entry, self@.popup_entry->0),
                SelectPlan::Toggle { id } => r matches SelectAction::Toggle { id: chosen, action }
                    && chosen == id && action@ == staging_action_for(
                    self@.collection[position_of(self@.collection, id)->0],
                ),
                SelectPlan::OpenPopup => r matches SelectAction::OpenPopup { entry } && same_entry(
                    entry,
                    self@.online.selected()->0,
                ),
                SelectPlan::Refresh => r is Refresh,
            },
    {
        if !self.popup_items.items.is_empty() {
            if let Some(idx) = self.popup_items.select_idx() {
                return match &self.popup_items.entry {
                    Some(entry) => SelectAction::Register { entry: entry.clone(), file_index: idx },
                    None => SelectAction::Refresh,
                };
            }
        }
        match self.view {
            MainView::Manage(dir) => {
                let chosen = match self.local_items(dir).select() {
                    Some(m) => Some(m.id),
                    None => None,
                };
                match chosen {
                    Some(id) => match self.collection.staging_action(id) {
                        Ok(action) => SelectAction::Toggle { id, action },
                        Err(_) => SelectAction::Refresh,
                    },
                    None => SelectAction::Refresh,
                }
            },
            MainView::Browse => match self.online_items.select() {
                Some(entry) => SelectAction::OpenPopup { entry: entry.clone() },
                None => SelectAction::Refresh,
            },
        }
    }

    /// Registers the mod that `page` describes, given the outcome `fetched` of fetching
    /// and unpacking its file variant `idx`. On success the choice of file variants is
    /// closed, the preview images are dropped and both sides of the collection are
    /// brought up to date; on failure nothing changes and the error is handed on.
    pub fn register(
        &mut self,
        page: GBModPage,
        idx: usize,
        fetched: Result<String, ModError>,
    ) -> (r: Result<(), ModError>)
        ensures
            idx >= page.files@.len() ==> r == Err::<(), ModError>(ModError::IndexOutOfRange)
                && final(self)@ == old(self)@,
            idx < page.files@.len() ==> match fetched {
                Ok(path) => r is Ok && final(self)@ == old(self)@.registered(built(page, path@)),
                Err(e) => r == Err::<(), ModError>(e) && final(self)@ == old(self)@,
            },
            old(self)@.wf() ==> final(self)@.wf(),
    {
        let r = match self.collection.register_online_mod(page, idx, fetched) {
            Ok(_) => {
                self.popup_items.items.clear();
                images_clear(&mut self.image_states);
                self.reregister();
                Ok(())
            },
            Err(e) => Err(e),
        };
        proof {
            use_type_invariant(&self.collection);
            use_type_invariant(&self.popup_items.items);
            use_type_invariant(&self.online_items);
            use_type_invariant(&self.staged_items);
            use_type_invariant(&self.unstaged_items);
            use_type_invariant(&self.categories);
        }
        r
    }

    /// Records the outcome of the staging action of the mod with the id `id` and
    /// brings both sides of the collection up to date. Where the action failed the
    /// result is its error, and where the collection holds no such mod it is
    /// `NotFound`.
    pub fn toggle(&mut self, id: usize, outcome: Result<(), ModError>) -> (r: Result<
        (),
        ModError,
    >)
        ensures
            final(self)@ == old(self)@.toggled(id as nat, outcome),
            r == match position_of(old(self)@.collection, id as nat) {
                Some(_) => outcome,
                None => Err::<(), ModError>(ModError::NotFound),
            },
            old(self)@.wf() ==> final(self)@.wf(),
    {
        let r = self.collection.toggle(id, outcome);
        self.reregister();
        proof {
            use_type_invariant(&self.collection);
            use_type_invariant(&self.popup_items.items);
            use_type_invariant(&self.online_items);
            use_type_invariant(&self.staged_items);
            use_type_invariant(&self.unstaged_items);
            use_type_invariant(&self.categories);
        }
        r
    }

    /// Offers the files of `page`, which was fetched for the search result `entry`,
    /// for choice, and brings both sides of the collection up to date.
    pub fn open_popup(&mut self, entry: GBSearchEntry, page: GBModPage)
        ensures
            final(self)@ == (AppView {
                popup: SelectableListView {
                    content: page.files@,
                    cursor: None,
                    query: Seq::empty(),
                },
                popup_entry: Some(entry),
                ..old(self)@
            }).reregistered(),
            old(self)@.wf() ==> final(self)@.wf(),
    {
        self.popup_items = PopupItems::new(entry, page);
        self.reregister();
        proof {
            use_type_invariant(&self.collection);
            use_type_invariant(&self.popup_items.items);
            use_type_invariant(&self.online_items);
            use_type_invariant(&self.staged_items);
            use_type_invariant(&self.unstaged_items);
            use_type_invariant(&self.categories);
        }
    }

    /// The path among `downloaded`, the preview images of the selected search result,
    /// of the image to show, if it has yet to be loaded.
    pub fn request_gallery_images(&self, downloaded: &Vec<String>) -> (r: Option<String>)
        ensures
            match r {
                Some(path) => self@.online.selected() is Some && self@.gallery_page
                    < downloaded@.len() && path@ == downloaded@[self@.gallery_page as int]@
                    && !has_entry(self@.images, path@),
                None => self@.online.selected() is None || self@.gallery_page >= downloaded@.len()
                    || has_entry(self@.images, downloaded@[self@.gallery_page as int]@),
            },
    {
        if self.online_items.select().is_none() {
            return None;
        }
        if self.gallery_page >= downloaded.len() {
            return None;
        }
        let path = &downloaded[self.gallery_page];
        if images_contains(&self.image_states, path.as_str()) {
            None
        } else {
            Some(path.clone())
        }
    }

    /// Keeps the image loaded from `path` under the handle `handle`, unless an image
    /// of that path is kept already.
    pub fn insert_image(&mut self, path: String, handle: usize)
        ensures
            final(self)@ == (AppView {
                images: if has_entry(old(self)@.images, path@) {
                    old(self)@.images
                } else {
                    old(self)@.images.push((path@, handle))
                },
                ..old(self)@
            }),
            old(self)@.wf() ==> final(self)@.wf(),
    {
        if !images_contains(&self.image_states, path.as_str()) {
            images_insert(&mut self.image_states, path, handle);
        }
    }

    /// The handle of the preview image that is shown, if there is one.
    pub fn shown_image(&self) -> (r: Option<usize>)
        ensures
            self@.gallery_page < self@.images.len() ==> r == Some(
                self@.images[self@.gallery_page as int].1,
            ),
            self@.gallery_page >= self@.images.len() ==> r is None,
    {
        images_get_index(&self.image_states, self.gallery_page)
    }

    /// Carries out `command` as far as it changes the state by itself, and tells what
    /// is left to be done outside.
    pub fn perform(&mut self, command: Command) -> (r: Effect)
        ensures
            final(self)@ == old(self)@.transition(command),
            r == effect_of(command),
            old(self)@.wf() ==> final(self)@.wf(),
    {
        proof {
            if self@.wf() {
                lemma_transition_keeps_wf(self@, command);
            }
        }
        match command {
            Command::Nothing => Effect::Stay,
            Command::Select => Effect::Select,
            Command::Search => Effect::Search,
            Command::Exit => Effect::Exit,
            Command::PopupNext => {
                self.popup_items.items.next();
                Effect::Stay
            },
            Command::PopupPrevious => {
                self.popup_items.items.previous();
                Effect::Stay
            },
            Command::PopupClear => {
                self.popup_items.items.clear();
                Effect::Stay
            },
            Command::SortBack => {
                self.sort.cycle_back();
                Effect::Stay
            },
            Command::SortForward => {
                self.sort.cycle();
                Effect::Stay
            },
            Command::Backspace => {
                self.backspace();
                Effect::Stay
            },
            Command::Type(c) => {
                self.type_search(c);
                Effect::Stay
            },
            Command::Focus(window) => {
                self.window.cycle_to(window);
                Effect::Stay
            },
            Command::ToggleView => {
                self.toggle_view();
                Effect::Stay
            },
            Command::ToggleSides => {
                self.toggle_sides();
                Effect::Stay
            },
            Command::GalleryPrev => {
                self.gallery_prev();
                Effect::Stay
            },
            Command::GalleryNext => {
                self.gallery_next();
                Effect::Stay
            },
            Command::Next => {
                self.next();
                Effect::Stay
            },
            Command::Previous => {
                self.previous();
                Effect::Stay
            },
            Command::SectionForward => {
                self.section.cycle();
                Effect::Stay
            },
            Command::SectionBack => {
                self.section.cycle_back();
                Effect::Stay
            },
            Command::CategoryNext => {
                self.categories.next();
                Effect::Stay
            },
            Command::CategoryPrevious => {
                self.categories.previous();
                Effect::Stay
            },
            Command::WindowForward => {
                self.window.cycle();
                Effect::Stay
            },
            Command::WindowBack => {
                self.window.cycle_back();
                Effect::Stay
            },
        }
    }
}

/// A state whose parts are in order stays so whatever command is carried out.
pub proof fn lemma_transition_keeps_wf(state: AppView, command: Command)
    requires
        state.wf(),
    ensures
        state.transition(command).wf(),
{
    lemma_cursor_in_bounds(state.popup, Seq::empty(), ' ');
    lemma_cursor_in_bounds(state.online, Seq::empty(), ' ');
    lemma_cursor_in_bounds(state.staged, Seq::empty(), ' ');
    lemma_cursor_in_bounds(state.unstaged, Seq::empty(), ' ');
    lemma_cursor_in_bounds(state.categories, Seq::empty(), ' ');
    lemma_cycled_by(state.section, 0);
    lemma_cycled_by(state.window, 0);
    lemma_cycled_by(state.sort, 0);
    match command {
        Command::Focus(window) => {
            lemma_cycled_to(state.window, window);
        },
        _ => {},
    }
}

/// In a state whose parts are in order, the command to give a window the focus gives
/// that window the focus, and changes nothing else.
pub proof fn lemma_focus(state: AppView, window: Window)
    requires
        state.wf(),
    ensures
        state.transition(Command::Focus(window)).window.current() == window,
        state.transition(Command::Focus(window)) == (AppView {
            window: state.transition(Command::Focus(window)).window,
            ..state
        }),
{
    let variants = state.window.variants;
    let position = state.window.position;
    lemma_steps_until(variants, position, window, 0);
    lemma_cycled_to(state.window, window);
    if steps_until(variants, position, window, 0) is None {
        assert(variants[(position + 0) % 4] != window);
        assert(variants[(position + 1) % 4] != window);
        assert(variants[(position + 2) % 4] != window);
        assert(variants[(position + 3) % 4] != window);
        assert(false);
    }
}

} // verus!
