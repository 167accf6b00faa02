use ggmod::error::ModError;
use ggmod::gamebanana::builder::{FeedFilter, TypeFilter};
use ggmod::gamebanana::models::category::GBModCategory;
use ggmod::gamebanana::models::file::GBFile;
use ggmod::gamebanana::models::game::GBGame;
use ggmod::gamebanana::models::modpage::GBModPage;
use ggmod::gamebanana::models::search_result::GBSearchEntry;
use ggmod::modz::{LocalCollection, StagingAction};
use ggmod::tui::app::{App, Effect, MainView, SelectAction, ViewDir, Window};
use ggmod::tui::handler::{decide, handle_event, Command, Key};
use ggmod::tui::state::Categories;
use ggmod::tui::ui::{centered_rect, cursor_column, image_support, kind_label, order_label, side_active};

fn app_file(name: &str) -> GBFile {
    GBFile {
        contains_exe: false,
        download_count: 1,
        filesize: 1,
        analysis_result_code: String::new(),
        date_added: 1,
        file: String::from(name),
        download_url: String::new(),
        description: String::new(),
    }
}

fn app_page(id: usize) -> GBModPage {
    GBModPage {
        category: GBModCategory { row: 3, icon_url: String::new(), name: String::from("Sol") },
        files: vec![app_file("a.zip"), app_file("b.rar")],
        name: format!("mod {}", id),
        description: String::new(),
        row: id,
        is_nsfw: false,
    }
}

fn app_entry(row: usize) -> GBSearchEntry {
    GBSearchEntry {
        date_updated: 2,
        date_added: 1,
        model_name: String::from("Mod"),
        name: format!("entry {}", row),
        is_nsfw: false,
        row,
        preview_media: Vec::new(),
        download_count: 3,
        view_count: 2,
        like_count: 1,
        text: String::new(),
        description: String::new(),
        category: GBModCategory { row: 5, icon_url: String::new(), name: String::from("Sol") },
        game: GBGame { row: 11534, name: String::from("GGST") },
    }
}

fn collection(ids: &[usize], staged: &[usize]) -> LocalCollection {
    let mut col = LocalCollection::new();
    for id in ids {
        col.register_online_mod(app_page(*id), 0, Ok(format!("dir{}", id))).unwrap();
    }
    for id in staged {
        col.toggle(*id, Ok(())).unwrap();
    }
    col
}

fn fresh(ids: &[usize], staged: &[usize]) -> App {
    let listed = vec![GBModCategory { row: 9, icon_url: String::new(), name: String::from("Sol") }];
    App::new(collection(ids, staged), Categories::fetched(Ok(listed)))
}

fn press(app: &mut App, key: Key) -> Effect {
    handle_event(app, key, false)
}

#[test]
fn app_starts_on_the_staged_side_with_the_search_bar_focused() {
    let app = fresh(&[1, 2, 3], &[2]);
    assert_eq!(app.view, MainView::Manage(ViewDir::Left));
    assert_eq!(*app.window.item(), Window::Search);
    assert_eq!(*app.section.item(), TypeFilter::Skin);
    assert_eq!(*app.sort.item(), FeedFilter::Recent);
    assert_eq!(app.cursor, None);
    assert_eq!(app.staged_items.len(), 1);
    assert_eq!(app.staged_items.content()[0].id, 2);
    assert_eq!(app.unstaged_items.len(), 2);
    assert_eq!(app.local_items(ViewDir::Right).content()[1].id, 3);
    assert!(app.popup_items.items.is_empty());
    assert!(app.online_items.is_empty());
    assert_eq!(app.gallery_page(), 0);
    assert_eq!(app.shown_image(), None);
    assert!(app.is_focused(Window::Search));
    assert!(!app.is_focused(Window::Main));
}

#[test]
fn typing_in_the_search_bar_edits_the_query() {
    let mut app = fresh(&[], &[]);
    assert_eq!(press(&mut app, Key::Char('s')), Effect::Stay);
    assert_eq!(press(&mut app, Key::Char('1')), Effect::Stay);
    assert_eq!(app.search_query(), "s1");
    assert_eq!(app.cursor, Some(2));
    assert_eq!(*app.window.item(), Window::Search);
    assert_eq!(press(&mut app, Key::Backspace), Effect::Stay);
    assert_eq!(app.search_query(), "s");
    assert_eq!(app.cursor, Some(1));
    press(&mut app, Key::Backspace);
    press(&mut app, Key::Backspace);
    assert_eq!(app.search_query(), "");
    assert_eq!(app.cursor, Some(0));
    assert_eq!(cursor_column(&app), 1);
    assert_eq!(press(&mut app, Key::Char('3')), Effect::Stay);
    assert_eq!(*app.window.item(), Window::Category);
    assert_eq!(app.search_query(), "");
}

#[test]
fn search_bar_keys_step_the_sort_order_and_ask_for_a_search() {
    let mut app = fresh(&[], &[]);
    press(&mut app, Key::Right);
    assert_eq!(*app.sort.item(), FeedFilter::Popular);
    press(&mut app, Key::Left);
    press(&mut app, Key::Left);
    assert_eq!(*app.sort.item(), FeedFilter::Featured);
    assert_eq!(press(&mut app, Key::Enter), Effect::Search);
    assert_eq!(press(&mut app, Key::Esc), Effect::Exit);
    assert_eq!(press(&mut app, Key::Other), Effect::Stay);
    assert_eq!(handle_event(&mut app, Key::Esc, true), Effect::Stay);
}

#[test]
fn tab_moves_the_focus_round() {
    let mut app = fresh(&[], &[]);
    press(&mut app, Key::Tab);
    assert_eq!(*app.window.item(), Window::Main);
    press(&mut app, Key::Tab);
    press(&mut app, Key::Tab);
    assert_eq!(*app.window.item(), Window::Section);
    press(&mut app, Key::Tab);
    assert_eq!(*app.window.item(), Window::Search);
    press(&mut app, Key::BackTab);
    assert_eq!(*app.window.item(), Window::Section);
    assert_eq!(press(&mut app, Key::Char('q')), Effect::Exit);
    press(&mut app, Key::Char('2'));
    assert_eq!(*app.window.item(), Window::Main);
}

#[test]
fn main_window_keys_move_and_switch() {
    let mut app = fresh(&[1, 2, 3], &[]);
    press(&mut app, Key::Char('2'));
    press(&mut app, Key::Char('l'));
    assert_eq!(app.view, MainView::Manage(ViewDir::Right));
    assert!(side_active(&app, ViewDir::Right));
    assert!(!side_active(&app, ViewDir::Left));
    assert_eq!(app.search_state(), Some(0));
    press(&mut app, Key::Char('j'));
    press(&mut app, Key::Down);
    press(&mut app, Key::Down);
    assert_eq!(app.search_state(), Some(2));
    press(&mut app, Key::Char('k'));
    press(&mut app, Key::Up);
    assert_eq!(app.search_state(), Some(0));
    press(&mut app, Key::Left);
    assert_eq!(app.view, MainView::Manage(ViewDir::Left));
    press(&mut app, Key::Char('H'));
    assert_eq!(app.view, MainView::Browse);
    press(&mut app, Key::Char('h'));
    assert_eq!(app.view, MainView::Browse);
    assert_eq!(app.gallery_page(), 0);
    press(&mut app, Key::Char('L'));
    assert_eq!(app.view, MainView::Manage(ViewDir::Left));
    assert_eq!(press(&mut app, Key::Enter), Effect::Select);
}

#[test]
fn view_is_toggled_only_from_the_main_window() {
    let mut app = fresh(&[], &[]);
    app.toggle_view();
    assert_eq!(app.view, MainView::Manage(ViewDir::Left));
    app.toggle_sides();
    assert_eq!(app.view, MainView::Manage(ViewDir::Right));
    app.window.cycle_to(Window::Main);
    app.type_search('a');
    app.type_search('é');
    app.toggle_view();
    assert_eq!(app.view, MainView::Browse);
    assert_eq!(app.cursor, None);
    app.toggle_sides();
    assert_eq!(app.view, MainView::Browse);
    app.toggle_view();
    assert_eq!(app.view, MainView::Manage(ViewDir::Left));
    app.toggle_sides();
    assert_eq!(app.search_query(), "aé");
    app.reset_cursor();
    assert_eq!(app.cursor, Some(3));
}

#[test]
fn section_and_category_windows_step_their_lists() {
    let mut app = fresh(&[], &[]);
    press(&mut app, Key::Char('4'));
    press(&mut app, Key::Char('j'));
    assert_eq!(*app.section.item(), TypeFilter::Sound);
    press(&mut app, Key::Up);
    press(&mut app, Key::Char('k'));
    assert_eq!(*app.section.item(), TypeFilter::WiP);
    press(&mut app, Key::Char('3'));
    assert_eq!(app.categories.select_idx(), Some(0));
    press(&mut app, Key::Down);
    assert_eq!(app.categories.select_idx(), Some(1));
    press(&mut app, Key::Char('j'));
    assert_eq!(app.categories.select_idx(), Some(1));
    press(&mut app, Key::Char('k'));
    assert_eq!(app.categories.select_idx(), Some(0));
}

#[test]
fn decide_follows_the_key_table() {
    let manage = MainView::Manage(ViewDir::Left);
    assert_eq!(decide(Window::Search, manage, false, true, Key::Char('2'), false), Command::Focus(Window::Main));
    assert_eq!(decide(Window::Search, manage, false, false, Key::Char('2'), false), Command::Type('2'));
    assert_eq!(decide(Window::Search, manage, false, true, Key::Char('q'), false), Command::Type('q'));
    assert_eq!(decide(Window::Main, manage, false, true, Key::Char('q'), false), Command::Exit);
    assert_eq!(decide(Window::Main, manage, false, true, Key::Right, false), Command::ToggleSides);
    assert_eq!(decide(Window::Main, MainView::Browse, false, true, Key::Right, false), Command::GalleryNext);
    assert_eq!(decide(Window::Main, MainView::Browse, false, true, Key::Char('h'), false), Command::GalleryPrev);
    assert_eq!(decide(Window::Main, manage, true, true, Key::Char('j'), false), Command::PopupNext);
    assert_eq!(decide(Window::Main, manage, true, true, Key::Char('k'), false), Command::PopupPrevious);
    assert_eq!(decide(Window::Main, manage, true, true, Key::Esc, false), Command::PopupClear);
    assert_eq!(decide(Window::Main, manage, true, true, Key::Char('q'), false), Command::PopupClear);
    assert_eq!(decide(Window::Main, manage, true, true, Key::Enter, false), Command::Select);
    assert_eq!(decide(Window::Main, manage, true, true, Key::Tab, false), Command::Nothing);
    assert_eq!(decide(Window::Main, manage, false, true, Key::Enter, true), Command::Nothing);
    assert_eq!(decide(Window::Category, manage, false, true, Key::Enter, false), Command::Nothing);
    assert_eq!(decide(Window::Section, manage, false, true, Key::BackTab, false), Command::WindowBack);
}

#[test]
fn search_is_asked_for_only_while_browsing() {
    let mut app = fresh(&[], &[]);
    assert_eq!(app.search_request(), None);
    app.window.cycle_to(Window::Main);
    app.toggle_view();
    app.type_search('s');
    let url = app.search_request().unwrap();
    assert!(url.starts_with("https://gamebanana.com/apiv6/Mod/ByName?_sName=*s*&_idGameRow=11534&"));
    assert!(url.ends_with("&_sOrderBy=_tsDateUpdated,DESC&_nPage=0"));
    app.categories.next();
    let url = app.search_request().unwrap();
    assert!(url.starts_with("https://gamebanana.com/apiv6/Mod/ByCategory?_aCategoryRowIds[]=9&"));
    assert!(url.ends_with("&_aCategoryRowIds[]=9&_nPage=0"));
    assert_eq!(app.search(Err(ModError::ParseFailure)), Err(ModError::ParseFailure));
    assert_eq!(app.search_query(), "s");
    assert_eq!(app.search(Ok(vec![app_entry(1), app_entry(2)])), Ok(()));
    assert_eq!(app.online_items.len(), 2);
    assert_eq!(app.search_query(), "");
}

#[test]
fn select_walks_from_result_to_registered_mod() {
    let mut app = fresh(&[], &[]);
    assert!(matches!(app.select(), SelectAction::Refresh));
    app.window.cycle_to(Window::Main);
    app.toggle_view();
    app.search(Ok(vec![app_entry(42), app_entry(43)])).unwrap();
    app.next();
    let entry = match app.select() {
        SelectAction::OpenPopup { entry } => entry,
        _ => panic!("the files of the selected result are to be offered"),
    };
    assert_eq!(entry.row, 43);
    app.open_popup(entry, app_page(43));
    assert_eq!(app.popup_items.items.len(), 2);
    assert_eq!(app.popup_items.select_idx(), None);
    assert!(!app.is_focused(Window::Main));
    assert!(matches!(app.select(), SelectAction::OpenPopup { .. }));
    assert_eq!(press(&mut app, Key::Char('j')), Effect::Stay);
    assert_eq!(press(&mut app, Key::Char('j')), Effect::Stay);
    assert_eq!(app.popup_items.select_idx(), Some(1));
    assert_eq!(press(&mut app, Key::Enter), Effect::Select);
    let (entry, file_index) = match app.select() {
        SelectAction::Register { entry, file_index } => (entry, file_index),
        _ => panic!("the chosen file is to be registered"),
    };
    assert_eq!(entry.row, 43);
    assert_eq!(file_index, 1);
    app.insert_image(String::from("one.jpg"), 0);
    assert_eq!(app.register(app_page(43), 5, Ok(String::from("d"))), Err(ModError::IndexOutOfRange));
    assert_eq!(app.register(app_page(43), 1, Err(ModError::NetworkFailure)), Err(ModError::NetworkFailure));
    assert_eq!(app.popup_items.items.len(), 2);
    assert_eq!(app.collection.len(), 0);
    assert_eq!(app.shown_image(), Some(0));
    assert_eq!(app.register(app_page(43), 1, Ok(String::from("d"))), Ok(()));
    assert!(app.popup_items.items.is_empty());
    assert!(app.collection.contains(43));
    assert_eq!(app.unstaged_items.len(), 1);
    assert_eq!(app.shown_image(), None);
}

#[test]
fn select_toggles_the_selected_mod() {
    let mut app = fresh(&[1, 2], &[2]);
    let (id, action) = match app.select() {
        SelectAction::Toggle { id, action } => (id, action),
        _ => panic!("the selected mod is to be moved"),
    };
    assert_eq!(id, 2);
    assert!(matches!(action, StagingAction::Unstage { .. }));
    assert_eq!(app.toggle(2, Err(ModError::IoFailure)), Err(ModError::IoFailure));
    assert_eq!(app.staged_items.len(), 1);
    assert_eq!(app.toggle(2, Ok(())), Ok(()));
    assert_eq!(app.staged_items.len(), 0);
    assert_eq!(app.unstaged_items.len(), 2);
    assert!(matches!(app.select(), SelectAction::Refresh));
    assert_eq!(app.toggle(9, Ok(())), Err(ModError::NotFound));
    app.toggle_sides();
    match app.select() {
        SelectAction::Toggle { id, action: StagingAction::Stage { source, target } } => {
            assert_eq!(id, 1);
            assert_eq!(source, "dir1");
            assert_eq!(target, "1");
        }
        _ => panic!("the selected mod is to be staged"),
    }
}

#[test]
fn remove_deletes_the_selected_mod() {
    let mut app = fresh(&[1, 2, 3], &[]);
    assert_eq!(app.remove(), Some(()));
    assert_eq!(app.collection.len(), 3);
    app.toggle_sides();
    app.next();
    assert_eq!(app.remove(), Some(()));
    assert!(!app.collection.contains(2));
    assert_eq!(app.unstaged_items.len(), 2);
    assert_eq!(app.search_state(), Some(0));
    app.collection.remove(1).unwrap();
    assert_eq!(app.remove(), None);
    assert_eq!(app.unstaged_items.len(), 2);
}

#[test]
fn gallery_pages_stay_within_the_images() {
    let mut app = fresh(&[], &[]);
    app.gallery_next();
    app.gallery_prev();
    assert_eq!(app.gallery_page(), 0);
    let downloaded = vec![String::from("a.jpg"), String::from("b.jpg")];
    assert_eq!(app.request_gallery_images(&downloaded), None);
    app.window.cycle_to(Window::Main);
    app.toggle_view();
    app.search(Ok(vec![app_entry(1)])).unwrap();
    assert_eq!(app.request_gallery_images(&downloaded), Some(String::from("a.jpg")));
    assert_eq!(app.request_gallery_images(&Vec::new()), None);
    app.insert_image(String::from("a.jpg"), 10);
    app.insert_image(String::from("a.jpg"), 11);
    assert_eq!(app.request_gallery_images(&downloaded), None);
    assert_eq!(app.shown_image(), Some(10));
    app.gallery_next();
    assert_eq!(app.gallery_page(), 0);
    app.insert_image(String::from("b.jpg"), 12);
    press(&mut app, Key::Right);
    assert_eq!(app.gallery_page(), 1);
    assert_eq!(app.shown_image(), Some(12));
    press(&mut app, Key::Right);
    assert_eq!(app.gallery_page(), 1);
    press(&mut app, Key::Left);
    press(&mut app, Key::Left);
    assert_eq!(app.gallery_page(), 0);
}

#[test]
fn help_follows_the_focus() {
    let mut app = fresh(&[], &[]);
    assert_eq!(
        app.help_text(),
        "type and press enter to search\narrow keys to sort by different stuff"
    );
    app.window.cycle();
    assert_eq!(
        app.help_text(),
        "Space - Install / Uninstall from game dir\nH / L - Switch local/gamebanana mods\nh / l - local - Switch sides\nonline - Scroll pages\nx - local - Delete mod permanently"
    );
    app.window.cycle();
    assert_eq!(app.help_text(), "j/k - scroll");
    app.window.cycle();
    assert_eq!(app.help_text(), "j/k - scroll");
}

#[test]
fn presentation_helpers() {
    assert!(!image_support());
    assert_eq!(centered_rect(80), (10, 80, 10));
    assert_eq!(centered_rect(75), (12, 75, 12));
    assert_eq!(centered_rect(100), (0, 100, 0));
    assert_eq!(centered_rect(120), (0, 120, 0));
    assert_eq!(kind_label(TypeFilter::WiP), "WiP");
    assert_eq!(order_label(FeedFilter::Featured), "Featured");
    let app = fresh(&[], &[]);
    assert_eq!(cursor_column(&app), 1);
    assert_eq!(app.sort.marks(), vec![true, false, false]);
}

#[test]
fn sides_can_be_changed_in_place() {
    let mut app = fresh(&[1, 2], &[2]);
    app.local_items_mut(ViewDir::Right).type_query('k');
    assert_eq!(app.unstaged_items.query(), "k");
    assert_eq!(app.staged_items.query(), "");
    app.local_items_mut(ViewDir::Left).next();
    assert_eq!(app.local_items(ViewDir::Left).select_idx(), Some(0));
}
