use ggmod::cli::{install, uninstall};
use ggmod::error::ModError;
use ggmod::gamebanana::models::category::GBModCategory;
use ggmod::gamebanana::models::file::GBFile;
use ggmod::gamebanana::models::modpage::GBModPage;
use ggmod::modz::{LocalCollection, Mod, StagingAction};

fn file(name: &str) -> GBFile {
    GBFile {
        contains_exe: false,
        download_count: 7,
        filesize: 1024,
        analysis_result_code: String::from("ok"),
        date_added: 1,
        file: String::from(name),
        download_url: format!("https://files.example/{}", name),
        description: String::from("a file"),
    }
}

fn page(id: usize, character: &str, files: Vec<GBFile>) -> GBModPage {
    GBModPage {
        category: GBModCategory {
            row: 3,
            icon_url: String::new(),
            name: String::from(character),
        },
        files,
        name: String::from("Potato Mod"),
        description: String::from("less detail"),
        row: id,
        is_nsfw: false,
    }
}

fn sol() -> GBModPage {
    page(42, "Sol", vec![file("potato.zip")])
}

#[test]
fn register_then_persist_and_reload() {
    let mut col = LocalCollection::load(Some(Vec::new()));
    assert_eq!(col.len(), 0);
    let r = col.register_online_mod(sol(), 0, Ok(String::from("/downloads/potato")));
    assert_eq!(r, Ok(()));
    assert!(col.contains(42));
    assert_eq!(col.len(), 1);
    let stored = col.persist();
    let reloaded = LocalCollection::load(Some(stored));
    assert_eq!(reloaded.len(), 1);
    let m = &reloaded.mods()[0];
    assert_eq!(m.id, 42);
    assert!(!m.staged);
    assert_eq!(m.character, "Sol");
    assert_eq!(m.path, "/downloads/potato");
    assert_eq!(m.name, "Potato Mod");
    assert_eq!(m.description, "less detail");
    assert!(!m.is_nsfw);
}

#[test]
fn toggle_with_failed_copy_keeps_mod_unstaged() {
    let mut col = LocalCollection::new();
    col.register_online_mod(sol(), 0, Ok(String::from("/downloads/potato"))).unwrap();
    match col.staging_action(42).unwrap() {
        StagingAction::Stage { source, target } => {
            assert_eq!(source, "/downloads/potato");
            assert_eq!(target, "42");
        }
        StagingAction::Unstage { .. } => panic!("an unstaged mod is to be staged"),
    }
    let r = col.toggle(42, Err(ModError::IoFailure));
    assert_eq!(r, Err(ModError::IoFailure));
    assert!(!col.mods()[0].staged);
}

#[test]
fn toggle_stages_then_unstages() {
    let mut col = LocalCollection::new();
    col.register_online_mod(sol(), 0, Ok(String::from("p"))).unwrap();
    assert_eq!(col.toggle(42, Ok(())), Ok(()));
    assert!(col.mods()[0].staged);
    match col.staging_action(42).unwrap() {
        StagingAction::Unstage { target } => assert_eq!(target, "42"),
        StagingAction::Stage { .. } => panic!("a staged mod is to be unstaged"),
    }
    assert_eq!(col.toggle(42, Err(ModError::IoFailure)), Err(ModError::IoFailure));
    assert!(col.mods()[0].staged);
    assert_eq!(col.toggle(42, Ok(())), Ok(()));
    assert!(!col.mods()[0].staged);
}

#[test]
fn register_with_index_out_of_range_changes_nothing() {
    let mut col = LocalCollection::new();
    col.register_online_mod(sol(), 0, Ok(String::from("p"))).unwrap();
    let r = col.register_online_mod(page(43, "Ky", vec![file("a.zip")]), 1, Ok(String::from("q")));
    assert_eq!(r, Err(ModError::IndexOutOfRange));
    assert_eq!(col.len(), 1);
    assert!(!col.contains(43));
    let r = col.register_online_mod(page(44, "Ky", Vec::new()), 0, Ok(String::from("q")));
    assert_eq!(r, Err(ModError::IndexOutOfRange));
    assert_eq!(col.len(), 1);
}

#[test]
fn register_with_failed_fetch_changes_nothing() {
    let mut col = LocalCollection::new();
    let r = col.register_online_mod(sol(), 0, Err(ModError::NetworkFailure));
    assert_eq!(r, Err(ModError::NetworkFailure));
    assert_eq!(col.len(), 0);
    assert!(!col.contains(42));
}

#[test]
fn register_again_supersedes_the_earlier_record() {
    let mut col = LocalCollection::new();
    col.register_online_mod(sol(), 0, Ok(String::from("first"))).unwrap();
    col.register_online_mod(page(7, "Ky", vec![file("k.rar")]), 0, Ok(String::from("ky"))).unwrap();
    col.toggle(42, Ok(())).unwrap();
    col.register_online_mod(sol(), 0, Ok(String::from("second"))).unwrap();
    assert_eq!(col.len(), 2);
    assert_eq!(col.mods()[0].id, 7);
    assert_eq!(col.mods()[1].id, 42);
    assert_eq!(col.mods()[1].path, "second");
    assert!(!col.mods()[1].staged);
}

#[test]
fn remove_takes_the_mod_out() {
    let mut col = LocalCollection::new();
    col.register_online_mod(sol(), 0, Ok(String::from("p"))).unwrap();
    col.register_online_mod(page(7, "Ky", vec![file("k.rar")]), 0, Ok(String::from("ky"))).unwrap();
    assert_eq!(col.remove(42), Ok(()));
    assert!(!col.contains(42));
    assert!(col.contains(7));
    assert_eq!(col.len(), 1);
    assert_eq!(col.remove(42), Err(ModError::NotFound));
    assert_eq!(col.len(), 1);
}

#[test]
fn operations_on_an_absent_mod_report_not_found() {
    let mut col = LocalCollection::new();
    assert_eq!(col.toggle(1, Ok(())), Err(ModError::NotFound));
    assert_eq!(col.stage(1, Ok(())), Err(ModError::NotFound));
    assert_eq!(col.unstage(1, Ok(())), Err(ModError::NotFound));
    assert_eq!(col.apply_on_mod(1, |m: &Mod| Ok(m.clone())), Err(ModError::NotFound));
    assert!(matches!(col.staging_action(1), Err(ModError::NotFound)));
    assert_eq!(install(&mut col, 1, Ok(())), Err(ModError::NotFound));
    assert_eq!(uninstall(&mut col, 1, Ok(())), Err(ModError::NotFound));
}

#[test]
fn install_and_uninstall_record_the_outcome() {
    let mut col = LocalCollection::new();
    col.register_online_mod(sol(), 0, Ok(String::from("p"))).unwrap();
    assert_eq!(install(&mut col, 42, Err(ModError::IoFailure)), Err(ModError::IoFailure));
    assert!(!col.mods()[0].staged);
    assert_eq!(install(&mut col, 42, Ok(())), Ok(()));
    assert!(col.mods()[0].staged);
    assert_eq!(uninstall(&mut col, 42, Err(ModError::IoFailure)), Err(ModError::IoFailure));
    assert!(col.mods()[0].staged);
    assert_eq!(uninstall(&mut col, 42, Ok(())), Ok(()));
    assert!(!col.mods()[0].staged);
}

#[test]
fn apply_on_mod_replaces_the_record_but_keeps_its_id() {
    let mut col = LocalCollection::new();
    col.register_online_mod(sol(), 0, Ok(String::from("p"))).unwrap();
    let r = col.apply_on_mod(42, |m: &Mod| {
        let mut changed = m.clone();
        changed.name = String::from("renamed");
        changed.id = 1000;
        Ok(changed)
    });
    assert_eq!(r, Ok(()));
    assert_eq!(col.mods()[0].name, "renamed");
    assert_eq!(col.mods()[0].id, 42);
    let r = col.apply_on_mod(42, |_m: &Mod| Err(ModError::ParseFailure));
    assert_eq!(r, Err(ModError::ParseFailure));
    assert_eq!(col.mods()[0].name, "renamed");
}

#[test]
fn load_tolerates_a_missing_registry_and_drops_repeated_ids() {
    assert_eq!(LocalCollection::load(None).len(), 0);
    let a = Mod::build(sol(), String::from("a"));
    let b = Mod::build(page(7, "Ky", Vec::new()), String::from("b"));
    let c = Mod::build(sol(), String::from("c"));
    let col = LocalCollection::load(Some(vec![a, b, c]));
    assert_eq!(col.len(), 2);
    assert_eq!(col.mods()[0].path, "a");
    assert_eq!(col.mods()[1].id, 7);
}

#[test]
fn filter_and_copy_by_keeps_order() {
    let mut col = LocalCollection::new();
    for id in [5usize, 6, 7, 8] {
        col.register_online_mod(page(id, "Ky", vec![file("k.zip")]), 0, Ok(String::from("p"))).unwrap();
    }
    col.toggle(6, Ok(())).unwrap();
    col.toggle(8, Ok(())).unwrap();
    let staged: Vec<usize> = col.filter_and_copy_by(|m: &Mod| m.staged).iter().map(|m| m.id).collect();
    assert_eq!(staged, vec![6, 8]);
    let unstaged: Vec<usize> = col.by_staged(false).iter().map(|m| m.id).collect();
    assert_eq!(unstaged, vec![5, 7]);
    let staged: Vec<usize> = col.by_staged(true).iter().map(|m| m.id).collect();
    assert_eq!(staged, vec![6, 8]);
}

#[test]
fn staged_flag_changes_once_per_successful_call() {
    let mut m = Mod::build(sol(), String::from("p"));
    assert_eq!(m.stage(Err(ModError::IoFailure)), Err(ModError::IoFailure));
    assert!(!m.staged);
    assert_eq!(m.stage(Ok(())), Ok(()));
    assert!(m.staged);
    assert_eq!(m.unstage(Err(ModError::NotFound)), Err(ModError::NotFound));
    assert!(m.staged);
    assert_eq!(m.unstage(Ok(())), Ok(()));
    assert!(!m.staged);
    assert_eq!(m.toggle(Ok(())), Ok(()));
    assert!(m.staged);
    assert_eq!(m.staged_name(), "42");
    assert_eq!(m.cells(), vec!["Potato Mod", "Sol", "less detail"]);
}
