use ggmod::error::ModError;
use ggmod::gamebanana::models::category::GBModCategory;
use ggmod::gamebanana::models::file::{Extraction, GBFile};
use ggmod::gamebanana::models::game::GBGame;
use ggmod::gamebanana::models::modpage::{default_nsfw, GBModPage};
use ggmod::gamebanana::models::preview::GBPreviewMedia;
use ggmod::gamebanana::models::search_result::GBSearchEntry;

fn gb_file(name: &str) -> GBFile {
    GBFile {
        contains_exe: false,
        download_count: 183556,
        filesize: 1024,
        analysis_result_code: String::from("ok"),
        date_added: 1,
        file: String::from(name),
        download_url: String::from("https://files.example/dl/1"),
        description: String::from("a file"),
    }
}

fn mod_page(files: Vec<GBFile>) -> GBModPage {
    GBModPage {
        category: GBModCategory { row: 3, icon_url: String::new(), name: String::from("Sol") },
        files,
        name: String::from("Potato Mod"),
        description: String::new(),
        row: 42,
        is_nsfw: default_nsfw(),
    }
}

fn search_entry(is_nsfw: bool) -> GBSearchEntry {
    GBSearchEntry {
        date_updated: 2,
        date_added: 1,
        model_name: String::from("Mod"),
        name: String::from("Potato Mod Lite"),
        is_nsfw,
        row: 42,
        preview_media: vec![GBPreviewMedia {
            media_type: String::from("image"),
            base_url: String::from("https://images.example/ss"),
            file: String::from("one.jpg"),
        }],
        download_count: 183556,
        view_count: 278976,
        like_count: 119,
        text: String::new(),
        description: String::from("described"),
        category: GBModCategory { row: 5, icon_url: String::new(), name: String::from("Sol") },
        game: GBGame { row: 11534, name: String::from("GGST") },
    }
}

#[test]
fn fetch_plan_goes_by_extension() {
    let plan = gb_file("potato.mod.rar").fetch(false);
    assert_eq!(plan.archive, "potato.mod.rar");
    assert_eq!(plan.directory, "potato.mod");
    assert_eq!(plan.url, "https://files.example/dl/1");
    assert!(plan.download);
    assert_eq!(plan.extraction, Extraction::Unrar);
    assert_eq!(gb_file("potato.zip").fetch(false).extraction, Extraction::Uncompress);
    assert_eq!(gb_file("potato.RAR").fetch(false).extraction, Extraction::Uncompress);
    assert_eq!(gb_file("potato.").fetch(false).extraction, Extraction::Uncompress);
    let bare = gb_file("potato").fetch(false);
    assert_eq!(bare.extraction, Extraction::Nothing);
    assert_eq!(bare.directory, "potato");
    assert!(bare.download);
    assert_eq!(gb_file(".rar").fetch(false).extraction, Extraction::Nothing);
}

#[test]
fn fetch_plan_reuses_an_extracted_directory() {
    let plan = gb_file("potato.rar").fetch(true);
    assert!(!plan.download);
    assert_eq!(plan.extraction, Extraction::Nothing);
    assert_eq!(plan.directory, "potato");
    assert_eq!(gb_file("potato.rar").directory(), "potato");
}

#[test]
fn download_file_checks_the_index() {
    let page = mod_page(vec![gb_file("a.zip"), gb_file("b.zip")]);
    assert_eq!(page.download_file(1).unwrap().file, "b.zip");
    assert!(matches!(page.download_file(2), Err(ModError::IndexOutOfRange)));
    assert!(matches!(mod_page(Vec::new()).download_file(0), Err(ModError::IndexOutOfRange)));
}

#[test]
fn page_urls() {
    assert_eq!(
        GBModPage::url(42),
        "https://gamebanana.com/apiv6/Mod/42?_csvProperties=_sName,_aGame,_sProfileUrl,_aPreviewMedia,_sDescription,_aSubmitter,_aCategory,_aSuperCategory,_aFiles,_tsDateUpdated,_aAlternateFileSources,_bHasUpdates,_aLatestUpdates,_idRow"
    );
    assert_eq!(
        GBModCategory::url(12914),
        "https://gamebanana.com/apiv11/Mod/Categories?_idCategoryRow=12914&_sSort=a_to_z"
    );
}

#[test]
fn nsfw_mark_follows_the_search_entry() {
    assert!(!default_nsfw());
    assert!(mod_page(Vec::new()).set_nsfw().is_nsfw);
    assert!(search_entry(true).mod_page(mod_page(Vec::new())).is_nsfw);
    assert!(!search_entry(false).mod_page(mod_page(Vec::new())).is_nsfw);
    assert!(search_entry(false).mod_page(mod_page(Vec::new()).set_nsfw()).is_nsfw);
}

#[test]
fn preview_media_is_fetched_once() {
    let media = &search_entry(false).preview_media[0];
    assert_eq!(media.download_url(), "https://images.example/ss/one.jpg");
    assert_eq!(media.fetch(false), Some(String::from("https://images.example/ss/one.jpg")));
    assert_eq!(media.fetch(true), None);
}

#[test]
fn download_media_keeps_the_successes() {
    let attempts = vec![
        Ok(String::from("a.jpg")),
        Err(ModError::NetworkFailure),
        Ok(String::from("b.jpg")),
        Err(ModError::IoFailure),
    ];
    assert_eq!(GBSearchEntry::download_media(&attempts), vec!["a.jpg", "b.jpg"]);
    assert!(GBSearchEntry::download_media(&Vec::new()).is_empty());
}

#[test]
fn rows_and_labels() {
    let entry = search_entry(false);
    assert_eq!(
        entry.cells(),
        vec!["Potato Mod Lite", "Sol", "278976", "119", "183556", "described"]
    );
    assert_eq!(
        entry.label(),
        format!("{:<50}: views {}", "Potato Mod Lite", 278976)
    );
    assert_eq!(gb_file("a.zip").cells(), vec!["a.zip", "183556", "a file"]);
    assert_eq!(entry.category.cells(), vec!["Sol"]);
    let copy = entry.clone();
    assert_eq!(copy.name, entry.name);
    assert_eq!(copy.preview_media.len(), 1);
    assert_eq!(copy.preview_media[0].file, "one.jpg");
    assert_eq!(copy.game.row, 11534);
}

#[test]
fn categories_are_built_behind_the_none_entry() {
    let built = GBModCategory::build(Vec::new());
    assert_eq!(built.len(), 1);
    assert_eq!(built[0].row, 0);
    assert_eq!(built[0].name, "None");
}
