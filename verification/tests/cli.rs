use ggmod::cli::{choose_num, chosen_index, download_options, list_all, search, search_line};
use ggmod::error::ModError;
use ggmod::gamebanana::models::category::GBModCategory;
use ggmod::gamebanana::models::file::GBFile;
use ggmod::gamebanana::models::game::GBGame;
use ggmod::gamebanana::models::modpage::GBModPage;
use ggmod::gamebanana::models::search_result::GBSearchEntry;
use ggmod::modz::LocalCollection;
use ggmod::text::{to_decimal, truncate_chars};

const PROPS: &str = "_sName,_sModelName,_idRow,_aSubmitter,_tsDateUpdated,_tsDateAdded,\
_aPreviewMedia,_sText,_sDescription,_aCategory,_aRootCategory,_aGame,_nViewCount,\
_nLikeCount,_nDownloadCount,_bIsNsfw,_aAlternateFileSources";

fn cli_file(name: &str) -> GBFile {
    GBFile {
        contains_exe: false,
        download_count: 1,
        filesize: 1,
        analysis_result_code: String::new(),
        date_added: 1,
        file: String::from(name),
        download_url: String::new(),
        description: String::new(),
    }
}

fn cli_page(id: usize, name: &str, character: &str, files: Vec<GBFile>) -> GBModPage {
    GBModPage {
        category: GBModCategory { row: 3, icon_url: String::new(), name: String::from(character) },
        files,
        name: String::from(name),
        description: String::new(),
        row: id,
        is_nsfw: false,
    }
}

#[test]
fn search_address_from_the_command_line() {
    assert_eq!(
        search(2, None, "sol", false, false, false),
        format!(
            "https://gamebanana.com/apiv6/Mod/ByName?_sName=*sol*&_idGameRow=11534&_csvProperties={}&_nPerpage=15&_aArgs[]=_sbIsNsfw = false&_aArgs[]=_sbWasFeatured = true& _sOrderBy=_tsDateAdded,DESC&_nPage=2",
            PROPS
        )
    );
    assert!(search(1, Some(7), "", true, true, true).contains("&_nPerpage=7&"));
    assert!(search(1, None, "", true, true, true).contains("&_sOrderBy=_tsDateUpdated,DESC"));
    assert!(search(1, None, "", true, true, false).contains("&_sOrderBy=_nDownloadCount,DESC"));
    assert!(search(1, None, "", false, false, false).contains("_sbWasFeatured"));
}

#[test]
fn result_lines_are_cut_and_padded() {
    let entry = GBSearchEntry {
        date_updated: 2,
        date_added: 1,
        model_name: String::from("Mod"),
        name: String::from("A name that is far too long to be shown in full"),
        is_nsfw: false,
        row: 1,
        preview_media: Vec::new(),
        download_count: 3,
        view_count: 278976,
        like_count: 2,
        text: String::new(),
        description: String::from("short"),
        category: GBModCategory { row: 5, icon_url: String::new(), name: String::from("Sol") },
        game: GBGame { row: 11534, name: String::from("GGST") },
    };
    assert_eq!(
        search_line(&entry),
        format!("{:<35} - {:<50} :: {} views", "A name that is far too long to be s", "short", 278976)
    );
}

#[test]
fn mods_are_listed_one_to_a_line() {
    let mut col = LocalCollection::new();
    col.register_online_mod(cli_page(42, "Potato", "Sol", vec![cli_file("a.zip")]), 0, Ok(String::from("p"))).unwrap();
    col.register_online_mod(cli_page(7, "Carrot", "Ky", vec![cli_file("b.zip")]), 0, Ok(String::from("q"))).unwrap();
    col.toggle(7, Ok(())).unwrap();
    assert_eq!(list_all(&col), vec!["[ ] [Sol] 42: Potato", "[+] [Ky] 7: Carrot"]);
    assert!(list_all(&LocalCollection::new()).is_empty());
}

#[test]
fn file_variants_are_offered_from_one() {
    let page = cli_page(1, "n", "c", vec![cli_file("a.zip"), cli_file("with \"quotes\".rar")]);
    assert_eq!(
        download_options(&page),
        vec!["[1] \"a.zip\"", "[2] \"with \\\"quotes\\\".rar\""]
    );
    assert_eq!(chosen_index(1), Ok(0));
    assert_eq!(chosen_index(12), Ok(11));
    assert_eq!(chosen_index(0), Err(ModError::IndexOutOfRange));
}

#[test]
fn text_helpers() {
    assert_eq!(to_decimal(0), "0");
    assert_eq!(to_decimal(9), "9");
    assert_eq!(to_decimal(10), "10");
    assert_eq!(to_decimal(11534), "11534");
    assert_eq!(to_decimal(usize::MAX), usize::MAX.to_string());
    assert_eq!(truncate_chars("söl badguy", 3), "söl");
    assert_eq!(truncate_chars("sol", 3), "sol");
    assert_eq!(truncate_chars("sol", 0), "");
}

#[test]
fn choice_is_read_from_a_line() {
    assert_eq!(choose_num("1"), Some(1));
    assert_eq!(choose_num(" 12\n"), Some(12));
    assert_eq!(choose_num("\t+7 "), Some(7));
    assert_eq!(choose_num("007"), Some(7));
    assert_eq!(choose_num("0"), Some(0));
    assert_eq!(choose_num(""), None);
    assert_eq!(choose_num("   "), None);
    assert_eq!(choose_num("+"), None);
    assert_eq!(choose_num("-1"), None);
    assert_eq!(choose_num("1 2"), None);
    assert_eq!(choose_num("12a"), None);
    assert_eq!(choose_num("１２"), None);
    assert_eq!(choose_num(&usize::MAX.to_string()), Some(usize::MAX));
    assert_eq!(choose_num(&format!("{}0", usize::MAX)), None);
    assert_eq!(choose_num("18446744073709551616"), None);
    for n in [0usize, 9, 10, 11534, 4294967295] {
        assert_eq!(choose_num(&to_decimal(n)), Some(n));
    }
}

#[test]
fn offered_numbers_are_read_back() {
    let files = vec![cli_file("a.zip"), cli_file("b.zip"), cli_file("c.zip")];
    let page = cli_page(1, "n", "c", files);
    for (position, line) in download_options(&page).iter().enumerate() {
        let shown = &line[1..line.find(']').unwrap()];
        assert_eq!(choose_num(shown).map(chosen_index), Some(Ok(position)));
    }
    assert_eq!(choose_num("\u{2003}3\u{85}"), Some(3));
    assert_eq!(choose_num("\u{200b}3"), None);
}
