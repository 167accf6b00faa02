use ggmod::gamebanana::util::{to_ascii_lowercase, to_human, to_snake_case};

#[test]
fn snake_case_works() {
    assert_eq!(to_snake_case("ⓟDateAddedⓟ"), "date_added");
    assert_eq!(
        to_snake_case("ⓟSuperLongname1Name2ⓟ"),
        "super_longname1_name2"
    );
}

#[test]
fn human_works() {
    let before = "\
        \"_tsDateUpdated\": 1722410377,\
        \"_tsDateAdded\": 1624842936,\
        \"_sModelName\": \"Mod\",\
        \"_sName\": \"Potato Mod Lite\",\
        \"_bIsNsfw\": false,\
        \"_aPreviewMedia\": [],\
        \"_nDownloadCount\": 183556,\
        \"_sDescription\": \"\",\
        \"_nViewCount\": 278976,\
        \"_nLikeCount\": 119,\
        \"_aModManagerIntegrations\": {},\
        \"_aAlternateFileSources\": []";
    let after = "\
        \"date_updated\": 1722410377,\
        \"date_added\": 1624842936,\
        \"model_name\": \"Mod\",\
        \"name\": \"Potato Mod Lite\",\
        \"is_nsfw\": false,\
        \"preview_media\": [],\
        \"download_count\": 183556,\
        \"description\": \"\",\
        \"view_count\": 278976,\
        \"like_count\": 119,\
        \"mod_manager_integrations\": {},\
        \"alternate_file_sources\": []";
    assert_eq!(to_human(before).unwrap(), after);
}

#[test]
fn snake_case_keeps_text_outside_markers() {
    assert_eq!(to_snake_case("DateAdded"), "DateAdded");
    assert_eq!(to_snake_case(""), "");
    assert_eq!(to_snake_case("ⓟⓟ"), "");
    assert_eq!(to_snake_case("aBⓟCdEfⓟGh"), "aB_cd_efGh");
}

#[test]
fn snake_case_lowers_first_character_of_text() {
    assert_eq!(to_snake_case("ⓟNameⓟ"), "name");
    assert_eq!(to_snake_case("xⓟNameⓟ"), "x_name");
}

#[test]
fn human_leaves_unrelated_text() {
    assert_eq!(to_human("plain text, no keys").unwrap(), "plain text, no keys");
    assert_eq!(to_human("\"_sName\": \"The_sName\"").unwrap(), "\"name\": \"The_name\"");
    assert_eq!(to_human("_idRow").unwrap(), "row");
}

#[test]
fn ascii_lowercase_touches_only_capital_letters() {
    assert_eq!(to_ascii_lowercase('A'), 'a');
    assert_eq!(to_ascii_lowercase('Z'), 'z');
    assert_eq!(to_ascii_lowercase('a'), 'a');
    assert_eq!(to_ascii_lowercase('1'), '1');
    assert_eq!(to_ascii_lowercase('É'), 'É');
}

#[test]
fn snake_case_splits_at_ascii_capitals_only() {
    assert_eq!(to_snake_case("x\u{24df}aBcD1e\u{24df}"), "xa_bc_d1e");
    assert_eq!(to_snake_case("x\u{24df}a[B]\u{24df}"), "xa[_b]");
    assert_eq!(to_human("_sName").unwrap(), "name");
}
