use ggmod::error::ModError;
use ggmod::files::{
    ensure_sig_file, game_sig_file, ggst_path, name_extension, name_has_extension, name_stem,
    name_with_extension, not_found, registry_is_empty, steam_root, SigFileAction,
    DOWNLOADS_DIR, EMPTY_REGISTRY, REGISTRY_FN, SUBDIR_NAME,
};
use std::path::Path;

fn names(list: &[&str]) -> Vec<String> {
    list.iter().map(|s| String::from(*s)).collect()
}

#[test]
fn names_of_the_program_s_files() {
    assert_eq!(SUBDIR_NAME, "ggmod");
    assert_eq!(REGISTRY_FN, "registry.json");
    assert_eq!(DOWNLOADS_DIR, "downloads");
    assert_eq!(not_found(), ModError::NotFound);
}

#[test]
fn stem_and_extension_of_file_names() {
    assert_eq!(name_stem("potato.zip"), "potato");
    assert_eq!(name_extension("potato.zip"), "zip");
    assert!(name_has_extension("potato.zip"));
    assert_eq!(name_stem("potato.tar.gz"), "potato.tar");
    assert_eq!(name_extension("potato.tar.gz"), "gz");
    assert_eq!(name_stem("potato"), "potato");
    assert_eq!(name_extension("potato"), "");
    assert!(!name_has_extension("potato"));
    assert_eq!(name_stem(".hidden"), ".hidden");
    assert!(!name_has_extension(".hidden"));
    assert_eq!(name_stem("potato."), "potato");
    assert_eq!(name_extension("potato."), "");
    assert!(name_has_extension("potato."));
    assert_eq!(name_stem(""), "");
    assert_eq!(name_stem("pötato.zïp"), "pötato");
    assert_eq!(name_extension("pötato.zïp"), "zïp");
    assert_eq!(name_with_extension("a.pak", "sig"), "a.sig");
    assert_eq!(name_with_extension("a", "sig"), "a.sig");
}

#[test]
fn steam_root_is_the_last_place_that_exists() {
    assert_eq!(steam_root(&vec![true, false, false]), Ok(0));
    assert_eq!(steam_root(&vec![true, true, false]), Ok(1));
    assert_eq!(steam_root(&vec![true, false, true]), Ok(2));
    assert_eq!(steam_root(&vec![false, false, false]), Err(ModError::NotFound));
    assert_eq!(steam_root(&Vec::new()), Err(ModError::NotFound));
}

#[test]
fn game_paths() {
    assert_eq!(
        ggst_path(),
        vec!["steamapps", "common", "GUILTY GEAR STRIVE", "RED", "Content", "Paks", "~mods"]
    );
    assert_eq!(
        game_sig_file(),
        vec![
            "steamapps",
            "common",
            "GUILTY GEAR STRIVE",
            "RED",
            "Content",
            "Paks",
            "pakchunk0-WindowsNoEditor.sig"
        ]
    );
}

#[test]
fn signature_file_is_copied_beside_the_first_pak() {
    match ensure_sig_file(&names(&["readme.txt", "skin.pak", "other.pak"])) {
        SigFileAction::Copy { target } => assert_eq!(target, "skin.sig"),
        other => panic!("unexpected {:?}", other),
    }
    assert!(matches!(
        ensure_sig_file(&names(&["skin.pak", "skin.sig"])),
        SigFileAction::Keep
    ));
    assert!(matches!(ensure_sig_file(&names(&["only.sig"])), SigFileAction::Keep));
    assert!(matches!(ensure_sig_file(&names(&["readme.txt"])), SigFileAction::Missing));
    assert!(matches!(ensure_sig_file(&Vec::new()), SigFileAction::Missing));
    assert!(matches!(ensure_sig_file(&names(&[".sig", ".pak"])), SigFileAction::Missing));
}

#[test]
fn paths_are_taken_apart_by_their_last_component() {
    assert!(!name_has_extension("a.b/c"));
    assert_eq!(name_stem("a.b/c"), "a.b/c");
    assert_eq!(name_with_extension("a.b/c", "sig"), "a.b/c.sig");
    assert_eq!(name_stem("dir/potato.zip"), "dir/potato");
    assert_eq!(name_extension("dir.d/potato.zip"), "zip");
    assert!(!name_has_extension(".."));
    assert_eq!(name_stem(".."), "..");
    assert_eq!(name_with_extension("..", "sig"), "..");
    assert_eq!(name_with_extension("a/..", "sig"), "a/..");
    assert_eq!(name_stem("a.b/"), "a");
    assert_eq!(name_extension("a.b/."), "b");
    assert_eq!(name_with_extension("a.pak", ""), "a");
    assert_eq!(name_with_extension("a", ""), "a");
    assert_eq!(name_with_extension("", "sig"), "");
}

#[test]
fn path_rules_agree_with_the_standard_library() {
    let paths = [
        "potato.zip", "potato.tar.gz", "potato", ".hidden", "potato.", "", "a.b/c", "a.b/c.d",
        "..", "a/..", "a.b/", "a.b/.", "./a.b", "/", "/.", ".", "./", "a//b.c//", "...", "..a",
        "a/.hidden", "a/b.", "dir.d/.x.y", "pötato.zïp", "/a.b", "a/./b.c/.", "x/...", ".a.b",
        "a..b", "a/b/../c.d", "a.b/..", " .x", "a. b", "a.bcd/", "a.b///", "x/..a", "..a.b",
        "....", "a./", "a.b/c/", ".a", "a/.b.c/", "..a/", "a...", "/..", "//", "a.b.c.",
        "a.b/../", "a.b/./.", "./.", "../..", "..a/.", "a/..b/", "x.y/..z",
    ];
    for path in paths {
        let std_path = Path::new(path);
        let extension = std_path.extension().map(|e| e.to_str().unwrap().to_string());
        assert_eq!(name_has_extension(path), extension.is_some(), "{:?}", path);
        assert_eq!(name_extension(path), extension.unwrap_or_default(), "{:?}", path);
        assert_eq!(
            name_stem(path),
            std_path.with_extension("").to_str().unwrap(),
            "{:?}",
            path
        );
        for ext in ["sig", "tar.gz", "."] {
            assert_eq!(
                name_with_extension(path, ext),
                std_path.with_extension(ext).to_str().unwrap(),
                "{:?} {:?}",
                path,
                ext
            );
        }
    }
}

#[test]
fn registry_counts_as_empty_when_absent_or_blank() {
    assert!(registry_is_empty(None));
    assert!(registry_is_empty(Some("")));
    assert!(registry_is_empty(Some(" \n\t ")));
    assert!(registry_is_empty(Some("\u{a0}\u{3000}")));
    assert!(!registry_is_empty(Some(EMPTY_REGISTRY)));
    assert!(!registry_is_empty(Some(" [] ")));
    assert!(!registry_is_empty(Some("\u{200b}")));
}
