use mod_browser::entry::{extract_mod_info, mod_dir_parses, DiscoveryError, ModDirScan, ParseError};
use mod_browser::views::{CellText, ModView, ScanData};

fn scan(path: &str, mod_json: Option<&str>, manifest: Option<&str>, author: Option<&str>) -> ModDirScan {
    ModDirScan {
        path: path.to_string(),
        mod_json: mod_json.map(|s| s.to_string()),
        manifest: manifest.map(|s| s.to_string()),
        author: author.map(|s| s.to_string()),
    }
}

const GOOD_MOD_JSON: &str = "{ Name: 'Awesome', Version: '1.2.3', Description: 'does things' }";
const GOOD_MANIFEST: &str = "{ \"name\": \"Awesome\", \"version_number\": \"1.2.3\", \"website_url\": \"\", \"description\": \"d\", \"dependencies\": [] }";

#[test]
fn bare_mod_dir_yields_one_entry_without_optionals() {
    let mut view = ModView::Mods(Vec::new());
    let data = ScanData::Mods(Ok(vec![scan("mods/Awesome", Some(GOOD_MOD_JSON), None, None)]));
    let r = view.reload(data);
    assert!(r.is_ok());
    assert_eq!(view.len(), 1);
    assert_eq!(view.get_title(0), Some("Awesome"));
    match &view {
        ModView::Mods(mods) => {
            assert!(mods[0].manifest.is_none());
            assert!(mods[0].author.is_none());
            assert_eq!(mods[0].path, "mods/Awesome");
            assert_eq!(mods[0].mod_json.version, "1.2.3");
            assert_eq!(mods[0].mod_json.description, "does things");
            assert_eq!(mods[0].mod_json.load_priority, None);
        }
        _ => panic!("expected the mods kind"),
    }
}

#[test]
fn optional_files_are_kept_when_present_and_wellformed() {
    let d = scan("mods/A", Some(GOOD_MOD_JSON), Some(GOOD_MANIFEST), Some("AuthorName"));
    let e = extract_mod_info(d).expect("entry should parse");
    assert!(e.manifest.is_some());
    assert_eq!(e.author.as_deref(), Some("AuthorName"));
}

#[test]
fn malformed_manifest_is_not_an_error() {
    let d = scan("mods/A", Some(GOOD_MOD_JSON), Some("{ not valid json5"), None);
    let e = extract_mod_info(d).expect("entry should parse");
    assert!(e.manifest.is_none());
}

#[test]
fn malformed_mod_json_is_dropped_but_reload_succeeds() {
    let mut view = ModView::Mods(Vec::new());
    let data = ScanData::Mods(Ok(vec![
        scan("mods/Bad", Some("{ definitely not json"), None, None),
        scan("mods/Good", Some(GOOD_MOD_JSON), None, None),
        scan("mods/NoFile", None, None, None),
    ]));
    let r = view.reload(data);
    assert!(r.is_ok());
    assert_eq!(view.len(), 1);
    assert_eq!(view.get_title(0), Some("Awesome"));
}

#[test]
fn reload_error_leaves_previous_collection_unchanged() {
    let mut view = ModView::Mods(Vec::new());
    let ok = ScanData::Mods(Ok(vec![scan("mods/Awesome", Some(GOOD_MOD_JSON), None, None)]));
    view.reload(ok).unwrap();
    assert_eq!(view.len(), 1);

    let r = view.reload(ScanData::Mods(Err(DiscoveryError::RootNotFound)));
    assert_eq!(r, Err(DiscoveryError::RootNotFound));
    assert_eq!(view.len(), 1);
    assert_eq!(view.get_title(0), Some("Awesome"));

    let r2 = view.reload(ScanData::Mods(Err(DiscoveryError::RootNotReadable)));
    assert_eq!(r2, Err(DiscoveryError::RootNotReadable));
    assert_eq!(view.len(), 1);
}

fn named_mod(name: &str) -> ModDirScan {
    let body = format!("{{ Name: '{}', Version: '1', Description: 'd' }}", name);
    ModDirScan {
        path: format!("mods/{}", name),
        mod_json: Some(body),
        manifest: None,
        author: None,
    }
}

#[test]
fn filter_keeps_only_matching_names_and_reload_restores() {
    let dirs = || vec![named_mod("xabcy"), named_mod("other"), named_mod("abc"), named_mod("Abc")];
    let mut view = ModView::Mods(Vec::new());
    view.reload(ScanData::Mods(Ok(dirs()))).unwrap();
    assert_eq!(view.len(), 4);

    view.filter("abc");
    assert_eq!(view.len(), 2);
    assert_eq!(view.get_title(0), Some("xabcy"));
    assert_eq!(view.get_title(1), Some("abc"));

    view.reload(ScanData::Mods(Ok(dirs()))).unwrap();
    assert_eq!(view.len(), 4);
}

#[test]
fn filter_plugins_by_name() {
    let mut view = ModView::Plugins(Vec::new());
    let files: Vec<String> =
        vec!["north.dll".to_string(), "star.dll".to_string(), "other.dll".to_string()];
    view.reload(ScanData::Plugins(Ok(files))).unwrap();
    assert_eq!(view.len(), 3);
    view.filter("t");
    assert_eq!(view.len(), 3);
    view.filter("ta");
    assert_eq!(view.len(), 1);
    assert_eq!(view.get_title(0), Some("star.dll"));
}

#[test]
fn plugin_reload_keeps_only_dll_files() {
    let mut view = ModView::Plugins(Vec::new());
    let files: Vec<String> = vec![
        "good.dll".to_string(),
        ".dll".to_string(),
        "UPPER.DLL".to_string(),
        "lib.so".to_string(),
        "archive.dll.txt".to_string(),
        "a.b.dll".to_string(),
        "nodot".to_string(),
    ];
    view.reload(ScanData::Plugins(Ok(files))).unwrap();
    assert_eq!(view.len(), 2);
    assert_eq!(view.get_title(0), Some("good.dll"));
    assert_eq!(view.get_title(1), Some("a.b.dll"));
}

#[test]
fn switch_builds_empty_collection_of_each_kind() {
    let mut view = ModView::CTA;
    view.switch(0);
    assert!(matches!(view, ModView::Mods(_)));
    assert_eq!(view.len(), 0);
    view.switch(1);
    assert!(matches!(view, ModView::Plugins(_)));
    assert_eq!(view.len(), 0);
    view.switch(2);
    assert!(matches!(view, ModView::Packages(_)));
    assert_eq!(view.len(), 0);
    view.switch(3);
    assert!(matches!(view, ModView::CTA));
}

#[test]
fn out_of_range_switch_falls_back_to_empty_mods() {
    let mut view = ModView::CTA;
    view.switch(17);
    assert!(matches!(view, ModView::Mods(_)));
    assert_eq!(view.len(), 0);
}

#[test]
fn fixed_kinds_report_fixed_counts_and_titles() {
    let packages = ModView::Packages(Vec::new());
    assert_eq!(packages.len(), 0);
    assert_eq!(packages.get_title(0), Some(""));
    assert_eq!(packages.get_title(99), Some(""));
    assert!(packages.get_as_paragraph(0).is_none());

    let cta = ModView::CTA;
    assert_eq!(cta.len(), 5);
    assert_eq!(cta.get_title(3), Some("CTA VIEW"));
    assert!(cta.get_as_paragraph(0).is_none());
}

#[test]
fn out_of_range_title_is_none_for_entry_kinds() {
    let mut view = ModView::Mods(Vec::new());
    view.reload(ScanData::Mods(Ok(vec![named_mod("only")]))).unwrap();
    assert_eq!(view.get_title(1), None);
    assert!(view.get_as_paragraph(1).is_none());
}

#[test]
fn mod_cell_text_shows_version_priority_and_description() {
    let mut view = ModView::Mods(Vec::new());
    let with_prio = ModDirScan {
        path: "mods/P".to_string(),
        mod_json: Some("{ Name: 'P', Version: '2.0', Description: 'desc', LoadPriority: 7 }".to_string()),
        manifest: None,
        author: None,
    };
    let negative = ModDirScan {
        path: "mods/N".to_string(),
        mod_json: Some("{ Name: 'N', Version: '3', Description: 'n', LoadPriority: -4 }".to_string()),
        manifest: None,
        author: None,
    };
    view.reload(ScanData::Mods(Ok(vec![
        with_prio,
        named_mod("Awesome"),
        negative,
    ])))
    .unwrap();

    match view.get_as_paragraph(0) {
        Some(CellText::ModCell { version, priority, description }) => {
            assert_eq!(version, "2.0");
            assert_eq!(priority, "7");
            assert_eq!(description, "desc");
        }
        _ => panic!("expected a mod cell"),
    }
    match view.get_as_paragraph(1) {
        Some(CellText::ModCell { priority, .. }) => assert_eq!(priority, "999"),
        _ => panic!("expected a mod cell"),
    }
    match view.get_as_paragraph(2) {
        Some(CellText::ModCell { priority, .. }) => assert_eq!(priority, "-4"),
        _ => panic!("expected a mod cell"),
    }
}

#[test]
fn plugin_cell_text_is_the_bare_name() {
    let mut view = ModView::Plugins(Vec::new());
    view.reload(ScanData::Plugins(Ok(vec!["north.dll".to_string()]))).unwrap();
    match view.get_as_paragraph(0) {
        Some(CellText::PluginCell { name }) => assert_eq!(name, "north.dll"),
        _ => panic!("expected a plugin cell"),
    }
}

#[test]
fn missing_required_metadata_is_the_parse_error() {
    let d = scan("mods/Empty", None, None, None);
    match extract_mod_info(d) {
        Err(e) => assert_eq!(e, ParseError::RequiredMetadataInvalid),
        _ => panic!("expected the parse error"),
    }
    let d2 = scan("mods/Bad", Some("{ Name: 'x' }"), None, None);
    match extract_mod_info(d2) {
        Err(e) => assert_eq!(e, ParseError::RequiredMetadataInvalid),
        _ => panic!("expected the parse error"),
    }
}

#[test]
fn drop_observation_hook_matches_the_collection() {
    let good = scan("mods/Good", Some(GOOD_MOD_JSON), None, None);
    let bad = scan("mods/Bad", Some("not json at all"), None, None);
    let missing = scan("mods/Missing", None, None, None);
    assert!(mod_dir_parses(&good));
    assert!(!mod_dir_parses(&bad));
    assert!(!mod_dir_parses(&missing));
}

#[test]
fn empty_keyword_keeps_every_entry() {
    let mut view = ModView::Mods(Vec::new());
    view.reload(ScanData::Mods(Ok(vec![named_mod("a"), named_mod("b")]))).unwrap();
    view.filter("");
    assert_eq!(view.len(), 2);
}
