use mod_browser::pager::{Mods, NavKey};
use mod_browser::views::{ModView, ScanData};

fn plugin_names(n: usize) -> Vec<String> {
    (0..n).map(|i| format!("plugin{}.dll", i)).collect()
}

fn tab_with_entries(n: usize) -> Mods {
    let mut tab = Mods::default();
    tab.switch_to(1);
    tab.reload(ScanData::Plugins(Ok(plugin_names(n)))).unwrap();
    tab
}

#[test]
fn page_forward_stops_at_last_page_start() {
    let mut tab = tab_with_entries(60);
    assert_eq!(tab.page_offset, 0);
    tab.page_forward();
    assert_eq!(tab.page_offset, 25);
    tab.page_forward();
    assert_eq!(tab.page_offset, 50);
    tab.page_forward();
    assert_eq!(tab.page_offset, 50);
    tab.page_forward();
    assert_eq!(tab.page_offset, 50);
}

#[test]
fn page_forward_is_a_noop_on_empty_collection() {
    let mut tab = Mods::default();
    tab.page_forward();
    assert_eq!(tab.page_offset, 0);
}

#[test]
fn page_back_stops_at_zero() {
    let mut tab = tab_with_entries(60);
    tab.page_forward();
    tab.page_forward();
    tab.page_back();
    assert_eq!(tab.page_offset, 25);
    tab.page_back();
    assert_eq!(tab.page_offset, 0);
    tab.page_back();
    assert_eq!(tab.page_offset, 0);
}

#[test]
fn selection_moves_clamp_to_the_page() {
    let mut tab = tab_with_entries(60);
    tab.move_left();
    assert_eq!(tab.selected_mod, 0);
    tab.move_right();
    assert_eq!(tab.selected_mod, 1);
    tab.move_down();
    assert_eq!(tab.selected_mod, 6);
    tab.move_up();
    assert_eq!(tab.selected_mod, 1);
    tab.move_up();
    assert_eq!(tab.selected_mod, 0);
}

#[test]
fn moves_at_the_page_corner_are_noops() {
    let mut tab = tab_with_entries(4);
    for _ in 0..30 {
        tab.move_right();
    }
    assert_eq!(tab.selected_mod, 24);
    tab.move_right();
    assert_eq!(tab.selected_mod, 24);
    tab.move_down();
    assert_eq!(tab.selected_mod, 24);
}

#[test]
fn selection_may_address_empty_cells_past_the_count() {
    let mut tab = tab_with_entries(3);
    tab.move_down();
    assert_eq!(tab.selected_mod, 5);
    assert!(tab.mod_view.get_as_paragraph(tab.selected_mod).is_none());
}

#[test]
fn switch_resets_cursor_and_empties_collection() {
    let mut tab = tab_with_entries(60);
    tab.page_forward();
    tab.move_right();
    assert_eq!(tab.page_offset, 25);

    tab.switch_to(1);
    assert_eq!(tab.page_offset, 0);
    assert_eq!(tab.selected_mod, 0);
    assert_eq!(tab.selected_view, 1);
    assert!(matches!(tab.mod_view, ModView::Plugins(_)));
    assert_eq!(tab.mod_view.len(), 0);
}

#[test]
fn out_of_range_switch_yields_empty_mods_kind() {
    let mut tab = tab_with_entries(5);
    tab.switch_to(9);
    assert!(matches!(tab.mod_view, ModView::Mods(_)));
    assert_eq!(tab.mod_view.len(), 0);
    assert_eq!(tab.page_offset, 0);
    assert_eq!(tab.selected_mod, 0);
}

#[test]
fn next_view_cycles_through_the_kinds_and_wraps() {
    let mut tab = Mods::default();
    tab.next_view();
    assert_eq!(tab.selected_view, 1);
    assert!(matches!(tab.mod_view, ModView::Plugins(_)));
    tab.next_view();
    assert_eq!(tab.selected_view, 2);
    assert!(matches!(tab.mod_view, ModView::Packages(_)));
    tab.next_view();
    assert_eq!(tab.selected_view, 3);
    assert!(matches!(tab.mod_view, ModView::CTA));
    tab.next_view();
    assert_eq!(tab.selected_view, 0);
    assert!(matches!(tab.mod_view, ModView::Mods(_)));
}

#[test]
fn handle_key_dispatches_and_reports_reload_needs() {
    let mut tab = tab_with_entries(60);
    assert!(!tab.handle_key(NavKey::NextPage, false));
    assert_eq!(tab.page_offset, 25);
    assert!(!tab.handle_key(NavKey::PrevPage, false));
    assert_eq!(tab.page_offset, 0);
    assert!(!tab.handle_key(NavKey::MoveRight, false));
    assert_eq!(tab.selected_mod, 1);
    assert!(!tab.handle_key(NavKey::MoveDown, false));
    assert_eq!(tab.selected_mod, 6);
    assert!(!tab.handle_key(NavKey::MoveUp, false));
    assert!(!tab.handle_key(NavKey::MoveLeft, false));
    assert_eq!(tab.selected_mod, 0);
    assert!(tab.handle_key(NavKey::Reload, false));
    assert!(tab.handle_key(NavKey::SwitchView, false));
    assert_eq!(tab.selected_view, 2);
}

#[test]
fn keys_are_ignored_while_typing() {
    let mut tab = tab_with_entries(60);
    assert!(!tab.handle_key(NavKey::NextPage, true));
    assert_eq!(tab.page_offset, 0);
    assert!(!tab.handle_key(NavKey::SwitchView, true));
    assert_eq!(tab.selected_view, 1);
    assert!(!tab.handle_key(NavKey::Reload, true));
}

#[test]
fn reload_does_not_reset_the_cursor() {
    let mut tab = tab_with_entries(60);
    tab.page_forward();
    tab.move_right();
    let po = tab.page_offset;
    let sel = tab.selected_mod;
    tab.reload(ScanData::Plugins(Ok(plugin_names(60)))).unwrap();
    assert_eq!(tab.page_offset, po);
    assert_eq!(tab.selected_mod, sel);
}
