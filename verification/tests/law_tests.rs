use kagibako::api::connect_base_url;
use kagibako::input::Action;
use kagibako::render::{KagiState, ViewMode};
use kagibako::vault::{Item, ItemCategory, ItemSummary, Vault};

fn item(id: &str, title: &str) -> Item {
    Item {
        id: id.into(),
        title: title.into(),
        vault_id: "v".into(),
        category: ItemCategory::Login,
        urls: vec![],
        fields: vec![],
        tags: vec![],
        favorite: false,
        last_edited_by: None,
        created_at: None,
        updated_at: None,
    }
}

fn searchable_state() -> KagiState {
    let mut s = KagiState::new();
    let items = vec![item("1", "GitHub"), item("2", "git"), item("3", "Gitea"), item("4", "AWS")];
    let summaries: Vec<ItemSummary> = items.iter().map(ItemSummary::from).collect();
    s.set_all_items(items, summaries);
    s
}

#[test]
fn up_then_down_returns_selection() {
    let mut s = KagiState::new();
    s.set_vaults(vec![
        Vault { id: "a".into(), name: "A".into(), description: None, items: 0 },
        Vault { id: "b".into(), name: "B".into(), description: None, items: 0 },
        Vault { id: "c".into(), name: "C".into(), description: None, items: 0 },
    ]);
    s.move_down();
    s.move_down();
    assert_eq!(s.vault_list.selected_index(), 2);
    s.move_up();
    s.move_down();
    assert_eq!(s.vault_list.selected_index(), 2);
}

#[test]
fn toggle_hidden_twice_restores() {
    let mut s = KagiState::new();
    s.mode = ViewMode::ItemDetail;
    let first = s.handle_action(Action::ToggleHidden);
    assert!(s.show_hidden);
    let second = s.handle_action(Action::ToggleHidden);
    assert!(!s.show_hidden);
    assert!(first.requests.is_empty() && second.requests.is_empty());
    assert!(!first.exit && !second.exit);
    assert_eq!(s.mode, ViewMode::ItemDetail);
}

#[test]
fn same_search_twice_gives_same_results() {
    let mut s = searchable_state();
    s.enter_search();
    s.search_input.insert_char('g');
    s.apply_search();
    let first: Vec<String> = s.search_results.iter().map(|r| r.id.clone()).collect();
    s.apply_search();
    let second: Vec<String> = s.search_results.iter().map(|r| r.id.clone()).collect();
    assert_eq!(first, second);
    assert_eq!(first, vec!["1", "2", "3"]);
}

#[test]
fn typing_then_backspace_restores_empty_query() {
    let mut s = searchable_state();
    s.handle_action(Action::EnterSearch);
    assert_eq!(s.search_results.len(), 4);
    s.handle_action(Action::SearchInput('a'));
    assert_eq!(s.search_input.text(), "a");
    let hits: Vec<&str> = s.search_results.iter().map(|r| r.title.as_str()).collect();
    assert_eq!(hits, vec!["AWS", "Gitea"]);
    s.handle_action(Action::SearchBackspace);
    assert_eq!(s.search_input.text(), "");
    assert_eq!(s.search_results.len(), 4);
    assert_eq!(s.mode, ViewMode::Search);
}

#[test]
fn base_url_trim_is_idempotent() {
    for url in ["https://x.example///", "https://x.example", "", "///"] {
        let once = connect_base_url(url);
        assert_eq!(connect_base_url(&once), once);
        assert!(!once.ends_with('/'));
    }
}

#[test]
fn search_round_trip_restores_item_list() {
    let mut s = KagiState::new();
    s.set_items(vec![item("1", "One"), item("2", "Two")]);
    s.mode = ViewMode::ItemList;
    assert_eq!(s.item_list.len(), 2);
    s.handle_action(Action::EnterSearch);
    s.handle_action(Action::Back);
    assert_eq!(s.mode, ViewMode::ItemList);
    assert_eq!(s.item_list.len(), 2);
    assert_eq!(s.items.len(), 2);
    assert_eq!(s.search_input.text(), "");
}
