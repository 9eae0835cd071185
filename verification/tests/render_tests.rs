use kagibako::render::{collect_lines, format_summaries, format_summary, format_vault, KagiState, ViewMode};
use kagibako::vault::{Field, FieldPurpose, FieldType, Item, ItemCategory, ItemSummary, SecretValue, Vault};

fn bare_item(id: &str, title: &str, vault_id: &str) -> Item {
    Item {
        id: id.into(),
        title: title.into(),
        vault_id: vault_id.into(),
        category: ItemCategory::Login,
        urls: vec![],
        fields: vec![],
        tags: vec![],
        favorite: false,
        last_edited_by: None,
        created_at: None,
        updated_at: None,
    }
}

#[test]
fn kagi_state_default_mode_is_vault_list() {
    let state = KagiState::new();
    assert_eq!(state.mode, ViewMode::VaultList);
}

#[test]
fn set_vaults_updates_list() {
    let mut state = KagiState::new();
    state.set_vaults(vec![
        Vault {
            id: "v1".into(),
            name: "Personal".into(),
            description: None,
            items: 5,
        },
        Vault {
            id: "v2".into(),
            name: "Work".into(),
            description: None,
            items: 3,
        },
    ]);
    assert_eq!(state.vault_list.len(), 2);
    assert_eq!(state.vaults.len(), 2);
}

#[test]
fn set_items_updates_list() {
    let mut state = KagiState::new();
    let items = vec![bare_item("i1", "GitHub", "v1")];
    state.set_items(items);
    assert_eq!(state.item_list.len(), 1);
    assert_eq!(state.summaries.len(), 1);
}

#[test]
fn move_down_and_up() {
    let mut state = KagiState::new();
    state.set_vaults(vec![
        Vault { id: "v1".into(), name: "A".into(), description: None, items: 0 },
        Vault { id: "v2".into(), name: "B".into(), description: None, items: 0 },
    ]);
    assert_eq!(state.vault_list.selected_index(), 0);
    state.move_down();
    assert_eq!(state.vault_list.selected_index(), 1);
    state.move_up();
    assert_eq!(state.vault_list.selected_index(), 0);
}

#[test]
fn enter_and_exit_search() {
    let mut state = KagiState::new();
    state.mode = ViewMode::ItemList;
    state.enter_search();
    assert_eq!(state.mode, ViewMode::Search);
    state.go_back();
    assert_eq!(state.mode, ViewMode::ItemList);
}

#[test]
fn go_back_from_detail() {
    let mut state = KagiState::new();
    state.mode = ViewMode::ItemList;
    state.detail_item = Some(bare_item("i1", "Test", "v1"));
    state.prev_mode = Some(ViewMode::ItemList);
    state.mode = ViewMode::ItemDetail;
    state.go_back();
    assert_eq!(state.mode, ViewMode::ItemList);
    assert!(state.detail_item.is_none());
}

fn search_items() -> Vec<Item> {
    let mut github = bare_item("i1", "GitHub", "v1");
    github.fields = vec![Field {
        id: "f1".into(),
        label: "username".into(),
        value: SecretValue::new("user@github.com"),
        purpose: Some(FieldPurpose::Username),
        field_type: FieldType::String,
    }];
    vec![github, bare_item("i2", "AWS Console", "v1")]
}

#[test]
fn search_filters_items() {
    let mut state = KagiState::new();
    let items = search_items();
    let summaries: Vec<ItemSummary> = items.iter().map(ItemSummary::from).collect();
    state.set_all_items(items, summaries);
    state.enter_search();
    state.search_input.insert_char('g');
    state.search_input.insert_char('i');
    state.search_input.insert_char('t');
    state.apply_search();
    assert_eq!(state.search_results.len(), 1);
    assert_eq!(state.search_results[0].title, "GitHub");
}

#[test]
fn set_status_message() {
    let mut state = KagiState::new();
    state.set_status("Copied password");
    assert_eq!(state.status_message.as_deref(), Some("Copied password"));
}

#[test]
fn collect_lines_vault_list() {
    let state = KagiState::new();
    let lines = collect_lines(&state);
    assert!(!lines.is_empty());
    assert!(lines[0].0.contains("Select Vault"));
}

#[test]
fn collect_lines_loading() {
    let mut state = KagiState::new();
    state.loading = true;
    let lines = collect_lines(&state);
    assert_eq!(lines.len(), 1);
    assert!(lines[0].0.contains("Loading"));
}

#[test]
fn collect_lines_item_detail() {
    let mut state = KagiState::new();
    state.mode = ViewMode::ItemDetail;
    let mut item = bare_item("i1", "Test Item", "v1");
    item.fields = vec![Field {
        id: "f1".into(),
        label: "password".into(),
        value: SecretValue::new("secret"),
        purpose: Some(FieldPurpose::Password),
        field_type: FieldType::Concealed,
    }];
    state.detail_item = Some(item);
    let lines = collect_lines(&state);
    assert!(lines.iter().any(|(l, _, _)| l.contains("Test Item")));
    // Concealed field should show dots
    assert!(lines.iter().any(|(l, _, _)| l.contains('\u{2022}')));
}

#[test]
fn format_summaries_favorites_filter() {
    let summaries = vec![
        ItemSummary {
            id: "1".into(),
            title: "Fav".into(),
            category: ItemCategory::Login,
            vault_id: "v".into(),
            vault_name: String::new(),
            url: None,
            username: None,
            favorite: true,
            has_totp: false,
        },
        ItemSummary {
            id: "2".into(),
            title: "NotFav".into(),
            category: ItemCategory::Login,
            vault_id: "v".into(),
            vault_name: String::new(),
            url: None,
            username: None,
            favorite: false,
            has_totp: false,
        },
    ];
    let all = format_summaries(&summaries, false);
    assert_eq!(all.len(), 2);
    let favs = format_summaries(&summaries, true);
    assert_eq!(favs.len(), 1);
    assert!(favs[0].contains("Fav"));
}

#[test]
fn selected_ids_returns_correct_pair() {
    let mut state = KagiState::new();
    let items = vec![bare_item("item1", "Test", "vault1")];
    state.set_items(items);
    let ids = state.selected_ids().unwrap();
    assert_eq!(ids.0, "vault1");
    assert_eq!(ids.1, "item1");
}

#[test]
fn summary_and_vault_lines_exact() {
    let s = ItemSummary {
        id: "1".into(),
        title: "GitHub".into(),
        category: ItemCategory::SecureNote,
        vault_id: "v".into(),
        vault_name: "Work".into(),
        url: None,
        username: Some("me".into()),
        favorite: true,
        has_totp: true,
    };
    assert_eq!(format_summary(&s), "* GitHub (Work) [Secure Note [TOTP]] me");
    let v = Vault { id: "v".into(), name: "Personal".into(), description: None, items: 12 };
    assert_eq!(format_vault(&v), "Personal (12)");
}

#[test]
fn search_ranks_best_first_and_empty_query_lists_all() {
    let mut state = KagiState::new();
    let mut items = search_items();
    items.push(bare_item("i3", "Git", "v2"));
    let summaries: Vec<ItemSummary> = items.iter().map(ItemSummary::from).collect();
    state.set_all_items(items, summaries);
    state.enter_search();
    assert_eq!(state.search_results.len(), 3);
    state.search_input.insert_char('g');
    state.search_input.insert_char('i');
    state.search_input.insert_char('t');
    state.apply_search();
    let titles: Vec<&str> = state.search_results.iter().map(|s| s.title.as_str()).collect();
    assert_eq!(titles, vec!["Git", "GitHub"]);
    state.go_back();
    assert_eq!(state.mode, ViewMode::ItemList);
    assert_eq!(state.search_input.text(), "");
}

#[test]
fn detail_round_trip_restores_view() {
    let mut state = KagiState::new();
    state.set_items(vec![bare_item("a", "Alpha", "v"), bare_item("b", "Beta", "v")]);
    state.mode = ViewMode::ItemList;
    state.move_down();
    state.enter_detail();
    assert_eq!(state.mode, ViewMode::ItemDetail);
    assert_eq!(state.detail_item.as_ref().unwrap().id, "b");
    state.go_back();
    assert_eq!(state.mode, ViewMode::ItemList);
    assert!(state.detail_item.is_none());
    assert_eq!(state.item_list.selected_index(), 1);
}

#[test]
fn going_back_from_item_list_clears_items() {
    let mut state = KagiState::new();
    state.set_items(vec![bare_item("a", "Alpha", "v")]);
    state.mode = ViewMode::ItemList;
    state.go_back();
    assert_eq!(state.mode, ViewMode::VaultList);
    assert!(state.items.is_empty());
    assert!(state.summaries.is_empty());
    assert_eq!(state.item_list.len(), 0);
}

#[test]
fn move_down_stops_at_last_line() {
    let mut state = KagiState::new();
    state.set_vaults(vec![Vault { id: "v1".into(), name: "A".into(), description: None, items: 0 }]);
    state.move_down();
    assert_eq!(state.vault_list.selected_index(), 0);
    state.move_up();
    assert_eq!(state.vault_list.selected_index(), 0);
}

#[test]
fn selected_field_value_in_detail() {
    let mut state = KagiState::new();
    let mut item = bare_item("i1", "T", "v");
    item.fields = vec![
        Field {
            id: "f1".into(),
            label: "user".into(),
            value: SecretValue::new("alice"),
            purpose: Some(FieldPurpose::Username),
            field_type: FieldType::String,
        },
        Field {
            id: "f2".into(),
            label: "pw".into(),
            value: SecretValue::new("hunter2"),
            purpose: Some(FieldPurpose::Password),
            field_type: FieldType::Concealed,
        },
    ];
    state.detail_item = Some(item);
    state.mode = ViewMode::ItemDetail;
    assert_eq!(state.selected_field_value(), Some("alice"));
    state.move_down();
    assert_eq!(state.selected_field_value(), Some("hunter2"));
    state.move_down();
    assert_eq!(state.selected_field_value(), Some("hunter2"));
}

#[test]
fn status_line_is_last() {
    let mut state = KagiState::new();
    state.set_status("Vaults loaded");
    let lines = collect_lines(&state);
    assert_eq!(lines.last().unwrap().0, "Vaults loaded");
    state.clear_status();
    assert!(state.status_message.is_none());
}

#[test]
fn resize_rebuilds_lists_from_visible_lines() {
    let mut state = KagiState::default();
    assert!(state.is_consistent());
    let vaults: Vec<Vault> = (0..30)
        .map(|i| Vault { id: format!("v{i}"), name: format!("V{i}"), description: None, items: 0 })
        .collect();
    state.set_vaults(vaults);
    for _ in 0..25 {
        state.move_down();
    }
    assert_eq!(state.vault_list.selected_index(), 25);
    assert_eq!(state.vault_list.offset(), 6);
    assert!(state.is_consistent());
    state.resize(800, 600, 3);
    assert_eq!((state.width, state.height), (800, 600));
    assert_eq!(state.vault_list.len(), 20);
    assert_eq!(state.vault_list.selected_index(), 0);
    assert_eq!(state.vault_list.visible_items().len(), 5);
    assert_eq!(state.vault_list.visible_items()[0], "V6 (0)");
    assert!(state.is_consistent());
}
