use kagibako::control::{copied_status, gather_all_items, BackendRequest, BackendResponse};
use kagibako::input::Action;
use kagibako::render::{KagiState, ViewMode};
use kagibako::vault::{Field, FieldPurpose, FieldType, Item, ItemCategory, SecretValue, Vault};

fn item(id: &str, title: &str) -> Item {
    Item {
        id: id.into(),
        title: title.into(),
        vault_id: "v1".into(),
        category: ItemCategory::Login,
        urls: vec![],
        fields: vec![Field {
            id: "p".into(),
            label: "password".into(),
            value: SecretValue::new(&format!("pw-{id}")),
            purpose: Some(FieldPurpose::Password),
            field_type: FieldType::Concealed,
        }],
        tags: vec![],
        favorite: false,
        last_edited_by: None,
        created_at: None,
        updated_at: None,
    }
}

fn vault(id: &str, name: &str) -> Vault {
    Vault { id: id.into(), name: name.into(), description: None, items: 1 }
}

#[test]
fn select_vault_requests_its_items() {
    let mut s = KagiState::new();
    s.set_vaults(vec![vault("v1", "A"), vault("v2", "B")]);
    s.move_down();
    let step = s.handle_action(Action::Select);
    assert!(!step.exit);
    assert_eq!(step.requests.len(), 1);
    assert!(matches!(&step.requests[0], BackendRequest::LoadItems { vault_id } if vault_id == "v2"));
    assert_eq!(s.mode, ViewMode::ItemList);
    assert_eq!(s.selected_vault, 1);
    assert!(s.loading);
}

#[test]
fn quit_exits_and_changes_nothing() {
    let mut s = KagiState::new();
    let step = s.handle_action(Action::Quit);
    assert!(step.exit);
    assert!(step.requests.is_empty());
    assert_eq!(s.mode, ViewMode::VaultList);
}

#[test]
fn copy_password_in_list_fetches_and_copies() {
    let mut s = KagiState::new();
    s.set_items(vec![item("i1", "GitHub")]);
    s.mode = ViewMode::ItemList;
    let step = s.handle_action(Action::CopyPassword);
    assert_eq!(step.requests.len(), 2);
    assert!(matches!(&step.requests[0], BackendRequest::GetItem { vault_id, item_id } if vault_id == "v1" && item_id == "i1"));
    assert!(matches!(&step.requests[1], BackendRequest::CopyToClipboard { value, label } if value == "pw-i1" && label == "password"));
}

#[test]
fn copy_username_without_field_sets_status() {
    let mut s = KagiState::new();
    s.set_items(vec![item("i1", "GitHub")]);
    s.mode = ViewMode::ItemList;
    let step = s.handle_action(Action::CopyUsername);
    assert!(step.requests.is_empty());
    assert_eq!(s.status_message.as_deref(), Some("No username field found"));
}

#[test]
fn toggle_favorites_sets_status() {
    let mut s = KagiState::new();
    s.handle_action(Action::ToggleFavorites);
    assert!(s.favorites_only);
    assert_eq!(s.status_message.as_deref(), Some("Showing favorites only"));
    s.handle_action(Action::ToggleFavorites);
    assert!(!s.favorites_only);
    assert_eq!(s.status_message.as_deref(), Some("Showing all items"));
}

#[test]
fn next_vault_wraps_around() {
    let mut s = KagiState::new();
    s.set_vaults(vec![vault("v1", "A"), vault("v2", "B")]);
    s.selected_vault = 1;
    let step = s.handle_action(Action::NextVault);
    assert_eq!(s.selected_vault, 0);
    assert!(matches!(&step.requests[0], BackendRequest::LoadItems { vault_id } if vault_id == "v1"));
}

#[test]
fn responses_update_state() {
    let mut s = KagiState::new();
    s.loading = true;
    assert!(s.handle_response(BackendResponse::Vaults(Ok(vec![vault("v1", "A")])), 30).is_none());
    assert!(!s.loading);
    assert_eq!(s.vaults.len(), 1);
    assert_eq!(s.status_message.as_deref(), Some("Vaults loaded"));
    s.handle_response(BackendResponse::Items { items: Err("boom".into()) }, 30);
    assert_eq!(s.status_message.as_deref(), Some("Error loading items: boom"));
    s.handle_response(BackendResponse::ItemDetail(Ok(item("i1", "GitHub"))), 30);
    assert_eq!(s.mode, ViewMode::ItemDetail);
    assert_eq!(s.prev_mode, Some(ViewMode::VaultList));
    let follow = s.handle_response(BackendResponse::Totp(Ok("123456".into())), 30);
    assert!(matches!(follow, Some(BackendRequest::CopyToClipboard { value, label }) if value == "123456" && label == "TOTP"));
    s.handle_response(BackendResponse::Copied { label: "TOTP".into(), result: Ok(()) }, 15);
    assert_eq!(s.status_message.as_deref(), Some("Copied TOTP to clipboard (clears in 15s)"));
    s.handle_response(BackendResponse::Copied { label: "x".into(), result: Err("no display".into()) }, 15);
    assert_eq!(s.status_message.as_deref(), Some("Clipboard error: no display"));
}

#[test]
fn copied_status_text() {
    assert_eq!(copied_status("password", 30), "Copied password to clipboard (clears in 30s)");
    assert_eq!(copied_status("username", 0), "Copied username to clipboard (clears in 0s)");
}

#[test]
fn gather_skips_failed_vaults() {
    let vaults = vec![vault("v1", "A"), vault("v2", "B"), vault("v3", "C")];
    let listed = vec![Some(vec![item("a", "One")]), None, Some(vec![item("b", "Two"), item("c", "Three")])];
    let (items, summaries) = gather_all_items(&vaults, &listed);
    assert_eq!(items.len(), 3);
    assert_eq!(summaries.len(), 3);
    assert_eq!(summaries[0].vault_name, "A");
    assert_eq!(summaries[1].vault_name, "C");
    assert_eq!(summaries[2].title, "Three");
}
