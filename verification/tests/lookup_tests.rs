use kagibako::lookup::{field_request, find_named_item, find_named_vault, rank_items, select_vaults, value_for, vault_is_named, FieldRequest};
use kagibako::rank::rank_by_score;
use kagibako::vault::{Field, FieldPurpose, FieldType, Item, ItemCategory, SecretValue, Vault};

fn item(id: &str, title: &str) -> Item {
    Item {
        id: id.into(),
        title: title.into(),
        vault_id: "v".into(),
        category: ItemCategory::Login,
        urls: vec![],
        fields: vec![
            Field {
                id: "u".into(),
                label: "username".into(),
                value: SecretValue::new("bob"),
                purpose: Some(FieldPurpose::Username),
                field_type: FieldType::String,
            },
            Field {
                id: "p".into(),
                label: "password".into(),
                value: SecretValue::new("pw1"),
                purpose: Some(FieldPurpose::Password),
                field_type: FieldType::Concealed,
            },
            Field {
                id: "x".into(),
                label: "Recovery Code".into(),
                value: SecretValue::new("r-e-c"),
                purpose: None,
                field_type: FieldType::String,
            },
        ],
        tags: vec![],
        favorite: false,
        last_edited_by: None,
        created_at: None,
        updated_at: None,
    }
}

fn vault(id: &str, name: &str) -> Vault {
    Vault { id: id.into(), name: name.into(), description: None, items: 0 }
}

#[test]
fn find_item_by_title_any_case_or_id() {
    let items = vec![item("a1", "GitHub"), item("b2", "GitLab"), item("c3", "github")];
    assert_eq!(find_named_item(&items, "GITHUB"), Some(0));
    assert_eq!(find_named_item(&items, "b2"), Some(1));
    assert_eq!(find_named_item(&items, "B2"), None);
    assert_eq!(find_named_item(&items, "Bitbucket"), None);
}

#[test]
fn find_vault_and_select_vaults() {
    let vaults = vec![vault("v1", "Personal"), vault("v2", "Work"), vault("v3", "work")];
    assert!(vault_is_named(&vaults[0], "personal"));
    assert!(vault_is_named(&vaults[1], "v2"));
    assert_eq!(find_named_vault(&vaults, "WORK"), Some(1));
    assert_eq!(find_named_vault(&vaults, "Shared"), None);
    assert_eq!(select_vaults(&vaults, None), vec![0, 1, 2]);
    assert_eq!(select_vaults(&vaults, Some("work")), vec![1, 2]);
    assert_eq!(select_vaults(&vaults, Some("none")), Vec::<usize>::new());
}

#[test]
fn rank_items_orders_hits() {
    let items = vec![item("1", "AWS"), item("2", "my github"), item("3", "GitHub"), item("4", "git")];
    assert_eq!(rank_items(&items, "git"), vec![3, 2, 1]);
    assert_eq!(rank_items(&items, "zzz"), Vec::<usize>::new());
}

#[test]
fn rank_by_score_is_stable_and_drops_zero() {
    assert_eq!(rank_by_score(&vec![10, 0, 30, 10, 30]), vec![2, 4, 0, 3]);
    assert_eq!(rank_by_score(&vec![]), Vec::<usize>::new());
    assert_eq!(rank_by_score(&vec![0, 0]), Vec::<usize>::new());
}

#[test]
fn field_requests_and_values() {
    let it = item("1", "T");
    assert!(matches!(field_request("totp"), FieldRequest::Totp));
    assert!(matches!(field_request("otp"), FieldRequest::Totp));
    assert!(matches!(field_request("password"), FieldRequest::Password));
    assert!(matches!(field_request("username"), FieldRequest::Username));
    let label = field_request("recovery code");
    assert!(matches!(&label, FieldRequest::Label(l) if l == "recovery code"));
    assert_eq!(value_for(&it, &label), Some("r-e-c"));
    assert_eq!(value_for(&it, &FieldRequest::Password), Some("pw1"));
    assert_eq!(value_for(&it, &FieldRequest::Username), Some("bob"));
    assert_eq!(value_for(&it, &FieldRequest::Totp), None);
    assert_eq!(value_for(&it, &field_request("pin")), None);
}
