use kagibako::vault::{
    Field, FieldPurpose, FieldType, Item, ItemCategory, ItemSummary, ItemUrl, SecretValue, Vault,
};

fn test_item() -> Item {
    Item {
        id: "abc123".into(),
        title: "GitHub".into(),
        vault_id: "vault1".into(),
        category: ItemCategory::Login,
        urls: vec![ItemUrl {
            href: "https://github.com".into(),
            primary: true,
        }],
        fields: vec![
            Field {
                id: "f1".into(),
                label: "username".into(),
                value: SecretValue::new("user@example.com"),
                purpose: Some(FieldPurpose::Username),
                field_type: FieldType::String,
            },
            Field {
                id: "f2".into(),
                label: "password".into(),
                value: SecretValue::new("super-secret-pw"),
                purpose: Some(FieldPurpose::Password),
                field_type: FieldType::Concealed,
            },
        ],
        tags: vec!["dev".into()],
        favorite: true,
        last_edited_by: None,
        created_at: None,
        updated_at: None,
    }
}

#[test]
fn field_by_purpose() {
    let item = test_item();
    assert_eq!(item.username(), Some("user@example.com"));
    assert_eq!(item.password(), Some("super-secret-pw"));
}

#[test]
fn field_by_label() {
    let item = test_item();
    let f = item.field_by_label("Password").unwrap();
    assert_eq!(f.value.as_str(), "super-secret-pw");
}

#[test]
fn primary_url() {
    let item = test_item();
    assert_eq!(item.primary_url(), Some("https://github.com"));
}

#[test]
fn matches_title() {
    let item = test_item();
    assert!(item.matches("github"));
    assert!(item.matches("Git"));
    assert!(!item.matches("gitlab"));
}

#[test]
fn matches_url() {
    let item = test_item();
    assert!(item.matches("github.com"));
}

#[test]
fn matches_username() {
    let item = test_item();
    assert!(item.matches("user@example"));
}

#[test]
fn matches_tag() {
    let item = test_item();
    assert!(item.matches("dev"));
}

#[test]
fn secret_value_debug_redacted() {
    let sv = SecretValue::new("secret");
    assert_eq!(sv.redacted(), "[REDACTED]");
    assert_eq!(sv.redacted(), "[REDACTED]");
    assert_eq!(sv.as_str(), "secret");
}

#[test]
fn item_summary_from_item() {
    let item = test_item();
    let summary = ItemSummary::from(&item);
    assert_eq!(summary.title, "GitHub");
    assert_eq!(summary.username.as_deref(), Some("user@example.com"));
    assert!(summary.favorite);
}

#[test]
fn field_by_purpose_absent_and_first_wins() {
    let mut item = test_item();
    assert!(item.field_by_purpose(FieldPurpose::Notes).is_none());
    item.fields.push(Field {
        id: "f3".into(),
        label: "second".into(),
        value: SecretValue::new("other"),
        purpose: Some(FieldPurpose::Password),
        field_type: FieldType::Concealed,
    });
    assert_eq!(item.password(), Some("super-secret-pw"));
    assert_eq!(item.field_by_purpose(FieldPurpose::Password).unwrap().id, "f2");
}

#[test]
fn field_by_label_any_case_and_missing() {
    let item = test_item();
    assert_eq!(item.field_by_label("USERNAME").unwrap().id, "f1");
    assert_eq!(item.field_by_label("username").unwrap().id, "f1");
    assert!(item.field_by_label("pin").is_none());
}

#[test]
fn primary_url_falls_back_to_first() {
    let mut item = test_item();
    item.urls = vec![
        ItemUrl { href: "https://a.example".into(), primary: false },
        ItemUrl { href: "https://b.example".into(), primary: false },
    ];
    assert_eq!(item.primary_url(), Some("https://a.example"));
    item.urls[1].primary = true;
    assert_eq!(item.primary_url(), Some("https://b.example"));
    item.urls.clear();
    assert_eq!(item.primary_url(), None);
}

#[test]
fn fuzzy_score_tiers() {
    let item = test_item();
    assert_eq!(item.fuzzy_score("GITHUB"), 100);
    assert_eq!(item.fuzzy_score("git"), 75);
    assert_eq!(item.fuzzy_score("hub"), 50);
    assert_eq!(item.fuzzy_score("github.com"), 30);
    assert_eq!(item.fuzzy_score("example"), 20);
    assert_eq!(item.fuzzy_score("dev"), 10);
    assert_eq!(item.fuzzy_score("gitlab"), 0);
}

#[test]
fn fuzzy_score_positive_exactly_when_matching() {
    let item = test_item();
    for q in ["github", "Git", "gitlab", "github.com", "user@example", "dev", "zzz", "HUB"] {
        assert_eq!(item.fuzzy_score(q) > 0, item.matches(q));
    }
}

#[test]
fn matches_non_ascii_title_lowercased() {
    let mut item = test_item();
    item.title = "ÄPFEL".into();
    assert!(item.matches("äpfel"));
    assert_eq!(item.fuzzy_score("äpfel"), 100);
}

#[test]
fn has_otp_detects_otp_fields() {
    let mut item = test_item();
    assert!(!item.has_otp());
    item.fields.push(Field {
        id: "f9".into(),
        label: "one-time password".into(),
        value: SecretValue::new("otpauth://totp/x"),
        purpose: None,
        field_type: FieldType::Otp,
    });
    assert!(item.has_otp());
}

#[test]
fn summary_with_vault_name() {
    let mut item = test_item();
    item.fields.push(Field {
        id: "f9".into(),
        label: "otp".into(),
        value: SecretValue::new("x"),
        purpose: None,
        field_type: FieldType::Otp,
    });
    let s = ItemSummary::from_item_with_vault(&item, "Personal");
    assert_eq!(s.id, "abc123");
    assert_eq!(s.vault_id, "vault1");
    assert_eq!(s.vault_name, "Personal");
    assert_eq!(s.url.as_deref(), Some("https://github.com"));
    assert!(s.has_totp);
    let plain = ItemSummary::from(&test_item());
    assert_eq!(plain.vault_name, "");
    assert!(!plain.has_totp);
}

#[test]
fn category_and_field_type_names() {
    assert_eq!(ItemCategory::SecureNote.label(), "Secure Note");
    assert_eq!(ItemCategory::SshKey.label(), "SSH Key");
    assert_eq!(ItemCategory::ApiCredential.label(), "API Credential");
    assert_eq!(FieldType::Concealed.name(), "Concealed");
    let v = Vault { id: "v".into(), name: "n".into(), description: None, items: 2 };
    assert_eq!(v.items, 2);
}

#[test]
fn secret_value_empty_and_default() {
    assert!(SecretValue::default().is_empty());
    assert!(!SecretValue::new("x").is_empty());
    assert_eq!(SecretValue::default().as_str(), "");
}

#[test]
fn category_json_names() {
    assert_eq!(ItemCategory::Login.json_name(), "LOGIN");
    assert_eq!(ItemCategory::SecureNote.json_name(), "SECURE_NOTE");
    assert_eq!(ItemCategory::ApiCredential.json_name(), "API_CREDENTIAL");
    assert_eq!(ItemCategory::Unknown.json_name(), "UNKNOWN");
}
