use kagibako::api::{
    bearer_value, connect_base_url, field_from_op, item_url, items_url, vaults_url, OpCliBackend, OpField, OpItem,
    OpItemVault, OpUrl, VaultListing,
};
use kagibako::vault::{FieldPurpose, FieldType, Item, ItemCategory, Vault};

fn op_field(purpose: Option<&str>, ty: Option<&str>, value: Option<&str>) -> OpField {
    OpField {
        id: "f".into(),
        label: "l".into(),
        value: value.map(String::from),
        purpose: purpose.map(String::from),
        field_type: ty.map(String::from),
    }
}

#[test]
fn op_item_converts_with_upper_cased_names() {
    let op = OpItem {
        id: "i1".into(),
        title: "GitHub".into(),
        vault: OpItemVault { id: "v1".into() },
        category: "login".into(),
        urls: vec![OpUrl { href: "https://github.com".into(), primary: true }],
        fields: vec![op_field(Some("password"), Some("CONCEALED"), Some("pw")), op_field(None, None, None)],
        tags: vec!["dev".into()],
        favorite: true,
    };
    let item = Item::from_op(&op);
    assert_eq!(item.id, "i1");
    assert_eq!(item.vault_id, "v1");
    assert_eq!(item.category, ItemCategory::Login);
    assert_eq!(item.urls.len(), 1);
    assert_eq!(item.fields[0].purpose, Some(FieldPurpose::Password));
    assert_eq!(item.fields[0].field_type, FieldType::Concealed);
    assert_eq!(item.fields[0].value.as_str(), "pw");
    assert_eq!(item.fields[1].purpose, None);
    assert_eq!(item.fields[1].field_type, FieldType::String);
    assert_eq!(item.fields[1].value.as_str(), "");
    assert_eq!(item.password(), Some("pw"));
    assert_eq!(item.tags, vec!["dev".to_string()]);
    assert!(item.favorite);
}

#[test]
fn op_names_map_to_variants() {
    let cats = [
        ("secure_note", ItemCategory::SecureNote),
        ("Credit_Card", ItemCategory::CreditCard),
        ("API_CREDENTIAL", ItemCategory::ApiCredential),
        ("ssh_key", ItemCategory::SshKey),
        ("wifi", ItemCategory::Unknown),
    ];
    for (name, cat) in cats {
        let op = OpItem {
            id: "i".into(),
            title: "t".into(),
            vault: OpItemVault { id: "v".into() },
            category: name.into(),
            urls: vec![],
            fields: vec![],
            tags: vec![],
            favorite: false,
        };
        assert_eq!(Item::from_op(&op).category, cat);
    }
    assert_eq!(field_from_op(&op_field(Some("Username"), None, None)).purpose, Some(FieldPurpose::Username));
    assert_eq!(field_from_op(&op_field(Some("notes"), None, None)).purpose, Some(FieldPurpose::Notes));
    assert_eq!(field_from_op(&op_field(Some("whatever"), None, None)).purpose, Some(FieldPurpose::Other));
    assert_eq!(field_from_op(&op_field(None, Some("OTP"), None)).field_type, FieldType::Otp);
    assert_eq!(field_from_op(&op_field(None, Some("otp"), None)).field_type, FieldType::String);
    assert_eq!(field_from_op(&op_field(None, Some("EMAIL"), None)).field_type, FieldType::Email);
}

#[test]
fn vault_listing_defaults_missing_count() {
    let with = VaultListing { id: "v".into(), name: "N".into(), description: Some("d".into()), items: Some(4) };
    let without = VaultListing { id: "v".into(), name: "N".into(), description: None, items: None };
    assert_eq!(Vault::from_listing(&with).items, 4);
    assert_eq!(Vault::from_listing(&with).description.as_deref(), Some("d"));
    assert_eq!(Vault::from_listing(&without).items, 0);
}

#[test]
fn cli_command_lines() {
    let b = OpCliBackend::new("/usr/bin/op", Some("ops_tok"));
    assert_eq!(b.op_path(), "/usr/bin/op");
    assert_eq!(b.list_vaults_args(), vec!["vault", "list", "--format=json"]);
    assert_eq!(b.list_items_args("v1"), vec!["item", "list", "--vault", "v1", "--format=json"]);
    assert_eq!(b.get_item_args("v1", "i1"), vec!["item", "get", "i1", "--vault", "v1", "--format=json"]);
    assert_eq!(
        b.get_totp_args("v1", "i1"),
        vec!["item", "get", "i1", "--otp", "--vault", "v1", "--format=json"]
    );
    assert_eq!(b.command_env(), vec![("OP_SERVICE_ACCOUNT_TOKEN".to_string(), "ops_tok".to_string())]);
    assert!(OpCliBackend::new("op", None).command_env().is_empty());
}

#[test]
fn connect_urls() {
    assert_eq!(connect_base_url("https://c.example//"), "https://c.example");
    assert_eq!(connect_base_url("https://c.example"), "https://c.example");
    let base = connect_base_url("https://c.example/");
    assert_eq!(vaults_url(&base), "https://c.example/v1/vaults");
    assert_eq!(items_url(&base, "v1"), "https://c.example/v1/vaults/v1/items");
    assert_eq!(item_url(&base, "v1", "i9"), "https://c.example/v1/vaults/v1/items/i9");
    assert_eq!(bearer_value("abc"), "Bearer abc");
}

#[test]
fn category_names_read_back() {
    let all = [
        ItemCategory::Login,
        ItemCategory::Password,
        ItemCategory::SecureNote,
        ItemCategory::CreditCard,
        ItemCategory::Identity,
        ItemCategory::Document,
        ItemCategory::SshKey,
        ItemCategory::ApiCredential,
        ItemCategory::Database,
        ItemCategory::Unknown,
    ];
    for c in all {
        let op = OpItem {
            id: "i".into(),
            title: "t".into(),
            vault: OpItemVault { id: "v".into() },
            category: c.json_name().into(),
            urls: vec![],
            fields: vec![],
            tags: vec![],
            favorite: false,
        };
        assert_eq!(Item::from_op(&op).category, c);
    }
}

#[test]
fn bearer_header_accepts_only_header_text() {
    assert_eq!(kagibako::api::bearer_header("abc.DEF-123"), Some("Bearer abc.DEF-123".to_string()));
    assert_eq!(kagibako::api::bearer_header("tab\there"), Some("Bearer tab\there".to_string()));
    assert_eq!(kagibako::api::bearer_header("ünïcode"), Some("Bearer ünïcode".to_string()));
    assert_eq!(kagibako::api::bearer_header("new\nline"), None);
    assert_eq!(kagibako::api::bearer_header("del\u{7f}"), None);
    assert_eq!(kagibako::api::bearer_header("nul\0"), None);
    for token in ["abc", "t\tx", "é", "a\nb", "\u{7f}", "\u{1f}x"] {
        let ours = kagibako::api::bearer_header(token).is_some();
        let http = reqwest::header::HeaderValue::from_str(&format!("Bearer {token}")).is_ok();
        assert_eq!(ours, http, "token {token:?}");
    }
}
