use kagibako::clipboard::{linger_secs, secret_copy_mode, CopyMode};
use kagibako::config::{ApiConfig, AppearanceConfig, BackendChoice, ClipboardConfig, KagiConfig};
use kagibako::config_view::{config_get, ConfigEntry, ConfigLeaf};

#[test]
fn config_creates_timeout() {
    let config = ClipboardConfig {
        clear_timeout_secs: 60,
        auto_clear: true,
    };
    assert_eq!(config.clear_timeout_secs, 60);
    assert!(config.auto_clear);
}

#[test]
fn defaults_match_documented_values() {
    let c = KagiConfig::default();
    assert_eq!(c.api.op_path, "op");
    assert!(c.api.connect_url.is_none());
    assert!(c.api.connect_token.is_none());
    assert!(c.api.service_account_token.is_none());
    assert_eq!(c.clipboard.clear_timeout_secs, 30);
    assert!(c.clipboard.auto_clear);
    let a = AppearanceConfig::default();
    assert_eq!(a.background, "#2e3440");
    assert_eq!(a.foreground, "#eceff4");
    assert_eq!(a.accent, "#88c0d0");
}

#[test]
fn copy_mode_follows_auto_clear() {
    let on = ClipboardConfig { clear_timeout_secs: 45, auto_clear: true };
    assert_eq!(secret_copy_mode(&on), CopyMode::AutoClear { after_secs: 45 });
    assert_eq!(linger_secs(&on), Some(46));
    let off = ClipboardConfig { clear_timeout_secs: 45, auto_clear: false };
    assert_eq!(secret_copy_mode(&off), CopyMode::Persistent);
    assert_eq!(linger_secs(&off), None);
}

#[test]
fn backend_choice_needs_url_and_token() {
    let mut api = ApiConfig::default();
    assert!(matches!(api.backend_choice(), BackendChoice::Cli { .. }));
    assert_eq!(api.backend_label(), "op-cli");
    api.connect_url = Some("https://connect.example".into());
    assert!(matches!(api.backend_choice(), BackendChoice::Cli { .. }));
    api.connect_token = Some("tok".into());
    match api.backend_choice() {
        BackendChoice::Connect { url, token } => {
            assert_eq!(url, "https://connect.example");
            assert_eq!(token, "tok");
        }
        BackendChoice::Cli { .. } => panic!("expected the Connect backend"),
    }
    assert_eq!(api.backend_label(), "connect");
}

fn leaf_text(e: Option<ConfigEntry>) -> Option<String> {
    match e {
        Some(ConfigEntry::Leaf(ConfigLeaf::Text(t))) => Some(t),
        _ => None,
    }
}

#[test]
fn config_get_reads_settings_and_hides_tokens() {
    let mut c = KagiConfig::default();
    c.api.connect_token = Some("very-secret".into());
    c.api.service_account_token = Some("ops_abc".into());
    assert_eq!(leaf_text(config_get(&c, "api.op_path")).as_deref(), Some("op"));
    assert_eq!(leaf_text(config_get(&c, "api.connect_token")).as_deref(), Some("[REDACTED]"));
    assert_eq!(leaf_text(config_get(&c, "api.service_account_token")).as_deref(), Some("[REDACTED]"));
    assert!(matches!(
        config_get(&c, "clipboard.clear_timeout_secs"),
        Some(ConfigEntry::Leaf(ConfigLeaf::Number(30)))
    ));
    assert!(matches!(config_get(&c, "clipboard.auto_clear"), Some(ConfigEntry::Leaf(ConfigLeaf::Bool(true)))));
    assert!(matches!(config_get(&c, "api.connect_url"), Some(ConfigEntry::Leaf(ConfigLeaf::Null))));
    assert!(config_get(&c, "api.nope").is_none());
    assert!(config_get(&c, "nope").is_none());
    assert!(config_get(&c, "api.op_path.more").is_none());
}

#[test]
fn config_get_section_lists_settings_in_order() {
    let c = KagiConfig::default();
    match config_get(&c, "appearance") {
        Some(ConfigEntry::Section(entries)) => {
            let names: Vec<&str> = entries.iter().map(|(n, _)| n.as_str()).collect();
            assert_eq!(names, vec!["background", "foreground", "accent"]);
        }
        _ => panic!("expected a section"),
    }
    match config_get(&c, "api") {
        Some(ConfigEntry::Section(entries)) => {
            assert_eq!(entries.len(), 4);
            assert!(matches!(entries[0].1, ConfigLeaf::Null));
            assert!(matches!(&entries[1].1, ConfigLeaf::Text(t) if t == "[REDACTED]"));
        }
        _ => panic!("expected a section"),
    }
}
