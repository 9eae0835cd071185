//! Reading the configuration by a dot-separated key, as the MCP
//! `config_get` tool does: `section` gives a whole section, `section.field`
//! one setting. The two tokens are always shown as `[REDACTED]`.

use vstd::prelude::*;
use crate::config::KagiConfig;
use crate::text::{chars_of, contains_chars, same_text, string_from_chars};

verus! {

/// One setting's value.
#[derive(Debug, Clone)]
pub enum ConfigLeaf {
    Null,
    Bool(bool),
    Number(u32),
    Text(String),
}

/// What a key reads: a whole section (its settings by name, in
/// declaration order) or one setting.
#[derive(Debug, Clone)]
pub enum ConfigEntry {
    Section(Vec<(String, ConfigLeaf)>),
    Leaf(ConfigLeaf),
}

/// What a token is shown as.
pub open spec fn redacted_text() -> Seq<char> {
    "[REDACTED]"@
}

/// `l` shows an optional text: the text, or null.
pub open spec fn shows_opt_text(l: ConfigLeaf, t: Option<String>) -> bool {
    match t {
        Some(s) => l matches ConfigLeaf::Text(x) && x@ == s@,
        None => l is Null,
    }
}

/// `l` shows a text.
pub open spec fn shows_text(l: ConfigLeaf, t: Seq<char>) -> bool {
    l matches ConfigLeaf::Text(x) && x@ == t
}

/// The names of the settings of a section, in declaration order.
pub open spec fn field_names(section: Seq<char>) -> Option<Seq<Seq<char>>> {
    if section == "api"@ {
        Some(seq!["connect_url"@, "connect_token"@, "op_path"@, "service_account_token"@])
    } else if section == "clipboard"@ {
        Some(seq!["clear_timeout_secs"@, "auto_clear"@])
    } else if section == "appearance"@ {
        Some(seq!["background"@, "foreground"@, "accent"@])
    } else {
        None
    }
}

/// `l` is what setting `field` of `section` reads in `c` (the section and
/// setting exist).
pub open spec fn reads(c: KagiConfig, section: Seq<char>, field: Seq<char>, l: ConfigLeaf) -> bool {
    if section == "api"@ {
        if field == "connect_url"@ {
            shows_opt_text(l, c.api.connect_url)
        } else if field == "connect_token"@ || field == "service_account_token"@ {
            shows_text(l, redacted_text())
        } else {
            shows_text(l, c.api.op_path@)
        }
    } else if section == "clipboard"@ {
        if field == "clear_timeout_secs"@ {
            l == ConfigLeaf::Number(c.clipboard.clear_timeout_secs)
        } else {
            l == ConfigLeaf::Bool(c.clipboard.auto_clear)
        }
    } else if field == "background"@ {
        shows_text(l, c.appearance.background@)
    } else if field == "foreground"@ {
        shows_text(l, c.appearance.foreground@)
    } else {
        shows_text(l, c.appearance.accent@)
    }
}

/// `names` includes `field`.
pub open spec fn has_name(names: Seq<Seq<char>>, field: Seq<char>) -> bool {
    exists|i: int| 0 <= i < names.len() && names[i] == field
}

/// The position of the first dot in a key, if any.
pub open spec fn has_dot_at(key: Seq<char>, i: int) -> bool {
    0 <= i < key.len() && key[i] == '.' && forall|j: int| 0 <= j < i ==> key[j] != '.'
}

/// `r` is what `key` reads in `c`: a key without a dot names a section,
/// one with a single dot a section and one of its settings; anything else,
/// and unknown names, read nothing.
pub open spec fn lookup_result(c: KagiConfig, key: Seq<char>, r: Option<ConfigEntry>) -> bool {
    if forall|j: int| 0 <= j < key.len() ==> key[j] != '.' {
        match field_names(key) {
            Some(names) => r matches Some(ConfigEntry::Section(entries)) && entries@.len() == names.len()
                && forall|i: int|
                0 <= i < names.len() ==> (#[trigger] entries@[i]).0@ == names[i] && reads(
                    c,
                    key,
                    names[i],
                    entries@[i].1,
                ),
            None => r is None,
        }
    } else {
        exists|d: int|
            #![trigger has_dot_at(key, d)]
            has_dot_at(key, d) && {
                let section = key.subrange(0, d);
                let field = key.subrange(d + 1, key.len() as int);
                if field_names(section) matches Some(names) && has_name(names, field) && forall|j: int|
                    0 <= j < field.len() ==> field[j] != '.' {
                    r matches Some(ConfigEntry::Leaf(l)) && reads(c, section, field, l)
                } else {
                    r is None
                }
            }
    }
}

/// The section names differ from each other, and so do the setting names
/// of each section.
proof fn lemma_names_differ()
    ensures
        "api"@ != "clipboard"@,
        "api"@ != "appearance"@,
        "clipboard"@ != "appearance"@,
        "connect_url"@ != "connect_token"@,
        "connect_url"@ != "op_path"@,
        "connect_url"@ != "service_account_token"@,
        "connect_token"@ != "op_path"@,
        "connect_token"@ != "service_account_token"@,
        "op_path"@ != "service_account_token"@,
        "clear_timeout_secs"@ != "auto_clear"@,
        "background"@ != "foreground"@,
        "background"@ != "accent"@,
        "foreground"@ != "accent"@,
{
    reveal_strlit("api");
    reveal_strlit("clipboard");
    reveal_strlit("appearance");
    reveal_strlit("connect_url");
    reveal_strlit("connect_token");
    reveal_strlit("op_path");
    reveal_strlit("service_account_token");
    reveal_strlit("clear_timeout_secs");
    reveal_strlit("auto_clear");
    reveal_strlit("background");
    reveal_strlit("foreground");
    reveal_strlit("accent");
    assert("api"@.len() == 3);
    assert("clipboard"@.len() == 9);
    assert("appearance"@.len() == 10);
    assert("connect_url"@.len() == 11);
    assert("connect_token"@.len() == 13);
    assert("op_path"@.len() == 7);
    assert("service_account_token"@.len() == 21);
    assert("clear_timeout_secs"@.len() == 18);
    assert("auto_clear"@.len() == 10);
    assert("foreground"@.len() == 10);
    assert("accent"@.len() == 6);
    assert("background"@[0] != "foreground"@[0]);
}

/// Membership in a list of names, spelled out.
proof fn lemma_has_name(names: Seq<Seq<char>>, field: Seq<char>)
    ensures
        names.len() == 2 ==> (has_name(names, field) <==> (field == names[0] || field == names[1])),
        names.len() == 3 ==> (has_name(names, field) <==> (field == names[0] || field == names[1]
            || field == names[2])),
        names.len() == 4 ==> (has_name(names, field) <==> (field == names[0] || field == names[1]
            || field == names[2] || field == names[3])),
{
    if names.len() >= 2 {
        assert(names[0] == names[0] && names[1] == names[1]);
    }
    if names.len() >= 3 {
        assert(names[2] == names[2]);
    }
    if names.len() >= 4 {
        assert(names[3] == names[3]);
    }
}

fn text_leaf(s: &String) -> (r: ConfigLeaf)
    ensures
        shows_text(r, s@),
{
    ConfigLeaf::Text(s.clone())
}

fn opt_text_leaf(s: &Option<String>) -> (r: ConfigLeaf)
    ensures
        shows_opt_text(r, *s),
{
    match s {
        Some(t) => ConfigLeaf::Text(t.clone()),
        None => ConfigLeaf::Null,
    }
}

fn redacted_leaf() -> (r: ConfigLeaf)
    ensures
        shows_text(r, redacted_text()),
{
    ConfigLeaf::Text("[REDACTED]".to_owned())
}

fn read_api(c: &KagiConfig, field: &str) -> (r: Option<ConfigLeaf>)
    ensures
        if has_name(field_names("api"@)->0, field@) {
            r matches Some(l) && reads(*c, "api"@, field@, l)
        } else {
            r is None
        },
{
    proof {
        lemma_names_differ();
        lemma_has_name(field_names("api"@)->0, field@);
    }
    if same_text(field, "connect_url") {
        Some(opt_text_leaf(&c.api.connect_url))
    } else if same_text(field, "connect_token") {
        Some(redacted_leaf())
    } else if same_text(field, "op_path") {
        Some(text_leaf(&c.api.op_path))
    } else if same_text(field, "service_account_token") {
        Some(redacted_leaf())
    } else {
        None
    }
}

fn read_clipboard(c: &KagiConfig, field: &str) -> (r: Option<ConfigLeaf>)
    ensures
        if has_name(field_names("clipboard"@)->0, field@) {
            r matches Some(l) && reads(*c, "clipboard"@, field@, l)
        } else {
            r is None
        },
{
    proof {
        lemma_names_differ();
        lemma_has_name(field_names("clipboard"@)->0, field@);
    }
    if same_text(field, "clear_timeout_secs") {
        Some(ConfigLeaf::Number(c.clipboard.clear_timeout_secs))
    } else if same_text(field, "auto_clear") {
        Some(ConfigLeaf::Bool(c.clipboard.auto_clear))
    } else {
        None
    }
}

fn read_appearance(c: &KagiConfig, field: &str) -> (r: Option<ConfigLeaf>)
    ensures
        if has_name(field_names("appearance"@)->0, field@) {
            r matches Some(l) && reads(*c, "appearance"@, field@, l)
        } else {
            r is None
        },
{
    proof {
        lemma_names_differ();
        lemma_has_name(field_names("appearance"@)->0, field@);
    }
    if same_text(field, "background") {
        Some(text_leaf(&c.appearance.background))
    } else if same_text(field, "foreground") {
        Some(text_leaf(&c.appearance.foreground))
    } else if same_text(field, "accent") {
        Some(text_leaf(&c.appearance.accent))
    } else {
        None
    }
}

/// The setting `field` of section `section`, when both exist.
fn read_setting(c: &KagiConfig, section: &str, field: &str) -> (r: Option<ConfigLeaf>)
    ensures
        match field_names(section@) {
            Some(names) => if has_name(names, field@) {
                r matches Some(l) && reads(*c, section@, field@, l)
            } else {
                r is None
            },
            None => r is None,
        },
{
    proof {
        lemma_names_differ();
    }
    if same_text(section, "api") {
        read_api(c, field)
    } else if same_text(section, "clipboard") {
        read_clipboard(c, field)
    } else if same_text(section, "appearance") {
        read_appearance(c, field)
    } else {
        None
    }
}

fn entry(name: &str, leaf: ConfigLeaf) -> (r: (String, ConfigLeaf))
    ensures
        r.0@ == name@,
        r.1 == leaf,
{
    (name.to_owned(), leaf)
}

/// The settings of section `section`, when it exists.
fn read_section(c: &KagiConfig, section: &str) -> (r: Option<Vec<(String, ConfigLeaf)>>)
    ensures
        match field_names(section@) {
            Some(names) => r matches Some(entries) && entries@.len() == names.len() && forall|i: int|
                0 <= i < names.len() ==> (#[trigger] entries@[i]).0@ == names[i] && reads(
                    *c,
                    section@,
                    names[i],
                    entries@[i].1,
                ),
            None => r is None,
        },
{
    proof {
        lemma_names_differ();
    }
    if same_text(section, "api") {
        let mut v: Vec<(String, ConfigLeaf)> = Vec::new();
        v.push(entry("connect_url", opt_text_leaf(&c.api.connect_url)));
        v.push(entry("connect_token", redacted_leaf()));
        v.push(entry("op_path", text_leaf(&c.api.op_path)));
        v.push(entry("service_account_token", redacted_leaf()));
        Some(v)
    } else if same_text(section, "clipboard") {
        let mut v: Vec<(String, ConfigLeaf)> = Vec::new();
        v.push(entry("clear_timeout_secs", ConfigLeaf::Number(c.clipboard.clear_timeout_secs)));
        v.push(entry("auto_clear", ConfigLeaf::Bool(c.clipboard.auto_clear)));
        Some(v)
    } else if same_text(section, "appearance") {
        let mut v: Vec<(String, ConfigLeaf)> = Vec::new();
        v.push(entry("background", text_leaf(&c.appearance.background)));
        v.push(entry("foreground", text_leaf(&c.appearance.foreground)));
        v.push(entry("accent", text_leaf(&c.appearance.accent)));
        Some(v)
    } else {
        None
    }
}

fn sub_chars(v: &Vec<char>, from: usize, to: usize) -> (r: Vec<char>)
    requires
        from <= to <= v@.len(),
    ensures
        r@ == v@.subrange(from as int, to as int),
{
    let mut r: Vec<char> = Vec::new();
    let mut i: usize = from;
    while i < to
        invariant
            from <= i <= to,
            to <= v@.len(),
            r@ == v@.subrange(from as int, i as int),
        decreases to - i,
    {
        r.push(v[i]);
        i = i + 1;
        assert(r@ =~= v@.subrange(from as int, i as int));
    }
    r
}

/// Read the configuration by a dot-separated key: a section, or one
/// setting of a section; the tokens read as `[REDACTED]`.
pub fn config_get(config: &KagiConfig, key: &str) -> (r: Option<ConfigEntry>)
    ensures
        lookup_result(*config, key@, r),
{
    let cs = chars_of(key);
    let mut d: usize = 0;
    while d < cs.len() && cs[d] != '.'
        invariant
            d <= cs@.len(),
            cs@ == key@,
            forall|j: int| 0 <= j < d ==> cs@[j] != '.',
        decreases cs@.len() - d,
    {
        d = d + 1;
    }
    if d == cs.len() {
        match read_section(config, key) {
            Some(entries) => Some(ConfigEntry::Section(entries)),
            None => None,
        }
    } else {
        assert(has_dot_at(key@, d as int));
        let section_chars = sub_chars(&cs, 0, d);
        let field_chars = sub_chars(&cs, d + 1, cs.len());
        let mut dot: Vec<char> = Vec::new();
        dot.push('.');
        let nested = contains_chars(&field_chars, &dot);
        proof {
            if !nested {
                assert forall|j: int| 0 <= j < field_chars@.len() implies field_chars@[j] != '.' by {
                    if field_chars@[j] == '.' {
                        assert(field_chars@.subrange(j, j + 1) =~= dot@);
                        assert(crate::text::occurs_at(field_chars@, dot@, j));
                    }
                }
            } else {
                let k = choose|k: int| crate::text::occurs_at(field_chars@, dot@, k);
                assert(field_chars@.subrange(k, k + 1)[0] == '.');
                assert(field_chars@[k] == '.');
            }
        }
        let r = if nested {
            None
        } else {
            let section = string_from_chars(&section_chars);
            let field = string_from_chars(&field_chars);
            match read_setting(config, section.as_str(), field.as_str()) {
                Some(leaf) => Some(ConfigEntry::Leaf(leaf)),
                None => None,
            }
        };
        proof {
            assert forall|e: int| has_dot_at(key@, e) implies e == d as int by {
                if e < d {
                    assert(cs@[e] != '.');
                } else if e > d {
                    assert(key@[d as int] == '.');
                }
            }
        }
        r
    }
}

} // verus!
