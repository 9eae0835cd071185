//! Vault and item models matching 1Password's data model, field lookup,
//! search matching and scoring, and item summaries.
//!
//! Secret values never appear in debug output: `SecretValue`, `Field` and
//! `Item` have no `Debug` implementation at all.

use vstd::prelude::*;
use crate::find::{first_index, lemma_first_index_at, lemma_first_index_none};
use crate::text::{
    chars_equal, chars_of, contains_chars, contains_seq, lowercase, occurs_at, starts_with_chars,
    starts_with_seq, to_lowercase,
};

verus! {

/// A 1Password vault.
#[derive(Debug, Clone)]
pub struct Vault {
    pub id: String,
    pub name: String,
    pub description: Option<String>,
    pub items: u32,
}

/// Item category (1Password item types).
#[derive(Debug, Clone, Copy, PartialEq, Eq, Structural)]
pub enum ItemCategory {
    Login,
    Password,
    SecureNote,
    CreditCard,
    Identity,
    Document,
    SshKey,
    ApiCredential,
    Database,
    Unknown,
}

impl ItemCategory {
    /// The human-readable name of a category.
    pub open spec fn label_text(self) -> Seq<char> {
        match self {
            ItemCategory::Login => "Login"@,
            ItemCategory::Password => "Password"@,
            ItemCategory::SecureNote => "Secure Note"@,
            ItemCategory::CreditCard => "Credit Card"@,
            ItemCategory::Identity => "Identity"@,
            ItemCategory::Document => "Document"@,
            ItemCategory::SshKey => "SSH Key"@,
            ItemCategory::ApiCredential => "API Credential"@,
            ItemCategory::Database => "Database"@,
            ItemCategory::Unknown => "Unknown"@,
        }
    }

    /// The category's name in 1Password's JSON (upper snake case).
    pub open spec fn json_name_text(self) -> Seq<char> {
        match self {
            ItemCategory::Login => "LOGIN"@,
            ItemCategory::Password => "PASSWORD"@,
            ItemCategory::SecureNote => "SECURE_NOTE"@,
            ItemCategory::CreditCard => "CREDIT_CARD"@,
            ItemCategory::Identity => "IDENTITY"@,
            ItemCategory::Document => "DOCUMENT"@,
            ItemCategory::SshKey => "SSH_KEY"@,
            ItemCategory::ApiCredential => "API_CREDENTIAL"@,
            ItemCategory::Database => "DATABASE"@,
            ItemCategory::Unknown => "UNKNOWN"@,
        }
    }

    /// The category's name in 1Password's JSON.
    pub fn json_name(&self) -> (r: &'static str)
        ensures
            r@ == self.json_name_text(),
    {
        match self {
            ItemCategory::Login => "LOGIN",
            ItemCategory::Password => "PASSWORD",
            ItemCategory::SecureNote => "SECURE_NOTE",
            ItemCategory::CreditCard => "CREDIT_CARD",
            ItemCategory::Identity => "IDENTITY",
            ItemCategory::Document => "DOCUMENT",
            ItemCategory::SshKey => "SSH_KEY",
            ItemCategory::ApiCredential => "API_CREDENTIAL",
            ItemCategory::Database => "DATABASE",
            ItemCategory::Unknown => "UNKNOWN",
        }
    }

    /// The human-readable name of the category, as it is displayed.
    pub fn label(&self) -> (r: &'static str)
        ensures
            r@ == self.label_text(),
    {
        match self {
            ItemCategory::Login => "Login",
            ItemCategory::Password => "Password",
            ItemCategory::SecureNote => "Secure Note",
            ItemCategory::CreditCard => "Credit Card",
            ItemCategory::Identity => "Identity",
            ItemCategory::Document => "Document",
            ItemCategory::SshKey => "SSH Key",
            ItemCategory::ApiCredential => "API Credential",
            ItemCategory::Database => "Database",
            ItemCategory::Unknown => "Unknown",
        }
    }
}

/// A URL associated with an item.
#[derive(Debug)]
pub struct ItemUrl {
    pub href: String,
    pub primary: bool,
}

impl Clone for ItemUrl {
    fn clone(&self) -> (r: Self)
        ensures
            r == *self,
    {
        ItemUrl { href: self.href.clone(), primary: self.primary }
    }
}

/// Field purpose (1Password standard fields).
#[derive(Debug, Clone, Copy, PartialEq, Eq, Structural)]
pub enum FieldPurpose {
    Username,
    Password,
    Notes,
    Other,
}

/// Field type.
#[derive(Debug, Clone, Copy, PartialEq, Eq, Structural)]
pub enum FieldType {
    String,
    Concealed,
    Email,
    Url,
    Otp,
    Date,
    MonthYear,
    Unknown,
}

impl Default for FieldType {
    fn default() -> (r: Self)
        ensures
            r == FieldType::String,
    {
        FieldType::String
    }
}

impl FieldType {
    /// The variant's name, as `{:?}` prints it.
    pub open spec fn name_text(self) -> Seq<char> {
        match self {
            FieldType::String => "String"@,
            FieldType::Concealed => "Concealed"@,
            FieldType::Email => "Email"@,
            FieldType::Url => "Url"@,
            FieldType::Otp => "Otp"@,
            FieldType::Date => "Date"@,
            FieldType::MonthYear => "MonthYear"@,
            FieldType::Unknown => "Unknown"@,
        }
    }

    /// The variant's name.
    pub fn name(&self) -> (r: &'static str)
        ensures
            r@ == self.name_text(),
    {
        match self {
            FieldType::String => "String",
            FieldType::Concealed => "Concealed",
            FieldType::Email => "Email",
            FieldType::Url => "Url",
            FieldType::Otp => "Otp",
            FieldType::Date => "Date",
            FieldType::MonthYear => "MonthYear",
            FieldType::Unknown => "Unknown",
        }
    }
}

/// A secret value. It has no `Debug` or `Display`: the only way to see the
/// secret is `as_str`, and `redacted` is what stands in for it in output.
pub struct SecretValue(String);

impl View for SecretValue {
    type V = Seq<char>;

    closed spec fn view(&self) -> Seq<char> {
        self.0@
    }
}

impl Clone for SecretValue {
    fn clone(&self) -> (r: Self)
        ensures
            r == *self,
    {
        SecretValue(self.0.clone())
    }
}

impl Default for SecretValue {
    fn default() -> (r: Self)
        ensures
            r@ == Seq::<char>::empty(),
    {
        SecretValue(String::new())
    }
}

impl SecretValue {
    /// Wraps `value` as a secret.
    pub fn new(value: &str) -> (r: Self)
        ensures
            r@ == value@,
    {
        SecretValue(value.to_owned())
    }

    /// The secret's text.
    pub fn as_str(&self) -> (r: &str)
        ensures
            r@ == self@,
    {
        self.0.as_str()
    }

    /// Whether the secret is the empty string.
    pub fn is_empty(&self) -> (r: bool)
        ensures
            r == (self@.len() == 0),
    {
        self.0.as_str().is_empty()
    }

    /// The text that stands for a secret in any output.
    pub fn redacted(&self) -> (r: &'static str)
        ensures
            r@ == "[REDACTED]"@,
    {
        "[REDACTED]"
    }
}

/// An item field (username, password, TOTP, etc).
pub struct Field {
    pub id: String,
    pub label: String,
    pub value: SecretValue,
    pub purpose: Option<FieldPurpose>,
    pub field_type: FieldType,
}

impl Clone for Field {
    fn clone(&self) -> (r: Self)
        ensures
            r == *self,
    {
        Field {
            id: self.id.clone(),
            label: self.label.clone(),
            value: self.value.clone(),
            purpose: self.purpose,
            field_type: self.field_type,
        }
    }
}

/// Fields whose purpose is `p`.
pub open spec fn has_purpose(p: FieldPurpose) -> spec_fn(Field) -> bool {
    |f: Field| f.purpose == Some(p)
}

/// Fields whose label equals `label` once both are lower-cased.
pub open spec fn label_is(label: Seq<char>) -> spec_fn(Field) -> bool {
    |f: Field| lowercase(f.label@) == lowercase(label)
}

/// URLs marked primary.
pub open spec fn is_primary() -> spec_fn(ItemUrl) -> bool {
    |u: ItemUrl| u.primary
}

/// The characters of an optional borrowed string.
pub open spec fn opt_text(o: Option<&str>) -> Option<Seq<char>> {
    match o {
        Some(s) => Some(s@),
        None => None,
    }
}

/// The characters of an optional owned string.
pub open spec fn opt_string_text(o: Option<String>) -> Option<Seq<char>> {
    match o {
        Some(s) => Some(s@),
        None => None,
    }
}

/// `q` (already lower-cased) occurs in `text` once `text` is lower-cased.
pub open spec fn text_matches(text: Seq<char>, q: Seq<char>) -> bool {
    contains_seq(lowercase(text), q)
}

impl Field {
    /// Whether the field's purpose is `p`.
    pub fn purpose_is(&self, p: FieldPurpose) -> (r: bool)
        ensures
            r == has_purpose(p)(*self),
    {
        match self.purpose {
            Some(q) => q == p,
            None => false,
        }
    }
}

/// A 1Password item (login, note, identity, etc).
pub struct Item {
    pub id: String,
    pub title: String,
    pub vault_id: String,
    pub category: ItemCategory,
    pub urls: Vec<ItemUrl>,
    pub fields: Vec<Field>,
    pub tags: Vec<String>,
    pub favorite: bool,
    pub last_edited_by: Option<String>,
    pub created_at: Option<String>,
    pub updated_at: Option<String>,
}

/// A copy of an optional string.
pub fn clone_opt_string(o: &Option<String>) -> (r: Option<String>)
    ensures
        r == *o,
{
    match o {
        Some(s) => Some(s.clone()),
        None => None,
    }
}

/// A copy of a list of strings.
pub fn clone_strings(v: &Vec<String>) -> (r: Vec<String>)
    ensures
        r@ == v@,
{
    let mut r: Vec<String> = Vec::new();
    let mut i: usize = 0;
    while i < v.len()
        invariant
            i <= v@.len(),
            r@ == v@.subrange(0, i as int),
        decreases v@.len() - i,
    {
        r.push(v[i].clone());
        i = i + 1;
        assert(r@ =~= v@.subrange(0, i as int));
    }
    assert(r@ =~= v@);
    r
}

fn clone_urls(v: &Vec<ItemUrl>) -> (r: Vec<ItemUrl>)
    ensures
        r@ == v@,
{
    let mut r: Vec<ItemUrl> = Vec::new();
    let mut i: usize = 0;
    while i < v.len()
        invariant
            i <= v@.len(),
            r@ == v@.subrange(0, i as int),
        decreases v@.len() - i,
    {
        r.push(v[i].clone());
        i = i + 1;
        assert(r@ =~= v@.subrange(0, i as int));
    }
    assert(r@ =~= v@);
    r
}

fn clone_fields(v: &Vec<Field>) -> (r: Vec<Field>)
    ensures
        r@ == v@,
{
    let mut r: Vec<Field> = Vec::new();
    let mut i: usize = 0;
    while i < v.len()
        invariant
            i <= v@.len(),
            r@ == v@.subrange(0, i as int),
        decreases v@.len() - i,
    {
        r.push(v[i].clone());
        i = i + 1;
        assert(r@ =~= v@.subrange(0, i as int));
    }
    assert(r@ =~= v@);
    r
}

impl Clone for Item {
    fn clone(&self) -> (r: Self)
        ensures
            r.same_as(*self),
    {
        Item {
            id: self.id.clone(),
            title: self.title.clone(),
            vault_id: self.vault_id.clone(),
            category: self.category,
            urls: clone_urls(&self.urls),
            fields: clone_fields(&self.fields),
            tags: clone_strings(&self.tags),
            favorite: self.favorite,
            last_edited_by: clone_opt_string(&self.last_edited_by),
            created_at: clone_opt_string(&self.created_at),
            updated_at: clone_opt_string(&self.updated_at),
        }
    }
}

/// Scores of `Item::fuzzy_score`, by where the query was found.
pub const SCORE_TITLE_EXACT: u32 = 100;
pub const SCORE_TITLE_PREFIX: u32 = 75;
pub const SCORE_TITLE_CONTAINS: u32 = 50;
pub const SCORE_URL: u32 = 30;
pub const SCORE_USERNAME: u32 = 20;
pub const SCORE_TAG: u32 = 10;

impl Item {
    /// Two items hold the same values, field by field.
    pub open spec fn same_as(self, other: Item) -> bool {
        &&& self.id == other.id
        &&& self.title == other.title
        &&& self.vault_id == other.vault_id
        &&& self.category == other.category
        &&& self.urls@ == other.urls@
        &&& self.fields@ == other.fields@
        &&& self.tags@ == other.tags@
        &&& self.favorite == other.favorite
        &&& self.last_edited_by == other.last_edited_by
        &&& self.created_at == other.created_at
        &&& self.updated_at == other.updated_at
    }

    /// The value of the field at an optional index.
    pub open spec fn value_at(self, idx: Option<int>) -> Option<Seq<char>> {
        match idx {
            Some(i) => Some(self.fields@[i].value@),
            None => None,
        }
    }

    /// The value of the first field whose purpose is `Username`.
    pub open spec fn username_text(self) -> Option<Seq<char>> {
        self.value_at(first_index(self.fields@, has_purpose(FieldPurpose::Username)))
    }

    /// The value of the first field whose purpose is `Password`.
    pub open spec fn password_text(self) -> Option<Seq<char>> {
        self.value_at(first_index(self.fields@, has_purpose(FieldPurpose::Password)))
    }

    /// The index of the primary URL: the first URL marked primary, else the
    /// first URL, else none.
    pub open spec fn primary_url_index(self) -> Option<int> {
        match first_index(self.urls@, is_primary()) {
            Some(i) => Some(i),
            None => if self.urls@.len() > 0 {
                Some(0)
            } else {
                None
            },
        }
    }

    /// The text of the primary URL.
    pub open spec fn primary_url_text(self) -> Option<Seq<char>> {
        match self.primary_url_index() {
            Some(i) => Some(self.urls@[i].href@),
            None => None,
        }
    }

    /// Some URL contains the lower-cased query `q`, ignoring case.
    pub open spec fn url_matches(self, q: Seq<char>) -> bool {
        exists|i: int| 0 <= i < self.urls@.len() && text_matches(#[trigger] self.urls@[i].href@, q)
    }

    /// The username contains the lower-cased query `q`, ignoring case.
    pub open spec fn username_matches(self, q: Seq<char>) -> bool {
        match self.username_text() {
            Some(u) => text_matches(u, q),
            None => false,
        }
    }

    /// Some tag contains the lower-cased query `q`, ignoring case.
    pub open spec fn tag_matches(self, q: Seq<char>) -> bool {
        exists|i: int| 0 <= i < self.tags@.len() && text_matches(#[trigger] self.tags@[i]@, q)
    }

    /// The item matches a search query: the lower-cased query occurs in the
    /// lower-cased title, some URL, the username or some tag.
    pub open spec fn matches_query(self, query: Seq<char>) -> bool {
        let q = lowercase(query);
        ||| text_matches(self.title@, q)
        ||| self.url_matches(q)
        ||| self.username_matches(q)
        ||| self.tag_matches(q)
    }

    /// The relevance of the item for a query: by the best place the
    /// lower-cased query is found (title equal, title prefix, title, URL,
    /// username, tag), or 0 when it is found nowhere.
    pub open spec fn score_for(self, query: Seq<char>) -> u32 {
        let q = lowercase(query);
        let t = lowercase(self.title@);
        if t == q {
            SCORE_TITLE_EXACT
        } else if starts_with_seq(t, q) {
            SCORE_TITLE_PREFIX
        } else if contains_seq(t, q) {
            SCORE_TITLE_CONTAINS
        } else if self.url_matches(q) {
            SCORE_URL
        } else if self.username_matches(q) {
            SCORE_USERNAME
        } else if self.tag_matches(q) {
            SCORE_TAG
        } else {
            0
        }
    }

    /// Some field is a one-time-password field.
    pub open spec fn has_otp_field(self) -> bool {
        exists|i: int| 0 <= i < self.fields@.len() && (#[trigger] self.fields@[i]).field_type == FieldType::Otp
    }

    /// Find a field by purpose.
    pub fn field_by_purpose(&self, purpose: FieldPurpose) -> (r: Option<&Field>)
        ensures
            match first_index(self.fields@, has_purpose(purpose)) {
                Some(i) => r == Some(&self.fields@[i]),
                None => r is None,
            },
    {
        let mut i: usize = 0;
        while i < self.fields.len()
            invariant
                i <= self.fields@.len(),
                forall|j: int| 0 <= j < i ==> !has_purpose(purpose)(#[trigger] self.fields@[j]),
            decreases self.fields@.len() - i,
        {
            if self.fields[i].purpose_is(purpose) {
                proof {
                    lemma_first_index_at(self.fields@, has_purpose(purpose), i as int);
                }
                return Some(&self.fields[i]);
            }
            i = i + 1;
        }
        proof {
            lemma_first_index_none(self.fields@, has_purpose(purpose));
        }
        None
    }

    /// Find a field by label (case-insensitive).
    pub fn field_by_label(&self, label: &str) -> (r: Option<&Field>)
        ensures
            match first_index(self.fields@, label_is(label@)) {
                Some(i) => r == Some(&self.fields@[i]),
                None => r is None,
            },
    {
        let lower = to_lowercase(label);
        let want = chars_of(lower.as_str());
        let mut i: usize = 0;
        while i < self.fields.len()
            invariant
                i <= self.fields@.len(),
                want@ == lowercase(label@),
                forall|j: int| 0 <= j < i ==> !label_is(label@)(#[trigger] self.fields@[j]),
            decreases self.fields@.len() - i,
        {
            let fl = to_lowercase(self.fields[i].label.as_str());
            let have = chars_of(fl.as_str());
            if chars_equal(&have, &want) {
                proof {
                    lemma_first_index_at(self.fields@, label_is(label@), i as int);
                }
                return Some(&self.fields[i]);
            }
            i = i + 1;
        }
        proof {
            lemma_first_index_none(self.fields@, label_is(label@));
        }
        None
    }

    /// Get the password field value.
    pub fn password(&self) -> (r: Option<&str>)
        ensures
            opt_text(r) == self.password_text(),
    {
        match self.field_by_purpose(FieldPurpose::Password) {
            Some(f) => Some(f.value.as_str()),
            None => None,
        }
    }

    /// Get the username field value.
    pub fn username(&self) -> (r: Option<&str>)
        ensures
            opt_text(r) == self.username_text(),
    {
        match self.field_by_purpose(FieldPurpose::Username) {
            Some(f) => Some(f.value.as_str()),
            None => None,
        }
    }

    /// The index of the primary URL, as `primary_url_index` describes it.
    fn primary_url_position(&self) -> (r: Option<usize>)
        ensures
            match r {
                Some(i) => self.primary_url_index() == Some(i as int),
                None => self.primary_url_index() is None,
            },
    {
        let mut i: usize = 0;
        while i < self.urls.len()
            invariant
                i <= self.urls@.len(),
                forall|j: int| 0 <= j < i ==> !is_primary()(#[trigger] self.urls@[j]),
            decreases self.urls@.len() - i,
        {
            if self.urls[i].primary {
                proof {
                    lemma_first_index_at(self.urls@, is_primary(), i as int);
                }
                return Some(i);
            }
            i = i + 1;
        }
        proof {
            lemma_first_index_none(self.urls@, is_primary());
        }
        if self.urls.len() > 0 {
            Some(0)
        } else {
            None
        }
    }

    /// Get the primary URL.
    pub fn primary_url(&self) -> (r: Option<&str>)
        ensures
            opt_text(r) == self.primary_url_text(),
    {
        match self.primary_url_position() {
            Some(i) => Some(self.urls[i].href.as_str()),
            None => None,
        }
    }

    fn any_url_matches(&self, q: &Vec<char>) -> (r: bool)
        ensures
            r == self.url_matches(q@),
    {
        let mut i: usize = 0;
        while i < self.urls.len()
            invariant
                i <= self.urls@.len(),
                forall|j: int| 0 <= j < i ==> !text_matches(#[trigger] self.urls@[j].href@, q@),
            decreases self.urls@.len() - i,
        {
            if lower_contains(self.urls[i].href.as_str(), q) {
                return true;
            }
            i = i + 1;
        }
        false
    }

    fn any_tag_matches(&self, q: &Vec<char>) -> (r: bool)
        ensures
            r == self.tag_matches(q@),
    {
        let mut i: usize = 0;
        while i < self.tags.len()
            invariant
                i <= self.tags@.len(),
                forall|j: int| 0 <= j < i ==> !text_matches(#[trigger] self.tags@[j]@, q@),
            decreases self.tags@.len() - i,
        {
            if lower_contains(self.tags[i].as_str(), q) {
                return true;
            }
            i = i + 1;
        }
        false
    }

    fn username_contains(&self, q: &Vec<char>) -> (r: bool)
        ensures
            r == self.username_matches(q@),
    {
        match self.username() {
            Some(u) => lower_contains(u, q),
            None => false,
        }
    }

    /// Simple fuzzy match against title, URLs, username and tags.
    pub fn matches(&self, query: &str) -> (r: bool)
        ensures
            r == self.matches_query(query@),
    {
        let lq = to_lowercase(query);
        let q = chars_of(lq.as_str());
        lower_contains(self.title.as_str(), &q) || self.any_url_matches(&q)
            || self.username_contains(&q) || self.any_tag_matches(&q)
    }

    /// Relevance score of the item for a search query (0 = no match).
    pub fn fuzzy_score(&self, query: &str) -> (r: u32)
        ensures
            r == self.score_for(query@),
    {
        let lq = to_lowercase(query);
        let q = chars_of(lq.as_str());
        let lt = to_lowercase(self.title.as_str());
        let t = chars_of(lt.as_str());
        if chars_equal(&t, &q) {
            SCORE_TITLE_EXACT
        } else if starts_with_chars(&t, &q) {
            SCORE_TITLE_PREFIX
        } else if contains_chars(&t, &q) {
            SCORE_TITLE_CONTAINS
        } else if self.any_url_matches(&q) {
            SCORE_URL
        } else if self.username_contains(&q) {
            SCORE_USERNAME
        } else if self.any_tag_matches(&q) {
            SCORE_TAG
        } else {
            0
        }
    }

    /// Whether some field is a one-time-password field.
    pub fn has_otp(&self) -> (r: bool)
        ensures
            r == self.has_otp_field(),
    {
        let mut i: usize = 0;
        while i < self.fields.len()
            invariant
                i <= self.fields@.len(),
                forall|j: int| 0 <= j < i ==> (#[trigger] self.fields@[j]).field_type != FieldType::Otp,
            decreases self.fields@.len() - i,
        {
            if self.fields[i].field_type == FieldType::Otp {
                return true;
            }
            i = i + 1;
        }
        false
    }
}

/// Whether `q` (already lower-cased) occurs in `text` once lower-cased.
pub fn lower_contains(text: &str, q: &Vec<char>) -> (r: bool)
    ensures
        r == text_matches(text@, q@),
{
    let lt = to_lowercase(text);
    let t = chars_of(lt.as_str());
    contains_chars(&t, q)
}

/// A search match always scores above zero, and only a match does.
pub proof fn lemma_score_positive_iff_match(item: Item, query: Seq<char>)
    ensures
        (item.score_for(query) > 0) == item.matches_query(query),
{
    let q = lowercase(query);
    let t = lowercase(item.title@);
    if t == q {
        assert(t.subrange(0, q.len() as int) =~= t);
        assert(occurs_at(t, q, 0));
    } else if starts_with_seq(t, q) {
        assert(occurs_at(t, q, 0));
    }
}

/// Summary view of an item (no secret fields).
#[derive(Debug)]
pub struct ItemSummary {
    pub id: String,
    pub title: String,
    pub category: ItemCategory,
    pub vault_id: String,
    pub vault_name: String,
    pub url: Option<String>,
    pub username: Option<String>,
    pub favorite: bool,
    pub has_totp: bool,
}

impl Clone for ItemSummary {
    fn clone(&self) -> (r: Self)
        ensures
            r == *self,
    {
        ItemSummary {
            id: self.id.clone(),
            title: self.title.clone(),
            category: self.category,
            vault_id: self.vault_id.clone(),
            vault_name: self.vault_name.clone(),
            url: clone_opt_string(&self.url),
            username: clone_opt_string(&self.username),
            favorite: self.favorite,
            has_totp: self.has_totp,
        }
    }
}

impl ItemSummary {
    /// `s` summarises `item`, with `vault_name` as the vault's name.
    pub open spec fn summarises(s: ItemSummary, item: Item, vault_name: Seq<char>) -> bool {
        &&& s.id == item.id
        &&& s.title == item.title
        &&& s.category == item.category
        &&& s.vault_id == item.vault_id
        &&& s.vault_name@ == vault_name
        &&& opt_string_text(s.url) == item.primary_url_text()
        &&& opt_string_text(s.username) == item.username_text()
        &&& s.favorite == item.favorite
        &&& s.has_totp == item.has_otp_field()
    }

    /// Summary of `item`, naming the vault it was listed from.
    pub fn from_item_with_vault(item: &Item, vault_name: &str) -> (r: Self)
        ensures
            Self::summarises(r, *item, vault_name@),
    {
        let url = match item.primary_url() {
            Some(u) => Some(u.to_owned()),
            None => None,
        };
        let username = match item.username() {
            Some(u) => Some(u.to_owned()),
            None => None,
        };
        ItemSummary {
            id: item.id.clone(),
            title: item.title.clone(),
            category: item.category,
            vault_id: item.vault_id.clone(),
            vault_name: vault_name.to_owned(),
            url,
            username,
            favorite: item.favorite,
            has_totp: item.has_otp(),
        }
    }
}

impl<'a> From<&'a Item> for ItemSummary {
    /// Summary of `item` with an empty vault name.
    fn from(item: &'a Item) -> (r: Self)
        ensures
            Self::summarises(r, *item, Seq::<char>::empty()),
    {
        let empty = "";
        proof {
            reveal_strlit("");
            assert(empty@ =~= Seq::<char>::empty());
        }
        ItemSummary::from_item_with_vault(item, empty)
    }
}

impl<'a> vstd::std_specs::convert::FromSpecImpl<&'a Item> for ItemSummary {
    /// A summary's strings are fresh copies, so no single spec value stands
    /// for the result: `from` states what it returns in its own `ensures`.
    open spec fn obeys_from_spec() -> bool {
        false
    }

    open spec fn from_spec(v: &'a Item) -> Self {
        arbitrary()
    }
}

} // verus!
