//! The two 1Password backends' plain-value side: the `op` CLI backend's
//! settings and command lines, the records the CLI and the Connect API
//! answer with and their conversion into vaults and items, and the Connect
//! API's URLs and authorisation header. Running the CLI and the HTTP
//! requests happen outside this library.

use vstd::prelude::*;
use crate::text::{chars_of, same_text, string_from_chars, to_uppercase, uppercase};
use crate::vault::{
    clone_opt_string, clone_strings, opt_string_text, Field, FieldPurpose, FieldType, Item, ItemCategory,
    ItemUrl, SecretValue, Vault,
};
use crate::widgets::texts_of;

verus! {

/// A vault as the `op` CLI and the Connect API list it.
#[derive(Debug, Clone)]
pub struct VaultListing {
    pub id: String,
    pub name: String,
    pub description: Option<String>,
    pub items: Option<u32>,
}

/// The vault an `op` item belongs to.
#[derive(Debug, Clone)]
pub struct OpItemVault {
    pub id: String,
}

/// A URL of an `op` item.
#[derive(Debug, Clone)]
pub struct OpUrl {
    pub href: String,
    pub primary: bool,
}

/// A field of an `op` item; purpose and type are free text.
#[derive(Debug, Clone)]
pub struct OpField {
    pub id: String,
    pub label: String,
    pub value: Option<String>,
    pub purpose: Option<String>,
    pub field_type: Option<String>,
}

/// An item as the `op` CLI prints it.
#[derive(Debug, Clone)]
pub struct OpItem {
    pub id: String,
    pub title: String,
    pub vault: OpItemVault,
    pub category: String,
    pub urls: Vec<OpUrl>,
    pub fields: Vec<OpField>,
    pub tags: Vec<String>,
    pub favorite: bool,
}

impl Vault {
    /// A listed vault: a missing item count counts as 0.
    pub fn from_listing(v: &VaultListing) -> (r: Vault)
        ensures
            r.id == v.id,
            r.name == v.name,
            r.description == v.description,
            r.items == match v.items {
                Some(n) => n,
                None => 0,
            },
    {
        Vault {
            id: v.id.clone(),
            name: v.name.clone(),
            description: clone_opt_string(&v.description),
            items: match v.items {
                Some(n) => n,
                None => 0,
            },
        }
    }
}

/// The category an upper-cased `op` category names; anything else is
/// `Unknown`.
pub open spec fn category_named(u: Seq<char>) -> ItemCategory {
    if u == "LOGIN"@ {
        ItemCategory::Login
    } else if u == "PASSWORD"@ {
        ItemCategory::Password
    } else if u == "SECURE_NOTE"@ {
        ItemCategory::SecureNote
    } else if u == "CREDIT_CARD"@ {
        ItemCategory::CreditCard
    } else if u == "IDENTITY"@ {
        ItemCategory::Identity
    } else if u == "DOCUMENT"@ {
        ItemCategory::Document
    } else if u == "SSH_KEY"@ {
        ItemCategory::SshKey
    } else if u == "API_CREDENTIAL"@ {
        ItemCategory::ApiCredential
    } else if u == "DATABASE"@ {
        ItemCategory::Database
    } else {
        ItemCategory::Unknown
    }
}

/// The purpose an upper-cased `op` purpose names; anything else is `Other`.
pub open spec fn purpose_named(u: Seq<char>) -> FieldPurpose {
    if u == "USERNAME"@ {
        FieldPurpose::Username
    } else if u == "PASSWORD"@ {
        FieldPurpose::Password
    } else if u == "NOTES"@ {
        FieldPurpose::Notes
    } else {
        FieldPurpose::Other
    }
}

/// The field type an `op` type names exactly; anything else, and no type,
/// is `String`.
pub open spec fn field_type_named(t: Option<Seq<char>>) -> FieldType {
    match t {
        Some(s) => if s == "CONCEALED"@ {
            FieldType::Concealed
        } else if s == "EMAIL"@ {
            FieldType::Email
        } else if s == "URL"@ {
            FieldType::Url
        } else if s == "OTP"@ {
            FieldType::Otp
        } else {
            FieldType::String
        },
        None => FieldType::String,
    }
}

/// `out` is the field that the `op` field `f` converts to.
pub open spec fn converts_field(f: OpField, out: Field) -> bool {
    &&& out.id == f.id
    &&& out.label == f.label
    &&& out.value@ == match f.value {
        Some(v) => v@,
        None => Seq::<char>::empty(),
    }
    &&& out.purpose == match f.purpose {
        Some(p) => Some(purpose_named(uppercase(p@))),
        None => None,
    }
    &&& out.field_type == field_type_named(opt_string_text(f.field_type))
}

/// `out` is the item that the `op` item `op` converts to.
pub open spec fn converts_item(op: OpItem, out: Item) -> bool {
    &&& out.id == op.id
    &&& out.title == op.title
    &&& out.vault_id == op.vault.id
    &&& out.category == category_named(uppercase(op.category@))
    &&& out.urls@.len() == op.urls@.len()
    &&& forall|i: int|
        0 <= i < op.urls@.len() ==> (#[trigger] out.urls@[i]).href == op.urls@[i].href && out.urls@[i].primary
            == op.urls@[i].primary
    &&& out.fields@.len() == op.fields@.len()
    &&& forall|i: int| 0 <= i < op.fields@.len() ==> converts_field(op.fields@[i], #[trigger] out.fields@[i])
    &&& out.tags@ == op.tags@
    &&& out.favorite == op.favorite
    &&& out.last_edited_by is None
    &&& out.created_at is None
    &&& out.updated_at is None
}

fn category_of(op_category: &str) -> (r: ItemCategory)
    ensures
        r == category_named(uppercase(op_category@)),
{
    let upper = to_uppercase(op_category);
    let u = upper.as_str();
    if same_text(u, "LOGIN") {
        ItemCategory::Login
    } else if same_text(u, "PASSWORD") {
        ItemCategory::Password
    } else if same_text(u, "SECURE_NOTE") {
        ItemCategory::SecureNote
    } else if same_text(u, "CREDIT_CARD") {
        ItemCategory::CreditCard
    } else if same_text(u, "IDENTITY") {
        ItemCategory::Identity
    } else if same_text(u, "DOCUMENT") {
        ItemCategory::Document
    } else if same_text(u, "SSH_KEY") {
        ItemCategory::SshKey
    } else if same_text(u, "API_CREDENTIAL") {
        ItemCategory::ApiCredential
    } else if same_text(u, "DATABASE") {
        ItemCategory::Database
    } else {
        ItemCategory::Unknown
    }
}

fn purpose_of(op_purpose: &str) -> (r: FieldPurpose)
    ensures
        r == purpose_named(uppercase(op_purpose@)),
{
    let upper = to_uppercase(op_purpose);
    let u = upper.as_str();
    if same_text(u, "USERNAME") {
        FieldPurpose::Username
    } else if same_text(u, "PASSWORD") {
        FieldPurpose::Password
    } else if same_text(u, "NOTES") {
        FieldPurpose::Notes
    } else {
        FieldPurpose::Other
    }
}

fn field_type_of(op_type: &Option<String>) -> (r: FieldType)
    ensures
        r == field_type_named(opt_string_text(*op_type)),
{
    match op_type {
        Some(t) => {
            let s = t.as_str();
            if same_text(s, "CONCEALED") {
                FieldType::Concealed
            } else if same_text(s, "EMAIL") {
                FieldType::Email
            } else if same_text(s, "URL") {
                FieldType::Url
            } else if same_text(s, "OTP") {
                FieldType::Otp
            } else {
                FieldType::String
            }
        },
        None => FieldType::String,
    }
}

/// The field an `op` field converts to.
pub fn field_from_op(f: &OpField) -> (r: Field)
    ensures
        converts_field(*f, r),
{
    let value = match &f.value {
        Some(v) => SecretValue::new(v.as_str()),
        None => SecretValue::default(),
    };
    let purpose = match &f.purpose {
        Some(p) => Some(purpose_of(p.as_str())),
        None => None,
    };
    Field {
        id: f.id.clone(),
        label: f.label.clone(),
        value,
        purpose,
        field_type: field_type_of(&f.field_type),
    }
}

impl Item {
    /// The item an `op` item converts to: the category and purposes are
    /// matched upper-cased, the field types exactly, missing values are
    /// empty, and the timestamps are left unset.
    pub fn from_op(op: &OpItem) -> (r: Item)
        ensures
            converts_item(*op, r),
    {
        let mut urls: Vec<ItemUrl> = Vec::new();
        let mut i: usize = 0;
        while i < op.urls.len()
            invariant
                i <= op.urls@.len(),
                urls@.len() == i,
                forall|j: int|
                    0 <= j < i ==> (#[trigger] urls@[j]).href == op.urls@[j].href && urls@[j].primary
                        == op.urls@[j].primary,
            decreases op.urls@.len() - i,
        {
            urls.push(ItemUrl { href: op.urls[i].href.clone(), primary: op.urls[i].primary });
            i = i + 1;
        }
        let mut fields: Vec<Field> = Vec::new();
        let mut k: usize = 0;
        while k < op.fields.len()
            invariant
                k <= op.fields@.len(),
                fields@.len() == k,
                forall|j: int| 0 <= j < k ==> converts_field(op.fields@[j], #[trigger] fields@[j]),
            decreases op.fields@.len() - k,
        {
            fields.push(field_from_op(&op.fields[k]));
            k = k + 1;
        }
        Item {
            id: op.id.clone(),
            title: op.title.clone(),
            vault_id: op.vault.id.clone(),
            category: category_of(op.category.as_str()),
            urls,
            fields,
            tags: clone_strings(&op.tags),
            favorite: op.favorite,
            last_edited_by: None,
            created_at: None,
            updated_at: None,
        }
    }
}

/// The `op` CLI backend: where the CLI is, and the service account token to
/// run it with, if any.
pub struct OpCliBackend {
    op_path: String,
    service_account_token: Option<String>,
}

/// The flag every `op` command is run with, so that it answers in JSON.
pub open spec fn json_flag() -> Seq<char> {
    "--format=json"@
}

/// The environment variable the service account token is passed in.
pub open spec fn token_variable() -> Seq<char> {
    "OP_SERVICE_ACCOUNT_TOKEN"@
}

/// The characters of each string of a borrowed list.
pub open spec fn strs_text(v: Seq<&str>) -> Seq<Seq<char>> {
    v.map_values(|s: &str| s@)
}

impl OpCliBackend {
    /// The path of the `op` binary.
    pub closed spec fn path_text(self) -> Seq<char> {
        self.op_path@
    }

    /// The service account token.
    pub closed spec fn token_text(self) -> Option<Seq<char>> {
        opt_string_text(self.service_account_token)
    }

    /// A backend running the CLI at `op_path`, with an optional service
    /// account token.
    pub fn new(op_path: &str, service_account_token: Option<&str>) -> (r: Self)
        ensures
            r.path_text() == op_path@,
            r.token_text() == crate::vault::opt_text(service_account_token),
    {
        OpCliBackend {
            op_path: op_path.to_owned(),
            service_account_token: match service_account_token {
                Some(t) => Some(t.to_owned()),
                None => None,
            },
        }
    }

    /// The path of the `op` binary.
    pub fn op_path(&self) -> (r: &str)
        ensures
            r@ == self.path_text(),
    {
        self.op_path.as_str()
    }

    /// The environment the CLI is run with: the service account token when
    /// there is one, else nothing.
    pub fn command_env(&self) -> (r: Vec<(String, String)>)
        ensures
            match self.token_text() {
                Some(t) => r@.len() == 1 && r@[0].0@ == token_variable() && r@[0].1@ == t,
                None => r@.len() == 0,
            },
    {
        let mut env: Vec<(String, String)> = Vec::new();
        if let Some(t) = &self.service_account_token {
            env.push(("OP_SERVICE_ACCOUNT_TOKEN".to_owned(), t.clone()));
        }
        env
    }

    /// The arguments the CLI is run with: the given ones, then the JSON
    /// output flag.
    pub fn command_args(&self, args: &[&str]) -> (r: Vec<String>)
        ensures
            texts_of(r@) == strs_text(args@).push(json_flag()),
    {
        let mut out: Vec<String> = Vec::new();
        let mut i: usize = 0;
        while i < args.len()
            invariant
                i <= args@.len(),
                texts_of(out@) == strs_text(args@.take(i as int)),
            decreases args@.len() - i,
        {
            let ghost before = out@;
            out.push(args[i].to_owned());
            assert(texts_of(out@) =~= texts_of(before).push(args@[i as int]@));
            assert(strs_text(args@.take(i + 1)) =~= strs_text(args@.take(i as int)).push(args@[i as int]@));
            i = i + 1;
        }
        out.push("--format=json".to_owned());
        assert(args@.take(args@.len() as int) =~= args@);
        assert(texts_of(out@) =~= strs_text(args@).push(json_flag()));
        out
    }

    /// The command line that lists vaults.
    pub fn list_vaults_args(&self) -> (r: Vec<String>)
        ensures
            texts_of(r@) == seq!["vault"@, "list"@, json_flag()],
    {
        let args: [&str; 2] = ["vault", "list"];
        let r = self.command_args(&args);
        assert(strs_text(args@) =~= seq!["vault"@, "list"@]);
        r
    }

    /// The command line that lists the items of a vault.
    pub fn list_items_args(&self, vault_id: &str) -> (r: Vec<String>)
        ensures
            texts_of(r@) == seq!["item"@, "list"@, "--vault"@, vault_id@, json_flag()],
    {
        let args: [&str; 4] = ["item", "list", "--vault", vault_id];
        let r = self.command_args(&args);
        assert(strs_text(args@) =~= seq!["item"@, "list"@, "--vault"@, vault_id@]);
        r
    }

    /// The command line that gets one item of a vault.
    pub fn get_item_args(&self, vault_id: &str, item_id: &str) -> (r: Vec<String>)
        ensures
            texts_of(r@) == seq!["item"@, "get"@, item_id@, "--vault"@, vault_id@, json_flag()],
    {
        let args: [&str; 5] = ["item", "get", item_id, "--vault", vault_id];
        let r = self.command_args(&args);
        assert(strs_text(args@) =~= seq!["item"@, "get"@, item_id@, "--vault"@, vault_id@]);
        r
    }

    /// The command line that gets the current one-time password of an item.
    pub fn get_totp_args(&self, vault_id: &str, item_id: &str) -> (r: Vec<String>)
        ensures
            texts_of(r@) == seq!["item"@, "get"@, item_id@, "--otp"@, "--vault"@, vault_id@, json_flag()],
    {
        let args: [&str; 6] = ["item", "get", item_id, "--otp", "--vault", vault_id];
        let r = self.command_args(&args);
        assert(strs_text(args@) =~= seq!["item"@, "get"@, item_id@, "--otp"@, "--vault"@, vault_id@]);
        r
    }
}

/// `s` without its trailing slashes.
pub open spec fn trim_trailing_slashes(s: Seq<char>) -> Seq<char>
    decreases s.len(),
{
    if s.len() > 0 && s.last() == '/' {
        trim_trailing_slashes(s.drop_last())
    } else {
        s
    }
}

/// The Connect server's base URL without trailing slashes, as
/// `trim_end_matches('/')` gives it.
pub fn connect_base_url(url: &str) -> (r: String)
    ensures
        r@ == trim_trailing_slashes(url@),
{
    let cs = chars_of(url);
    let mut n: usize = cs.len();
    assert(cs@.take(n as int) =~= cs@);
    while n > 0 && cs[n - 1] == '/'
        invariant
            n <= cs@.len(),
            cs@ == url@,
            trim_trailing_slashes(url@) == trim_trailing_slashes(cs@.take(n as int)),
        decreases n,
    {
        assert(cs@.take(n as int).drop_last() =~= cs@.take(n - 1));
        n = n - 1;
    }
    let mut out: Vec<char> = Vec::new();
    let mut i: usize = 0;
    while i < n
        invariant
            i <= n,
            n <= cs@.len(),
            out@ == cs@.take(i as int),
        decreases n - i,
    {
        out.push(cs[i]);
        i = i + 1;
        assert(out@ =~= cs@.take(i as int));
    }
    assert(trim_trailing_slashes(cs@.take(n as int)) == cs@.take(n as int));
    string_from_chars(&out)
}

/// The `Authorization` header value for a Connect token.
pub fn bearer_value(token: &str) -> (r: String)
    ensures
        r@ == "Bearer "@ + token@,
{
    crate::render::concat_str("Bearer ", token)
}

/// Text an HTTP header value can hold, as `HeaderValue::from_str` checks
/// it byte by byte: tabs, and otherwise no control character (below 32, or
/// DEL). Characters beyond ASCII are bytes of 128 and more in UTF-8, so
/// they pass.
pub open spec fn header_text_ok(s: Seq<char>) -> bool {
    forall|i: int| 0 <= i < s.len() ==> s[i] == '\t' || (32 <= (s[i] as u32) && (s[i] as u32) != 127)
}

/// The `Authorization` value for a Connect token, or nothing when the
/// token makes it text no header value can hold.
pub fn bearer_header(token: &str) -> (r: Option<String>)
    ensures
        r is Some <==> header_text_ok("Bearer "@ + token@),
        r matches Some(v) ==> v@ == "Bearer "@ + token@,
{
    let value = bearer_value(token);
    let cs = chars_of(value.as_str());
    let mut i: usize = 0;
    while i < cs.len()
        invariant
            i <= cs@.len(),
            cs@ == "Bearer "@ + token@,
            forall|j: int| 0 <= j < i ==> cs@[j] == '\t' || (32 <= (cs@[j] as u32) && (cs@[j] as u32) != 127),
        decreases cs@.len() - i,
    {
        let c = cs[i];
        if !(c == '\t' || (32 <= (c as u32) && (c as u32) != 127)) {
            return None;
        }
        i = i + 1;
    }
    Some(value)
}

/// The Connect path that lists vaults.
pub open spec fn vaults_path() -> Seq<char> {
    "/v1/vaults"@
}

/// The Connect path that lists the items of a vault.
pub open spec fn items_path(vault_id: Seq<char>) -> Seq<char> {
    "/v1/vaults/"@ + vault_id + "/items"@
}

/// The Connect path of one item.
pub open spec fn item_path(vault_id: Seq<char>, item_id: Seq<char>) -> Seq<char> {
    items_path(vault_id) + "/"@ + item_id
}

/// The URL of the Connect request that lists vaults.
pub fn vaults_url(base_url: &str) -> (r: String)
    ensures
        r@ == base_url@ + vaults_path(),
{
    crate::render::concat_str(base_url, "/v1/vaults")
}

/// The URL of the Connect request that lists the items of a vault.
pub fn items_url(base_url: &str, vault_id: &str) -> (r: String)
    ensures
        r@ == base_url@ + items_path(vault_id@),
{
    let mut cs: Vec<char> = Vec::new();
    crate::text::push_str(&mut cs, base_url);
    crate::text::push_str(&mut cs, "/v1/vaults/");
    crate::text::push_str(&mut cs, vault_id);
    crate::text::push_str(&mut cs, "/items");
    assert(cs@ =~= base_url@ + items_path(vault_id@));
    string_from_chars(&cs)
}

/// The URL of the Connect request that gets one item.
pub fn item_url(base_url: &str, vault_id: &str, item_id: &str) -> (r: String)
    ensures
        r@ == base_url@ + item_path(vault_id@, item_id@),
{
    let mut cs: Vec<char> = Vec::new();
    crate::text::push_str(&mut cs, base_url);
    crate::text::push_str(&mut cs, "/v1/vaults/");
    crate::text::push_str(&mut cs, vault_id);
    crate::text::push_str(&mut cs, "/items");
    crate::text::push_str(&mut cs, "/");
    crate::text::push_str(&mut cs, item_id);
    assert(cs@ =~= base_url@ + item_path(vault_id@, item_id@));
    string_from_chars(&cs)
}

} // verus!
