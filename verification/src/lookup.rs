//! Finding vaults and items by the name a user typed, choosing the vaults a
//! listing covers, ranking search hits, and the field a "get" asks for:
//! the decisions behind the command line and the MCP tools.

use vstd::prelude::*;
use crate::find::{first_index, lemma_first_index_at, lemma_first_index_none};
use crate::rank::{is_ranking, rank_by_score};
use crate::text::{eq_ascii_fold, eq_ignore_ascii_case, same_text};
use crate::vault::{label_is, Field, Item, Vault};

verus! {

/// Items a user's `name` designates: the title equal up to ASCII case, or
/// the id equal.
pub open spec fn item_named(name: Seq<char>) -> spec_fn(Item) -> bool {
    |i: Item| eq_ascii_fold(i.title@, name) || i.id@ == name
}

/// Vaults a user's `name` designates: the name equal up to ASCII case, or
/// the id equal.
pub open spec fn vault_named(name: Seq<char>) -> spec_fn(Vault) -> bool {
    |v: Vault| eq_ascii_fold(v.name@, name) || v.id@ == name
}

/// The first item a name designates.
pub fn find_named_item(items: &[Item], name: &str) -> (r: Option<usize>)
    ensures
        match r {
            Some(k) => first_index(items@, item_named(name@)) == Some(k as int),
            None => first_index(items@, item_named(name@)) is None,
        },
{
    let mut i: usize = 0;
    while i < items.len()
        invariant
            i <= items@.len(),
            forall|j: int| 0 <= j < i ==> !item_named(name@)(#[trigger] items@[j]),
        decreases items@.len() - i,
    {
        if eq_ignore_ascii_case(items[i].title.as_str(), name) || same_text(items[i].id.as_str(), name) {
            proof {
                lemma_first_index_at(items@, item_named(name@), i as int);
            }
            return Some(i);
        }
        i = i + 1;
    }
    proof {
        lemma_first_index_none(items@, item_named(name@));
    }
    None
}

/// Whether a name designates a vault.
pub fn vault_is_named(v: &Vault, name: &str) -> (r: bool)
    ensures
        r == vault_named(name@)(*v),
{
    eq_ignore_ascii_case(v.name.as_str(), name) || same_text(v.id.as_str(), name)
}

/// The first vault a name designates.
pub fn find_named_vault(vaults: &[Vault], name: &str) -> (r: Option<usize>)
    ensures
        match r {
            Some(k) => first_index(vaults@, vault_named(name@)) == Some(k as int),
            None => first_index(vaults@, vault_named(name@)) is None,
        },
{
    let mut i: usize = 0;
    while i < vaults.len()
        invariant
            i <= vaults@.len(),
            forall|j: int| 0 <= j < i ==> !vault_named(name@)(#[trigger] vaults@[j]),
        decreases vaults@.len() - i,
    {
        if vault_is_named(&vaults[i], name) {
            proof {
                lemma_first_index_at(vaults@, vault_named(name@), i as int);
            }
            return Some(i);
        }
        i = i + 1;
    }
    proof {
        lemma_first_index_none(vaults@, vault_named(name@));
    }
    None
}

/// A listing with `name` covers vault `v`: the name designates it, or
/// there is no name.
pub open spec fn covers_vault(name: Option<Seq<char>>, v: Vault) -> bool {
    match name {
        Some(n) => vault_named(n)(v),
        None => true,
    }
}

/// `r` lists, in increasing order, exactly the positions of `vaults` that
/// a listing with `name` covers.
pub open spec fn selects_vaults(vaults: Seq<Vault>, name: Option<Seq<char>>, r: Seq<usize>) -> bool {
    &&& forall|j: int|
        0 <= j < r.len() ==> (#[trigger] r[j]) < vaults.len() && covers_vault(name, vaults[r[j] as int])
    &&& forall|j: int, k: int| 0 <= j < k < r.len() ==> (#[trigger] r[j]) < (#[trigger] r[k])
    &&& forall|i: int| 0 <= i < vaults.len() && #[trigger] covers_vault(name, vaults[i]) ==> r.contains(i as usize)
}

/// The vaults a listing covers: those the name designates, or all of them.
pub fn select_vaults(vaults: &[Vault], name: Option<&str>) -> (r: Vec<usize>)
    ensures
        selects_vaults(vaults@, crate::vault::opt_text(name), r@),
{
    let ghost n = crate::vault::opt_text(name);
    let mut r: Vec<usize> = Vec::new();
    let mut i: usize = 0;
    while i < vaults.len()
        invariant
            i <= vaults@.len(),
            n == crate::vault::opt_text(name),
            forall|j: int|
                0 <= j < r@.len() ==> (#[trigger] r@[j]) < i && covers_vault(n, vaults@[r@[j] as int]),
            forall|j: int, k: int| 0 <= j < k < r@.len() ==> (#[trigger] r@[j]) < (#[trigger] r@[k]),
            forall|k: int| 0 <= k < i && #[trigger] covers_vault(n, vaults@[k]) ==> r@.contains(k as usize),
        decreases vaults@.len() - i,
    {
        let wanted = match name {
            Some(nm) => vault_is_named(&vaults[i], nm),
            None => true,
        };
        assert(wanted == covers_vault(n, vaults@[i as int]));
        if wanted {
            let ghost before = r@;
            r.push(i);
            proof {
                assert forall|k: int| 0 <= k < i + 1 && #[trigger] covers_vault(n, vaults@[k]) implies r@.contains(
                    k as usize,
                ) by {
                    if k == i {
                        assert(r@[r@.len() - 1] == i);
                    } else {
                        let w = choose|w: int| 0 <= w < before.len() && before[w] == k as usize;
                        assert(r@[w] == before[w]);
                    }
                }
            }
        }
        i = i + 1;
    }
    r
}

/// The scores of some items for a query.
pub open spec fn item_scores(items: Seq<Item>, query: Seq<char>) -> Seq<u32> {
    Seq::new(items.len(), |i: int| items[i].score_for(query))
}

/// The search hits among some items: the positions of the items that match
/// the query, best score first, equal scores in list order.
pub fn rank_items(items: &[Item], query: &str) -> (r: Vec<usize>)
    ensures
        is_ranking(item_scores(items@, query@), r@),
{
    let mut scores: Vec<u32> = Vec::new();
    let mut i: usize = 0;
    while i < items.len()
        invariant
            i <= items@.len(),
            scores@ == item_scores(items@, query@).take(i as int),
        decreases items@.len() - i,
    {
        scores.push(items[i].fuzzy_score(query));
        i = i + 1;
        assert(scores@ =~= item_scores(items@, query@).take(i as int));
    }
    assert(scores@ =~= item_scores(items@, query@));
    rank_by_score(&scores)
}

/// The field a "get" command asks for.
#[derive(Debug, Clone)]
pub enum FieldRequest {
    /// The current one-time password (asked for as "totp" or "otp").
    Totp,
    /// The password field.
    Password,
    /// The username field.
    Username,
    /// The first field with this label, ignoring case.
    Label(String),
}

/// The field a "get" command's field name asks for.
pub open spec fn requested(field: Seq<char>, r: FieldRequest) -> bool {
    if field == "totp"@ || field == "otp"@ {
        r is Totp
    } else if field == "password"@ {
        r is Password
    } else if field == "username"@ {
        r is Username
    } else {
        r matches FieldRequest::Label(l) && l@ == field
    }
}

/// The field a "get" command's field name asks for.
pub fn field_request(field: &str) -> (r: FieldRequest)
    ensures
        requested(field@, r),
{
    if same_text(field, "totp") || same_text(field, "otp") {
        FieldRequest::Totp
    } else if same_text(field, "password") {
        FieldRequest::Password
    } else if same_text(field, "username") {
        FieldRequest::Username
    } else {
        FieldRequest::Label(field.to_owned())
    }
}

/// The value a request picks from an item (a one-time password is not a
/// stored value, so it picks nothing).
pub open spec fn requested_value(item: Item, req: FieldRequest) -> Option<Seq<char>> {
    match req {
        FieldRequest::Totp => None,
        FieldRequest::Password => item.password_text(),
        FieldRequest::Username => item.username_text(),
        FieldRequest::Label(l) => item.value_at(first_index(item.fields@, label_is(l@))),
    }
}

/// The value a request picks from an item.
pub fn value_for<'a>(item: &'a Item, req: &FieldRequest) -> (r: Option<&'a str>)
    ensures
        crate::vault::opt_text(r) == requested_value(*item, *req),
{
    match req {
        FieldRequest::Totp => None,
        FieldRequest::Password => item.password(),
        FieldRequest::Username => item.username(),
        FieldRequest::Label(l) => {
            let f: Option<&Field> = item.field_by_label(l.as_str());
            match f {
                Some(f) => Some(f.value.as_str()),
                None => None,
            }
        },
    }
}

} // verus!
