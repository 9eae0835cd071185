//! Properties that relate several operations of the library.

use vstd::prelude::*;
use crate::api::{category_named, converts_field, converts_item, trim_trailing_slashes, OpItem};
use crate::config::KagiConfig;
use crate::control::{copied_text, copies, fetches_totp, shows, BackendRequest, BackendResponse};
use crate::input::{key_action, Action, KeyCode};
use crate::rank::{is_ranking, precedes};
use crate::config_view::{has_dot_at, lookup_result, redacted_text, shows_text, ConfigEntry, ConfigLeaf};
use crate::find::{first_index, is_first, lemma_first_index_at, lemma_first_index_found, lemma_first_index_none};
use crate::render::{
    accent, blank, concealed_mask, detail_help, detail_view_lines, field_hidden, field_row, field_rows, join_texts,
    otp_hint, ranked_summaries, screen_lines, search_scores, summary_line, summary_lines, url_row, KagiState, ViewMode,
};
use crate::vault::{
    has_purpose, is_primary, label_is, lemma_score_positive_iff_match, text_matches, Field, FieldPurpose, FieldType, Item,
    ItemCategory, ItemSummary,
};
use crate::text::{contains_seq, lowercase, occurs_at, starts_with_seq};
use crate::widgets::{input_text, list_items, list_selected, texts_of};

verus! {

/// Moving down and then up in a list returns the selection to where it
/// was, when there was a line below it.
pub proof fn law_down_then_up(s0: KagiState, s1: KagiState, s2: KagiState)
    requires
        KagiState::moved_down(s0, s1),
        KagiState::moved_up(s1, s2),
    ensures
        s0.mode == ViewMode::VaultList && list_selected(s0.vault_list) + 1 < list_items(s0.vault_list).len()
            ==> list_selected(s2.vault_list) == list_selected(s0.vault_list),
        (s0.mode == ViewMode::ItemList || s0.mode == ViewMode::Search) && list_selected(s0.item_list) + 1
            < list_items(s0.item_list).len() ==> list_selected(s2.item_list) == list_selected(s0.item_list),
        (s0.mode == ViewMode::ItemDetail && (s0.detail_item matches Some(item) && s0.detail_field_index + 1
            < item.fields@.len())) ==> s2.detail_field_index == s0.detail_field_index,
{
}

/// Entering search and going back shows the item list again, with the
/// same items, listed as before search, and an empty search box.
pub proof fn law_search_round_trip(s0: KagiState, s1: KagiState, s2: KagiState)
    requires
        KagiState::search_entered(s0, s1),
        KagiState::went_back(s1, s2),
    ensures
        s2.mode == ViewMode::ItemList,
        s2.items == s0.items,
        s2.summaries == s0.summaries,
        s2.vaults == s0.vaults,
        input_text(s2.search_input).len() == 0,
        list_items(s2.item_list) == summary_lines(s0.summaries@, s0.favorites_only),
{
}

/// Opening an item and going back returns to the view it was opened from,
/// with no item open and the lists untouched.
pub proof fn law_detail_round_trip(s0: KagiState, s1: KagiState, s2: KagiState)
    requires
        s0.selected_item_spec() is Some,
        KagiState::detail_entered(s0, s1),
        KagiState::went_back(s1, s2),
    ensures
        s2.mode == s0.mode,
        s2.detail_item is None,
        s2.item_list == s0.item_list,
        s2.vault_list == s0.vault_list,
        s2.items == s0.items,
{
}

/// Looking a field up by label does not depend on the case of the label
/// asked for.
pub proof fn law_label_lookup_ignores_case(item: Item, a: Seq<char>, b: Seq<char>)
    requires
        lowercase(a) == lowercase(b),
    ensures
        first_index(item.fields@, label_is(a)) == first_index(item.fields@, label_is(b)),
{
    assert(label_is(a) =~= label_is(b));
}

/// Without the favourites filter every summary is listed; with it, no more
/// than without.
pub proof fn law_listing_counts(s: Seq<ItemSummary>)
    ensures
        summary_lines(s, false).len() == s.len(),
        summary_lines(s, true).len() <= s.len(),
    decreases s.len(),
{
    if s.len() > 0 {
        law_listing_counts(s.drop_last());
    }
}

/// The two tokens always read as `[REDACTED]`: reading either setting
/// never shows the token itself.
pub proof fn law_tokens_redacted(c: KagiConfig, r1: Option<ConfigEntry>, r2: Option<ConfigEntry>)
    requires
        lookup_result(c, "api.connect_token"@, r1),
        lookup_result(c, "api.service_account_token"@, r2),
    ensures
        r1 matches Some(ConfigEntry::Leaf(l)) && shows_text(l, redacted_text()),
        r2 matches Some(ConfigEntry::Leaf(l)) && shows_text(l, redacted_text()),
{
    reveal_strlit("api.connect_token");
    reveal_strlit("api.service_account_token");
    reveal_strlit("api");
    reveal_strlit("connect_token");
    reveal_strlit("service_account_token");
    reveal_strlit("connect_url");
    reveal_strlit("op_path");
    reveal_strlit("clipboard");
    reveal_strlit("appearance");
    let k1 = "api.connect_token"@;
    let k2 = "api.service_account_token"@;
    assert(has_dot_at(k1, 3));
    assert(has_dot_at(k2, 3));
    assert(!(forall|j: int| 0 <= j < k1.len() ==> k1[j] != '.'));
    assert(!(forall|j: int| 0 <= j < k2.len() ==> k2[j] != '.'));
    assert forall|d: int| has_dot_at(k1, d) implies d == 3 by {
        if d > 3 {
            assert(k1[3] == '.');
        }
    }
    assert forall|d: int| has_dot_at(k2, d) implies d == 3 by {
        if d > 3 {
            assert(k2[3] == '.');
        }
    }
    assert(k1.subrange(0, 3) =~= "api"@);
    assert(k1.subrange(4, k1.len() as int) =~= "connect_token"@);
    assert(k2.subrange(0, 3) =~= "api"@);
    assert(k2.subrange(4, k2.len() as int) =~= "service_account_token"@);
    let names = seq!["connect_url"@, "connect_token"@, "op_path"@, "service_account_token"@];
    assert(names[1] == "connect_token"@);
    assert(names[3] == "service_account_token"@);
    assert("connect_token"@ != "connect_url"@) by {
        assert("connect_token"@.len() != "connect_url"@.len());
    }
    assert("service_account_token"@ != "connect_url"@) by {
        assert("service_account_token"@.len() != "connect_url"@.len());
    }
    assert("api"@ != "clipboard"@) by {
        assert("api"@.len() != "clipboard"@.len());
    }
    assert(forall|j: int| 0 <= j < "connect_token"@.len() ==> "connect_token"@[j] != '.');
    assert(forall|j: int| 0 <= j < "service_account_token"@.len() ==> "service_account_token"@[j] != '.');
}


/// `r` is strictly ordered by `precedes` (and so holds no position twice).
pub open spec fn strictly_ranked(scores: Seq<u32>, r: Seq<usize>) -> bool {
    forall|j: int, k: int| 0 <= j < k < r.len() ==> precedes(scores, #[trigger] r[j] as int, #[trigger] r[k] as int)
}

/// Two sequences strictly ordered by `precedes` that hold the same
/// positions are the same sequence.
pub proof fn lemma_strictly_ranked_unique(scores: Seq<u32>, a: Seq<usize>, b: Seq<usize>)
    requires
        strictly_ranked(scores, a),
        strictly_ranked(scores, b),
        forall|x: usize| a.contains(x) <==> b.contains(x),
    ensures
        a == b,
    decreases a.len(),
{
    if a.len() == 0 {
        if b.len() > 0 {
            assert(b.contains(b[0]));
        }
        assert(a =~= b);
    } else {
        assert(a.contains(a[0]));
        let k = choose|k: int| 0 <= k < b.len() && b[k] == a[0];
        assert(b.contains(b[0]));
        let j = choose|j: int| 0 <= j < a.len() && a[j] == b[0];
        if j > 0 && k > 0 {
            assert(precedes(scores, a[0] as int, a[j] as int));
            assert(precedes(scores, b[0] as int, b[k] as int));
        }
        assert(a[0] == b[0]);
        let a1 = a.drop_first();
        let b1 = b.drop_first();
        assert forall|x: usize| a1.contains(x) <==> b1.contains(x) by {
            if a1.contains(x) {
                let i = choose|i: int| 0 <= i < a1.len() && a1[i] == x;
                assert(precedes(scores, a[0] as int, a[i + 1] as int));
                assert(a.contains(x));
                let m = choose|m: int| 0 <= m < b.len() && b[m] == x;
                assert(m != 0);
                assert(b1[m - 1] == x);
            }
            if b1.contains(x) {
                let i = choose|i: int| 0 <= i < b1.len() && b1[i] == x;
                assert(precedes(scores, b[0] as int, b[i + 1] as int));
                assert(b.contains(x));
                let m = choose|m: int| 0 <= m < a.len() && a[m] == x;
                assert(m != 0);
                assert(a1[m - 1] == x);
            }
        }
        assert forall|j1: int, k1: int| 0 <= j1 < k1 < a1.len() implies precedes(
            scores,
            #[trigger] a1[j1] as int,
            #[trigger] a1[k1] as int,
        ) by {
            assert(precedes(scores, a[j1 + 1] as int, a[k1 + 1] as int));
        }
        assert forall|j1: int, k1: int| 0 <= j1 < k1 < b1.len() implies precedes(
            scores,
            #[trigger] b1[j1] as int,
            #[trigger] b1[k1] as int,
        ) by {
            assert(precedes(scores, b[j1 + 1] as int, b[k1 + 1] as int));
        }
        lemma_strictly_ranked_unique(scores, a1, b1);
        assert(a =~= seq![a[0]] + a1);
        assert(b =~= seq![b[0]] + b1);
    }
}

/// The ranking of some scores is unique: a search's hits come out in one
/// order only.
pub proof fn law_ranking_unique(scores: Seq<u32>, r1: Seq<usize>, r2: Seq<usize>)
    requires
        is_ranking(scores, r1),
        is_ranking(scores, r2),
    ensures
        r1 == r2,
{
    assert forall|x: usize| r1.contains(x) <==> r2.contains(x) by {
        if r1.contains(x) {
            let j = choose|j: int| 0 <= j < r1.len() && r1[j] == x;
            assert(r1[j] < scores.len() && scores[r1[j] as int] > 0);
            assert(scores[x as int] > 0);
        }
        if r2.contains(x) {
            let j = choose|j: int| 0 <= j < r2.len() && r2[j] == x;
            assert(r2[j] < scores.len() && scores[r2[j] as int] > 0);
            assert(scores[x as int] > 0);
        }
    }
    lemma_strictly_ranked_unique(scores, r1, r2);
}

/// A search gives one result list only: two outcomes of the same search
/// are equal.
pub proof fn law_search_deterministic(s: KagiState, a: Seq<ItemSummary>, b: Seq<ItemSummary>)
    requires
        s.search_outcome(a),
        s.search_outcome(b),
    ensures
        a == b,
{
    let q = lowercase(input_text(s.search_input));
    if q.len() > 0 {
        let scores = search_scores(s.all_items@, s.all_summaries@, q);
        let o1 = choose|order: Seq<usize>|
            #![trigger ranked_summaries(s.all_summaries@, order)]
            is_ranking(scores, order) && a == ranked_summaries(s.all_summaries@, order);
        let o2 = choose|order: Seq<usize>|
            #![trigger ranked_summaries(s.all_summaries@, order)]
            is_ranking(scores, order) && b == ranked_summaries(s.all_summaries@, order);
        law_ranking_unique(scores, o1, o2);
    }
}

/// A non-empty search lists exactly the items that match the query: each
/// hit's item matches it, and each matching item is among the hits.
pub proof fn law_search_hits_match(s: KagiState, results: Seq<ItemSummary>, order: Seq<usize>)
    requires
        lowercase(input_text(s.search_input)).len() > 0,
        is_ranking(search_scores(s.all_items@, s.all_summaries@, lowercase(input_text(s.search_input))), order),
        results == ranked_summaries(s.all_summaries@, order),
    ensures
        s.search_outcome(results),
        forall|j: int|
            0 <= j < order.len() ==> #[trigger] s.all_items@[order[j] as int].matches_query(
                lowercase(input_text(s.search_input)),
            ) && results[j] == s.all_summaries@[order[j] as int],
        forall|i: int|
            0 <= i < s.all_items@.len() && i < s.all_summaries@.len() && #[trigger] s.all_items@[i].matches_query(
                lowercase(input_text(s.search_input)),
            ) ==> order.contains(i as usize),
{
    let q = lowercase(input_text(s.search_input));
    let scores = search_scores(s.all_items@, s.all_summaries@, q);
    assert forall|j: int| 0 <= j < order.len() implies #[trigger] s.all_items@[order[j] as int].matches_query(q)
        && results[j] == s.all_summaries@[order[j] as int] by {
        assert(order[j] < scores.len() && scores[order[j] as int] > 0);
        lemma_score_positive_iff_match(s.all_items@[order[j] as int], q);
    }
    assert forall|i: int|
        0 <= i < s.all_items@.len() && i < s.all_summaries@.len() && #[trigger] s.all_items@[i].matches_query(
            q,
        ) implies order.contains(i as usize) by {
        lemma_score_positive_iff_match(s.all_items@[i], q);
        assert(scores[i] > 0);
    }
}

/// Moving up and then down in a list returns the selection to where it
/// was, when there was a line above it.
pub proof fn law_up_then_down(s0: KagiState, s1: KagiState, s2: KagiState)
    requires
        s0.wf(),
        KagiState::moved_up(s0, s1),
        KagiState::moved_down(s1, s2),
    ensures
        s0.mode == ViewMode::VaultList && list_selected(s0.vault_list) > 0 ==> list_selected(s2.vault_list)
            == list_selected(s0.vault_list),
        (s0.mode == ViewMode::ItemList || s0.mode == ViewMode::Search) && list_selected(s0.item_list) > 0
            ==> list_selected(s2.item_list) == list_selected(s0.item_list),
        (s0.mode == ViewMode::ItemDetail && s0.detail_field_index > 0 && (s0.detail_item matches Some(item)
            && s0.detail_field_index < item.fields@.len())) ==> s2.detail_field_index == s0.detail_field_index,
{
}

/// Toggling hidden fields twice gives back the state it started from.
pub proof fn law_toggle_hidden_twice(
    s0: KagiState,
    s1: KagiState,
    s2: KagiState,
    r1: Seq<BackendRequest>,
    r2: Seq<BackendRequest>,
    e1: bool,
    e2: bool,
)
    requires
        KagiState::action_done(s0, s1, Action::ToggleHidden, r1, e1),
        KagiState::action_done(s1, s2, Action::ToggleHidden, r2, e2),
    ensures
        s2 == s0,
        r1.len() == 0 && r2.len() == 0,
        !e1 && !e2,
{
}

/// Toggling the favourites filter twice gives back the filter it started
/// with, and says that all items are shown when the filter is off.
pub proof fn law_toggle_favorites_twice(
    s0: KagiState,
    s1: KagiState,
    s2: KagiState,
    r1: Seq<BackendRequest>,
    r2: Seq<BackendRequest>,
    e1: bool,
    e2: bool,
)
    requires
        KagiState::action_done(s0, s1, Action::ToggleFavorites, r1, e1),
        KagiState::action_done(s1, s2, Action::ToggleFavorites, r2, e2),
    ensures
        s2.favorites_only == s0.favorites_only,
        !s2.favorites_only ==> shows(s2, "Showing all items"@),
        s2.mode == s0.mode,
        s2.items == s0.items,
        s2.all_items == s0.all_items,
{
}

/// Quitting is the only action that exits, and it changes nothing.
pub proof fn law_only_quit_exits(
    s0: KagiState,
    s1: KagiState,
    action: Action,
    requests: Seq<BackendRequest>,
    exit: bool,
)
    requires
        KagiState::action_done(s0, s1, action, requests, exit),
    ensures
        exit <==> action == Action::Quit,
        exit ==> s1 == s0 && requests.len() == 0,
{
}

/// Trimming the trailing slashes of a Connect URL twice trims nothing
/// more: a base URL given without them is kept as it is.
pub proof fn law_base_url_trim_idempotent(url: Seq<char>)
    ensures
        trim_trailing_slashes(trim_trailing_slashes(url)) == trim_trailing_slashes(url),
        trim_trailing_slashes(url).len() == 0 || trim_trailing_slashes(url).last() != '/',
    decreases url.len(),
{
    if url.len() > 0 && url.last() == '/' {
        law_base_url_trim_idempotent(url.drop_last());
    }
}


/// In search, typing a character after entering search makes it the whole
/// query, and backspace then empties the query again; each time the
/// results are the outcome of the search for the query shown.
pub proof fn law_type_then_backspace(
    s0: KagiState,
    s1: KagiState,
    s2: KagiState,
    s3: KagiState,
    c: char,
    r1: Seq<BackendRequest>,
    r2: Seq<BackendRequest>,
    r3: Seq<BackendRequest>,
    e1: bool,
    e2: bool,
    e3: bool,
)
    requires
        KagiState::action_done(s0, s1, Action::EnterSearch, r1, e1),
        KagiState::action_done(s1, s2, Action::SearchInput(c), r2, e2),
        KagiState::action_done(s2, s3, Action::SearchBackspace, r3, e3),
    ensures
        s2.mode == ViewMode::Search,
        input_text(s2.search_input) == seq![c],
        s2.search_outcome(s2.search_results@),
        s3.mode == ViewMode::Search,
        input_text(s3.search_input).len() == 0,
        s3.search_outcome(s3.search_results@),
        r1.len() == 0 && r2.len() == 0 && r3.len() == 0,
{
    assert(input_text(s1.search_input) =~= Seq::<char>::empty());
    assert(Seq::<char>::empty().push(c) =~= seq![c]);
}


/// Copying a one-time password: pressing the key on an open or selected
/// item asks for that item's code and changes nothing else; when the code
/// arrives it is copied under the label "TOTP", and once the copy is
/// confirmed the status line says so with the clear timeout.
pub proof fn law_totp_copy_flow(
    s0: KagiState,
    s1: KagiState,
    s2: KagiState,
    s3: KagiState,
    requests: Seq<BackendRequest>,
    exit: bool,
    code: String,
    label: String,
    follow_up: Option<BackendRequest>,
    done: Option<BackendRequest>,
    clear_timeout: u32,
)
    requires
        s0.detail_item is Some || s0.selected_item_spec() is Some,
        KagiState::action_done(s0, s1, Action::CopyTotp, requests, exit),
        KagiState::response_done(s1, s2, BackendResponse::Totp(Ok(code)), clear_timeout, follow_up),
        label@ == "TOTP"@,
        KagiState::response_done(s2, s3, (BackendResponse::Copied { label, result: Ok(()) }), clear_timeout, done),
    ensures
        s1 == s0,
        requests.len() == 1,
        fetches_totp(requests[0], s0.source_item()->0),
        s2 == s0,
        follow_up matches Some(r) && copies(r, code@, "TOTP"@),
        shows(s3, copied_text("TOTP"@, clear_timeout)),
        s3.same_except_status(s0),
        done is None,
{
}


/// Reading a category back from its JSON name gives the category: the
/// names written for items and the names read from `op` agree.
pub proof fn law_category_name_round_trip(c: ItemCategory)
    ensures
        category_named(c.json_name_text()) == c,
{
    reveal_strlit("LOGIN");
    reveal_strlit("PASSWORD");
    reveal_strlit("SECURE_NOTE");
    reveal_strlit("CREDIT_CARD");
    reveal_strlit("IDENTITY");
    reveal_strlit("DOCUMENT");
    reveal_strlit("SSH_KEY");
    reveal_strlit("API_CREDENTIAL");
    reveal_strlit("DATABASE");
    reveal_strlit("UNKNOWN");
    let names = seq![
        "LOGIN"@,
        "PASSWORD"@,
        "SECURE_NOTE"@,
        "CREDIT_CARD"@,
        "IDENTITY"@,
        "DOCUMENT"@,
        "SSH_KEY"@,
        "API_CREDENTIAL"@,
        "DATABASE"@,
        "UNKNOWN"@,
    ];
    assert forall|i: int, j: int| 0 <= i < j < names.len() implies names[i] != names[j] by {
        assert(names[i].len() != names[j].len() || names[i][0] != names[j][0] || names[i][1] != names[j][1]);
    }
    let k: int = match c {
        ItemCategory::Login => 0,
        ItemCategory::Password => 1,
        ItemCategory::SecureNote => 2,
        ItemCategory::CreditCard => 3,
        ItemCategory::Identity => 4,
        ItemCategory::Document => 5,
        ItemCategory::SshKey => 6,
        ItemCategory::ApiCredential => 7,
        ItemCategory::Database => 8,
        ItemCategory::Unknown => 9,
    };
    assert(c.json_name_text() == names[k]);
    assert forall|i: int| 0 <= i < k implies names[k] != names[i] by {}
}


/// In the vault and item lists each key does what the help line says:
/// `j`/Down and `k`/Up move, Enter opens, `p`, `u` and `t` copy the
/// password, the username and the one-time password, `/` searches, `f`
/// toggles favourites, Tab goes to the next vault, Escape goes back and `q`
/// quits; a released key does nothing.
pub proof fn law_list_key_bindings(text: Option<Seq<char>>, mode: ViewMode, key: KeyCode)
    requires
        mode == ViewMode::VaultList || mode == ViewMode::ItemList,
    ensures
        key_action(KeyCode::Char('j'), true, text, mode) == Action::Down,
        key_action(KeyCode::Down, true, text, mode) == Action::Down,
        key_action(KeyCode::Char('k'), true, text, mode) == Action::Up,
        key_action(KeyCode::Up, true, text, mode) == Action::Up,
        key_action(KeyCode::Enter, true, text, mode) == Action::Select,
        key_action(KeyCode::Char('p'), true, text, mode) == Action::CopyPassword,
        key_action(KeyCode::Char('u'), true, text, mode) == Action::CopyUsername,
        key_action(KeyCode::Char('t'), true, text, mode) == Action::CopyTotp,
        key_action(KeyCode::Char('/'), true, text, mode) == Action::EnterSearch,
        key_action(KeyCode::Char('f'), true, text, mode) == Action::ToggleFavorites,
        key_action(KeyCode::Tab, true, text, mode) == Action::NextVault,
        key_action(KeyCode::Escape, true, text, mode) == Action::Back,
        key_action(KeyCode::Char('q'), true, text, mode) == Action::Quit,
        key_action(key, false, text, mode) == Action::NoAction,
{
}

/// In the detail view: `j`/`k` and the arrows move between fields, Enter
/// and `y` copy the selected field, `p`, `u` and `t` copy the password, the
/// username and the one-time password, `H` reveals or hides concealed
/// values, and Escape or `q` go back.
pub proof fn law_detail_key_bindings(text: Option<Seq<char>>)
    ensures
        key_action(KeyCode::Char('j'), true, text, ViewMode::ItemDetail) == Action::Down,
        key_action(KeyCode::Down, true, text, ViewMode::ItemDetail) == Action::Down,
        key_action(KeyCode::Char('k'), true, text, ViewMode::ItemDetail) == Action::Up,
        key_action(KeyCode::Up, true, text, ViewMode::ItemDetail) == Action::Up,
        key_action(KeyCode::Enter, true, text, ViewMode::ItemDetail) == Action::CopyField,
        key_action(KeyCode::Char('y'), true, text, ViewMode::ItemDetail) == Action::CopyField,
        key_action(KeyCode::Char('p'), true, text, ViewMode::ItemDetail) == Action::CopyPassword,
        key_action(KeyCode::Char('u'), true, text, ViewMode::ItemDetail) == Action::CopyUsername,
        key_action(KeyCode::Char('t'), true, text, ViewMode::ItemDetail) == Action::CopyTotp,
        key_action(KeyCode::Char('H'), true, text, ViewMode::ItemDetail) == Action::ToggleHidden,
        key_action(KeyCode::Escape, true, text, ViewMode::ItemDetail) == Action::Back,
        key_action(KeyCode::Char('q'), true, text, ViewMode::ItemDetail) == Action::Back,
{
}

/// In search, Escape cancels, Enter opens, Backspace deletes, the arrows
/// move, and a typed character goes into the query: the first character of
/// the key's text, or the key's own character when it has no text.
pub proof fn law_search_key_bindings(text: Option<Seq<char>>, c: char)
    ensures
        key_action(KeyCode::Escape, true, text, ViewMode::Search) == Action::Back,
        key_action(KeyCode::Enter, true, text, ViewMode::Search) == Action::SearchSubmit,
        key_action(KeyCode::Backspace, true, text, ViewMode::Search) == Action::SearchBackspace,
        key_action(KeyCode::Down, true, text, ViewMode::Search) == Action::Down,
        key_action(KeyCode::Up, true, text, ViewMode::Search) == Action::Up,
        key_action(KeyCode::Char(c), true, None, ViewMode::Search) == Action::SearchInput(c),
        text is Some && text->0.len() > 0 ==> key_action(KeyCode::Char(c), true, text, ViewMode::Search)
            == Action::SearchInput(text->0[0]),
{
}

/// `needle` occurs in `hay` at some position.
pub open spec fn found_in(hay: Seq<char>, needle: Seq<char>) -> bool {
    exists|s: int| 0 <= s && s + needle.len() <= hay.len() && #[trigger] hay.subrange(s, s + needle.len()) == needle
}

/// `s` ends with `tail`.
pub open spec fn ends_with(s: Seq<char>, tail: Seq<char>) -> bool {
    tail.len() <= s.len() && s.subrange(s.len() - tail.len(), s.len() as int) == tail
}

proof fn lemma_found_in(hay: Seq<char>, needle: Seq<char>)
    ensures
        found_in(hay, needle) == contains_seq(hay, needle),
{
    if found_in(hay, needle) {
        let s = choose|s: int|
            0 <= s && s + needle.len() <= hay.len() && #[trigger] hay.subrange(s, s + needle.len()) == needle;
        assert(occurs_at(hay, needle, s));
    }
    if contains_seq(hay, needle) {
        let s = choose|s: int| #[trigger] occurs_at(hay, needle, s);
        assert(hay.subrange(s, s + needle.len()) == needle);
    }
}

/// Where the search looks: an item matches a query exactly when the
/// lower-cased query occurs in the lower-cased title, in any of its URLs
/// (not only the first), in its username (the first field for a username)
/// or in any of its tags. A match scores above zero, no match scores zero,
/// and the score is at least what the best place found gives: 100 for a
/// title equal to the query, 75 for a title starting with it, 50 for a
/// title holding it, 30 for a URL, 20 for the username, 10 for a tag.
pub proof fn law_match_places(item: Item, query: Seq<char>)
    ensures
        item.matches_query(query) <==> {
            ||| found_in(lowercase(item.title@), lowercase(query))
            ||| exists|i: int|
                0 <= i < item.urls@.len() && found_in(lowercase(#[trigger] item.urls@[i].href@), lowercase(query))
            ||| exists|k: int|
                0 <= k < item.fields@.len() && item.fields@[k].purpose == Some(FieldPurpose::Username) && (forall|j: int|
                    0 <= j < k ==> (#[trigger] item.fields@[j]).purpose != Some(FieldPurpose::Username)) && found_in(
                    lowercase(#[trigger] item.fields@[k].value@),
                    lowercase(query),
                )
            ||| exists|i: int|
                0 <= i < item.tags@.len() && found_in(lowercase(#[trigger] item.tags@[i]@), lowercase(query))
        },
        item.matches_query(query) <==> item.score_for(query) > 0,
        lowercase(item.title@) == lowercase(query) ==> item.score_for(query) == 100,
        lowercase(item.title@) != lowercase(query) && lowercase(query).len() <= lowercase(item.title@).len()
            && lowercase(item.title@).subrange(0, lowercase(query).len() as int) == lowercase(query)
            ==> item.score_for(query) == 75,
        found_in(lowercase(item.title@), lowercase(query)) ==> item.score_for(query) >= 50,
        forall|i: int|
            0 <= i < item.urls@.len() && found_in(lowercase(#[trigger] item.urls@[i].href@), lowercase(query))
                ==> item.score_for(query) >= 30,
        forall|i: int|
            0 <= i < item.tags@.len() && found_in(lowercase(#[trigger] item.tags@[i]@), lowercase(query))
                ==> item.score_for(query) >= 10,
{
    let q = lowercase(query);
    lemma_found_in(lowercase(item.title@), q);
    lemma_score_positive_iff_match(item, query);
    assert forall|i: int| 0 <= i < item.urls@.len() implies found_in(lowercase(#[trigger] item.urls@[i].href@), q)
        == text_matches(item.urls@[i].href@, q) by {
        lemma_found_in(lowercase(item.urls@[i].href@), q);
    }
    assert forall|i: int| 0 <= i < item.tags@.len() implies found_in(lowercase(#[trigger] item.tags@[i]@), q)
        == text_matches(item.tags@[i]@, q) by {
        lemma_found_in(lowercase(item.tags@[i]@), q);
    }
    let pu = has_purpose(FieldPurpose::Username);
    lemma_first_index_found(item.fields@, pu);
    let user_place = exists|k: int|
        0 <= k < item.fields@.len() && item.fields@[k].purpose == Some(FieldPurpose::Username) && (forall|j: int|
            0 <= j < k ==> (#[trigger] item.fields@[j]).purpose != Some(FieldPurpose::Username)) && found_in(
            lowercase(#[trigger] item.fields@[k].value@),
            q,
        );
    match first_index(item.fields@, pu) {
        Some(k0) => {
            lemma_found_in(lowercase(item.fields@[k0].value@), q);
            assert(item.username_text() == Some(item.fields@[k0].value@));
            if user_place {
                let k = choose|k: int|
                    0 <= k < item.fields@.len() && item.fields@[k].purpose == Some(FieldPurpose::Username) && (forall|
                        j: int,
                    | 0 <= j < k ==> (#[trigger] item.fields@[j]).purpose != Some(FieldPurpose::Username)) && found_in(
                        lowercase(#[trigger] item.fields@[k].value@),
                        q,
                    );
                assert(is_first(item.fields@, pu, k));
                lemma_first_index_at(item.fields@, pu, k);
            }
            if item.username_matches(q) {
                assert(pu(item.fields@[k0]));
                assert forall|j: int| 0 <= j < k0 implies (#[trigger] item.fields@[j]).purpose != Some(
                    FieldPurpose::Username,
                ) by {
                    assert(!pu(item.fields@[j]));
                }
            }
        },
        None => {
            if user_place {
                let k = choose|k: int|
                    0 <= k < item.fields@.len() && item.fields@[k].purpose == Some(FieldPurpose::Username) && (forall|
                        j: int,
                    | 0 <= j < k ==> (#[trigger] item.fields@[j]).purpose != Some(FieldPurpose::Username)) && found_in(
                        lowercase(#[trigger] item.fields@[k].value@),
                        q,
                    );
                assert(pu(item.fields@[k]));
            }
        },
    }
    let t = lowercase(item.title@);
    if t != q && q.len() <= t.len() && t.subrange(0, q.len() as int) == q {
        assert(starts_with_seq(t, q));
    }
}


proof fn lemma_field_rows_hold(fields: Seq<Field>, n: nat, selected: usize, show_hidden: bool, k: int)
    requires
        0 <= k < n <= fields.len(),
        !field_hidden(fields[k]),
    ensures
        exists|j: int|
            0 <= j < field_rows(fields, n, selected, show_hidden).len() && #[trigger] field_rows(
                fields,
                n,
                selected,
                show_hidden,
            )[j] == field_row(fields[k], k == selected as int, show_hidden),
    decreases n,
{
    let rest = field_rows(fields, (n - 1) as nat, selected, show_hidden);
    if k == n - 1 {
        assert(field_rows(fields, n, selected, show_hidden)[rest.len() as int] == field_row(
            fields[k],
            k == selected as int,
            show_hidden,
        ));
    } else {
        lemma_field_rows_hold(fields, (n - 1) as nat, selected, show_hidden, k);
        let j = choose|j: int|
            0 <= j < rest.len() && #[trigger] rest[j] == field_row(fields[k], k == selected as int, show_hidden);
        let all = field_rows(fields, n, selected, show_hidden);
        if !field_hidden(fields[n - 1]) {
            assert(all == rest.push(field_row(fields[n - 1], (n - 1) == selected as int, show_hidden)));
        } else {
            assert(all == rest);
        }
        assert(j < all.len() && all[j] == rest[j]);
    }
}

/// In the detail view every field with a label or a value has its row on
/// screen, marked selected exactly when it is the selected field. Once
/// hidden values are revealed, the row of each field that is not a
/// one-time password ends with the field's own value; while they are
/// hidden, the row of a concealed field ends with the mask instead, and
/// every other field that is not a one-time password still shows its value.
pub proof fn law_detail_rows_show_values(state: KagiState, k: int)
    requires
        state.mode == ViewMode::ItemDetail,
        !state.loading,
        state.detail_item is Some,
        0 <= k < state.detail_item->0.fields@.len(),
        state.detail_item->0.fields@[k].label@.len() > 0 || state.detail_item->0.fields@[k].value@.len() > 0,
    ensures
        exists|j: int|
            0 <= j < screen_lines(state).len() && (#[trigger] screen_lines(state)[j]).1 == (k
                == state.detail_field_index as int) && {
                let f = state.detail_item->0.fields@[k];
                let row = screen_lines(state)[j].0;
                &&& f.field_type != FieldType::Otp && (state.show_hidden || f.field_type != FieldType::Concealed)
                    ==> ends_with(row, f.value@)
                &&& f.field_type == FieldType::Concealed && !state.show_hidden ==> ends_with(row, concealed_mask())
                &&& f.field_type == FieldType::Otp ==> ends_with(row, otp_hint())
            },
{
    let item = state.detail_item->0;
    let fields = item.fields@;
    let f = fields[k];
    let fr = field_rows(fields, fields.len(), state.detail_field_index, state.show_hidden);
    lemma_field_rows_hold(fields, fields.len(), state.detail_field_index, state.show_hidden, k);
    let j = choose|j: int|
        0 <= j < fr.len() && #[trigger] fr[j] == field_row(f, k == state.detail_field_index as int, state.show_hidden);
    let head = seq![
        accent("Kagi \u{2014} "@ + item.title@),
        accent("  Category: "@ + item.category.label_text()),
    ] + (if item.tags@.len() > 0 {
        seq![accent("  Tags: "@ + join_texts(texts_of(item.tags@), ", "@))]
    } else {
        Seq::empty()
    }) + (match item.primary_url_text() {
        Some(u) => seq![accent("  URL: "@ + u)],
        None => Seq::empty(),
    }) + seq![blank(), accent("  Fields:"@)];
    let tail = (if item.urls@.len() > 1 {
        seq![blank(), accent("  URLs:"@)] + item.urls@.map_values(|u: crate::vault::ItemUrl| url_row(u))
    } else {
        Seq::empty()
    }) + seq![blank(), accent(detail_help())];
    let body = detail_view_lines(state);
    assert(body == head + fr + tail);
    let jj = head.len() + j;
    assert(body[jj] == fr[j]);
    assert(screen_lines(state)[jj] == body[jj]);
    let row = fr[j].0;
    let label = if f.label@.len() == 0 {
        f.field_type.name_text()
    } else {
        f.label@
    };
    let value = if f.field_type == FieldType::Concealed && !state.show_hidden {
        concealed_mask()
    } else if f.field_type == FieldType::Otp {
        otp_hint()
    } else {
        f.value@
    };
    let lead = (if k == state.detail_field_index as int {
        "> "@
    } else {
        "  "@
    }) + "  "@ + label + ": "@;
    assert(row == lead + value);
    assert((lead + value).subrange(lead.len() as int, (lead + value).len() as int) =~= value);
}

/// Converting an `op` item keeps what `op` printed: the id, title, vault,
/// tags and favourite flag; each URL with its address and primary flag, so
/// the converted item's primary URL is the first one `op` marks primary
/// (or the first URL when none is); and each field with its id, label and
/// value (empty when `op` gave none).
pub proof fn law_op_conversion_keeps(op: OpItem, out: Item)
    requires
        converts_item(op, out),
    ensures
        out.id == op.id && out.title == op.title && out.vault_id == op.vault.id,
        out.tags@ == op.tags@ && out.favorite == op.favorite,
        out.urls@.len() == op.urls@.len(),
        forall|i: int|
            0 <= i < op.urls@.len() ==> (#[trigger] out.urls@[i]).primary == op.urls@[i].primary
                && out.urls@[i].href == op.urls@[i].href,
        forall|i: int|
            0 <= i < op.urls@.len() && (#[trigger] op.urls@[i]).primary && (forall|j: int|
                0 <= j < i ==> !(#[trigger] op.urls@[j]).primary) ==> out.primary_url_text() == Some(
                op.urls@[i].href@,
            ),
        (forall|i: int| 0 <= i < op.urls@.len() ==> !(#[trigger] op.urls@[i]).primary) && op.urls@.len() > 0
            ==> out.primary_url_text() == Some(op.urls@[0].href@),
        op.urls@.len() == 0 ==> out.primary_url_text() is None,
        out.fields@.len() == op.fields@.len(),
        forall|i: int|
            0 <= i < op.fields@.len() ==> (#[trigger] out.fields@[i]).id == op.fields@[i].id && out.fields@[i].label
                == op.fields@[i].label && out.fields@[i].value@ == (match op.fields@[i].value {
                Some(v) => v@,
                None => Seq::<char>::empty(),
            }),
{
    assert forall|i: int|
        0 <= i < op.urls@.len() && (#[trigger] op.urls@[i]).primary && (forall|j: int|
            0 <= j < i ==> !(#[trigger] op.urls@[j]).primary) implies out.primary_url_text() == Some(
        op.urls@[i].href@,
    ) by {
        assert forall|j: int| 0 <= j < i implies !is_primary()(#[trigger] out.urls@[j]) by {
            assert(!op.urls@[j].primary);
        }
        assert(is_first(out.urls@, is_primary(), i));
        lemma_first_index_at(out.urls@, is_primary(), i);
    }
    if (forall|i: int| 0 <= i < op.urls@.len() ==> !(#[trigger] op.urls@[i]).primary) {
        assert forall|j: int| 0 <= j < out.urls@.len() implies !is_primary()(#[trigger] out.urls@[j]) by {
            assert(!op.urls@[j].primary);
        }
        lemma_first_index_none(out.urls@, is_primary());
    }
    assert forall|i: int| 0 <= i < op.fields@.len() implies (#[trigger] out.fields@[i]).id == op.fields@[i].id
        && out.fields@[i].label == op.fields@[i].label && out.fields@[i].value@ == (match op.fields@[i].value {
        Some(v) => v@,
        None => Seq::<char>::empty(),
    }) by {
        assert(converts_field(op.fields@[i], out.fields@[i]));
    }
}

/// Tab steps forward through the vaults: the next vault after the selected
/// one is selected, wrapping from the last vault to the first, its items
/// are requested and loading starts; with no vaults nothing happens.
pub proof fn law_next_vault_steps_forward(
    s0: KagiState,
    s1: KagiState,
    requests: Seq<BackendRequest>,
    exit: bool,
)
    requires
        s0.wf(),
        KagiState::action_done(s0, s1, Action::NextVault, requests, exit),
    ensures
        s0.vaults@.len() > 0 ==> {
            let next = if s0.selected_vault + 1 < s0.vaults@.len() {
                s0.selected_vault + 1
            } else {
                0
            };
            &&& s1.selected_vault == next
            &&& requests.len() == 1
            &&& requests[0] matches BackendRequest::LoadItems { vault_id } && vault_id == s0.vaults@[next].id
            &&& s1.loading
            &&& s1.vaults == s0.vaults
            &&& s1.mode == s0.mode
        },
        s0.vaults@.len() == 0 ==> s1 == s0 && requests.len() == 0,
        !exit,
{
    if s0.vaults@.len() > 0 {
        let n = s0.vaults@.len() as int;
        let v = s0.selected_vault as int;
        assert(0 <= v < n);
        if v + 1 < n {
            assert((v + 1) % n == v + 1) by (nonlinear_arith)
                requires
                    0 <= v + 1 < n,
            ;
        } else {
            assert((v + 1) % n == 0) by (nonlinear_arith)
                requires
                    v + 1 == n,
                    n > 0,
            ;
        }
    }
}


/// Copying the username of an open item copies the value of its first
/// username field under the label "username" and changes nothing; when the
/// item has no username field nothing is copied and the status line says so.
pub proof fn law_copy_username_from_open_item(
    s0: KagiState,
    s1: KagiState,
    r1: Seq<BackendRequest>,
    e1: bool,
    k: int,
)
    requires
        s0.mode == ViewMode::ItemDetail,
        s0.detail_item is Some,
        KagiState::action_done(s0, s1, Action::CopyUsername, r1, e1),
    ensures
        0 <= k < s0.detail_item->0.fields@.len() && s0.detail_item->0.fields@[k].purpose == Some(
            FieldPurpose::Username,
        ) && (forall|j: int|
            0 <= j < k ==> (#[trigger] s0.detail_item->0.fields@[j]).purpose != Some(FieldPurpose::Username)) ==> {
            &&& s1 == s0
            &&& r1.len() == 1
            &&& r1[0] matches BackendRequest::CopyToClipboard { value, label } && value@
                == s0.detail_item->0.fields@[k].value@ && label@ == "username"@
        },
        (forall|k: int|
            0 <= k < s0.detail_item->0.fields@.len() ==> (#[trigger] s0.detail_item->0.fields@[k]).purpose != Some(
                FieldPurpose::Username,
            )) ==> r1.len() == 0 && shows(s1, "No username field found"@),
        !e1,
{
    let item = s0.detail_item->0;
    let fs = item.fields@;
    let pu = has_purpose(FieldPurpose::Username);
    assert(s0.source_item() == Some(item));
    if 0 <= k < fs.len() && fs[k].purpose == Some(FieldPurpose::Username) && (forall|j: int|
        0 <= j < k ==> (#[trigger] fs[j]).purpose != Some(FieldPurpose::Username)) {
        assert(is_first(fs, pu, k));
        lemma_first_index_at(fs, pu, k);
    }
    if forall|k: int| 0 <= k < fs.len() ==> (#[trigger] fs[k]).purpose != Some(FieldPurpose::Username) {
        lemma_first_index_none(fs, pu);
    }
}

/// Copying the password of an open item fetches the item again and copies
/// the value of its first password field under the label "password",
/// changing nothing; when the item has no password field it is still
/// fetched, nothing is copied and the status line says so.
pub proof fn law_copy_password_from_open_item(
    s0: KagiState,
    s2: KagiState,
    r2: Seq<BackendRequest>,
    e2: bool,
    k: int,
)
    requires
        s0.mode == ViewMode::ItemDetail,
        s0.detail_item is Some,
        KagiState::action_done(s0, s2, Action::CopyPassword, r2, e2),
    ensures
        r2.len() >= 1,
        r2[0] matches BackendRequest::GetItem { vault_id, item_id } && vault_id == s0.detail_item->0.vault_id
            && item_id == s0.detail_item->0.id,
        0 <= k < s0.detail_item->0.fields@.len() && s0.detail_item->0.fields@[k].purpose == Some(
            FieldPurpose::Password,
        ) && (forall|j: int|
            0 <= j < k ==> (#[trigger] s0.detail_item->0.fields@[j]).purpose != Some(FieldPurpose::Password)) ==> {
            &&& s2 == s0
            &&& r2.len() == 2
            &&& r2[1] matches BackendRequest::CopyToClipboard { value, label } && value@
                == s0.detail_item->0.fields@[k].value@ && label@ == "password"@
        },
        (forall|k: int|
            0 <= k < s0.detail_item->0.fields@.len() ==> (#[trigger] s0.detail_item->0.fields@[k]).purpose != Some(
                FieldPurpose::Password,
            )) ==> r2.len() == 1 && shows(s2, "No password field found"@),
        !e2,
{
    let item = s0.detail_item->0;
    let fs = item.fields@;
    let pp = has_purpose(FieldPurpose::Password);
    assert(s0.source_item() == Some(item));
    assert(s0.target_item() == Some(item));
    if 0 <= k < fs.len() && fs[k].purpose == Some(FieldPurpose::Password) && (forall|j: int|
        0 <= j < k ==> (#[trigger] fs[j]).purpose != Some(FieldPurpose::Password)) {
        assert(is_first(fs, pp, k));
        lemma_first_index_at(fs, pp, k);
    }
    if forall|k: int| 0 <= k < fs.len() ==> (#[trigger] fs[k]).purpose != Some(FieldPurpose::Password) {
        lemma_first_index_none(fs, pp);
    }
}

/// The lines of a list of summaries: one per summary in order, and with
/// the favourites filter exactly the favourites' lines, in order.
pub proof fn law_summary_listing(s: Seq<ItemSummary>)
    ensures
        summary_lines(s, false) == s.map_values(|x: ItemSummary| summary_line(x)),
        summary_lines(s, true) == s.filter(|x: ItemSummary| x.favorite).map_values(|x: ItemSummary| summary_line(x)),
    decreases s.len(),
{
    if s.len() > 0 {
        law_summary_listing(s.drop_last());
        let f = |x: ItemSummary| x.favorite;
        let m = |x: ItemSummary| summary_line(x);
        assert(s.drop_last().push(s.last()) =~= s);
        s.drop_last().lemma_filter_push(s.last(), f);
        assert(s.map_values(m) =~= s.drop_last().map_values(m).push(summary_line(s.last())));
        if f(s.last()) {
            assert(s.filter(f).map_values(m) =~= s.drop_last().filter(f).map_values(m).push(summary_line(s.last())));
        } else {
            assert(s.filter(f).map_values(m) =~= s.drop_last().filter(f).map_values(m));
        }
    } else {
        assert(s.filter(|x: ItemSummary| x.favorite) =~= Seq::<ItemSummary>::empty());
    }
}

/// A summary's line starts with a star for a favourite and a space
/// otherwise, then a space and the title.
pub proof fn law_summary_line_shape(x: ItemSummary)
    ensures
        summary_line(x)[0] == (if x.favorite {
            '*'
        } else {
            ' '
        }),
        summary_line(x).subrange(2, 2 + x.title@.len() as int) == x.title@,
{
    reveal_strlit("*");
    reveal_strlit(" ");
    let mark: Seq<char> = if x.favorite {
        "*"@
    } else {
        " "@
    };
    let rest = (if x.vault_name@.len() == 0 {
        Seq::<char>::empty()
    } else {
        " ("@ + x.vault_name@ + ")"@
    }) + " ["@ + x.category.label_text() + (if x.has_totp {
        " [TOTP]"@
    } else {
        Seq::<char>::empty()
    }) + "] "@ + (match x.username {
        Some(u) => u@,
        None => Seq::<char>::empty(),
    });
    assert(summary_line(x) =~= mark + " "@ + x.title@ + rest);
    assert((mark + " "@ + x.title@ + rest).subrange(2, 2 + x.title@.len() as int) =~= x.title@);
}

/// The primary URL of an item is the first URL marked primary, or the first
/// URL when none is marked, and there is none without URLs.
pub proof fn law_primary_url(item: Item)
    ensures
        forall|i: int|
            0 <= i < item.urls@.len() && (#[trigger] item.urls@[i]).primary && (forall|j: int|
                0 <= j < i ==> !(#[trigger] item.urls@[j]).primary) ==> item.primary_url_text() == Some(
                item.urls@[i].href@,
            ),
        (forall|i: int| 0 <= i < item.urls@.len() ==> !(#[trigger] item.urls@[i]).primary) && item.urls@.len() > 0
            ==> item.primary_url_text() == Some(item.urls@[0].href@),
        item.urls@.len() == 0 ==> item.primary_url_text() is None,
{
    assert forall|i: int|
        0 <= i < item.urls@.len() && (#[trigger] item.urls@[i]).primary && (forall|j: int|
            0 <= j < i ==> !(#[trigger] item.urls@[j]).primary) implies item.primary_url_text() == Some(
        item.urls@[i].href@,
    ) by {
        assert(is_first(item.urls@, is_primary(), i));
        lemma_first_index_at(item.urls@, is_primary(), i);
    }
    if forall|i: int| 0 <= i < item.urls@.len() ==> !(#[trigger] item.urls@[i]).primary {
        lemma_first_index_none(item.urls@, is_primary());
    }
}

} // verus!
