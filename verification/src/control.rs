//! The vault browser's event handling, as a state machine: a key action or
//! a backend response changes the UI state and yields the requests the
//! background worker must carry out (load vaults or items, fetch an item or
//! a one-time password, copy a value to the clipboard). The event loop and
//! the worker run outside this library and feed it actions and responses.

use vstd::prelude::*;
use crate::input::Action;
use crate::render::{format_vaults, vault_lines, KagiState, ViewMode, LIST_WINDOW};
use crate::text::{decimal, push_decimal, push_str, string_from_chars};
use crate::vault::{Item, ItemSummary, Vault};
use crate::widgets::{
    input_at_end, input_delete_back, input_insert_char, input_text, without_last_grapheme, list_items, list_new, list_offset, list_selected, list_selected_index,
    list_window, texts_of,
};

verus! {

/// Requests the UI makes of the background worker.
#[derive(Debug)]
pub enum BackendRequest {
    LoadVaults,
    LoadItems { vault_id: String },
    GetItem { vault_id: String, item_id: String },
    GetTotp { vault_id: String, item_id: String },
    CopyToClipboard { value: String, label: String },
}

/// Responses the background worker sends back to the UI.
pub enum BackendResponse {
    Vaults(Result<Vec<Vault>, String>),
    Items { items: Result<Vec<Item>, String> },
    ItemDetail(Result<Item, String>),
    Totp(Result<String, String>),
    Copied { label: String, result: Result<(), String> },
    AllItemsLoaded { items: Vec<Item>, summaries: Vec<ItemSummary> },
}

/// What handling an action asks for: requests for the worker, and whether
/// the application exits.
pub struct Step {
    pub requests: Vec<BackendRequest>,
    pub exit: bool,
}

/// `r` asks to copy `value` to the clipboard under `label`.
pub open spec fn copies(r: BackendRequest, value: Seq<char>, label: Seq<char>) -> bool {
    r matches BackendRequest::CopyToClipboard { value: v, label: l } && v@ == value && l@ == label
}

/// `r` asks to fetch `item` in full.
pub open spec fn fetches(r: BackendRequest, item: Item) -> bool {
    r matches BackendRequest::GetItem { vault_id, item_id } && vault_id == item.vault_id && item_id == item.id
}

/// `r` asks for the current one-time password of `item`.
pub open spec fn fetches_totp(r: BackendRequest, item: Item) -> bool {
    r matches BackendRequest::GetTotp { vault_id, item_id } && vault_id == item.vault_id && item_id == item.id
}

/// `r` asks to load the items of `vault`.
pub open spec fn loads_items(r: BackendRequest, vault: Vault) -> bool {
    r matches BackendRequest::LoadItems { vault_id } && vault_id == vault.id
}

/// The status line shows `text`.
pub open spec fn shows(s: KagiState, text: Seq<char>) -> bool {
    s.status_message matches Some(m) && m@ == text
}

/// The status text after a copy to the clipboard succeeded.
pub open spec fn copied_text(label: Seq<char>, clear_timeout: u32) -> Seq<char> {
    "Copied "@ + label + " to clipboard (clears in "@ + decimal(clear_timeout as nat) + "s)"@
}

/// `s` with another search input.
pub open spec fn with_input(s: KagiState, input: egaku::TextInput) -> KagiState {
    KagiState { search_input: input, ..s }
}

/// `s` with another favourites filter and status message.
pub open spec fn with_filter_and_status(s: KagiState, favorites_only: bool, status: Option<String>) -> KagiState {
    KagiState { favorites_only: favorites_only, status_message: status, ..s }
}

/// `s` with another loading flag and status message.
pub open spec fn with_loading_and_status(s: KagiState, loading: bool, status: Option<String>) -> KagiState {
    KagiState { loading: loading, status_message: status, ..s }
}

impl KagiState {
    /// The item a copy or fetch targets: the detail item in the detail view,
    /// otherwise the selected item.
    pub open spec fn target_item(self) -> Option<Item> {
        if self.mode == ViewMode::ItemDetail {
            self.detail_item
        } else {
            self.selected_item_spec()
        }
    }

    /// The item whose values are copied: the detail item when there is one,
    /// otherwise the selected item.
    pub open spec fn source_item(self) -> Option<Item> {
        match self.detail_item {
            Some(d) => Some(d),
            None => self.selected_item_spec(),
        }
    }

    /// The effect of a key action: `post` and `requests` are the state and
    /// the worker requests after `action` in state `pre`, and `exit` says
    /// whether the application quits.
    pub open spec fn action_done(
        pre: KagiState,
        post: KagiState,
        action: Action,
        requests: Seq<BackendRequest>,
        exit: bool,
    ) -> bool {
        &&& post.wf()
        &&& exit == (action == Action::Quit)
        &&& match action {
            Action::Down => KagiState::moved_down(pre, post) && requests.len() == 0,
            Action::Up => KagiState::moved_up(pre, post) && requests.len() == 0,
            Action::Select => match pre.mode {
                ViewMode::VaultList => {
                    let idx = list_selected(pre.vault_list);
                    if idx < pre.vaults@.len() {
                        &&& post == KagiState {
                            selected_vault: idx as usize,
                            loading: true,
                            mode: ViewMode::ItemList,
                            ..pre
                        }
                        &&& requests.len() == 1
                        &&& loads_items(requests[0], pre.vaults@[idx as int])
                    } else {
                        post == pre && requests.len() == 0
                    }
                },
                ViewMode::ItemList | ViewMode::Search => match pre.selected_item_spec() {
                    Some(item) => {
                        &&& post == KagiState { loading: true, ..pre }
                        &&& requests.len() == 1
                        &&& fetches(requests[0], item)
                    },
                    None => post == pre && requests.len() == 0,
                },
                ViewMode::ItemDetail => post == pre && requests.len() == 0,
            },
            Action::CopyPassword => match pre.target_item() {
                None => post == pre && requests.len() == 0,
                Some(t) => {
                    &&& requests.len() >= 1
                    &&& fetches(requests[0], t)
                    &&& match pre.source_item() {
                        Some(src) if src.password_text() is Some => {
                            &&& post == pre
                            &&& requests.len() == 2
                            &&& copies(requests[1], src.password_text()->0, "password"@)
                        },
                        _ => {
                            &&& requests.len() == 1
                            &&& shows(post, "No password field found"@)
                            &&& post.same_except_status(pre)
                        },
                    }
                },
            },
            Action::CopyUsername => match pre.source_item() {
                Some(src) if src.username_text() is Some => {
                    &&& post == pre
                    &&& requests.len() == 1
                    &&& copies(requests[0], src.username_text()->0, "username"@)
                },
                _ => {
                    &&& requests.len() == 0
                    &&& shows(post, "No username field found"@)
                    &&& post.same_except_status(pre)
                },
            },
            Action::CopyTotp => match (match pre.detail_item {
                Some(d) => Some(d),
                None => pre.selected_item_spec(),
            }) {
                Some(t) => post == pre && requests.len() == 1 && fetches_totp(requests[0], t),
                None => {
                    &&& requests.len() == 0
                    &&& shows(post, "No item selected"@)
                    &&& post.same_except_status(pre)
                },
            },
            Action::EnterSearch => KagiState::search_entered(pre, post) && requests.len() == 0,
            Action::ToggleFavorites => {
                &&& requests.len() == 0
                &&& post.favorites_only == !pre.favorites_only
                &&& shows(
                    post,
                    if post.favorites_only {
                        "Showing favorites only"@
                    } else {
                        "Showing all items"@
                    },
                )
                &&& if pre.mode == ViewMode::Search {
                    KagiState::search_applied(
                        pre,
                        with_filter_and_status(post, pre.favorites_only, pre.status_message),
                    )
                } else {
                    post.same_except_status(KagiState { favorites_only: !pre.favorites_only, ..pre })
                }
            },
            Action::NextVault => if pre.vaults@.len() == 0 {
                post == pre && requests.len() == 0
            } else {
                let next = ((pre.selected_vault + 1) as int % pre.vaults@.len() as int) as usize;
                &&& post.selected_vault == next
                &&& list_items(post.vault_list) == vault_lines(pre.vaults@)
                &&& list_selected(post.vault_list) == 0
                &&& list_offset(post.vault_list) == 0
                &&& list_window(post.vault_list) == LIST_WINDOW
                &&& post.loading
                &&& requests.len() == 1
                &&& loads_items(requests[0], pre.vaults@[next as int])
                &&& post == KagiState {
                    selected_vault: next,
                    vault_list: post.vault_list,
                    loading: true,
                    ..pre
                }
            },
            Action::Back => KagiState::went_back(pre, post) && requests.len() == 0,
            Action::Quit => post == pre && requests.len() == 0,
            Action::ToggleHidden => post == KagiState { show_hidden: !pre.show_hidden, ..pre } && requests.len()
                == 0,
            Action::CopyField => match pre.selected_field_text() {
                Some(v) => {
                    &&& post == pre
                    &&& requests.len() == 1
                    &&& copies(
                        requests[0],
                        v,
                        pre.detail_item->0.fields@[pre.detail_field_index as int].label@,
                    )
                },
                None => post == pre && requests.len() == 0,
            },
            Action::SearchInput(c) => {
                &&& requests.len() == 0
                &&& KagiState::search_applied(with_input(pre, post.search_input), post)
                &&& input_text(post.search_input) == input_text(pre.search_input).push(c)
            },
            Action::SearchBackspace => {
                &&& requests.len() == 0
                &&& KagiState::search_applied(with_input(pre, post.search_input), post)
                &&& input_text(post.search_input) == if input_text(pre.search_input).len() == 0 {
                    input_text(pre.search_input)
                } else {
                    without_last_grapheme(input_text(pre.search_input))
                }
                &&& input_text(pre.search_input).len() > 0 ==> input_text(post.search_input).len() < input_text(
                    pre.search_input,
                ).len()
                &&& input_text(post.search_input) == input_text(pre.search_input).take(
                    input_text(post.search_input).len() as int,
                )
            },
            Action::SearchSubmit => if pre.search_results@.len() > 0 && pre.selected_item_spec() is Some {
                &&& post == KagiState { loading: true, ..pre }
                &&& requests.len() == 1
                &&& fetches(requests[0], pre.selected_item_spec()->0)
            } else {
                post == pre && requests.len() == 0
            },
            Action::NoAction => post == pre && requests.len() == 0,
        }
    }

    fn target_ids(&self) -> (r: Option<(String, String)>)
        ensures
            match self.target_item() {
                Some(t) => r == Some((t.vault_id, t.id)),
                None => r is None,
            },
    {
        if self.mode == ViewMode::ItemDetail {
            match &self.detail_item {
                Some(i) => Some((i.vault_id.clone(), i.id.clone())),
                None => None,
            }
        } else {
            self.selected_ids()
        }
    }

    fn source_password(&self) -> (r: Option<String>)
        ensures
            match self.source_item() {
                Some(src) => crate::vault::opt_string_text(r) == src.password_text(),
                None => r is None,
            },
    {
        let pw = match &self.detail_item {
            Some(item) => item.password(),
            None => match self.selected_item() {
                Some(i) => i.password(),
                None => None,
            },
        };
        match pw {
            Some(p) => Some(p.to_owned()),
            None => None,
        }
    }

    fn source_username(&self) -> (r: Option<String>)
        ensures
            match self.source_item() {
                Some(src) => crate::vault::opt_string_text(r) == src.username_text(),
                None => r is None,
            },
    {
        let u = match &self.detail_item {
            Some(item) => item.username(),
            None => match self.selected_item() {
                Some(i) => i.username(),
                None => None,
            },
        };
        match u {
            Some(p) => Some(p.to_owned()),
            None => None,
        }
    }

    fn totp_ids(&self) -> (r: Option<(String, String)>)
        ensures
            match (match self.detail_item {
                Some(d) => Some(d),
                None => self.selected_item_spec(),
            }) {
                Some(t) => r == Some((t.vault_id, t.id)),
                None => r is None,
            },
    {
        match &self.detail_item {
            Some(i) => Some((i.vault_id.clone(), i.id.clone())),
            None => self.selected_ids(),
        }
    }

    /// Handle a key action: update the UI state and return the requests for
    /// the background worker, and whether to exit.
    pub fn handle_action(&mut self, action: Action) -> (r: Step)
        requires
            old(self).wf(),
        ensures
            Self::action_done(*old(self), *final(self), action, r.requests@, r.exit),
    {
        let mut requests: Vec<BackendRequest> = Vec::new();
        let mut exit = false;
        match action {
            Action::Down => self.move_down(),
            Action::Up => self.move_up(),
            Action::Select => {
                match self.mode {
                    ViewMode::VaultList => {
                        // Select a vault: load its items and show the item list.
                        let vault_idx = list_selected_index(&self.vault_list);
                        if vault_idx < self.vaults.len() {
                            let vault_id = self.vaults[vault_idx].id.clone();
                            self.selected_vault = vault_idx;
                            self.loading = true;
                            requests.push(BackendRequest::LoadItems { vault_id });
                            self.mode = ViewMode::ItemList;
                        }
                    },
                    ViewMode::ItemList | ViewMode::Search => {
                        // Fetch the full item from the backend.
                        if let Some((vault_id, item_id)) = self.selected_ids() {
                            self.loading = true;
                            requests.push(BackendRequest::GetItem { vault_id, item_id });
                        }
                    },
                    ViewMode::ItemDetail => {},
                }
            },
            Action::CopyPassword => {
                if let Some((vault_id, item_id)) = self.target_ids() {
                    requests.push(BackendRequest::GetItem { vault_id, item_id });
                    match self.source_password() {
                        Some(pw) => requests.push(
                            BackendRequest::CopyToClipboard { value: pw, label: "password".to_owned() },
                        ),
                        None => self.set_status("No password field found"),
                    }
                }
            },
            Action::CopyUsername => {
                match self.source_username() {
                    Some(user) => requests.push(
                        BackendRequest::CopyToClipboard { value: user, label: "username".to_owned() },
                    ),
                    None => self.set_status("No username field found"),
                }
            },
            Action::CopyTotp => {
                match self.totp_ids() {
                    Some((vault_id, item_id)) => requests.push(BackendRequest::GetTotp { vault_id, item_id }),
                    None => self.set_status("No item selected"),
                }
            },
            Action::EnterSearch => self.enter_search(),
            Action::ToggleFavorites => {
                if self.mode == ViewMode::Search {
                    self.apply_search();
                }
                self.favorites_only = !self.favorites_only;
                if self.favorites_only {
                    self.set_status("Showing favorites only");
                } else {
                    self.set_status("Showing all items");
                }
            },
            Action::NextVault => {
                if self.vaults.len() > 0 {
                    self.selected_vault = (self.selected_vault + 1) % self.vaults.len();
                    self.vault_list = list_new(format_vaults(&self.vaults), LIST_WINDOW);
                    let vault_id = self.vaults[self.selected_vault].id.clone();
                    self.loading = true;
                    requests.push(BackendRequest::LoadItems { vault_id });
                }
            },
            Action::Back => self.go_back(),
            Action::Quit => {
                exit = true;
            },
            Action::ToggleHidden => {
                self.show_hidden = !self.show_hidden;
            },
            Action::CopyField => {
                if let Some(value) = self.selected_field_value() {
                    let value = value.to_owned();
                    let label = match &self.detail_item {
                        Some(item) => item.fields[self.detail_field_index].label.clone(),
                        None => "field".to_owned(),
                    };
                    requests.push(BackendRequest::CopyToClipboard { value, label });
                }
            },
            Action::SearchInput(c) => {
                input_insert_char(&mut self.search_input, c);
                self.apply_search();
            },
            Action::SearchBackspace => {
                input_delete_back(&mut self.search_input);
                proof {
                    let t = input_text(self.search_input);
                    assert(t.take(t.len() as int) =~= t);
                }
                self.apply_search();
            },
            Action::SearchSubmit => {
                // Open the selected search result.
                if self.search_results.len() > 0 {
                    if let Some((vault_id, item_id)) = self.selected_ids() {
                        self.loading = true;
                        requests.push(BackendRequest::GetItem { vault_id, item_id });
                    }
                }
            },
            Action::NoAction => {},
        }
        Step { requests, exit }
    }
}

/// A status line: `prefix` followed by `detail`.
fn status_with(prefix: &str, detail: &str) -> (r: String)
    ensures
        r@ == prefix@ + detail@,
{
    crate::render::concat_str(prefix, detail)
}

/// The status line after a copy to the clipboard succeeded.
pub fn copied_status(label: &str, clear_timeout: u32) -> (r: String)
    ensures
        r@ == copied_text(label@, clear_timeout),
{
    let mut cs: Vec<char> = Vec::new();
    push_str(&mut cs, "Copied ");
    push_str(&mut cs, label);
    push_str(&mut cs, " to clipboard (clears in ");
    push_decimal(&mut cs, clear_timeout as u64);
    push_str(&mut cs, "s)");
    assert(cs@ =~= copied_text(label@, clear_timeout));
    string_from_chars(&cs)
}

impl KagiState {
    /// The effect of a backend response: `post` is the state after `resp`
    /// arrived in state `pre`, and `follow_up` the request it leads to.
    pub open spec fn response_done(
        pre: KagiState,
        post: KagiState,
        resp: BackendResponse,
        clear_timeout: u32,
        follow_up: Option<BackendRequest>,
    ) -> bool {
        &&& post.wf()
        &&& match resp {
            BackendResponse::Vaults(Ok(vaults)) => {
                &&& follow_up is None
                &&& !post.loading
                &&& shows(post, "Vaults loaded"@)
                &&& KagiState::vaults_set(
                    pre,
                    with_loading_and_status(post, pre.loading, pre.status_message),
                    vaults@,
                )
            },
            BackendResponse::Vaults(Err(e)) => {
                &&& follow_up is None
                &&& shows(post, "Error loading vaults: "@ + e@)
                &&& post.same_except_status(KagiState { loading: false, ..pre })
            },
            BackendResponse::Items { items: Ok(items) } => {
                &&& follow_up is None
                &&& !post.loading
                &&& KagiState::items_set(pre, KagiState { loading: pre.loading, ..post }, items@)
            },
            BackendResponse::Items { items: Err(e) } => {
                &&& follow_up is None
                &&& shows(post, "Error loading items: "@ + e@)
                &&& post.same_except_status(KagiState { loading: false, ..pre })
            },
            BackendResponse::ItemDetail(Ok(item)) => {
                &&& follow_up is None
                &&& post == KagiState {
                    detail_item: Some(item),
                    detail_field_index: 0,
                    show_hidden: false,
                    prev_mode: Some(pre.mode),
                    mode: ViewMode::ItemDetail,
                    loading: false,
                    ..pre
                }
            },
            BackendResponse::ItemDetail(Err(e)) => {
                &&& follow_up is None
                &&& shows(post, "Error loading item: "@ + e@)
                &&& post.same_except_status(KagiState { loading: false, ..pre })
            },
            BackendResponse::Totp(Ok(code)) => {
                &&& post == pre
                &&& follow_up matches Some(r) && copies(r, code@, "TOTP"@)
            },
            BackendResponse::Totp(Err(e)) => {
                &&& follow_up is None
                &&& shows(post, "TOTP error: "@ + e@)
                &&& post.same_except_status(pre)
            },
            BackendResponse::Copied { label, result: Ok(()) } => {
                &&& follow_up is None
                &&& shows(post, copied_text(label@, clear_timeout))
                &&& post.same_except_status(pre)
            },
            BackendResponse::Copied { label, result: Err(e) } => {
                &&& follow_up is None
                &&& shows(post, "Clipboard error: "@ + e@)
                &&& post.same_except_status(pre)
            },
            BackendResponse::AllItemsLoaded { items, summaries } => {
                &&& follow_up is None
                &&& post == KagiState { all_items: items, all_summaries: summaries, ..pre }
            },
        }
    }

    /// Handle a response from the background worker: update the UI state,
    /// and return the request it leads to, if any (a one-time password that
    /// arrived is copied to the clipboard).
    pub fn handle_response(&mut self, resp: BackendResponse, clear_timeout: u32) -> (r: Option<BackendRequest>)
        requires
            old(self).wf(),
        ensures
            Self::response_done(*old(self), *final(self), resp, clear_timeout, r),
    {
        match resp {
            BackendResponse::Vaults(Ok(vaults)) => {
                self.set_vaults(vaults);
                self.loading = false;
                self.set_status("Vaults loaded");
                None
            },
            BackendResponse::Vaults(Err(e)) => {
                self.loading = false;
                let msg = status_with("Error loading vaults: ", e.as_str());
                self.set_status(msg.as_str());
                None
            },
            BackendResponse::Items { items: Ok(items) } => {
                self.set_items(items);
                self.loading = false;
                None
            },
            BackendResponse::Items { items: Err(e) } => {
                self.loading = false;
                let msg = status_with("Error loading items: ", e.as_str());
                self.set_status(msg.as_str());
                None
            },
            BackendResponse::ItemDetail(Ok(item)) => {
                self.detail_item = Some(item);
                self.detail_field_index = 0;
                self.show_hidden = false;
                self.prev_mode = Some(self.mode);
                self.mode = ViewMode::ItemDetail;
                self.loading = false;
                None
            },
            BackendResponse::ItemDetail(Err(e)) => {
                self.loading = false;
                let msg = status_with("Error loading item: ", e.as_str());
                self.set_status(msg.as_str());
                None
            },
            BackendResponse::Totp(Ok(code)) => {
                // Copy the one-time password to the clipboard.
                Some(BackendRequest::CopyToClipboard { value: code, label: "TOTP".to_owned() })
            },
            BackendResponse::Totp(Err(e)) => {
                let msg = status_with("TOTP error: ", e.as_str());
                self.set_status(msg.as_str());
                None
            },
            BackendResponse::Copied { label, result } => {
                match result {
                    Ok(()) => {
                        let msg = copied_status(label.as_str(), clear_timeout);
                        self.set_status(msg.as_str());
                    },
                    Err(e) => {
                        let msg = status_with("Clipboard error: ", e.as_str());
                        self.set_status(msg.as_str());
                    },
                }
                None
            },
            BackendResponse::AllItemsLoaded { items, summaries } => {
                self.set_all_items(items, summaries);
                None
            },
        }
    }
}

/// The items gathered from the first `n` vaults' listings, each with the
/// name of its vault; a vault whose listing failed contributes nothing.
pub open spec fn gathered(vaults: Seq<Vault>, listed: Seq<Option<Vec<Item>>>, n: nat) -> Seq<(Item, Seq<char>)>
    decreases n,
{
    if n == 0 {
        Seq::empty()
    } else {
        let rest = gathered(vaults, listed, (n - 1) as nat);
        match listed[n - 1] {
            Some(items) => rest + items@.map_values(|it: Item| (it, vaults[n - 1].name@)),
            None => rest,
        }
    }
}

/// For global search: all items of the vaults whose listing succeeded, in
/// vault order, with a summary of each naming its vault. `listed[i]` is the
/// listing of `vaults[i]`; extra entries of the longer list are ignored.
pub fn gather_all_items(vaults: &Vec<Vault>, listed: &Vec<Option<Vec<Item>>>) -> (r: (Vec<Item>, Vec<ItemSummary>))
    ensures
        ({
            let n = if vaults@.len() < listed@.len() {
                vaults@.len()
            } else {
                listed@.len()
            };
            let g = gathered(vaults@, listed@, n);
            &&& r.0@.len() == g.len()
            &&& r.1@.len() == g.len()
            &&& forall|k: int|
                0 <= k < g.len() ==> (#[trigger] r.0@[k]).same_as(g[k].0) && ItemSummary::summarises(
                    r.1@[k],
                    g[k].0,
                    g[k].1,
                )
        }),
{
    let n = if vaults.len() < listed.len() {
        vaults.len()
    } else {
        listed.len()
    };
    let mut all_items: Vec<Item> = Vec::new();
    let mut all_summaries: Vec<ItemSummary> = Vec::new();
    let mut i: usize = 0;
    while i < n
        invariant
            i <= n,
            n <= vaults@.len(),
            n <= listed@.len(),
            all_items@.len() == gathered(vaults@, listed@, i as nat).len(),
            all_summaries@.len() == all_items@.len(),
            forall|k: int|
                0 <= k < all_items@.len() ==> (#[trigger] all_items@[k]).same_as(
                    gathered(vaults@, listed@, i as nat)[k].0,
                ) && ItemSummary::summarises(
                    all_summaries@[k],
                    gathered(vaults@, listed@, i as nat)[k].0,
                    gathered(vaults@, listed@, i as nat)[k].1,
                ),
        decreases n - i,
    {
        let ghost prev = gathered(vaults@, listed@, i as nat);
        if let Some(items) = &listed[i] {
            let name = vaults[i].name.as_str();
            let ghost add = items@.map_values(|it: Item| (it, vaults@[i as int].name@));
            let mut j: usize = 0;
            while j < items.len()
                invariant
                    j <= items@.len(),
                    name@ == vaults@[i as int].name@,
                    add == items@.map_values(|it: Item| (it, vaults@[i as int].name@)),
                    all_items@.len() == prev.len() + j,
                    all_summaries@.len() == all_items@.len(),
                    forall|k: int|
                        0 <= k < all_items@.len() ==> (#[trigger] all_items@[k]).same_as((prev + add)[k].0)
                            && ItemSummary::summarises(all_summaries@[k], (prev + add)[k].0, (prev + add)[k].1),
                decreases items@.len() - j,
            {
                all_summaries.push(ItemSummary::from_item_with_vault(&items[j], name));
                all_items.push(items[j].clone());
                j = j + 1;
            }
            assert(gathered(vaults@, listed@, (i + 1) as nat) == prev + add);
        }
        i = i + 1;
    }
    (all_items, all_summaries)
}

} // verus!
