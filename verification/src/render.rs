//! The vault browser's state: view modes, the vault and item lists, search,
//! the item detail view and the status line, with the navigation between
//! them, and the text lines the renderer draws for each view.

use vstd::prelude::*;
use egaku::{FocusManager, ListView, TextInput};
use crate::find::{first_index, lemma_first_index_at, lemma_first_index_found, lemma_first_index_none};
use crate::rank::{is_ranking, rank_by_score};
use crate::text::{chars_of, decimal, lowercase, push_decimal, push_str, string_from_chars, to_lowercase};
use crate::vault::{Item, ItemSummary, Vault};
use crate::widgets::{
    focus_new, input_at_end, input_is_at_end, input_new, input_text, input_text_of, list_items, list_len, list_new, list_offset, list_offset_of,
    list_select_next, list_select_prev, list_selected, list_selected_index, list_set_items, list_visible_items,
    list_wf, list_window, scrolled_offset, texts_of, visible_range,
};

verus! {

/// Current view mode for the UI.
#[derive(Debug, Clone, Copy, PartialEq, Eq, Structural)]
pub enum ViewMode {
    /// Showing the vault list (top-level).
    VaultList,
    /// Showing items in a selected vault.
    ItemList,
    /// Showing detail for a single item.
    ItemDetail,
    /// Search overlay is active.
    Search,
}

/// How many lines the lists show before the window is first resized.
pub const LIST_WINDOW: usize = 20;

/// Application state for the vault browser UI.
pub struct KagiState {
    /// Current view mode.
    pub mode: ViewMode,
    /// Previous mode (for back navigation).
    pub prev_mode: Option<ViewMode>,
    /// Loaded vaults.
    pub vaults: Vec<Vault>,
    /// Currently selected vault index.
    pub selected_vault: usize,
    /// Items in the currently selected vault.
    pub items: Vec<Item>,
    /// Summaries for list display.
    pub summaries: Vec<ItemSummary>,
    /// All items across all vaults (for global search).
    pub all_items: Vec<Item>,
    /// All summaries across all vaults.
    pub all_summaries: Vec<ItemSummary>,
    /// Vault list widget.
    pub vault_list: ListView,
    /// Item list widget.
    pub item_list: ListView,
    /// Focus manager for widget focus (reserved for a multi-pane layout).
    pub focus: FocusManager,
    /// Search input widget.
    pub search_input: TextInput,
    /// Search results (filtered summaries).
    pub search_results: Vec<ItemSummary>,
    /// Whether to show only favorites.
    pub favorites_only: bool,
    /// Detail view: currently viewed item.
    pub detail_item: Option<Item>,
    /// Detail view: selected field index.
    pub detail_field_index: usize,
    /// Detail view: whether hidden fields are revealed.
    pub show_hidden: bool,
    /// Status message (e.g. "Copied password").
    pub status_message: Option<String>,
    /// Whether data is currently loading.
    pub loading: bool,
    /// Width of the window.
    pub width: u32,
    /// Height of the window.
    pub height: u32,
}

/// `b` is the list `a` after its selection moved down one line, when
/// there is a line below it, and was scrolled into view.
pub open spec fn stepped_down(a: ListView, b: ListView) -> bool {
    &&& list_items(b) == list_items(a)
    &&& list_window(b) == list_window(a)
    &&& if list_selected(a) + 1 < list_items(a).len() {
        &&& list_selected(b) == list_selected(a) + 1
        &&& list_offset(b) == scrolled_offset(list_selected(a) + 1, list_offset(a), list_window(a))
    } else {
        &&& list_selected(b) == list_selected(a)
        &&& list_offset(b) == list_offset(a)
    }
}

/// `b` is the list `a` after its selection moved up one line, when there
/// is a line above it, and was scrolled into view.
pub open spec fn stepped_up(a: ListView, b: ListView) -> bool {
    &&& list_items(b) == list_items(a)
    &&& list_window(b) == list_window(a)
    &&& if list_selected(a) > 0 {
        &&& list_selected(b) == (list_selected(a) - 1) as nat
        &&& list_offset(b) == scrolled_offset((list_selected(a) - 1) as nat, list_offset(a), list_window(a))
    } else {
        &&& list_selected(b) == list_selected(a)
        &&& list_offset(b) == list_offset(a)
    }
}

/// The line a vault is listed with: its name and item count.
pub open spec fn vault_line(v: Vault) -> Seq<char> {
    v.name@ + " ("@ + decimal(v.items as nat) + ")"@
}

/// The lines of the vault list.
pub open spec fn vault_lines(vs: Seq<Vault>) -> Seq<Seq<char>> {
    vs.map_values(|v: Vault| vault_line(v))
}

/// The line an item summary is listed with: a star for favourites, the
/// title, the vault's name when known, the category (and a TOTP mark), and
/// the username.
pub open spec fn summary_line(s: ItemSummary) -> Seq<char> {
    (if s.favorite {
        "*"@
    } else {
        " "@
    }) + " "@ + s.title@ + (if s.vault_name@.len() == 0 {
        Seq::<char>::empty()
    } else {
        " ("@ + s.vault_name@ + ")"@
    }) + " ["@ + s.category.label_text() + (if s.has_totp {
        " [TOTP]"@
    } else {
        Seq::<char>::empty()
    }) + "] "@ + (match s.username {
        Some(u) => u@,
        None => Seq::<char>::empty(),
    })
}

/// The listed lines of some summaries; with `favorites_only`, only the
/// favourites are listed.
pub open spec fn summary_lines(s: Seq<ItemSummary>, favorites_only: bool) -> Seq<Seq<char>>
    decreases s.len(),
{
    if s.len() == 0 {
        Seq::<Seq<char>>::empty()
    } else {
        let rest = summary_lines(s.drop_last(), favorites_only);
        if !favorites_only || s.last().favorite {
            rest.push(summary_line(s.last()))
        } else {
            rest
        }
    }
}

/// Items whose id is `id`.
pub open spec fn id_is(id: Seq<char>) -> spec_fn(Item) -> bool {
    |i: Item| i.id@ == id
}

/// The scores of the items paired with summaries (the shorter list decides
/// how many) for a lower-cased query.
pub open spec fn search_scores(items: Seq<Item>, summaries: Seq<ItemSummary>, query: Seq<char>) -> Seq<u32> {
    let n = if items.len() < summaries.len() {
        items.len()
    } else {
        summaries.len()
    };
    Seq::new(n, |i: int| items[i].score_for(query))
}

/// The summaries in the order of a ranking.
pub open spec fn ranked_summaries(summaries: Seq<ItemSummary>, order: Seq<usize>) -> Seq<ItemSummary> {
    order.map_values(|i: usize| summaries[i as int])
}

/// A copy of a list of summaries.
pub fn clone_summaries(v: &Vec<ItemSummary>) -> (r: Vec<ItemSummary>)
    ensures
        r@ == v@,
{
    let mut r: Vec<ItemSummary> = Vec::new();
    let mut i: usize = 0;
    while i < v.len()
        invariant
            i <= v@.len(),
            r@ == v@.subrange(0, i as int),
        decreases v@.len() - i,
    {
        r.push(v[i].clone());
        i = i + 1;
        assert(r@ =~= v@.subrange(0, i as int));
    }
    assert(r@ =~= v@);
    r
}

/// The line for one summary.
pub fn format_summary(s: &ItemSummary) -> (r: String)
    ensures
        r@ == summary_line(*s),
{
    let mut v: Vec<char> = Vec::new();
    if s.favorite {
        push_str(&mut v, "*");
    } else {
        push_str(&mut v, " ");
    }
    push_str(&mut v, " ");
    push_str(&mut v, s.title.as_str());
    if !s.vault_name.as_str().is_empty() {
        push_str(&mut v, " (");
        push_str(&mut v, s.vault_name.as_str());
        push_str(&mut v, ")");
    }
    push_str(&mut v, " [");
    push_str(&mut v, s.category.label());
    if s.has_totp {
        push_str(&mut v, " [TOTP]");
    }
    push_str(&mut v, "] ");
    match &s.username {
        Some(u) => push_str(&mut v, u.as_str()),
        None => {},
    }
    assert(v@ =~= summary_line(*s));
    string_from_chars(&v)
}

/// Format summaries into display strings for the list view.
pub fn format_summaries(summaries: &[ItemSummary], favorites_only: bool) -> (r: Vec<String>)
    ensures
        texts_of(r@) == summary_lines(summaries@, favorites_only),
{
    let mut r: Vec<String> = Vec::new();
    let mut i: usize = 0;
    while i < summaries.len()
        invariant
            i <= summaries@.len(),
            texts_of(r@) == summary_lines(summaries@.take(i as int), favorites_only),
        decreases summaries@.len() - i,
    {
        let ghost before = r@;
        assert(summaries@.take(i + 1).drop_last() =~= summaries@.take(i as int));
        if !favorites_only || summaries[i].favorite {
            let line = format_summary(&summaries[i]);
            r.push(line);
            assert(texts_of(r@) =~= texts_of(before).push(summary_line(summaries@[i as int])));
        }
        i = i + 1;
    }
    assert(summaries@.take(summaries@.len() as int) =~= summaries@);
    r
}

/// The line for one vault.
pub fn format_vault(v: &Vault) -> (r: String)
    ensures
        r@ == vault_line(*v),
{
    let mut cs: Vec<char> = Vec::new();
    push_str(&mut cs, v.name.as_str());
    push_str(&mut cs, " (");
    push_decimal(&mut cs, v.items as u64);
    push_str(&mut cs, ")");
    assert(cs@ =~= vault_line(*v));
    string_from_chars(&cs)
}

/// The lines of the vault list, one per vault.
pub fn format_vaults(vaults: &Vec<Vault>) -> (r: Vec<String>)
    ensures
        texts_of(r@) == vault_lines(vaults@),
{
    let mut r: Vec<String> = Vec::new();
    let mut i: usize = 0;
    while i < vaults.len()
        invariant
            i <= vaults@.len(),
            texts_of(r@) == vault_lines(vaults@.take(i as int)),
        decreases vaults@.len() - i,
    {
        let ghost before = r@;
        let line = format_vault(&vaults[i]);
        r.push(line);
        assert(texts_of(r@) =~= texts_of(before).push(vault_line(vaults@[i as int])));
        assert(vaults@.take(i + 1) =~= vaults@.take(i as int).push(vaults@[i as int]));
        assert(vault_lines(vaults@.take(i + 1)) =~= vault_lines(vaults@.take(i as int)).push(
            vault_line(vaults@[i as int]),
        ));
        i = i + 1;
    }
    assert(vaults@.take(vaults@.len() as int) =~= vaults@);
    r
}

/// The index of the first item with the given id.
pub fn find_item_by_id(items: &Vec<Item>, id: &String) -> (r: Option<usize>)
    ensures
        match r {
            Some(k) => first_index(items@, id_is(id@)) == Some(k as int),
            None => first_index(items@, id_is(id@)) is None,
        },
{
    let mut i: usize = 0;
    while i < items.len()
        invariant
            i <= items@.len(),
            forall|j: int| 0 <= j < i ==> !id_is(id@)(#[trigger] items@[j]),
        decreases items@.len() - i,
    {
        if items[i].id == *id {
            proof {
                lemma_first_index_at(items@, id_is(id@), i as int);
            }
            return Some(i);
        }
        i = i + 1;
    }
    proof {
        lemma_first_index_none(items@, id_is(id@));
    }
    None
}

impl KagiState {
    /// Both lists keep their selection and scroll position consistent, the
    /// selected vault is a loaded vault (or 0 when there are none), and the
    /// search input's cursor is at the end of its text with nothing selected.
    pub open spec fn wf(self) -> bool {
        &&& list_wf(self.vault_list)
        &&& list_wf(self.item_list)
        &&& (self.selected_vault == 0 || self.selected_vault < self.vaults@.len())
        &&& input_at_end(self.search_input)
    }

    /// `post` is `pre` after `set_vaults`.
    pub open spec fn vaults_set(pre: KagiState, post: KagiState, vaults: Seq<Vault>) -> bool {
        &&& post.wf()
        &&& post.vaults@ == vaults
        &&& list_items(post.vault_list) == vault_lines(vaults)
        &&& list_selected(post.vault_list) == 0
        &&& list_offset(post.vault_list) == 0
        &&& list_window(post.vault_list) == list_window(pre.vault_list)
        &&& post == (KagiState {
            vaults: post.vaults,
            selected_vault: 0,
            vault_list: post.vault_list,
            ..pre
        })
    }

    /// `post` is `pre` after `set_items`.
    pub open spec fn items_set(pre: KagiState, post: KagiState, items: Seq<Item>) -> bool {
        &&& post.wf()
        &&& post.items@ == items
        &&& post.summaries@.len() == items.len()
        &&& forall|i: int|
            0 <= i < items.len() ==> ItemSummary::summarises(
                #[trigger] post.summaries@[i],
                items[i],
                pre.selected_vault_name(),
            )
        &&& list_items(post.item_list) == summary_lines(post.summaries@, pre.favorites_only)
        &&& list_selected(post.item_list) == 0
        &&& list_offset(post.item_list) == 0
        &&& list_window(post.item_list) == list_window(pre.item_list)
        &&& post == (KagiState {
            items: post.items,
            summaries: post.summaries,
            item_list: post.item_list,
            ..pre
        })
    }

    /// `post` is `pre` after moving down in the current list or field list.
    pub open spec fn moved_down(pre: KagiState, post: KagiState) -> bool {
        &&& post.wf()
        &&& post.same_except_navigation(pre)
        &&& match pre.mode {
            ViewMode::VaultList => {
                &&& post.item_list == pre.item_list
                &&& post.detail_field_index == pre.detail_field_index
                &&& stepped_down(pre.vault_list, post.vault_list)
            },
            ViewMode::ItemList | ViewMode::Search => {
                &&& post.vault_list == pre.vault_list
                &&& post.detail_field_index == pre.detail_field_index
                &&& stepped_down(pre.item_list, post.item_list)
            },
            ViewMode::ItemDetail => {
                &&& post.vault_list == pre.vault_list
                &&& post.item_list == pre.item_list
                &&& post.detail_field_index == match pre.detail_item {
                    Some(item) => if pre.detail_field_index + 1 < item.fields@.len() {
                        pre.detail_field_index + 1
                    } else {
                        pre.detail_field_index as int
                    },
                    None => pre.detail_field_index as int,
                }
            }
        }
    }

    /// `post` is `pre` after moving up in the current list or field list.
    pub open spec fn moved_up(pre: KagiState, post: KagiState) -> bool {
        &&& post.wf()
        &&& post.same_except_navigation(pre)
        &&& match pre.mode {
            ViewMode::VaultList => {
                &&& post.item_list == pre.item_list
                &&& post.detail_field_index == pre.detail_field_index
                &&& stepped_up(pre.vault_list, post.vault_list)
            },
            ViewMode::ItemList | ViewMode::Search => {
                &&& post.vault_list == pre.vault_list
                &&& post.detail_field_index == pre.detail_field_index
                &&& stepped_up(pre.item_list, post.item_list)
            },
            ViewMode::ItemDetail => {
                &&& post.vault_list == pre.vault_list
                &&& post.item_list == pre.item_list
                &&& post.detail_field_index == if pre.detail_field_index > 0 {
                    pre.detail_field_index - 1
                } else {
                    0
                }
            }
        }
    }

    /// `post` is `pre` after opening the selected item.
    pub open spec fn detail_entered(pre: KagiState, post: KagiState) -> bool {
        &&& post.wf()
        &&& match pre.selected_item_spec() {
            Some(item) => {
                &&& post.detail_item matches Some(d) && d.same_as(item)
                &&& post == (KagiState {
                    detail_item: post.detail_item,
                    detail_field_index: 0,
                    show_hidden: false,
                    prev_mode: Some(pre.mode),
                    mode: ViewMode::ItemDetail,
                    ..pre
                })
            },
            None => post == pre,
        }
    }

    /// `post` is `pre` after going back one view.
    pub open spec fn went_back(pre: KagiState, post: KagiState) -> bool {
        &&& post.wf()
        &&& match pre.mode {
            ViewMode::ItemDetail => post == (KagiState {
                detail_item: None,
                mode: match pre.prev_mode {
                    Some(m) => m,
                    None => ViewMode::ItemList,
                },
                prev_mode: None,
                ..pre
            }),
            ViewMode::Search => {
                &&& input_text(post.search_input).len() == 0
                &&& input_at_end(post.search_input)
                &&& list_items(post.item_list) == summary_lines(pre.summaries@, pre.favorites_only)
                &&& list_selected(post.item_list) == 0
                &&& list_offset(post.item_list) == 0
                &&& list_window(post.item_list) == list_window(pre.item_list)
                &&& post == (KagiState {
                    mode: ViewMode::ItemList,
                    search_input: post.search_input,
                    item_list: post.item_list,
                    ..pre
                })
            },
            ViewMode::ItemList => {
                &&& post.items@.len() == 0
                &&& post.summaries@.len() == 0
                &&& list_items(post.item_list).len() == 0
                &&& list_selected(post.item_list) == 0
                &&& list_offset(post.item_list) == 0
                &&& list_window(post.item_list) == list_window(pre.item_list)
                &&& post == (KagiState {
                    mode: ViewMode::VaultList,
                    items: post.items,
                    summaries: post.summaries,
                    item_list: post.item_list,
                    ..pre
                })
            },
            ViewMode::VaultList => post == pre,
        }
    }

    /// `post` is `pre` after entering search mode.
    pub open spec fn search_entered(pre: KagiState, post: KagiState) -> bool {
        &&& post.wf()
        &&& input_text(post.search_input).len() == 0
        &&& input_at_end(post.search_input)
        &&& post.search_results@ == pre.all_summaries@
        &&& list_items(post.item_list) == summary_lines(pre.all_summaries@, false)
        &&& list_selected(post.item_list) == 0
        &&& list_offset(post.item_list) == 0
        &&& list_window(post.item_list) == list_window(pre.item_list)
        &&& post == (KagiState {
            prev_mode: Some(pre.mode),
            mode: ViewMode::Search,
            search_input: post.search_input,
            search_results: post.search_results,
            item_list: post.item_list,
            ..pre
        })
    }

    /// `post` is `pre` after re-running the search for the input text.
    pub open spec fn search_applied(pre: KagiState, post: KagiState) -> bool {
        &&& post.wf()
        &&& pre.search_outcome(post.search_results@)
        &&& list_items(post.item_list) == summary_lines(post.search_results@, false)
        &&& list_selected(post.item_list) == 0
        &&& list_offset(post.item_list) == 0
        &&& list_window(post.item_list) == list_window(pre.item_list)
        &&& post == (KagiState { search_results: post.search_results, item_list: post.item_list, ..pre })
    }

    /// The name of the selected vault, or nothing when none is selected.
    pub open spec fn selected_vault_name(self) -> Seq<char> {
        if self.selected_vault < self.vaults@.len() {
            self.vaults@[self.selected_vault as int].name@
        } else {
            Seq::<char>::empty()
        }
    }

    /// The item the item list's selection stands for: in search mode the
    /// first loaded item with the selected result's id, otherwise the item
    /// at the selection.
    pub open spec fn selected_item_spec(self) -> Option<Item> {
        let idx = list_selected(self.item_list) as int;
        if self.mode == ViewMode::Search {
            if idx < self.search_results@.len() {
                match first_index(self.all_items@, id_is(self.search_results@[idx].id@)) {
                    Some(k) => Some(self.all_items@[k]),
                    None => None,
                }
            } else {
                None
            }
        } else if idx < self.items@.len() {
            Some(self.items@[idx])
        } else {
            None
        }
    }

    /// The value of the selected field of the detail item.
    pub open spec fn selected_field_text(self) -> Option<Seq<char>> {
        match self.detail_item {
            Some(item) => if self.detail_field_index < item.fields@.len() {
                Some(item.fields@[self.detail_field_index as int].value@)
            } else {
                None
            },
            None => None,
        }
    }

    /// Everything but the two lists and the detail field index is as in `o`.
    pub open spec fn same_except_navigation(self, o: KagiState) -> bool {
        &&& self.mode == o.mode
        &&& self.prev_mode == o.prev_mode
        &&& self.vaults == o.vaults
        &&& self.selected_vault == o.selected_vault
        &&& self.items == o.items
        &&& self.summaries == o.summaries
        &&& self.all_items == o.all_items
        &&& self.all_summaries == o.all_summaries
        &&& self.focus == o.focus
        &&& self.search_input == o.search_input
        &&& self.search_results == o.search_results
        &&& self.favorites_only == o.favorites_only
        &&& self.detail_item == o.detail_item
        &&& self.show_hidden == o.show_hidden
        &&& self.status_message == o.status_message
        &&& self.loading == o.loading
        &&& self.width == o.width
        &&& self.height == o.height
    }

    /// Whether the state is consistent (`wf`), for callers that cannot
    /// know it otherwise before calling a method that needs it.
    pub fn is_consistent(&self) -> (r: bool)
        ensures
            r == self.wf(),
    {
        list_is_consistent(&self.vault_list) && list_is_consistent(&self.item_list) && (self.selected_vault == 0
            || self.selected_vault < self.vaults.len()) && input_is_at_end(&self.search_input)
    }

    /// The state a new browser starts in: the vault list, empty lists of
    /// twenty lines, an empty search, no item open, no status, not loading,
    /// and a 1280 x 720 window.
    pub open spec fn is_initial(self) -> bool {
        &&& self.wf()
        &&& self.mode == ViewMode::VaultList
        &&& self.prev_mode is None
        &&& self.vaults@.len() == 0
        &&& self.selected_vault == 0
        &&& self.items@.len() == 0
        &&& self.summaries@.len() == 0
        &&& self.all_items@.len() == 0
        &&& self.all_summaries@.len() == 0
        &&& list_items(self.vault_list).len() == 0
        &&& list_window(self.vault_list) == LIST_WINDOW
        &&& list_items(self.item_list).len() == 0
        &&& list_window(self.item_list) == LIST_WINDOW
        &&& input_text(self.search_input).len() == 0
        &&& input_at_end(self.search_input)
        &&& self.search_results@.len() == 0
        &&& !self.favorites_only
        &&& self.detail_item is None
        &&& self.detail_field_index == 0
        &&& !self.show_hidden
        &&& self.status_message is None
        &&& !self.loading
        &&& self.width == 1280
        &&& self.height == 720
    }

    /// Create a new empty state.
    pub fn new() -> (r: Self)
        ensures
            r.is_initial(),
    {
        let mut widgets: Vec<String> = Vec::new();
        widgets.push("vault_list".to_owned());
        widgets.push("item_list".to_owned());
        KagiState {
            mode: ViewMode::VaultList,
            prev_mode: None,
            vaults: Vec::new(),
            selected_vault: 0,
            items: Vec::new(),
            summaries: Vec::new(),
            all_items: Vec::new(),
            all_summaries: Vec::new(),
            vault_list: list_new(Vec::new(), LIST_WINDOW),
            item_list: list_new(Vec::new(), LIST_WINDOW),
            focus: focus_new(widgets),
            search_input: input_new(),
            search_results: Vec::new(),
            favorites_only: false,
            detail_item: None,
            detail_field_index: 0,
            show_hidden: false,
            status_message: None,
            loading: false,
            width: 1280,
            height: 720,
        }
    }

    /// Set the vault list and update the widget.
    pub fn set_vaults(&mut self, vaults: Vec<Vault>)
        requires
            old(self).wf(),
        ensures
            Self::vaults_set(*old(self), *final(self), vaults@),
    {
        let names = format_vaults(&vaults);
        list_set_items(&mut self.vault_list, names);
        self.vaults = vaults;
        self.selected_vault = 0;
    }

    /// Set the items for the currently selected vault.
    pub fn set_items(&mut self, items: Vec<Item>)
        requires
            old(self).wf(),
        ensures
            Self::items_set(*old(self), *final(self), items@),
    {
        let vault_name: &str = if self.selected_vault < self.vaults.len() {
            self.vaults[self.selected_vault].name.as_str()
        } else {
            ""
        };
        proof {
            reveal_strlit("");
        }
        assert(vault_name@ == self.selected_vault_name());
        let mut summaries: Vec<ItemSummary> = Vec::new();
        let mut i: usize = 0;
        while i < items.len()
            invariant
                i <= items@.len(),
                summaries@.len() == i,
                vault_name@ == old(self).selected_vault_name(),
                forall|j: int|
                    0 <= j < i ==> ItemSummary::summarises(
                        #[trigger] summaries@[j],
                        items@[j],
                        vault_name@,
                    ),
            decreases items@.len() - i,
        {
            summaries.push(ItemSummary::from_item_with_vault(&items[i], vault_name));
            i = i + 1;
        }
        let display = format_summaries(summaries.as_slice(), self.favorites_only);
        list_set_items(&mut self.item_list, display);
        self.summaries = summaries;
        self.items = items;
    }

    /// Set all items from all vaults (for global search).
    pub fn set_all_items(&mut self, items: Vec<Item>, summaries: Vec<ItemSummary>)
        requires
            old(self).wf(),
        ensures
            final(self).wf(),
            *final(self) == (KagiState { all_items: items, all_summaries: summaries, ..*old(self) }),
    {
        self.all_items = items;
        self.all_summaries = summaries;
    }

    /// Navigate down in the current list.
    pub fn move_down(&mut self)
        requires
            old(self).wf(),
        ensures
            Self::moved_down(*old(self), *final(self)),
    {
        match self.mode {
            ViewMode::VaultList => list_select_next(&mut self.vault_list),
            ViewMode::ItemList | ViewMode::Search => list_select_next(&mut self.item_list),
            ViewMode::ItemDetail => {
                if let Some(item) = &self.detail_item {
                    let n = item.fields.len();
                    if n > 0 && self.detail_field_index < n - 1 {
                        self.detail_field_index = self.detail_field_index + 1;
                    }
                }
            },
        }
    }

    /// Navigate up in the current list.
    pub fn move_up(&mut self)
        requires
            old(self).wf(),
        ensures
            Self::moved_up(*old(self), *final(self)),
    {
        match self.mode {
            ViewMode::VaultList => list_select_prev(&mut self.vault_list),
            ViewMode::ItemList | ViewMode::Search => list_select_prev(&mut self.item_list),
            ViewMode::ItemDetail => {
                if self.detail_field_index > 0 {
                    self.detail_field_index = self.detail_field_index - 1;
                }
            },
        }
    }

    /// Set a temporary status message.
    pub fn set_status(&mut self, msg: &str)
        ensures
            opt_string_text_of(final(self).status_message) == Some(msg@),
            final(self).same_except_status(*old(self)),
    {
        self.status_message = Some(msg.to_owned());
    }

    /// Clear status message.
    pub fn clear_status(&mut self)
        ensures
            final(self).status_message is None,
            final(self).same_except_status(*old(self)),
    {
        self.status_message = None;
    }

    /// The window was resized to `width` x `height`, with room for
    /// `visible_rows` lines: the size is recorded and each list is rebuilt
    /// from the lines it was showing, selection at the top, with a window of
    /// at least five lines.
    pub fn resize(&mut self, width: u32, height: u32, visible_rows: usize)
        requires
            old(self).wf(),
        ensures
            final(self).wf(),
            list_items(final(self).vault_list) == visible_range(old(self).vault_list),
            list_items(final(self).item_list) == visible_range(old(self).item_list),
            list_selected(final(self).vault_list) == 0,
            list_offset(final(self).vault_list) == 0,
            list_selected(final(self).item_list) == 0,
            list_offset(final(self).item_list) == 0,
            list_window(final(self).vault_list) == if visible_rows < 5 { 5 } else { visible_rows },
            list_window(final(self).item_list) == if visible_rows < 5 { 5 } else { visible_rows },
            *final(self) == (KagiState {
                width,
                height,
                vault_list: final(self).vault_list,
                item_list: final(self).item_list,
                ..*old(self)
            }),
    {
        self.width = width;
        self.height = height;
        let window = if visible_rows < 5 {
            5
        } else {
            visible_rows
        };
        let vault_lines = visible_strings(&self.vault_list);
        let item_lines = visible_strings(&self.item_list);
        self.vault_list = list_new(vault_lines, window);
        self.item_list = list_new(item_lines, window);
    }

    /// Everything but the status message is as in `o`.
    pub open spec fn same_except_status(self, o: KagiState) -> bool {
        &&& self.same_except_navigation_and_status(o)
        &&& self.vault_list == o.vault_list
        &&& self.item_list == o.item_list
        &&& self.detail_field_index == o.detail_field_index
    }

    /// Everything but the two lists, the detail field index and the status
    /// message is as in `o`.
    pub open spec fn same_except_navigation_and_status(self, o: KagiState) -> bool {
        &&& self.mode == o.mode
        &&& self.prev_mode == o.prev_mode
        &&& self.vaults == o.vaults
        &&& self.selected_vault == o.selected_vault
        &&& self.items == o.items
        &&& self.summaries == o.summaries
        &&& self.all_items == o.all_items
        &&& self.all_summaries == o.all_summaries
        &&& self.focus == o.focus
        &&& self.search_input == o.search_input
        &&& self.search_results == o.search_results
        &&& self.favorites_only == o.favorites_only
        &&& self.detail_item == o.detail_item
        &&& self.show_hidden == o.show_hidden
        &&& self.loading == o.loading
        &&& self.width == o.width
        &&& self.height == o.height
    }

    /// The index of the item the list selection stands for, in `items`
    /// (in search mode, in `all_items`).
    fn selected_position(&self) -> (r: Option<usize>)
        ensures
            match self.selected_item_spec() {
                Some(item) => r matches Some(k) && if self.mode == ViewMode::Search {
                    k < self.all_items@.len() && self.all_items@[k as int] == item
                } else {
                    k < self.items@.len() && self.items@[k as int] == item
                },
                None => r is None,
            },
    {
        let idx = list_selected_index(&self.item_list);
        if self.mode == ViewMode::Search {
            if idx < self.search_results.len() {
                proof {
                    lemma_first_index_found(self.all_items@, id_is(self.search_results@[idx as int].id@));
                }
                let found = find_item_by_id(&self.all_items, &self.search_results[idx].id);
                match found {
                    Some(k) => Some(k),
                    None => None,
                }
            } else {
                None
            }
        } else if idx < self.items.len() {
            Some(idx)
        } else {
            None
        }
    }

    /// Get the currently selected item (by list index).
    pub fn selected_item(&self) -> (r: Option<&Item>)
        ensures
            match self.selected_item_spec() {
                Some(item) => r == Some(&item),
                None => r is None,
            },
    {
        match self.selected_position() {
            Some(k) => if self.mode == ViewMode::Search {
                Some(&self.all_items[k])
            } else {
                Some(&self.items[k])
            },
            None => None,
        }
    }

    /// Get the currently selected item's vault_id and item_id.
    pub fn selected_ids(&self) -> (r: Option<(String, String)>)
        ensures
            match self.selected_item_spec() {
                Some(item) => r == Some((item.vault_id, item.id)),
                None => r is None,
            },
    {
        match self.selected_item() {
            Some(i) => Some((i.vault_id.clone(), i.id.clone())),
            None => None,
        }
    }

    /// Get the currently selected detail field.
    pub fn selected_field_value(&self) -> (r: Option<&str>)
        ensures
            crate::vault::opt_text(r) == self.selected_field_text(),
    {
        match &self.detail_item {
            Some(item) => if self.detail_field_index < item.fields.len() {
                Some(item.fields[self.detail_field_index].value.as_str())
            } else {
                None
            },
            None => None,
        }
    }

    /// Enter item detail view for the currently selected item.
    pub fn enter_detail(&mut self)
        requires
            old(self).wf(),
        ensures
            Self::detail_entered(*old(self), *final(self)),
    {
        let item = match self.selected_position() {
            Some(k) => if self.mode == ViewMode::Search {
                Some(self.all_items[k].clone())
            } else {
                Some(self.items[k].clone())
            },
            None => None,
        };
        if let Some(item) = item {
            self.detail_item = Some(item);
            self.detail_field_index = 0;
            self.show_hidden = false;
            self.prev_mode = Some(self.mode);
            self.mode = ViewMode::ItemDetail;
        }
    }
    /// Go back from detail or search mode.
    pub fn go_back(&mut self)
        requires
            old(self).wf(),
        ensures
            Self::went_back(*old(self), *final(self)),
    {
        match self.mode {
            ViewMode::ItemDetail => {
                self.detail_item = None;
                self.mode = match self.prev_mode {
                    Some(m) => m,
                    None => ViewMode::ItemList,
                };
                self.prev_mode = None;
            },
            ViewMode::Search => {
                self.mode = ViewMode::ItemList;
                self.search_input = input_new();
                // Restore the item list display.
                let display = format_summaries(self.summaries.as_slice(), self.favorites_only);
                list_set_items(&mut self.item_list, display);
            },
            ViewMode::ItemList => {
                self.mode = ViewMode::VaultList;
                self.items.clear();
                self.summaries.clear();
                list_set_items(&mut self.item_list, Vec::new());
            },
            ViewMode::VaultList => {
                // No further back from the vault list.
            },
        }
    }

    /// Enter search mode.
    pub fn enter_search(&mut self)
        requires
            old(self).wf(),
        ensures
            Self::search_entered(*old(self), *final(self)),
    {
        self.prev_mode = Some(self.mode);
        self.mode = ViewMode::Search;
        self.search_input = input_new();
        // Start with all items.
        self.search_results = clone_summaries(&self.all_summaries);
        let display = format_summaries(self.search_results.as_slice(), false);
        list_set_items(&mut self.item_list, display);
    }

    /// The results a search for the input's text gives: every summary when
    /// the lower-cased text is empty; otherwise the summaries of the items
    /// that match, best score first, equal scores in loading order.
    pub open spec fn search_outcome(self, results: Seq<ItemSummary>) -> bool {
        let q = lowercase(input_text(self.search_input));
        if q.len() == 0 {
            results == self.all_summaries@
        } else {
            exists|order: Seq<usize>|
                #![trigger ranked_summaries(self.all_summaries@, order)]
                is_ranking(search_scores(self.all_items@, self.all_summaries@, q), order) && results
                    == ranked_summaries(self.all_summaries@, order)
        }
    }

    /// Filter items by the current search query using fuzzy scoring.
    pub fn apply_search(&mut self)
        requires
            old(self).wf(),
        ensures
            Self::search_applied(*old(self), *final(self)),
    {
        let query = to_lowercase(input_text_of(&self.search_input));
        if query.as_str().is_empty() {
            self.search_results = clone_summaries(&self.all_summaries);
        } else {
            let n = if self.all_items.len() < self.all_summaries.len() {
                self.all_items.len()
            } else {
                self.all_summaries.len()
            };
            let ghost q = lowercase(input_text(self.search_input));
            let mut scores: Vec<u32> = Vec::new();
            let mut i: usize = 0;
            while i < n
                invariant
                    i <= n,
                    n <= self.all_items@.len(),
                    n <= self.all_summaries@.len(),
                    n == search_scores(self.all_items@, self.all_summaries@, q).len(),
                    query@ == q,
                    scores@ == search_scores(self.all_items@, self.all_summaries@, q).take(i as int),
                decreases n - i,
            {
                let sc = self.all_items[i].fuzzy_score(query.as_str());
                scores.push(sc);
                i = i + 1;
                assert(scores@ =~= search_scores(self.all_items@, self.all_summaries@, q).take(i as int));
            }
            assert(scores@ =~= search_scores(self.all_items@, self.all_summaries@, q));
            let order = rank_by_score(&scores);
            let mut results: Vec<ItemSummary> = Vec::new();
            let mut j: usize = 0;
            while j < order.len()
                invariant
                    j <= order@.len(),
                    is_ranking(scores@, order@),
                    scores@.len() <= self.all_summaries@.len(),
                    results@ == ranked_summaries(self.all_summaries@, order@).take(j as int),
                decreases order@.len() - j,
            {
                let k = order[j];
                assert(k < scores@.len());
                results.push(self.all_summaries[k].clone());
                j = j + 1;
                assert(results@ =~= ranked_summaries(self.all_summaries@, order@).take(j as int));
            }
            assert(results@ =~= ranked_summaries(self.all_summaries@, order@));
            self.search_results = results;
        }
        let display = format_summaries(self.search_results.as_slice(), false);
        list_set_items(&mut self.item_list, display);
    }
}

/// The characters of an optional owned string.
pub open spec fn opt_string_text_of(o: Option<String>) -> Option<Seq<char>> {
    crate::vault::opt_string_text(o)
}

} // verus!

verus! {

/// A rendered line: its text, whether it is the selected row, and whether
/// it is drawn in the accent colour.
pub open spec fn line_text(l: (String, bool, bool)) -> (Seq<char>, bool, bool) {
    (l.0@, l.1, l.2)
}

/// The texts and flags of rendered lines.
pub open spec fn lines_view(v: Seq<(String, bool, bool)>) -> Seq<(Seq<char>, bool, bool)> {
    v.map_values(|l: (String, bool, bool)| line_text(l))
}

/// An empty spacer line.
pub open spec fn blank() -> (Seq<char>, bool, bool) {
    (Seq::<char>::empty(), false, false)
}

/// An accent line with the given text.
pub open spec fn accent(t: Seq<char>) -> (Seq<char>, bool, bool) {
    (t, false, true)
}

/// The visible rows of a list: each prefixed with a marker, and flagged
/// selected, when its position is the list's selection.
pub open spec fn list_rows(l: ListView) -> Seq<(Seq<char>, bool, bool)> {
    let vis = crate::widgets::visible_range(l);
    Seq::new(
        vis.len(),
        |i: int|
            {
                let sel = list_offset(l) + i == list_selected(l);
                ((if sel {
                    "> "@
                } else {
                    "  "@
                }) + vis[i], sel, false)
            },
    )
}

/// The help line of the vault list.
pub open spec fn vault_help() -> Seq<char> {
    "[j/k] navigate  [Enter] open  [/] search  [q] quit"@
}

/// The help line of the item list.
pub open spec fn item_help() -> Seq<char> {
    "[j/k] navigate  [Enter] detail  [p] password  [u] username  [t] TOTP  [/] search  [f] favorites  [Tab] vault  [Esc] back  [q] quit"@
}

/// The help line of the search view.
pub open spec fn search_help() -> Seq<char> {
    "[type] search  [j/k] navigate  [Enter] detail  [Esc] cancel"@
}

/// The help line of the detail view.
pub open spec fn detail_help() -> Seq<char> {
    "[j/k] navigate  [Enter/y] copy field  [p] password  [u] username  [t] TOTP  [H] toggle hidden  [Esc] back"@
}

/// What a concealed value is shown as.
pub open spec fn concealed_mask() -> Seq<char> {
    "\u{2022}\u{2022}\u{2022}\u{2022}\u{2022}\u{2022}\u{2022}\u{2022}"@
}

/// What a one-time-password field is shown as.
pub open spec fn otp_hint() -> Seq<char> {
    "(press 't' to copy TOTP)"@
}

/// The lines of the vault list view.
pub open spec fn vault_view_lines(state: KagiState) -> Seq<(Seq<char>, bool, bool)> {
    seq![accent("Kagi \u{2014} Select Vault"@), blank()] + list_rows(state.vault_list) + (if state.vaults@.len()
        == 0 {
        seq![
            accent("  (no vaults found)"@),
            accent("  Configure `op` CLI or Connect API in ~/.config/kagi/kagi.yaml"@),
        ]
    } else {
        Seq::empty()
    }) + seq![blank(), accent(vault_help())]
}

/// The title of the item list view (in search mode, the query).
pub open spec fn item_view_title(state: KagiState) -> Seq<char> {
    if state.mode == ViewMode::Search {
        "Search: "@ + input_text(state.search_input)
    } else if state.selected_vault < state.vaults@.len() {
        "Kagi \u{2014} "@ + state.vaults@[state.selected_vault as int].name@
    } else {
        "Kagi \u{2014} "@ + "Items"@
    }
}

/// The lines of the item list and search views.
pub open spec fn item_view_lines(state: KagiState) -> Seq<(Seq<char>, bool, bool)> {
    let search = state.mode == ViewMode::Search;
    seq![accent(item_view_title(state)), blank()] + list_rows(state.item_list) + (if list_items(
        state.item_list,
    ).len() == 0 {
        seq![
            accent(
                if search {
                    "  (no results)"@
                } else {
                    "  (no items)"@
                },
            ),
        ]
    } else {
        Seq::empty()
    }) + seq![
        blank(),
        accent(
            if search {
                search_help()
            } else {
                item_help()
            },
        ),
    ]
}

/// Texts joined with a separator between consecutive ones.
pub open spec fn join_texts(s: Seq<Seq<char>>, sep: Seq<char>) -> Seq<char>
    decreases s.len(),
{
    if s.len() == 0 {
        Seq::empty()
    } else if s.len() == 1 {
        s[0]
    } else {
        join_texts(s.drop_last(), sep) + sep + s.last()
    }
}

/// A field with neither label nor value is not shown.
pub open spec fn field_hidden(f: crate::vault::Field) -> bool {
    f.label@.len() == 0 && f.value@.len() == 0
}

/// The row of one field: marker, label (or the field type's name), value
/// (masked when concealed and not revealed, a hint for one-time passwords).
pub open spec fn field_row(f: crate::vault::Field, selected: bool, show_hidden: bool) -> (
    Seq<char>,
    bool,
    bool,
) {
    let label = if f.label@.len() == 0 {
        f.field_type.name_text()
    } else {
        f.label@
    };
    let value = if f.field_type == crate::vault::FieldType::Concealed && !show_hidden {
        concealed_mask()
    } else if f.field_type == crate::vault::FieldType::Otp {
        otp_hint()
    } else {
        f.value@
    };
    ((if selected {
        "> "@
    } else {
        "  "@
    }) + "  "@ + label + ": "@ + value, selected, false)
}

/// The rows of the first `n` fields.
pub open spec fn field_rows(fields: Seq<crate::vault::Field>, n: nat, selected: usize, show_hidden: bool) -> Seq<
    (Seq<char>, bool, bool),
>
    decreases n,
{
    if n == 0 {
        Seq::empty()
    } else {
        let rest = field_rows(fields, (n - 1) as nat, selected, show_hidden);
        let f = fields[n - 1];
        if field_hidden(f) {
            rest
        } else {
            rest.push(field_row(f, (n - 1) == selected as int, show_hidden))
        }
    }
}

/// The row of one URL in the URL list.
pub open spec fn url_row(u: crate::vault::ItemUrl) -> (Seq<char>, bool, bool) {
    ("    "@ + u.href@ + (if u.primary {
        " (primary)"@
    } else {
        Seq::<char>::empty()
    }), false, false)
}

/// The lines of the item detail view.
pub open spec fn detail_view_lines(state: KagiState) -> Seq<(Seq<char>, bool, bool)> {
    match state.detail_item {
        None => Seq::empty(),
        Some(item) => seq![
            accent("Kagi \u{2014} "@ + item.title@),
            accent("  Category: "@ + item.category.label_text()),
        ] + (if item.tags@.len() > 0 {
            seq![accent("  Tags: "@ + join_texts(texts_of(item.tags@), ", "@))]
        } else {
            Seq::empty()
        }) + (match item.primary_url_text() {
            Some(u) => seq![accent("  URL: "@ + u)],
            None => Seq::empty(),
        }) + seq![blank(), accent("  Fields:"@)] + field_rows(
            item.fields@,
            item.fields@.len(),
            state.detail_field_index,
            state.show_hidden,
        ) + (if item.urls@.len() > 1 {
            seq![blank(), accent("  URLs:"@)] + item.urls@.map_values(
                |u: crate::vault::ItemUrl| url_row(u),
            )
        } else {
            Seq::empty()
        }) + seq![blank(), accent(detail_help())],
    }
}

/// All lines of the screen: a loading notice alone while loading,
/// otherwise the current view's lines followed by the status message.
pub open spec fn screen_lines(state: KagiState) -> Seq<(Seq<char>, bool, bool)> {
    if state.loading {
        seq![accent("Loading..."@)]
    } else {
        let body = match state.mode {
            ViewMode::VaultList => vault_view_lines(state),
            ViewMode::ItemList | ViewMode::Search => item_view_lines(state),
            ViewMode::ItemDetail => detail_view_lines(state),
        };
        match state.status_message {
            Some(m) => body + seq![blank(), accent(m@)],
            None => body,
        }
    }
}

} // verus!

verus! {

/// `a` followed by `b`, as a string.
pub fn concat_str(a: &str, b: &str) -> (r: String)
    ensures
        r@ == a@ + b@,
{
    let mut v: Vec<char> = Vec::new();
    push_str(&mut v, a);
    push_str(&mut v, b);
    assert(v@ =~= a@ + b@);
    string_from_chars(&v)
}

fn push_line(lines: &mut Vec<(String, bool, bool)>, text: String, selected: bool, is_accent: bool)
    ensures
        lines_view(final(lines)@) == lines_view(old(lines)@).push((text@, selected, is_accent)),
{
    lines.push((text, selected, is_accent));
    assert(lines_view(lines@) =~= lines_view(old(lines)@).push((text@, selected, is_accent)));
}

fn push_blank(lines: &mut Vec<(String, bool, bool)>)
    ensures
        lines_view(final(lines)@) == lines_view(old(lines)@).push(blank()),
{
    push_line(lines, String::new(), false, false);
}

fn push_accent(lines: &mut Vec<(String, bool, bool)>, text: &str)
    ensures
        lines_view(final(lines)@) == lines_view(old(lines)@).push(accent(text@)),
{
    push_line(lines, text.to_owned(), false, true);
}

fn append_lines(dst: &mut Vec<(String, bool, bool)>, src: Vec<(String, bool, bool)>)
    ensures
        lines_view(final(dst)@) == lines_view(old(dst)@) + lines_view(src@),
{
    let ghost moved = src@;
    let mut src = src;
    dst.append(&mut src);
    assert(lines_view(dst@) =~= lines_view(old(dst)@) + lines_view(moved));
}

/// The visible rows of a list.
pub fn list_rows_of(l: &ListView) -> (r: Vec<(String, bool, bool)>)
    requires
        list_wf(*l),
    ensures
        lines_view(r@) == list_rows(*l),
{
    let n = list_len(l);
    let off = crate::widgets::list_offset_of(l);
    let sel = list_selected_index(l);
    let vis = crate::widgets::list_visible_items(l);
    let ghost range = crate::widgets::visible_range(*l);
    assert(vis@.len() == range.len());
    let mut r: Vec<(String, bool, bool)> = Vec::new();
    let mut i: usize = 0;
    while i < vis.len()
        invariant
            i <= vis@.len(),
            texts_of(vis@) == range,
            range == crate::widgets::visible_range(*l),
            off == list_offset(*l),
            sel == list_selected(*l),
            off + vis@.len() <= n,
            n == list_items(*l).len(),
            lines_view(r@) == list_rows(*l).take(i as int),
        decreases vis@.len() - i,
    {
        let selected = off + i == sel;
        let prefix: &str = if selected {
            "> "
        } else {
            "  "
        };
        let text = concat_str(prefix, vis[i].as_str());
        assert(vis@[i as int]@ == range[i as int]);
        push_line(&mut r, text, selected, false);
        i = i + 1;
        assert(lines_view(r@) =~= list_rows(*l).take(i as int));
    }
    assert(list_rows(*l).take(vis@.len() as int) =~= list_rows(*l));
    r
}

/// Strings joined with a separator.
pub fn join_strings(v: &Vec<String>, sep: &str) -> (r: String)
    ensures
        r@ == join_texts(texts_of(v@), sep@),
{
    let mut cs: Vec<char> = Vec::new();
    let mut i: usize = 0;
    while i < v.len()
        invariant
            i <= v@.len(),
            cs@ == join_texts(texts_of(v@.take(i as int)), sep@),
        decreases v@.len() - i,
    {
        let ghost before = cs@;
        if i > 0 {
            push_str(&mut cs, sep);
        }
        push_str(&mut cs, v[i].as_str());
        assert(texts_of(v@.take(i + 1)).drop_last() =~= texts_of(v@.take(i as int)));
        assert(texts_of(v@.take(i + 1)).last() == v@[i as int]@);
        if i == 0 {
            assert(cs@ =~= join_texts(texts_of(v@.take(1)), sep@));
        }
        i = i + 1;
    }
    assert(v@.take(v@.len() as int) =~= v@);
    string_from_chars(&cs)
}

/// The rows of the fields of an item.
pub fn field_rows_of(fields: &Vec<crate::vault::Field>, selected: usize, show_hidden: bool) -> (r: Vec<
    (String, bool, bool),
>)
    ensures
        lines_view(r@) == field_rows(fields@, fields@.len(), selected, show_hidden),
{
    let mut r: Vec<(String, bool, bool)> = Vec::new();
    let mut i: usize = 0;
    while i < fields.len()
        invariant
            i <= fields@.len(),
            lines_view(r@) == field_rows(fields@, i as nat, selected, show_hidden),
        decreases fields@.len() - i,
    {
        let f = &fields[i];
        if !(f.label.as_str().is_empty() && f.value.is_empty()) {
            let is_sel = i == selected;
            let mut cs: Vec<char> = Vec::new();
            if is_sel {
                push_str(&mut cs, "> ");
            } else {
                push_str(&mut cs, "  ");
            }
            push_str(&mut cs, "  ");
            if f.label.as_str().is_empty() {
                push_str(&mut cs, f.field_type.name());
            } else {
                push_str(&mut cs, f.label.as_str());
            }
            push_str(&mut cs, ": ");
            if f.field_type == crate::vault::FieldType::Concealed && !show_hidden {
                push_str(&mut cs, "\u{2022}\u{2022}\u{2022}\u{2022}\u{2022}\u{2022}\u{2022}\u{2022}");
            } else if f.field_type == crate::vault::FieldType::Otp {
                push_str(&mut cs, "(press 't' to copy TOTP)");
            } else {
                push_str(&mut cs, f.value.as_str());
            }
            assert(cs@ =~= field_row(*f, is_sel, show_hidden).0);
            let text = string_from_chars(&cs);
            push_line(&mut r, text, is_sel, false);
        }
        i = i + 1;
    }
    r
}

/// The rows of an item's URL list.
pub fn url_rows_of(urls: &Vec<crate::vault::ItemUrl>) -> (r: Vec<(String, bool, bool)>)
    ensures
        lines_view(r@) == urls@.map_values(|u: crate::vault::ItemUrl| url_row(u)),
{
    let mut r: Vec<(String, bool, bool)> = Vec::new();
    let mut i: usize = 0;
    while i < urls.len()
        invariant
            i <= urls@.len(),
            lines_view(r@) == urls@.take(i as int).map_values(|u: crate::vault::ItemUrl| url_row(u)),
        decreases urls@.len() - i,
    {
        let u = &urls[i];
        let mut cs: Vec<char> = Vec::new();
        push_str(&mut cs, "    ");
        push_str(&mut cs, u.href.as_str());
        if u.primary {
            push_str(&mut cs, " (primary)");
        }
        assert(cs@ =~= url_row(*u).0);
        let text = string_from_chars(&cs);
        push_line(&mut r, text, false, false);
        i = i + 1;
        assert(lines_view(r@) =~= urls@.take(i as int).map_values(
            |u: crate::vault::ItemUrl| url_row(u),
        ));
    }
    assert(urls@.take(urls@.len() as int) =~= urls@);
    r
}

} // verus!

verus! {

fn vault_view_lines_of(state: &KagiState) -> (r: Vec<(String, bool, bool)>)
    requires
        state.wf(),
    ensures
        lines_view(r@) == vault_view_lines(*state),
{
    let mut lines: Vec<(String, bool, bool)> = Vec::new();
    push_accent(&mut lines, "Kagi \u{2014} Select Vault");
    push_blank(&mut lines);
    let rows = list_rows_of(&state.vault_list);
    append_lines(&mut lines, rows);
    if state.vaults.len() == 0 {
        push_accent(&mut lines, "  (no vaults found)");
        push_accent(&mut lines, "  Configure `op` CLI or Connect API in ~/.config/kagi/kagi.yaml");
    }
    push_blank(&mut lines);
    push_accent(&mut lines, "[j/k] navigate  [Enter] open  [/] search  [q] quit");
    assert(lines_view(lines@) =~= vault_view_lines(*state));
    lines
}

fn item_view_lines_of(state: &KagiState) -> (r: Vec<(String, bool, bool)>)
    requires
        state.wf(),
    ensures
        lines_view(r@) == item_view_lines(*state),
{
    let search = state.mode == ViewMode::Search;
    let title = if search {
        concat_str("Search: ", input_text_of(&state.search_input))
    } else if state.selected_vault < state.vaults.len() {
        concat_str("Kagi \u{2014} ", state.vaults[state.selected_vault].name.as_str())
    } else {
        concat_str("Kagi \u{2014} ", "Items")
    };
    let mut lines: Vec<(String, bool, bool)> = Vec::new();
    push_line(&mut lines, title, false, true);
    push_blank(&mut lines);
    let rows = list_rows_of(&state.item_list);
    append_lines(&mut lines, rows);
    if list_len(&state.item_list) == 0 {
        if search {
            push_accent(&mut lines, "  (no results)");
        } else {
            push_accent(&mut lines, "  (no items)");
        }
    }
    push_blank(&mut lines);
    if search {
        push_accent(&mut lines, "[type] search  [j/k] navigate  [Enter] detail  [Esc] cancel");
    } else {
        push_accent(
            &mut lines,
            "[j/k] navigate  [Enter] detail  [p] password  [u] username  [t] TOTP  [/] search  [f] favorites  [Tab] vault  [Esc] back  [q] quit",
        );
    }
    assert(lines_view(lines@) =~= item_view_lines(*state));
    lines
}

#[verifier::rlimit(40)]
fn detail_view_lines_of(state: &KagiState) -> (r: Vec<(String, bool, bool)>)
    ensures
        lines_view(r@) == detail_view_lines(*state),
{
    let mut lines: Vec<(String, bool, bool)> = Vec::new();
    match &state.detail_item {
        None => {
            assert(lines_view(lines@) =~= detail_view_lines(*state));
        },
        Some(item) => {
            push_line(&mut lines, concat_str("Kagi \u{2014} ", item.title.as_str()), false, true);
            push_line(&mut lines, concat_str("  Category: ", item.category.label()), false, true);
            let ghost head = lines_view(lines@);
            if item.tags.len() > 0 {
                let joined = join_strings(&item.tags, ", ");
                push_line(&mut lines, concat_str("  Tags: ", joined.as_str()), false, true);
            }
            let ghost with_tags = lines_view(lines@);
            match item.primary_url() {
                Some(u) => push_line(&mut lines, concat_str("  URL: ", u), false, true),
                None => {},
            }
            let ghost with_url = lines_view(lines@);
            push_blank(&mut lines);
            push_accent(&mut lines, "  Fields:");
            let rows = field_rows_of(&item.fields, state.detail_field_index, state.show_hidden);
            append_lines(&mut lines, rows);
            let ghost with_fields = lines_view(lines@);
            if item.urls.len() > 1 {
                push_blank(&mut lines);
                push_accent(&mut lines, "  URLs:");
                let urls = url_rows_of(&item.urls);
                append_lines(&mut lines, urls);
            }
            let ghost with_urls = lines_view(lines@);
            push_blank(&mut lines);
            push_accent(
                &mut lines,
                "[j/k] navigate  [Enter/y] copy field  [p] password  [u] username  [t] TOTP  [H] toggle hidden  [Esc] back",
            );
            assert(lines_view(lines@) =~= detail_view_lines(*state));
        },
    }
    lines
}

impl Default for KagiState {
    fn default() -> (r: Self)
        ensures
            r.is_initial(),
    {
        Self::new()
    }
}

/// Whether a list's selection and scroll position are consistent.
fn list_is_consistent(l: &ListView) -> (r: bool)
    ensures
        r == list_wf(*l),
{
    let n = list_len(l);
    let sel = list_selected_index(l);
    let off = list_offset_of(l);
    if n == 0 {
        sel == 0 && off == 0
    } else {
        sel < n && off <= sel + 1 && off <= n
    }
}

/// The lines a list has on screen.
fn visible_strings(l: &ListView) -> (r: Vec<String>)
    requires
        list_wf(*l),
    ensures
        texts_of(r@) == visible_range(*l),
{
    let vis = list_visible_items(l);
    let mut r: Vec<String> = Vec::new();
    let mut i: usize = 0;
    while i < vis.len()
        invariant
            i <= vis@.len(),
            texts_of(r@) == texts_of(vis@).take(i as int),
        decreases vis@.len() - i,
    {
        let ghost before = r@;
        r.push(vis[i].clone());
        assert(texts_of(r@) =~= texts_of(before).push(vis@[i as int]@));
        i = i + 1;
        assert(texts_of(r@) =~= texts_of(vis@).take(i as int));
    }
    assert(texts_of(vis@).take(vis@.len() as int) =~= texts_of(vis@));
    r
}

/// Collect the lines to render for the current view: a list of (text,
/// is_selected, is_accent).
pub fn collect_lines(state: &KagiState) -> (r: Vec<(String, bool, bool)>)
    requires
        state.wf(),
    ensures
        lines_view(r@) == screen_lines(*state),
{
    let mut lines: Vec<(String, bool, bool)> = Vec::new();
    if state.loading {
        push_accent(&mut lines, "Loading...");
        assert(lines_view(lines@) =~= screen_lines(*state));
        return lines;
    }
    let body = match state.mode {
        ViewMode::VaultList => vault_view_lines_of(state),
        ViewMode::ItemList | ViewMode::Search => item_view_lines_of(state),
        ViewMode::ItemDetail => detail_view_lines_of(state),
    };
    append_lines(&mut lines, body);
    if let Some(msg) = &state.status_message {
        push_blank(&mut lines);
        push_line(&mut lines, msg.clone(), false, true);
    }
    assert(lines_view(lines@) =~= screen_lines(*state));
    lines
}

} // verus!
