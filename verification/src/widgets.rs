//! The egaku widgets the vault browser keeps its UI state in: `ListView`
//! (a scrollable list of lines with a selection), `TextInput` (the search
//! box) and `FocusManager`. Each call into egaku goes through one wrapper
//! here, whose contract restates what egaku's source does.

use vstd::prelude::*;
use egaku::{FocusManager, ListView, TextInput};

verus! {

#[verifier::external_type_specification]
#[verifier::external_body]
pub struct ExListView(ListView);

#[verifier::external_type_specification]
#[verifier::external_body]
pub struct ExTextInput(TextInput);

#[verifier::external_type_specification]
#[verifier::external_body]
pub struct ExFocusManager(FocusManager);

/// The lines a `ListView` holds, in order.
pub uninterp spec fn list_items(l: ListView) -> Seq<Seq<char>>;

/// The index of a `ListView`'s selected line.
pub uninterp spec fn list_selected(l: ListView) -> nat;

/// The index of a `ListView`'s first visible line.
pub uninterp spec fn list_offset(l: ListView) -> nat;

/// How many lines a `ListView` shows at once (the limit it was made with).
pub uninterp spec fn list_window(l: ListView) -> nat;

/// The text a `TextInput` holds.
pub uninterp spec fn input_text(t: TextInput) -> Seq<char>;

/// The byte position of a `TextInput`'s cursor.
pub uninterp spec fn input_cursor(t: TextInput) -> nat;

/// Whether part of a `TextInput`'s text is selected.
pub uninterp spec fn input_has_selection(t: TextInput) -> bool;

/// A text without its last grapheme cluster, as `TextInput::delete_back`
/// finds that cluster with unicode-segmentation.
pub uninterp spec fn without_last_grapheme(text: Seq<char>) -> Seq<char>;

/// How many bytes a character takes in UTF-8.
pub open spec fn char_utf8_len(c: char) -> nat {
    if (c as u32) < 0x80 {
        1
    } else if (c as u32) < 0x800 {
        2
    } else if (c as u32) < 0x10000 {
        3
    } else {
        4
    }
}

/// How many bytes a text takes in UTF-8.
pub open spec fn utf8_len(s: Seq<char>) -> nat
    decreases s.len(),
{
    if s.len() == 0 {
        0
    } else {
        utf8_len(s.drop_last()) + char_utf8_len(s.last())
    }
}

/// The input's cursor is after its last character and nothing is
/// selected: typing appends, backspace removes from the end.
pub open spec fn input_at_end(t: TextInput) -> bool {
    !input_has_selection(t) && input_cursor(t) == utf8_len(input_text(t))
}

/// The characters of each string, in order.
pub open spec fn texts_of(v: Seq<String>) -> Seq<Seq<char>> {
    v.map_values(|s: String| s@)
}

/// The selection and scroll position of a list are consistent: an empty
/// list has both at 0; otherwise the selection is a line of the list and the
/// offset is at most one past it and within the list. The end of the
/// window (offset plus window size) is a `usize`.
pub open spec fn list_wf(l: ListView) -> bool {
    let n = list_items(l).len();
    &&& n == 0 ==> list_selected(l) == 0 && list_offset(l) == 0
    &&& n > 0 ==> list_selected(l) < n && list_offset(l) <= list_selected(l) + 1 && list_offset(l)
        <= n
    &&& n <= usize::MAX
    &&& list_offset(l) + list_window(l) <= usize::MAX
}

/// The scroll offset after the selection moved to `sel`, as
/// `ListView::ensure_visible` computes it.
pub open spec fn scrolled_offset(sel: nat, off: nat, window: nat) -> nat {
    if sel < off {
        sel
    } else if sel >= off + window {
        (sel + 1 - window) as nat
    } else {
        off
    }
}

/// The lines of a list that are on screen: from the offset, at most
/// `window` of them.
pub open spec fn visible_range(l: ListView) -> Seq<Seq<char>> {
    let n = list_items(l).len();
    let end = if list_offset(l) + list_window(l) < n {
        list_offset(l) + list_window(l)
    } else {
        n
    };
    list_items(l).subrange(list_offset(l) as int, end as int)
}

/// `ListView::new`: holds `items`, selection and offset at 0, showing
/// `visible_count` lines.
#[verifier::external_body]
pub(crate) fn list_new(items: Vec<String>, visible_count: usize) -> (r: ListView)
    ensures
        list_items(r) == texts_of(items@),
        list_items(r).len() == items.len(),
        list_selected(r) == 0,
        list_offset(r) == 0,
        list_window(r) == visible_count,
{
    ListView::new(items, visible_count)
}

/// `ListView::set_items`: replaces the lines, resets selection and offset
/// to 0, keeps the window.
#[verifier::external_body]
pub(crate) fn list_set_items(l: &mut ListView, items: Vec<String>)
    ensures
        list_items(*final(l)) == texts_of(items@),
        list_items(*final(l)).len() == items.len(),
        list_selected(*final(l)) == 0,
        list_offset(*final(l)) == 0,
        list_window(*final(l)) == list_window(*old(l)),
{
    l.set_items(items)
}

/// `ListView::select_next`: on a non-empty list whose selection is not the
/// last line, moves the selection down by one and scrolls it into view
/// (which adds the window to the offset); otherwise changes nothing. The
/// lines and window never change.
#[verifier::external_body]
pub(crate) fn list_select_next(l: &mut ListView)
    requires
        list_offset(*old(l)) + list_window(*old(l)) <= usize::MAX,
        list_items(*old(l)).len() <= usize::MAX,
    ensures
        list_items(*final(l)) == list_items(*old(l)),
        list_window(*final(l)) == list_window(*old(l)),
        if list_selected(*old(l)) + 1 < list_items(*old(l)).len() {
            &&& list_selected(*final(l)) == list_selected(*old(l)) + 1
            &&& list_offset(*final(l)) == scrolled_offset(
                list_selected(*old(l)) + 1,
                list_offset(*old(l)),
                list_window(*old(l)),
            )
        } else {
            &&& list_selected(*final(l)) == list_selected(*old(l))
            &&& list_offset(*final(l)) == list_offset(*old(l))
        },
{
    l.select_next()
}

/// `ListView::select_prev`: when the selection is not the first line,
/// moves it up by one and scrolls it into view (which adds the window to
/// the offset); otherwise changes nothing. The lines and window never
/// change.
#[verifier::external_body]
pub(crate) fn list_select_prev(l: &mut ListView)
    requires
        list_offset(*old(l)) + list_window(*old(l)) <= usize::MAX,
        list_items(*old(l)).len() <= usize::MAX,
    ensures
        list_items(*final(l)) == list_items(*old(l)),
        list_window(*final(l)) == list_window(*old(l)),
        if list_selected(*old(l)) > 0 {
            &&& list_selected(*final(l)) == (list_selected(*old(l)) - 1) as nat
            &&& list_offset(*final(l)) == scrolled_offset(
                (list_selected(*old(l)) - 1) as nat,
                list_offset(*old(l)),
                list_window(*old(l)),
            )
        } else {
            &&& list_selected(*final(l)) == list_selected(*old(l))
            &&& list_offset(*final(l)) == list_offset(*old(l))
        },
{
    l.select_prev()
}

/// `ListView::selected_index`.
#[verifier::external_body]
pub(crate) fn list_selected_index(l: &ListView) -> (r: usize)
    ensures
        r == list_selected(*l),
{
    l.selected_index()
}

/// `ListView::offset`. The offset plus the window size always fits in a
/// `usize`: `new` and `set_items` put the offset at 0, and the only other
/// place that moves it, `ensure_visible`, puts it at most at
/// `selected + 1 - visible_count` for a selection inside the list.
#[verifier::external_body]
pub(crate) fn list_offset_of(l: &ListView) -> (r: usize)
    ensures
        r == list_offset(*l),
        r + list_window(*l) <= usize::MAX,
{
    l.offset()
}

/// `ListView::len`.
#[verifier::external_body]
pub(crate) fn list_len(l: &ListView) -> (r: usize)
    ensures
        r == list_items(*l).len(),
{
    l.len()
}

/// `ListView::visible_items`: the lines from the offset, at most `window`
/// of them. It adds the window to the offset and slices the list there, so
/// it needs the sum to fit and the offset within the list.
#[verifier::external_body]
pub(crate) fn list_visible_items(l: &ListView) -> (r: &[String])
    requires
        list_offset(*l) <= list_items(*l).len(),
        list_offset(*l) + list_window(*l) <= usize::MAX,
    ensures
        texts_of(r@) == visible_range(*l),
{
    l.visible_items()
}

/// `TextInput::new`: an empty input, cursor at 0, nothing selected.
#[verifier::external_body]
pub(crate) fn input_new() -> (r: TextInput)
    ensures
        input_text(r) == Seq::<char>::empty(),
        input_cursor(r) == 0,
        !input_has_selection(r),
{
    TextInput::new()
}

/// `TextInput::cursor`: the cursor's byte position.
#[verifier::external_body]
pub(crate) fn input_cursor_of(t: &TextInput) -> (r: usize)
    ensures
        r == input_cursor(*t),
{
    t.cursor()
}

/// `TextInput::selected_text`: the selected text, present exactly when
/// something is selected.
#[verifier::external_body]
pub(crate) fn input_selected_text(t: &TextInput) -> (r: Option<&str>)
    ensures
        r is Some == input_has_selection(*t),
{
    t.selected_text()
}

/// The UTF-8 length of the first characters grows with their number.
pub proof fn lemma_utf8_len_take(s: Seq<char>, k: int)
    requires
        0 <= k <= s.len(),
    ensures
        utf8_len(s.take(k)) <= utf8_len(s),
    decreases s.len() - k,
{
    if k < s.len() {
        lemma_utf8_len_take(s, k + 1);
        assert(s.take(k + 1).drop_last() =~= s.take(k));
    } else {
        assert(s.take(k) =~= s);
    }
}

/// The number of bytes `c` takes in UTF-8.
fn char_width(c: char) -> (r: usize)
    ensures
        r == char_utf8_len(c),
{
    if (c as u32) < 0x80 {
        1
    } else if (c as u32) < 0x800 {
        2
    } else if (c as u32) < 0x10000 {
        3
    } else {
        4
    }
}

/// Whether an input's cursor is after its last character with nothing
/// selected.
pub(crate) fn input_is_at_end(t: &TextInput) -> (r: bool)
    ensures
        r == input_at_end(*t),
{
    if input_selected_text(t).is_some() {
        return false;
    }
    let cur = input_cursor_of(t);
    let cs = crate::text::chars_of(input_text_of(t));
    let mut total: usize = 0;
    let mut i: usize = 0;
    while i < cs.len()
        invariant
            i <= cs@.len(),
            cs@ == input_text(*t),
            cur == input_cursor(*t),
            total == utf8_len(cs@.take(i as int)),
            total <= cur,
        decreases cs@.len() - i,
    {
        let w = char_width(cs[i]);
        assert(cs@.take(i + 1).drop_last() =~= cs@.take(i as int));
        if cur - total < w {
            proof {
                lemma_utf8_len_take(cs@, i + 1);
            }
            return false;
        }
        total = total + w;
        i = i + 1;
    }
    assert(cs@.take(cs@.len() as int) =~= cs@);
    total == cur
}

/// `TextInput::text`.
#[verifier::external_body]
pub(crate) fn input_text_of(t: &TextInput) -> (r: &str)
    ensures
        r@ == input_text(*t),
{
    t.text()
}

/// `TextInput::insert_char`: removes a selection, inserts `c` at the
/// cursor and moves the cursor past it. Stated for an input whose cursor
/// is at the end with nothing selected, where `c` is appended; where it
/// lands otherwise is left unsaid.
#[verifier::external_body]
pub(crate) fn input_insert_char(t: &mut TextInput, c: char)
    ensures
        input_at_end(*old(t)) ==> {
            &&& input_text(*final(t)) == input_text(*old(t)).push(c)
            &&& input_at_end(*final(t))
        },
{
    t.insert_char(c)
}

/// `TextInput::delete_back`: removes a selection, or else the grapheme
/// cluster before the cursor. Stated for an input whose cursor is at the
/// end with nothing selected: an empty text stays empty, and otherwise the
/// last cluster (at least one character) goes and the cursor stays at the
/// end. What it removes otherwise is left unsaid.
#[verifier::external_body]
pub(crate) fn input_delete_back(t: &mut TextInput)
    ensures
        input_at_end(*old(t)) && input_text(*old(t)).len() == 0 ==> input_text(*final(t)) == input_text(
            *old(t),
        ) && input_at_end(*final(t)),
        input_at_end(*old(t)) && input_text(*old(t)).len() > 0 ==> {
            &&& input_text(*final(t)) == without_last_grapheme(input_text(*old(t)))
            &&& input_text(*final(t)).len() < input_text(*old(t)).len()
            &&& input_text(*final(t)) == input_text(*old(t)).take(input_text(*final(t)).len() as int)
            &&& input_at_end(*final(t))
        },
{
    t.delete_back()
}

/// `FocusManager::new` over the given widget names. Nothing about the
/// focus state is used by this library, so nothing is stated of it.
#[verifier::external_body]
pub(crate) fn focus_new(widgets: Vec<String>) -> (r: FocusManager) {
    FocusManager::new(widgets)
}

} // verus!
