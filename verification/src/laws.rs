//! The laws the controller obeys, each proved over the transition relation
//! in [`crate::tui`].

use vstd::prelude::*;
use crate::event::{InputEvent, Key, PointerEvent};
use crate::item::ItemModel;
use crate::todo::{toggled, valid_selection};
use crate::tui::{TuiModel, event_step, key_step, pointer_row_index, pointer_step};

verus! {

/// The key events for typing a character sequence, in order.
pub open spec fn char_keys(cs: Seq<char>) -> Seq<Key>
    decreases cs.len(),
{
    if cs.len() == 0 {
        Seq::empty()
    } else {
        seq![Key::Char(cs[0])] + char_keys(cs.drop_first())
    }
}

/// The controller state after dispatching a sequence of key presses.
pub open spec fn run_keys(t: TuiModel, ks: Seq<Key>) -> TuiModel
    decreases ks.len(),
{
    if ks.len() == 0 {
        t
    } else {
        run_keys(key_step(t, ks[0]), ks.drop_first())
    }
}

/// The key event for one typed character, produced as a proof-level value
/// so the facts below apply to it.
proof fn mk_char_key(c: char) -> (k: Key)
    ensures
        k == Key::Char(c),
{
    Key::Char(c)
}

/// The length, head and tail of a key sequence that starts with one given
/// key.
pub proof fn lemma_key_cons(k: Key, rest: Seq<Key>)
    ensures
        (seq![k] + rest).len() == 1 + rest.len(),
        (seq![k] + rest)[0] == k,
        (seq![k] + rest).drop_first() == rest,
{
    assert((seq![k] + rest).drop_first() =~= rest);
}

/// Dispatching a single key is one transition step.
pub proof fn lemma_run_single(t: TuiModel, k: Key)
    ensures
        run_keys(t, seq![k]) == key_step(t, k),
{
    assert(seq![k].drop_first() =~= Seq::<Key>::empty());
    assert(run_keys(t, seq![k]) == run_keys(key_step(t, seq![k][0]), seq![k].drop_first()));
    assert(run_keys(key_step(t, k), seq![k].drop_first()) == key_step(t, k));
}

/// Dispatching a concatenation of key sequences runs them one after the
/// other.
pub proof fn lemma_run_keys_concat(t: TuiModel, a: Seq<Key>, b: Seq<Key>)
    ensures
        run_keys(t, a + b) == run_keys(run_keys(t, a), b),
    decreases a.len(),
{
    if a.len() == 0 {
        assert(a + b =~= b);
    } else {
        assert((a + b)[0] == a[0]);
        assert((a + b).drop_first() =~= a.drop_first() + b);
        lemma_run_keys_concat(key_step(t, a[0]), a.drop_first(), b);
    }
}

/// While a name is being entered, typed characters land at the end of the
/// name draft, in order, and nothing else changes.
pub proof fn lemma_typing_name(t: TuiModel, cs: Seq<char>)
    requires
        t.state is EnteringName,
    ensures
        run_keys(t, char_keys(cs)) == (TuiModel { draft_name: t.draft_name + cs, ..t }),
    decreases cs.len(),
{
    if cs.len() == 0 {
        assert(t.draft_name + cs =~= t.draft_name);
        assert(run_keys(t, char_keys(cs)) =~= (TuiModel { draft_name: t.draft_name + cs, ..t }));
    } else {
        let k = mk_char_key(cs[0]);
        let rest = char_keys(cs.drop_first());
        lemma_key_cons(k, rest);
        assert(char_keys(cs) == seq![k] + rest);
        let t1 = key_step(t, k);
        lemma_typing_name(t1, cs.drop_first());
        assert(t1.draft_name + cs.drop_first() =~= t.draft_name + cs);
    }
}

/// While a description is being entered, typed characters land at the end
/// of the description draft, in order, and nothing else changes.
pub proof fn lemma_typing_desc(t: TuiModel, cs: Seq<char>)
    requires
        t.state is EnteringDescription,
    ensures
        run_keys(t, char_keys(cs)) == (TuiModel { draft_desc: t.draft_desc + cs, ..t }),
    decreases cs.len(),
{
    if cs.len() == 0 {
        assert(t.draft_desc + cs =~= t.draft_desc);
        assert(run_keys(t, char_keys(cs)) =~= (TuiModel { draft_desc: t.draft_desc + cs, ..t }));
    } else {
        let k = mk_char_key(cs[0]);
        let rest = char_keys(cs.drop_first());
        lemma_key_cons(k, rest);
        assert(char_keys(cs) == seq![k] + rest);
        let t1 = key_step(t, k);
        lemma_typing_desc(t1, cs.drop_first());
        assert(t1.draft_desc + cs.drop_first() =~= t.draft_desc + cs);
    }
}

/// Law: once name entry has begun, exactly two Enters — with arbitrary
/// character input between them — append exactly one new item, not done,
/// whose name and description are the drafts extended by the characters
/// typed in order; both drafts are empty afterwards, the controller is idle
/// again, and neither the other items nor the selection move.
pub proof fn lemma_two_enters_commit(t: TuiModel, name: Seq<char>, desc: Seq<char>)
    requires
        t.state is EnteringName,
    ensures
        ({
            let r = run_keys(
                t,
                char_keys(name) + seq![Key::Enter] + char_keys(desc) + seq![Key::Enter],
            );
            &&& r.state is Idle
            &&& r.todo.items == t.todo.items.push(
                ItemModel {
                    done: false,
                    name: t.draft_name + name,
                    desc: t.draft_desc + desc,
                },
            )
            &&& r.todo.selected == t.todo.selected
            &&& r.draft_name.len() == 0
            &&& r.draft_desc.len() == 0
        }),
{
    let a = char_keys(name);
    let b = seq![Key::Enter];
    let c = char_keys(desc);
    let ks = a + b + c + b;
    lemma_typing_name(t, name);
    let t1 = run_keys(t, a);
    let t2 = key_step(t1, Key::Enter);
    lemma_typing_desc(t2, desc);
    let t3 = run_keys(t2, c);
    let t4 = key_step(t3, Key::Enter);
    lemma_run_keys_concat(t, a, b);
    lemma_run_keys_concat(t, a + b, c);
    lemma_run_keys_concat(t, a + b + c, b);
    lemma_run_single(t1, Key::Enter);
    lemma_run_single(t3, Key::Enter);
    assert(run_keys(t, ks) == t4);
    assert(t3.draft_name == t.draft_name + name);
    assert(t3.draft_desc =~= t.draft_desc + desc);
}

/// Law: from idle with empty drafts, one Enter, the name typed, one Enter,
/// the description typed, and one final Enter append exactly one new item
/// holding precisely the typed name and description; the drafts are empty
/// again, the controller is idle, and the selection has not moved.
pub proof fn lemma_entry_flow_appends_item(t: TuiModel, name: Seq<char>, desc: Seq<char>)
    requires
        t.state is Idle,
        t.draft_name.len() == 0,
        t.draft_desc.len() == 0,
    ensures
        ({
            let r = run_keys(
                t,
                seq![Key::Enter] + char_keys(name) + seq![Key::Enter] + char_keys(desc)
                    + seq![Key::Enter],
            );
            &&& r.state is Idle
            &&& r.todo.items == t.todo.items.push(
                ItemModel { done: false, name: name, desc: desc },
            )
            &&& r.todo.selected == t.todo.selected
            &&& r.draft_name.len() == 0
            &&& r.draft_desc.len() == 0
        }),
{
    let b = seq![Key::Enter];
    let rest = char_keys(name) + b + char_keys(desc) + b;
    let t1 = key_step(t, Key::Enter);
    lemma_run_single(t, Key::Enter);
    lemma_run_keys_concat(t, b, rest);
    assert(b + (char_keys(name) + b + char_keys(desc) + b) =~= b + char_keys(name) + b
        + char_keys(desc) + b);
    lemma_two_enters_commit(t1, name, desc);
    assert(t1.draft_name + name =~= name);
    assert(t1.draft_desc + desc =~= desc);
}

/// Law: Backspace on an empty draft buffer leaves it empty, whatever the
/// controller's state.
pub proof fn lemma_backspace_empty_draft(t: TuiModel)
    requires
        t.draft_name.len() == 0,
        t.draft_desc.len() == 0,
    ensures
        key_step(t, Key::Backspace).draft_name.len() == 0,
        key_step(t, Key::Backspace).draft_desc.len() == 0,
{
}

/// Law: toggling the completion flag twice at the same index restores the
/// items exactly, whether or not the index is in range.
pub proof fn lemma_toggle_twice_restores(items: Seq<ItemModel>, i: int)
    ensures
        toggled(toggled(items, i), i) == items,
{
    if 0 <= i < items.len() {
        let a = toggled(toggled(items, i), i);
        assert forall|j: int| 0 <= j < items.len() implies a[j] == items[j] by {
            if j == i {
                assert(a[j] =~= items[j]);
            }
        }
        assert(a =~= items);
    }
}

/// Law: a pointer press whose row maps at or beyond the end of the list —
/// like any pointer event that is not a press — changes nothing, the
/// selection included.
pub proof fn lemma_pointer_beyond_list(t: TuiModel, p: PointerEvent)
    requires
        p.kind is Press ==> pointer_row_index(p.row) >= t.todo.items.len(),
    ensures
        pointer_step(t, p) == t,
{
    assert(pointer_step(t, p) =~= t);
}

/// Law: Esc moves the controller to `Exiting` from every state, so the
/// event loop, which checks for `Exiting` before each iteration, stops at
/// its next check.
pub proof fn lemma_esc_always_exits(t: TuiModel)
    ensures
        key_step(t, Key::Esc).state is Exiting,
{
}

/// The controller invariant: a present selection points at an existing
/// item, and both draft buffers are empty whenever the controller is idle.
pub open spec fn tui_invariant(t: TuiModel) -> bool {
    &&& valid_selection(t.todo)
    &&& t.state is Idle ==> t.draft_name.len() == 0 && t.draft_desc.len() == 0
}

/// Law: every input event — key or pointer — preserves the controller
/// invariant.
pub proof fn lemma_step_preserves_invariant(t: TuiModel, e: InputEvent)
    requires
        tui_invariant(t),
    ensures
        tui_invariant(event_step(t, e)),
{
}

} // verus!
