//! The stateful list: an ordered sequence of items plus a movable single
//! selection cursor and a scroll offset. Every view of the dashboard keeps its
//! navigable rows in one of these.
//!
//! Invariant: whenever a selection is present it indexes an existing item;
//! every mutation that could break this clears or re-clamps the selection in
//! the same step.

use vstd::arithmetic::div_mod::{
    lemma_add_mod_noop, lemma_mod_add_multiples_vanish, lemma_mod_bound, lemma_mod_self_0,
    lemma_small_mod,
};
use vstd::prelude::*;

verus! {

/// Cursor bookkeeping of a [`StatefulList`]: the optional selected index and
/// the scroll offset (the offset is a rendering concern only).
#[derive(Debug, Clone, Copy, PartialEq, Eq, Structural)]
pub struct ListState {
    pub selected: Option<usize>,
    pub offset: usize,
}

impl ListState {
    /// The currently selected index, if any.
    pub fn selected(&self) -> (r: Option<usize>)
        ensures
            r == self.selected,
    {
        self.selected
    }
}

/// Ghost image of a stateful list: the deep views of its items, the selection
/// as a mathematical option over `int`, and the scroll offset.
#[verifier::ext_equal]
pub ghost struct ListV<E> {
    pub items: Seq<E>,
    pub selected: Option<int>,
    pub offset: int,
}

/// Map a sequence of values to the sequence of their deep views.
pub open spec fn seq_deep<T: DeepView>(s: Seq<T>) -> Seq<T::V> {
    s.map_values(|t: T| t.deep_view())
}

/// Mapping to deep views commutes with appending one element.
pub proof fn lemma_seq_deep_push<T: DeepView>(s: Seq<T>, x: T)
    ensures
        seq_deep(s.push(x)) == seq_deep(s).push(x.deep_view()),
{
    assert(seq_deep(s.push(x)) =~= seq_deep(s).push(x.deep_view()));
}

/// Mapping to deep views commutes with removing one element.
pub proof fn lemma_seq_deep_remove<T: DeepView>(s: Seq<T>, i: int)
    requires
        0 <= i < s.len(),
    ensures
        seq_deep(s.remove(i)) == seq_deep(s).remove(i),
{
    assert(seq_deep(s.remove(i)) =~= seq_deep(s).remove(i));
}

/// Selection after `next`: a no-op on an empty list; index 0 when nothing was
/// selected; otherwise the successor index, wrapping around.
pub open spec fn spec_next(sel: Option<int>, len: int) -> Option<int> {
    if len == 0 {
        sel
    } else {
        match sel {
            None => Some(0int),
            Some(i) => Some((i + 1) % len),
        }
    }
}

/// Selection after `previous`: a no-op on an empty list; index 0 when nothing
/// was selected; otherwise the predecessor index, wrapping around.
pub open spec fn spec_previous(sel: Option<int>, len: int) -> Option<int> {
    if len == 0 {
        sel
    } else {
        match sel {
            None => Some(0int),
            Some(i) => Some((i + len - 1) % len),
        }
    }
}

/// Selection after removing index `removed` from a list of length `len`: a
/// selected removed index clears the selection; any other selection survives
/// exactly when it still indexes an item of the shortened list.
pub open spec fn spec_remove_sel(sel: Option<int>, removed: int, len: int) -> Option<int> {
    match sel {
        None => None,
        Some(j) => if j == removed {
            None
        } else if j < len - 1 {
            Some(j)
        } else {
            None
        },
    }
}

/// The selection after `n` successive `next` steps on a list of length `len`.
pub open spec fn spec_next_iter(sel: Option<int>, len: int, n: nat) -> Option<int>
    decreases n,
{
    if n == 0 {
        sel
    } else {
        spec_next(spec_next_iter(sel, len, (n - 1) as nat), len)
    }
}

/// After `n` `next` steps from selected index `i`, the selection is
/// `(i + n) mod len`: the cursor walks forward cyclically.
pub proof fn lemma_next_iter_mod(i: int, len: int, n: nat)
    requires
        0 <= i < len,
    ensures
        spec_next_iter(Some(i), len, n) == Some((i + n) % len),
    decreases n,
{
    if n == 0 {
        lemma_small_mod(i as nat, len as nat);
    } else {
        lemma_next_iter_mod(i, len, (n - 1) as nat);
        let j = (i + n - 1) % len;
        assert(spec_next_iter(Some(i), len, n) == Some((j + 1) % len));
        lemma_add_mod_noop(i + n - 1, 1, len);
        if len == 1 {
            lemma_mod_bound(i + n - 1, 1);
            lemma_mod_bound(i + n, 1);
            lemma_mod_self_0(1);
        } else {
            lemma_small_mod(1nat, len as nat);
        }
    }
}

/// Law: on a non-empty list, calling `next` as many times as the list has
/// items returns the selection to its starting index.
pub proof fn lemma_next_cycles(i: int, len: int)
    requires
        0 <= i < len,
    ensures
        spec_next_iter(Some(i), len, len as nat) == Some(i),
{
    lemma_next_iter_mod(i, len, len as nat);
    lemma_mod_add_multiples_vanish(i, len);
    lemma_small_mod(i as nat, len as nat);
}

/// Law: `previous` is the exact inverse of `next` on a selected list, and
/// `next` the exact inverse of `previous`.
pub proof fn lemma_next_previous_inverse(i: int, len: int)
    requires
        0 <= i < len,
    ensures
        spec_previous(spec_next(Some(i), len), len) == Some(i),
        spec_next(spec_previous(Some(i), len), len) == Some(i),
{
    if i + 1 == len {
        lemma_mod_self_0(len);
        lemma_small_mod((len - 1) as nat, len as nat);
    } else {
        lemma_small_mod((i + 1) as nat, len as nat);
        lemma_mod_add_multiples_vanish(i, len);
        lemma_small_mod(i as nat, len as nat);
    }
    if i == 0 {
        lemma_small_mod((len - 1) as nat, len as nat);
        lemma_mod_self_0(len);
    } else {
        lemma_mod_add_multiples_vanish(i - 1, len);
        lemma_small_mod((i - 1) as nat, len as nat);
        lemma_small_mod(i as nat, len as nat);
    }
}

/// Law: `unselect` followed by `next` always selects index 0 on a non-empty
/// list.
pub proof fn lemma_unselect_then_next(len: int)
    requires
        len > 0,
    ensures
        spec_next(None, len) == Some(0int),
{
}

/// An ordered sequence of items with a movable single selection cursor.
#[derive(Debug)]
pub struct StatefulList<T> {
    pub state: ListState,
    pub items: Vec<T>,
}

impl<T: DeepView> View for StatefulList<T> {
    type V = ListV<T::V>;

    /// The ghost image of the list: deep views of the items, the selection as
    /// an option over `int`, and the scroll offset.
    open spec fn view(&self) -> ListV<T::V> {
        ListV {
            items: seq_deep(self.items@),
            selected: self.sel(),
            offset: self.state.offset as int,
        }
    }
}

impl<T> StatefulList<T> {
    /// A present selection always indexes an existing item.
    pub open spec fn wf(&self) -> bool {
        self.state.selected matches Some(i) ==> i < self.items.len()
    }

    /// The selection as a mathematical option over `int`.
    pub open spec fn sel(&self) -> Option<int> {
        match self.state.selected {
            Some(i) => Some(i as int),
            None => None,
        }
    }

    /// An empty, unselected list.
    pub fn new() -> (l: StatefulList<T>)
        ensures
            l.items@ == Seq::<T>::empty(),
            l.sel() is None,
            l.state.offset == 0,
            l.wf(),
    {
        StatefulList { state: ListState { selected: None, offset: 0 }, items: Vec::new() }
    }

    /// Append an item; the selection is unchanged.
    pub fn push(&mut self, item: T)
        ensures
            final(self).items@ == old(self).items@.push(item),
            final(self).state == old(self).state,
            old(self).wf() ==> final(self).wf(),
    {
        self.items.push(item);
    }

    /// Append a batch of items in order, draining the given vector; the
    /// selection is unchanged.
    pub fn append(&mut self, other: &mut Vec<T>)
        ensures
            final(self).items@ == old(self).items@ + old(other)@,
            final(other)@ == Seq::<T>::empty(),
            final(self).state == old(self).state,
            old(self).wf() ==> final(self).wf(),
    {
        self.items.append(other);
    }

    /// Empty the list and clear the selection.
    pub fn clear(&mut self)
        ensures
            final(self).items@ == Seq::<T>::empty(),
            final(self).sel() is None,
            final(self).state.offset == 0,
            final(self).wf(),
    {
        self.items.clear();
        self.state.selected = None;
        self.state.offset = 0;
    }

    /// Clear the selection; the items are untouched.
    pub fn unselect(&mut self)
        ensures
            final(self).items == old(self).items,
            final(self).sel() is None,
            final(self).state.offset == old(self).state.offset,
            final(self).wf(),
    {
        self.state.selected = None;
    }

    /// Move the selection to the next item, wrapping around; select index 0
    /// when nothing was selected; do nothing on an empty list.
    pub fn next(&mut self)
        requires
            old(self).wf(),
        ensures
            final(self).items == old(self).items,
            final(self).sel() == spec_next(old(self).sel(), old(self).items@.len() as int),
            final(self).state.offset == old(self).state.offset,
            final(self).wf(),
    {
        if self.items.len() == 0 {
            return ;
        }
        let i: usize = match self.state.selected {
            None => 0,
            Some(i) => {
                proof {
                    let len = self.items@.len() as int;
                    if i + 1 == len {
                        lemma_mod_self_0(len);
                    } else {
                        lemma_small_mod((i + 1) as nat, len as nat);
                    }
                }
                if i + 1 >= self.items.len() {
                    0
                } else {
                    i + 1
                }
            },
        };
        self.state.selected = Some(i);
    }

    /// Move the selection to the previous item, wrapping around; select index
    /// 0 when nothing was selected; do nothing on an empty list.
    pub fn previous(&mut self)
        requires
            old(self).wf(),
        ensures
            final(self).items == old(self).items,
            final(self).sel() == spec_previous(old(self).sel(), old(self).items@.len() as int),
            final(self).state.offset == old(self).state.offset,
            final(self).wf(),
    {
        if self.items.len() == 0 {
            return ;
        }
        let i: usize = match self.state.selected {
            None => 0,
            Some(i) => {
                proof {
                    let len = self.items@.len() as int;
                    if i == 0 {
                        lemma_small_mod((len - 1) as nat, len as nat);
                    } else {
                        lemma_add_mod_noop(i - 1, len, len);
                        lemma_mod_self_0(len);
                        lemma_small_mod((i - 1) as nat, len as nat);
                    }
                }
                if i == 0 {
                    self.items.len() - 1
                } else {
                    i - 1
                }
            },
        };
        self.state.selected = Some(i);
    }

    /// Remove the item at `index`, shifting later items down by one. A
    /// selected removed index clears the selection; any other selection is
    /// kept exactly when it still indexes an item, and cleared otherwise, so
    /// the selection never dangles.
    pub fn remove(&mut self, index: usize)
        requires
            index < old(self).items.len(),
        ensures
            final(self).items@ == old(self).items@.remove(index as int),
            final(self).sel() == spec_remove_sel(
                old(self).sel(),
                index as int,
                old(self).items@.len() as int,
            ),
            final(self).state.offset == old(self).state.offset,
            final(self).wf(),
    {
        self.items.remove(index);
        self.state.selected = match self.state.selected {
            None => None,
            Some(j) => {
                if j == index {
                    None
                } else if j < self.items.len() {
                    Some(j)
                } else {
                    None
                }
            },
        };
    }
}

} // verus!
