//! A selection cursor over a fixed, ordered collection: an optional selected
//! index that moves forward or backward with wraparound. On an empty
//! collection both moves are no-ops and nothing is ever selected.

use vstd::prelude::*;
use vstd::arithmetic::div_mod::{
    lemma_add_mod_noop, lemma_mod_add_multiples_vanish, lemma_mod_bound, lemma_mod_self_0,
    lemma_small_mod,
};

verus! {

/// What `next` does to the selected index, over a collection of `len` items:
/// from nothing select the first item, otherwise step forward with wraparound.
/// An empty collection is left untouched.
pub open spec fn advance_spec(sel: Option<int>, len: int) -> Option<int> {
    if len <= 0 {
        sel
    } else {
        match sel {
            None => Some(0int),
            Some(i) => Some((i + 1) % len),
        }
    }
}

/// What `previous` does to the selected index: from nothing select the first
/// item, otherwise step backward with wraparound. An empty collection is left
/// untouched.
pub open spec fn retreat_spec(sel: Option<int>, len: int) -> Option<int> {
    if len <= 0 {
        sel
    } else {
        match sel {
            None => Some(0int),
            Some(i) => if i == 0 { Some(len - 1) } else { Some(i - 1) },
        }
    }
}

/// `advance_spec` applied `n` times.
pub open spec fn advance_n(sel: Option<int>, len: int, n: nat) -> Option<int>
    decreases n,
{
    if n == 0 {
        sel
    } else {
        advance_spec(advance_n(sel, len, (n - 1) as nat), len)
    }
}

/// A stateful wrapper over a fixed ordered collection, tracking which single
/// element (if any) is currently selected.
pub struct StatefulList<T> {
    pub items: Vec<T>,
    pub selected: Option<usize>,
}

impl<T> StatefulList<T> {
    /// The selected index as a mathematical value.
    pub open spec fn sel_spec(&self) -> Option<int> {
        match self.selected {
            None => None,
            Some(i) => Some(i as int),
        }
    }

    /// Invariant: a selected index is in range, so an empty list has none.
    pub open spec fn wf(&self) -> bool {
        match self.selected {
            None => true,
            Some(i) => i < self.items@.len(),
        }
    }

    /// A fresh cursor over `items` with nothing selected.
    pub fn with_items(items: Vec<T>) -> (l: StatefulList<T>)
        ensures
            l.wf(),
            l.items@ == items@,
            l.selected is None,
    {
        StatefulList { items, selected: None }
    }

    /// Move the selection forward by one, wrapping past the last item;
    /// select the first item when nothing is selected; do nothing when the
    /// collection is empty.
    pub fn next(&mut self)
        requires
            old(self).wf(),
        ensures
            final(self).wf(),
            final(self).items@ == old(self).items@,
            final(self).sel_spec() == advance_spec(
                old(self).sel_spec(),
                old(self).items@.len() as int,
            ),
    {
        let len = self.items.len();
        if len == 0 {
            return;
        }
        let i: usize = match self.selected {
            Some(i) => {
                if i >= len - 1 {
                    proof {
                        lemma_mod_self_0(len as int);
                    }
                    0
                } else {
                    proof {
                        lemma_small_mod((i + 1) as nat, len as nat);
                    }
                    i + 1
                }
            },
            None => 0,
        };
        self.selected = Some(i);
    }

    /// Move the selection backward by one, wrapping before the first item;
    /// select the first item when nothing is selected; do nothing when the
    /// collection is empty.
    pub fn previous(&mut self)
        requires
            old(self).wf(),
        ensures
            final(self).wf(),
            final(self).items@ == old(self).items@,
            final(self).sel_spec() == retreat_spec(
                old(self).sel_spec(),
                old(self).items@.len() as int,
            ),
    {
        let len = self.items.len();
        if len == 0 {
            return;
        }
        let i: usize = match self.selected {
            Some(i) => {
                if i == 0 {
                    len - 1
                } else {
                    i - 1
                }
            },
            None => 0,
        };
        self.selected = Some(i);
    }
}

/// Stepping forward `n` times from index `i` lands on `(i + n) mod len`.
proof fn lemma_advance_n_adds(i: int, len: int, n: nat)
    requires
        0 <= i < len,
    ensures
        advance_n(Some(i), len, n) == Some((i + n) % len),
    decreases n,
{
    if n == 0 {
        lemma_small_mod(i as nat, len as nat);
    } else {
        lemma_advance_n_adds(i, len, (n - 1) as nat);
        let j = (i + n - 1) % len;
        lemma_mod_bound(i + n - 1, len);
        if len == 1 {
            lemma_mod_bound(i + n, len);
            lemma_mod_self_0(1);
        } else if j + 1 == len {
            lemma_add_mod_noop(i + n - 1, 1, len);
            lemma_small_mod(1nat, len as nat);
            lemma_mod_self_0(len);
        } else {
            lemma_add_mod_noop(i + n - 1, 1, len);
            lemma_small_mod(1nat, len as nat);
            lemma_small_mod((j + 1) as nat, len as nat);
        }
    }
}

/// Law: on a non-empty collection, advancing is injective modulo wraparound;
/// advancing `len` times from any selected index returns the selection to
/// where it started.
pub proof fn lemma_advance_cycle(i: int, len: int)
    requires
        0 <= i < len,
    ensures
        advance_n(Some(i), len, len as nat) == Some(i),
{
    lemma_advance_n_adds(i, len, len as nat);
    lemma_mod_add_multiples_vanish(i, len);
    lemma_small_mod(i as nat, len as nat);
}

/// Law: on a non-empty collection with an index selected, retreating exactly
/// undoes advancing, and advancing exactly undoes retreating. (From an empty
/// selection neither pair restores it: both moves select the first item.)
pub proof fn lemma_retreat_inverts_advance(i: int, len: int)
    requires
        0 <= i < len,
    ensures
        retreat_spec(advance_spec(Some(i), len), len) == Some(i),
        advance_spec(retreat_spec(Some(i), len), len) == Some(i),
{
    if i + 1 == len {
        lemma_mod_self_0(len);
    } else {
        lemma_small_mod((i + 1) as nat, len as nat);
    }
    if i == 0 {
        lemma_mod_self_0(len);
    } else {
        lemma_small_mod(i as nat, len as nat);
    }
}

} // verus!
