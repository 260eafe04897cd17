//! The mathematical model of the selection cursor.
//!
//! A cursor over a list of `n` items is an optional index: `None` when
//! nothing is selected, `Some(i)` with `0 <= i < n` otherwise. The three
//! operations of [`crate::list::StatefulList`] are modelled by the step
//! functions below, and the laws of the cursor are proved about them.

use vstd::arithmetic::div_mod::{
    lemma_fundamental_div_mod, lemma_fundamental_div_mod_converse,
    lemma_mod_division_less_than_divisor, lemma_small_mod,
};
use vstd::prelude::*;

verus! {

/// Where the cursor stands after one forward step on a list of `n` items:
/// an empty list is left unselected; an unselected cursor moves to the first
/// item; otherwise the cursor advances by one, wrapping from the last item
/// to the first.
pub open spec fn next_selection(sel: Option<int>, n: int) -> Option<int> {
    if n <= 0 {
        None
    } else {
        match sel {
            None => Some(0int),
            Some(i) => if i >= n - 1 {
                Some(0int)
            } else {
                Some(i + 1)
            },
        }
    }
}

/// Where the cursor stands after one backward step on a list of `n` items:
/// an empty list is left unselected; an unselected cursor moves to the
/// first item (not the last; deliberate, if asymmetric); otherwise the
/// cursor moves back by one, wrapping from the first item to the last.
pub open spec fn previous_selection(sel: Option<int>, n: int) -> Option<int> {
    if n <= 0 {
        None
    } else {
        match sel {
            None => Some(0int),
            Some(i) => if i == 0 {
                Some(n - 1)
            } else {
                Some(i - 1)
            },
        }
    }
}

/// Where the cursor stands after deselection: nowhere, unconditionally.
pub open spec fn cleared_selection(sel: Option<int>) -> Option<int> {
    None
}

/// A cursor is valid for a list of `n` items when it is absent or indexes
/// into the list.
pub open spec fn valid_selection(sel: Option<int>, n: int) -> bool {
    sel matches Some(i) ==> 0 <= i < n
}

/// One operation of the cursor.
pub enum Op {
    Next,
    Previous,
    Unselect,
}

/// The cursor after one operation on a list of `n` items.
pub open spec fn step(op: Op, sel: Option<int>, n: int) -> Option<int> {
    match op {
        Op::Next => next_selection(sel, n),
        Op::Previous => previous_selection(sel, n),
        Op::Unselect => cleared_selection(sel),
    }
}

/// The cursor after a whole sequence of operations, applied left to right.
pub open spec fn run(ops: Seq<Op>, sel: Option<int>, n: int) -> Option<int>
    decreases ops.len(),
{
    if ops.len() == 0 {
        sel
    } else {
        run(ops.drop_first(), step(ops[0], sel, n), n)
    }
}

/// The cursor after `k` forward steps from the unselected state on a list of
/// `n` items.
pub open spec fn next_repeated(k: nat, n: int) -> Option<int>
    decreases k,
{
    if k == 0 {
        None
    } else {
        next_selection(next_repeated((k - 1) as nat, n), n)
    }
}

/// Law: on a non-empty list of `n` items, starting unselected, the `k`-th
/// forward step leaves the cursor on index `(k - 1) % n`; before any step
/// the cursor is unselected.
pub proof fn lemma_next_repeated_wraps(k: nat, n: int)
    requires
        n >= 1,
    ensures
        k == 0 ==> next_repeated(k, n) is None,
        k >= 1 ==> next_repeated(k, n) == Some((k - 1) as int % n),
    decreases k,
{
    if k == 1 {
        lemma_small_mod(0, n as nat);
    } else if k >= 2 {
        lemma_next_repeated_wraps((k - 1) as nat, n);
        let a = (k - 2) as int;
        let j = a % n;
        let q = a / n;
        lemma_mod_division_less_than_divisor(a, n);
        lemma_fundamental_div_mod(a, n);
        assert(a == n * q + j);
        if j == n - 1 {
            assert(a + 1 == (q + 1) * n + 0) by (nonlinear_arith)
                requires
                    a == n * q + j,
                    j == n - 1,
            ;
            lemma_fundamental_div_mod_converse(a + 1, n, q + 1, 0);
        } else {
            assert(a + 1 == q * n + (j + 1)) by (nonlinear_arith)
                requires
                    a == n * q + j,
            ;
            lemma_fundamental_div_mod_converse(a + 1, n, q, j + 1);
        }
    }
}

/// Law: on a non-empty list of `n` items, starting unselected, one backward
/// step selects the first item, and a second backward step wraps to the
/// last.
pub proof fn lemma_previous_selects_then_wraps(n: int)
    requires
        n >= 1,
    ensures
        previous_selection(None, n) == Some(0int),
        previous_selection(previous_selection(None, n), n) == Some(n - 1),
{
}

/// Law: a forward step followed by deselection always leaves the cursor
/// unselected, whatever the prior selection and the list length.
pub proof fn lemma_unselect_after_next(sel: Option<int>, n: int)
    ensures
        cleared_selection(next_selection(sel, n)) is None,
{
}

/// Law: on an empty list, any sequence of operations, in any order and of
/// any length, leaves the cursor unselected.
pub proof fn lemma_empty_list_stays_unselected(ops: Seq<Op>, sel: Option<int>)
    requires
        sel is None,
    ensures
        run(ops, sel, 0) is None,
    decreases ops.len(),
{
    if ops.len() > 0 {
        lemma_empty_list_stays_unselected(ops.drop_first(), step(ops[0], sel, 0));
    }
}

/// Law: deselecting twice in a row is the same as deselecting once.
pub proof fn lemma_unselect_idempotent(sel: Option<int>)
    ensures
        cleared_selection(cleared_selection(sel)) == cleared_selection(sel),
{
}

} // verus!
