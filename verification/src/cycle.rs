//! A counter that steps forward through `0 .. n` and wraps around.
//!
//! Both the menu selection (moving down over the entries) and the
//! breathing marker offset of a selectable text step this way, and both
//! share the law proved here: `n` steps bring the counter back to where it
//! started.

use vstd::prelude::*;

verus! {

/// One forward step modulo `n`: the step after the last value is `0`.
pub open spec fn cyclic_next(i: nat, n: nat) -> nat
    recommends
        n >= 1,
        i < n,
{
    if i + 1 == n {
        0
    } else {
        i + 1
    }
}

/// The value reached from `i` after `k` forward steps modulo `n`.
pub open spec fn cyclic_iter(i: nat, n: nat, k: nat) -> nat
    decreases k,
{
    if k == 0 {
        i
    } else {
        cyclic_next(cyclic_iter(i, n, (k - 1) as nat), n)
    }
}

/// Stepping forward is addition modulo `n`.
proof fn lemma_cyclic_iter_mod(i: nat, n: nat, k: nat)
    requires
        n >= 1,
        i < n,
    ensures
        cyclic_iter(i, n, k) == ((i + k) as int) % (n as int),
    decreases k,
{
    let m = n as int;
    if k == 0 {
        vstd::arithmetic::div_mod::lemma_small_mod(i, n);
    } else {
        lemma_cyclic_iter_mod(i, n, (k - 1) as nat);
        let prev = cyclic_iter(i, n, (k - 1) as nat);
        assert(prev == (i + k - 1) % m);
        assert(0 <= prev < m) by {
            vstd::arithmetic::div_mod::lemma_mod_bound(i + k - 1, m);
        }
        assert(((i + k) as int) % m == ((prev + 1) as int) % m) by {
            vstd::arithmetic::div_mod::lemma_add_mod_noop(i + k - 1, 1, m);
            vstd::arithmetic::div_mod::lemma_small_mod(prev as nat, n);
            vstd::arithmetic::div_mod::lemma_add_mod_noop(prev as int, 1, m);
        }
        if prev + 1 == m {
            assert(m % m == 0) by {
                vstd::arithmetic::div_mod::lemma_mod_self_0(m);
            }
        } else {
            vstd::arithmetic::div_mod::lemma_small_mod((prev + 1) as nat, n);
        }
    }
}

/// A full cycle returns to the start: from any value of a counter modulo
/// `n`, `n` forward steps lead back to that value.  For the menu this is
/// the selection wraparound (moving down once per entry restores the
/// selection); for the breathing marker it is the period of the sawtooth
/// (one update per offset value restores the offset).
pub proof fn lemma_cyclic_full_cycle(i: nat, n: nat)
    requires
        n >= 1,
        i < n,
    ensures
        cyclic_iter(i, n, n) == i,
{
    lemma_cyclic_iter_mod(i, n, n);
    vstd::arithmetic::div_mod::lemma_mod_add_multiples_vanish(i as int, n as int);
    vstd::arithmetic::div_mod::lemma_small_mod(i, n);
}

} // verus!
