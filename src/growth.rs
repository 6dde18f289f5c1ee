//! The growth policy: which capacities occur, and how one follows another.
use vstd::prelude::*;

verus! {

/// The capacity that a full buffer of capacity `c` grows to: four slots for
/// the first allocation, then twice the current number.
pub open spec fn grown_capacity(c: nat) -> nat {
    if c == 0 {
        4
    } else {
        2 * c
    }
}

/// `c` is four times a power of two: 4, 8, 16, 32, ...
pub open spec fn is_growth_step(c: nat) -> bool
    decreases c,
{
    if c <= 4 {
        c == 4
    } else {
        c % 2 == 0 && is_growth_step(c / 2)
    }
}

/// The capacity that goes with `len` stored elements: none while nothing is
/// stored, otherwise a growth step that holds them and whose half does not.
pub open spec fn is_tight_capacity(len: nat, cap: nat) -> bool {
    if len == 0 {
        cap == 0
    } else {
        &&& is_growth_step(cap)
        &&& len <= cap
        &&& (cap == 4 || cap / 2 < len)
    }
}

/// Every growth step is at least four.
pub proof fn lemma_growth_step_at_least_four(c: nat)
    requires
        is_growth_step(c),
    ensures
        c >= 4,
    decreases c,
{
    if c > 4 {
        lemma_growth_step_at_least_four(c / 2);
    }
}

/// Of two distinct growth steps, the smaller is at most half the larger.
pub proof fn lemma_growth_steps_apart(a: nat, b: nat)
    requires
        is_growth_step(a),
        is_growth_step(b),
        b < a,
    ensures
        b <= a / 2,
    decreases a,
{
    lemma_growth_step_at_least_four(b);
    if a > 4 {
        lemma_growth_step_at_least_four(a / 2);
        if b > 4 {
            lemma_growth_steps_apart(a / 2, b / 2);
        }
    }
}

/// Growing a tight capacity after an append to a full buffer gives the
/// tight capacity for one more element; appending to a buffer with a free
/// slot keeps it tight.
pub proof fn lemma_append_keeps_tight(len: nat, cap: nat)
    requires
        is_tight_capacity(len, cap),
    ensures
        len < cap ==> is_tight_capacity(len + 1, cap),
        len == cap ==> is_tight_capacity(len + 1, grown_capacity(cap)),
{
    if len == cap && cap > 0 {
        lemma_growth_step_at_least_four(cap);
        assert(grown_capacity(cap) / 2 == cap);
        assert(is_growth_step(grown_capacity(cap)));
    }
}

/// The capacity that goes with a length is the least growth step that
/// holds that many elements, and no capacity is held while nothing is
/// stored.
pub proof fn lemma_tight_capacity_is_least(len: nat, cap: nat)
    requires
        is_tight_capacity(len, cap),
    ensures
        cap == 0 <==> len == 0,
        len > 0 ==> is_growth_step(cap) && len <= cap,
        forall|c: nat| len > 0 && is_growth_step(c) && len <= c ==> cap <= c,
{
    if len > 0 {
        lemma_growth_step_at_least_four(cap);
        assert forall|c: nat| is_growth_step(c) && len <= c implies cap <= c by {
            lemma_growth_step_at_least_four(c);
            if c < cap {
                lemma_growth_steps_apart(cap, c);
            }
        }
    }
}

} // verus!
