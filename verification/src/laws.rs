use vstd::prelude::*;

verus! {

/// The bytes a destination holds after `n` whole, serialized writes of the
/// payload `p` into an initially empty destination: `n` copies of `p`, one
/// after another.
pub open spec fn repeated(p: Seq<u8>, n: nat) -> Seq<u8>
    decreases n,
{
    if n == 0 {
        Seq::empty()
    } else {
        repeated(p, (n - 1) as nat) + p
    }
}

/// The `i`-th aligned window of length `l` in `s`: the slice where the
/// `i`-th of a run of whole `l`-byte writes would have landed.
pub open spec fn window(s: Seq<u8>, i: nat, l: nat) -> Seq<u8> {
    s.subrange((i * l) as int, (i * l + l) as int)
}

/// `n` copies of `p` have length `n * p.len()`, and the `i`-th aligned
/// window of length `p.len()` is exactly `p`: no copy is cut or interleaved.
pub proof fn lemma_repeated_shape(p: Seq<u8>, n: nat)
    ensures
        repeated(p, n).len() == n * p.len(),
        forall|i: nat| i < n ==> window(repeated(p, n), i, p.len()) == p,
    decreases n,
{
    if n == 0 {
        assert(n * p.len() == 0) by (nonlinear_arith)
            requires
                n == 0,
        ;
    } else {
        let prev = repeated(p, (n - 1) as nat);
        lemma_repeated_shape(p, (n - 1) as nat);
        assert((n - 1) as nat * p.len() + p.len() == n * p.len()) by (nonlinear_arith)
            requires
                n >= 1,
        ;
        assert forall|i: nat| i < n implies window(repeated(p, n), i, p.len()) == p by {
            let a = (i * p.len()) as int;
            let b = (i * p.len() + p.len()) as int;
            if i < n - 1 {
                assert(i * p.len() + p.len() <= (n - 1) as nat * p.len()) by (nonlinear_arith)
                    requires
                        i + 1 <= n - 1,
                ;
                assert(window(prev, i, p.len()) == p);
                assert(repeated(p, n).subrange(a, b) =~= prev.subrange(a, b));
            } else {
                assert(a == prev.len());
                assert(repeated(p, n).subrange(a, b) =~= p);
            }
        }
    }
}

/// Law of mutual exclusion, at the level of the destination's contents.
///
/// `states[k]` is the sequence of bytes the shared destination has accepted
/// after the first `k` writes have completed. The premise is what the cell's
/// lock together with the destination's contract provides for writers that
/// each issue one whole write of the same payload `p`: the destination starts
/// empty, and each write appends its entire payload in one critical section,
/// with nothing interleaved inside it. The conclusion: the final contents are
/// exactly the `states.len() - 1` copies of `p` laid end to end — complete,
/// with every aligned window equal to `p`, in whatever order the lock served
/// the writers.
pub proof fn lemma_mutual_exclusion(states: Seq<Seq<u8>>, p: Seq<u8>)
    requires
        states.len() >= 1,
        states[0] == Seq::<u8>::empty(),
        forall|k: int| #![trigger states[k]] 0 <= k < states.len() - 1 ==> states[k + 1] == states[k] + p,
    ensures
        states.last() == repeated(p, (states.len() - 1) as nat),
        states.last().len() == (states.len() - 1) * p.len(),
        forall|i: nat|
            i < states.len() - 1 ==> window(states.last(), i, p.len()) == p,
    decreases states.len(),
{
    if states.len() > 1 {
        let shorter = states.drop_last();
        assert(forall|k: int| #![trigger shorter[k]]
            0 <= k < shorter.len() - 1 ==> shorter[k + 1] == shorter[k] + p);
        lemma_mutual_exclusion(shorter, p);
        assert(states.last() == states[states.len() - 2] + p);
        assert(states[states.len() - 2] == shorter.last());
    }
    lemma_repeated_shape(p, (states.len() - 1) as nat);
}

/// Law of no resurrection, at the level of the optional slot's presence.
///
/// `present[k]` records whether the slot holds a destination when the `k`-th
/// adapter call finds it; the premise is what `slot_write` and `slot_flush`
/// ensure: no adapter call changes the slot's presence. Once the slot has
/// been observed empty, every later call observes it empty too — only an
/// external owner could repopulate the cell, and the design offers no way to.
pub proof fn lemma_no_resurrection(present: Seq<bool>, i: int, j: int)
    requires
        0 <= i <= j < present.len(),
        forall|k: int| #![trigger present[k]] 0 <= k < present.len() - 1 ==> present[k + 1] == present[k],
        !present[i],
    ensures
        !present[j],
    decreases j - i,
{
    if i < j {
        lemma_no_resurrection(present, i, j - 1);
        assert(present[(j - 1) + 1] == present[j - 1]);
    }
}

} // verus!
