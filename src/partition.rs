//! How a bulk copy of `length` bytes is split between `workers` participants.
//!
//! Every participant but the last copies `base = length / workers` bytes,
//! participant `i` starting at `i * base`. The last participant starts at
//! `(workers - 1) * base` and copies `base + length % base` bytes: the remainder
//! is taken with respect to `base`, not to `workers`. When `base` is zero the
//! last participant copies the whole region.
use vstd::prelude::*;
use vstd::arithmetic::div_mod::{
    lemma_fundamental_div_mod, lemma_mod_bound, lemma_mod_multiples_vanish, lemma_small_mod,
};
use vstd::arithmetic::mul::{lemma_mul_inequality, lemma_mul_is_distributive_add_other_way};

verus! {

/// The share of every participant but the last.
pub open spec fn segment_base(length: nat, workers: nat) -> nat {
    length / workers
}

/// First byte copied by participant `i`.
pub open spec fn segment_start(length: nat, i: nat, workers: nat) -> nat {
    i * segment_base(length, workers)
}

/// Number of bytes copied by participant `i`.
pub open spec fn segment_len(length: nat, i: nat, workers: nat) -> nat {
    let base = segment_base(length, workers);
    if i + 1 == workers {
        if base == 0 {
            length
        } else {
            base + length % base
        }
    } else {
        base
    }
}

/// One past the last byte copied by participant `i`.
pub open spec fn segment_end(length: nat, i: nat, workers: nat) -> nat {
    segment_start(length, i, workers) + segment_len(length, i, workers)
}

/// Whether participant `i` copies byte `k`.
pub open spec fn in_segment(length: nat, i: nat, workers: nat, k: int) -> bool {
    segment_start(length, i, workers) <= k < segment_end(length, i, workers)
}

/// Whether byte `k` is copied by some participant.
pub open spec fn covered(length: nat, workers: nat, k: int) -> bool {
    exists|i: nat| i < workers && #[trigger] in_segment(length, i, workers, k)
}

/// The inputs on which the segments tile the whole region: either every
/// participant but the last gets nothing, or the remainder of `length / workers`
/// is smaller than the base, so that taking it modulo the base leaves it whole.
pub open spec fn tiles_region(length: nat, workers: nat) -> bool {
    length < workers || length % workers < length / workers
}

/// The participant whose segment holds byte `k`, when the segments tile the region.
pub open spec fn segment_owner(length: nat, workers: nat, k: nat) -> nat {
    let base = segment_base(length, workers);
    if base == 0 {
        (workers - 1) as nat
    } else if k / base + 1 < workers {
        k / base
    } else {
        (workers - 1) as nat
    }
}

/// Every segment lies inside the region, and every segment but the last ends
/// where the next one starts.
pub proof fn lemma_segment_bounds(length: nat, i: nat, workers: nat)
    requires
        i < workers,
    ensures
        segment_end(length, i, workers) <= length,
        i + 1 < workers ==> segment_end(length, i, workers) == segment_start(length, i + 1, workers),
        i + 1 == workers ==> segment_start(length, i, workers) == (workers - 1) * segment_base(length, workers),
{
    let base = segment_base(length, workers);
    let r = length % workers;
    lemma_fundamental_div_mod(length as int, workers as int);
    lemma_mod_bound(length as int, workers as int);
    assert(length == workers * base + r);
    lemma_mul_is_distributive_add_other_way(base as int, i as int, 1);
    if i + 1 < workers {
        lemma_mul_inequality((i + 1) as int, workers as int, base as int);
        assert((i + 1) * base <= workers * base);
    } else if base > 0 {
        lemma_mod_multiples_vanish(workers as int, r as int, base as int);
        assert(length % base == r % base) by {
            assert(base * workers + r == length) by (nonlinear_arith)
                requires length == workers * base + r;
        }
        if r < base {
            lemma_small_mod(r, base);
        } else {
            lemma_mod_bound(r as int, base as int);
        }
        assert(i * base + base == workers * base) by (nonlinear_arith)
            requires i + 1 == workers;
    }
}

/// Segments never overlap: no byte is written by two participants. This holds
/// for every region length and every number of participants.
pub proof fn lemma_segments_disjoint(length: nat, workers: nat, i: nat, j: nat, k: int)
    requires
        i < workers,
        j < workers,
        in_segment(length, i, workers, k),
        in_segment(length, j, workers, k),
    ensures
        i == j,
{
    if i < j {
        lemma_segment_order(length, workers, i, j);
    } else if j < i {
        lemma_segment_order(length, workers, j, i);
    }
}

/// An earlier segment ends no later than a later one starts.
pub proof fn lemma_segment_order(length: nat, workers: nat, i: nat, j: nat)
    requires
        i < j < workers,
    ensures
        segment_end(length, i, workers) <= segment_start(length, j, workers),
{
    let base = segment_base(length, workers);
    lemma_segment_bounds(length, i, workers);
    lemma_mul_inequality((i + 1) as int, j as int, base as int);
}

/// The last segment ends at the end of the region exactly on the inputs of
/// `tiles_region`.
pub proof fn lemma_last_segment_end(length: nat, workers: nat)
    requires
        workers > 0,
    ensures
        segment_end(length, (workers - 1) as nat, workers) == length <==> tiles_region(length, workers),
{
    let base = segment_base(length, workers);
    let r = length % workers;
    let last = (workers - 1) as nat;
    lemma_fundamental_div_mod(length as int, workers as int);
    lemma_mod_bound(length as int, workers as int);
    lemma_segment_bounds(length, last, workers);
    if base == 0 {
        assert(length < workers) by (nonlinear_arith)
            requires length == workers * base + r, base == 0, r < workers;
        assert(segment_start(length, last, workers) == 0) by (nonlinear_arith)
            requires segment_start(length, last, workers) == last * base, base == 0;
    } else {
        assert(length >= workers) by (nonlinear_arith)
            requires length == workers * base + r, base > 0, workers > 0;
        lemma_mod_multiples_vanish(workers as int, r as int, base as int);
        assert(length % base == r % base) by {
            assert(base * workers + r == length) by (nonlinear_arith)
                requires length == workers * base + r;
        }
        assert(last * base + base == workers * base) by (nonlinear_arith)
            requires last + 1 == workers;
        if r < base {
            lemma_small_mod(r, base);
        } else {
            lemma_mod_bound(r as int, base as int);
        }
    }
}

/// Every byte of the region is copied by exactly one participant, on the inputs
/// where the segments tile the region.
pub proof fn lemma_segments_cover(length: nat, workers: nat)
    requires
        workers > 0,
        tiles_region(length, workers),
    ensures
        forall|k: nat| k < length ==> #[trigger] covered(length, workers, k as int),
        forall|i: nat, j: nat, k: int|
            i < workers && j < workers && #[trigger] in_segment(length, i, workers, k)
                && #[trigger] in_segment(length, j, workers, k) ==> i == j,
        forall|k: int| #[trigger] covered(length, workers, k) ==> 0 <= k < length,
{
    let base = segment_base(length, workers);
    let last = (workers - 1) as nat;
    lemma_last_segment_end(length, workers);
    lemma_segment_bounds(length, last, workers);
    assert forall|k: nat| k < length implies #[trigger] covered(length, workers, k as int) by {
        lemma_owner(length, workers, k);
        let i = segment_owner(length, workers, k);
        assert(in_segment(length, i, workers, k as int));
    }
    assert forall|i: nat, j: nat, k: int|
        i < workers && j < workers && #[trigger] in_segment(length, i, workers, k)
            && #[trigger] in_segment(length, j, workers, k) implies i == j by {
        lemma_segments_disjoint(length, workers, i, j, k);
    }
    assert forall|k: int| #[trigger] covered(length, workers, k) implies 0 <= k < length by {
        let i = choose|i: nat| i < workers && #[trigger] in_segment(length, i, workers, k);
        lemma_segment_bounds(length, i, workers);
    }
}

/// The owner of byte `k` holds it in its segment.
proof fn lemma_owner(length: nat, workers: nat, k: nat)
    requires
        workers > 0,
        tiles_region(length, workers),
        k < length,
    ensures
        segment_owner(length, workers, k) < workers,
        in_segment(length, segment_owner(length, workers, k), workers, k as int),
{
    let base = segment_base(length, workers);
    let last = (workers - 1) as nat;
    let i = segment_owner(length, workers, k);
    lemma_last_segment_end(length, workers);
    lemma_segment_bounds(length, last, workers);
    if base == 0 {
        assert(segment_start(length, last, workers) == 0) by (nonlinear_arith)
            requires segment_start(length, last, workers) == last * base, base == 0;
    } else {
        lemma_fundamental_div_mod(k as int, base as int);
        lemma_mod_bound(k as int, base as int);
        let q = k / base;
        assert(k == base * q + k % base);
        if q + 1 < workers {
            assert(q * base <= k < q * base + base) by (nonlinear_arith)
                requires k == base * q + k % base, 0 <= k % base < base;
            lemma_segment_bounds(length, q, workers);
        } else {
            lemma_mul_inequality(last as int, q as int, base as int);
            assert(last * base <= k) by (nonlinear_arith)
                requires last * base <= q * base, k == base * q + k % base, k % base >= 0;
        }
    }
}

/// Start and length of the segment of participant `thread_num`.
pub fn segment(length: usize, thread_num: usize, num_threads: usize) -> (r: (usize, usize))
    requires
        thread_num < num_threads,
    ensures
        r.0 == segment_start(length as nat, thread_num as nat, num_threads as nat),
        r.1 == segment_len(length as nat, thread_num as nat, num_threads as nat),
        r.0 + r.1 <= length,
{
    proof {
        lemma_segment_bounds(length as nat, thread_num as nat, num_threads as nat);
        lemma_mul_inequality(thread_num as int, num_threads as int, (length / num_threads) as int);
        lemma_fundamental_div_mod(length as int, num_threads as int);
        lemma_mod_bound(length as int, num_threads as int);
        assert(thread_num * (length / num_threads) <= length) by (nonlinear_arith)
            requires
                thread_num * (length / num_threads) <= num_threads * (length / num_threads),
                length == num_threads * (length / num_threads) + length % num_threads,
                length % num_threads >= 0;
    }
    let base = length / num_threads;
    let start = thread_num * base;
    let len = if thread_num == num_threads - 1 {
        if base == 0 {
            length
        } else {
            base + length % base
        }
    } else {
        base
    };
    (start, len)
}

} // verus!
