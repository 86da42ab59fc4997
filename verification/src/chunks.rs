use vstd::prelude::*;
use vstd::arithmetic::div_mod::lemma_mod_self_0;
use vstd::arithmetic::div_mod::lemma_mod_sub_multiples_vanish;
use vstd::arithmetic::div_mod::lemma_small_mod;

verus! {

/// The ordered blocks a full-stream reader cuts `s` into with block size `b`:
/// every block holds exactly `b` bytes except possibly the last, which holds
/// whatever remains when `b` does not divide the length evenly.
pub open spec fn chunks_of(s: Seq<u8>, b: nat) -> Seq<Seq<u8>>
    decreases s.len(),
{
    if b == 0 || s.len() == 0 {
        Seq::empty()
    } else if s.len() <= b {
        seq![s]
    } else {
        seq![s.take(b as int)] + chunks_of(s.skip(b as int), b)
    }
}

pub open spec fn zeros(n: nat) -> Seq<u8> {
    Seq::new(n, |i: int| 0u8)
}

/// The blocks a bounded reader broadcasts when asked for `k` reads of `b`
/// bytes from `s`: every block is exactly `b` long, a short read fills only
/// the front of its block and leaves the tail zeroed, and reads past the end
/// of the input produce all-zero blocks.
pub open spec fn padded_chunks(s: Seq<u8>, b: nat, k: nat) -> Seq<Seq<u8>>
    decreases k,
{
    if k == 0 || b == 0 {
        Seq::empty()
    } else {
        let n: nat = if s.len() < b {
            s.len()
        } else {
            b
        };
        seq![s.take(n as int) + zeros((b - n) as nat)] + padded_chunks(
            s.skip(n as int),
            b,
            (k - 1) as nat,
        )
    }
}

/// A bounded reader always broadcasts exactly as many blocks as it was asked
/// for, and every one of them is exactly block-sized, however much input was
/// actually available.
pub proof fn lemma_padded_chunks_sizes(s: Seq<u8>, b: nat, k: nat)
    requires
        b >= 1,
    ensures
        padded_chunks(s, b, k).len() == k,
        forall|i: int|
            0 <= i < k ==> #[trigger] padded_chunks(s, b, k)[i].len() == b,
    decreases k,
{
    if k == 0 {
    } else {
        let n: nat = if s.len() < b {
            s.len()
        } else {
            b
        };
        lemma_padded_chunks_sizes(s.skip(n as int), b, (k - 1) as nat);
        assert forall|i: int| 0 <= i < k implies #[trigger] padded_chunks(s, b, k)[i].len()
            == b by {
            if i > 0 {
                assert(padded_chunks(s, b, k)[i] == padded_chunks(
                    s.skip(n as int),
                    b,
                    (k - 1) as nat,
                )[i - 1]);
            }
        }
    }
}

/// Every block of the cut is non-empty and no longer than the block size.
pub proof fn lemma_chunks_bounds(s: Seq<u8>, b: nat)
    requires
        b >= 1,
    ensures
        forall|i: int|
            0 <= i < chunks_of(s, b).len() ==> 0 < #[trigger] chunks_of(s, b)[i].len() <= b,
    decreases s.len(),
{
    if s.len() == 0 {
    } else if s.len() <= b {
    } else {
        lemma_chunks_bounds(s.skip(b as int), b);
        assert forall|i: int| 0 <= i < chunks_of(s, b).len() implies 0 < #[trigger] chunks_of(
            s,
            b,
        )[i].len() <= b by {
            if i > 0 {
                assert(chunks_of(s, b)[i] == chunks_of(s.skip(b as int), b)[i - 1]);
            }
        }
    }
}

/// Fidelity of the cut: concatenating the blocks in production order restores
/// the input byte-for-byte, so any receiver that appends every block it is
/// handed ends up with contents identical to the input.
pub proof fn lemma_chunks_flatten(s: Seq<u8>, b: nat)
    requires
        b >= 1,
    ensures
        chunks_of(s, b).flatten() == s,
    decreases s.len(),
{
    if s.len() == 0 {
        assert(chunks_of(s, b).flatten() =~= s);
    } else if s.len() <= b {
        chunks_of(s, b).lemma_flatten_one_element();
        assert(chunks_of(s, b).flatten() =~= s);
    } else {
        let c = chunks_of(s, b);
        let rest = chunks_of(s.skip(b as int), b);
        lemma_chunks_flatten(s.skip(b as int), b);
        assert(c.drop_first() =~= rest);
        assert(c.flatten() == c.first() + c.drop_first().flatten());
        assert(c.flatten() =~= s);
    }
}

/// Final block sizing: when the block size does not divide the input length,
/// the cut ends in exactly one short block whose length is the remainder, and
/// every block before it is full-sized.
pub proof fn lemma_chunks_last(s: Seq<u8>, b: nat)
    requires
        b >= 1,
        s.len() % b != 0,
    ensures
        chunks_of(s, b).len() > 0,
        chunks_of(s, b).last().len() == s.len() % b,
        forall|i: int|
            0 <= i < chunks_of(s, b).len() - 1 ==> #[trigger] chunks_of(s, b)[i].len() == b,
    decreases s.len(),
{
    if s.len() == 0 {
        lemma_small_mod(0, b);
    } else if s.len() <= b {
        if s.len() == b {
            lemma_mod_self_0(b as int);
        }
        lemma_small_mod(s.len(), b);
    } else {
        let c = chunks_of(s, b);
        let rest = chunks_of(s.skip(b as int), b);
        lemma_mod_sub_multiples_vanish(s.len() as int, b as int);
        assert(s.skip(b as int).len() % b == s.len() % b);
        lemma_chunks_last(s.skip(b as int), b);
        assert(c.last() == rest.last());
        assert forall|i: int| 0 <= i < c.len() - 1 implies #[trigger] c[i].len() == b by {
            if i > 0 {
                assert(c[i] == rest[i - 1]);
            }
        }
    }
}

} // verus!
