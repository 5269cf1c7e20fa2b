use vstd::prelude::*;

verus! {

/// The `n` output bytes that start at absolute position `pos` of the
/// infinite byte stream described by `f`.
///
/// Every sponge reader in this crate phrases the bytes it returns with
/// this function, so the properties proved here hold of every family.
pub open spec fn stream_take(f: spec_fn(int) -> u8, pos: int, n: nat) -> Seq<u8> {
    Seq::new(n, |j: int| f(pos + j))
}

/// Prefix property: of the stream `f`, the first `a` of `b` bytes read at
/// `pos` are exactly the `a` bytes read at `pos`. A shorter read is always
/// a prefix of a longer read taken at the same position.
pub proof fn lemma_stream_prefix(f: spec_fn(int) -> u8, pos: int, a: nat, b: nat)
    requires
        a <= b,
    ensures
        stream_take(f, pos, b).subrange(0, a as int) == stream_take(f, pos, a),
{
    assert(stream_take(f, pos, b).subrange(0, a as int) =~= stream_take(f, pos, a));
}

/// Split-read equivalence: reading `n1` bytes and then `n2` bytes yields
/// byte for byte what one read of `n1 + n2` bytes yields, split at `n1`.
pub proof fn lemma_stream_split(f: spec_fn(int) -> u8, pos: int, n1: nat, n2: nat)
    ensures
        stream_take(f, pos, n1) + stream_take(f, pos + n1, n2) == stream_take(
            f,
            pos,
            (n1 + n2) as nat,
        ),
{
    assert(stream_take(f, pos, n1) + stream_take(f, pos + n1, n2) =~= stream_take(
        f,
        pos,
        (n1 + n2) as nat,
    ));
}

/// Absorb concatenation: absorbing `a` and then `b` into an absorber whose
/// accumulated input is `s` leaves the same accumulated input as absorbing
/// the single sequence `a + b`. Since `finalize` determines a sponge's
/// whole output stream by the accumulated input alone, the two ways of
/// feeding the data produce identical output.
pub proof fn lemma_absorb_concat(s: Seq<u8>, a: Seq<u8>, b: Seq<u8>)
    ensures
        (s + a) + b == s + (a + b),
{
    assert((s + a) + b =~= s + (a + b));
}

/// Reset independence: an absorber that `finalize` has just reset holds the
/// empty accumulated input, so absorbing `x` into it leaves exactly `x` —
/// the same accumulated input as a brand-new absorber seeded with `x`.
/// Nothing absorbed before the reset can reach the next cycle's output.
pub proof fn lemma_reset_absorb(x: Seq<u8>)
    ensures
        Seq::<u8>::empty() + x == x,
{
    assert(Seq::<u8>::empty() + x =~= x);
}

} // verus!
