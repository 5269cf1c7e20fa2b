//! The SHAKE256 extendable-output function: an absorber (`Shaker256`) and
//! the sponge reader (`Sponge256`) its `finalize` produces.

use vstd::prelude::*;

use sha3::digest::{ExtendableOutputReset, Update, XofReader};

use crate::stream::stream_take;

verus! {

/// Opaque absorbing-phase state of the SHAKE256 permutation.
#[verifier::external_body]
pub struct Shake256State {
    inner: sha3::Shake256,
}

/// The bytes absorbed into a `Shake256State` since it was fresh.
pub uninterp spec fn shake256_absorbed(s: Shake256State) -> Seq<u8>;

/// Opaque squeezing-phase state of the SHAKE256 permutation.
#[verifier::external_body]
pub struct Shake256ReaderState {
    inner: sha3::Shake256Reader,
}

/// The input whose SHAKE256 output stream a reader serves.
pub uninterp spec fn shake256_reader_input(r: Shake256ReaderState) -> Seq<u8>;

/// How many output bytes a reader has already served.
pub uninterp spec fn shake256_reader_pos(r: Shake256ReaderState) -> nat;

/// Byte `i` of the SHAKE256 output stream for `input`. The stream depends
/// on the absorbed bytes alone.
pub uninterp spec fn shake256_stream_byte(input: Seq<u8>, i: int) -> u8;

/// Relies on `sha3::Shake256::default()`: a fresh hasher with nothing
/// absorbed.
#[verifier::external_body]
fn shake256_state_new() -> (s: Shake256State)
    ensures
        shake256_absorbed(s) == Seq::<u8>::empty(),
{
    Shake256State { inner: sha3::Shake256::default() }
}

/// Relies on `digest::Update::update` for `sha3::Shake256`: appends `data`
/// to the absorbed input.
#[verifier::external_body]
fn shake256_state_update(s: &mut Shake256State, data: &[u8])
    ensures
        shake256_absorbed(*final(s)) == shake256_absorbed(*old(s)) + data@,
{
    s.inner.update(data);
}

/// Relies on `digest::ExtendableOutputReset::finalize_xof_reset` for
/// `sha3::Shake256`: returns a reader over the output stream of everything
/// absorbed so far, positioned at its start, and resets the hasher to the
/// fresh state.
#[verifier::external_body]
fn shake256_state_finalize_reset(s: &mut Shake256State) -> (r: Shake256ReaderState)
    ensures
        shake256_absorbed(*final(s)) == Seq::<u8>::empty(),
        shake256_reader_input(r) == shake256_absorbed(*old(s)),
        shake256_reader_pos(r) == 0,
{
    Shake256ReaderState { inner: s.inner.finalize_xof_reset() }
}

/// Relies on `digest::XofReader::read` for `sha3::Shake256Reader`: fills
/// the buffer with the next `n` bytes of the output stream and advances
/// the reader past them; callable any number of times.
#[verifier::external_body]
fn shake256_reader_read(r: &mut Shake256ReaderState, n: usize) -> (out: Vec<u8>)
    ensures
        shake256_reader_input(*final(r)) == shake256_reader_input(*old(r)),
        shake256_reader_pos(*final(r)) == shake256_reader_pos(*old(r)) + n,
        out@ == stream_take(
            (|i: int| shake256_stream_byte(shake256_reader_input(*old(r)), i)),
            shake256_reader_pos(*old(r)) as int,
            n as nat,
        ),
{
    let mut out = vec![0u8; n];
    r.inner.read(&mut out);
    out
}

/// Absorbing phase of a SHAKE256 sponge. Accumulates input bytes;
/// `finalize` turns them into a `Sponge256` and resets the absorber.
pub struct Shaker256 {
    state: Shake256State,
}

/// Squeezing phase of a SHAKE256 sponge: a monotonic forward cursor over
/// the infinite output stream determined by the absorbed input. It can
/// never absorb again.
pub struct Sponge256 {
    reader: Shake256ReaderState,
}

impl Shaker256 {
    /// The bytes absorbed since construction or the last `finalize`.
    pub closed spec fn absorbed(self) -> Seq<u8> {
        shake256_absorbed(self.state)
    }

    /// A fresh absorber; `input_bytes`, if given, is absorbed immediately.
    pub fn new(input_bytes: Option<&[u8]>) -> (s: Self)
        ensures
            s.absorbed() == match input_bytes {
                Some(d) => d@,
                None => Seq::<u8>::empty(),
            },
    {
        let mut state = shake256_state_new();
        match input_bytes {
            Some(d) => {
                shake256_state_update(&mut state, d);
                proof {
                    assert(Seq::<u8>::empty() + d@ =~= d@);
                }
            },
            None => {},
        }
        Shaker256 { state }
    }

    /// Appends `input_bytes` to the absorbed input. Absorbing `a` then `b`
    /// accumulates exactly `a + b`; a zero-length input changes nothing.
    pub fn absorb(&mut self, input_bytes: &[u8])
        ensures
            final(self).absorbed() == old(self).absorbed() + input_bytes@,
    {
        shake256_state_update(&mut self.state, input_bytes);
    }

    /// Moves the accumulated input into a sponge positioned at the start
    /// of its output stream, and resets this absorber to the fresh state,
    /// ready for an independent next cycle.
    pub fn finalize(&mut self) -> (sp: Sponge256)
        ensures
            final(self).absorbed() == Seq::<u8>::empty(),
            sp.input() == old(self).absorbed(),
            sp.position() == 0,
    {
        Sponge256 { reader: shake256_state_finalize_reset(&mut self.state) }
    }
}

impl Sponge256 {
    /// The absorbed input that determines this sponge's output stream.
    pub closed spec fn input(self) -> Seq<u8> {
        shake256_reader_input(self.reader)
    }

    /// How many output bytes have been read so far.
    pub closed spec fn position(self) -> nat {
        shake256_reader_pos(self.reader)
    }

    /// This sponge's whole output stream, byte by byte.
    pub open spec fn stream(self) -> spec_fn(int) -> u8 {
        |i: int| shake256_stream_byte(self.input(), i)
    }

    /// Returns exactly the next `n` bytes of the output stream and
    /// advances the cursor past them; `n = 0` returns the empty vector.
    pub fn read(&mut self, n: usize) -> (out: Vec<u8>)
        ensures
            final(self).input() == old(self).input(),
            final(self).position() == old(self).position() + n,
            out@ == stream_take(old(self).stream(), old(self).position() as int, n as nat),
            out@.len() == n,
    {
        shake256_reader_read(&mut self.reader, n)
    }

    /// Overwrites `buf` with the next `buf.len()` bytes of the output
    /// stream, advancing the cursor by exactly that many.
    pub fn read_into(&mut self, buf: &mut Vec<u8>)
        ensures
            final(self).input() == old(self).input(),
            final(self).position() == old(self).position() + old(buf)@.len(),
            final(buf)@ == stream_take(
                old(self).stream(),
                old(self).position() as int,
                old(buf)@.len(),
            ),
            final(buf)@.len() == old(buf)@.len(),
    {
        let n = buf.len();
        let out = self.read(n);
        *buf = out;
    }
}

/// One-shot construction: absorbs `data` into a fresh absorber and
/// finalizes it at once. The sponge returned is in exactly the state that
/// `Shaker256::new(Some(data))` followed by `finalize` yields: its stream
/// is determined by `data` and its cursor sits at the start.
pub fn shake256(data: &[u8]) -> (sp: Sponge256)
    ensures
        sp.input() == data@,
        sp.position() == 0,
{
    let mut shaker = Shaker256::new(Some(data));
    shaker.finalize()
}

} // verus!
