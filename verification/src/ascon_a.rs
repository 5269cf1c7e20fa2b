//! The Ascon-AXOF extendable-output function: an absorber (`AsconA`) and
//! the sponge reader (`AsconASponge`) its `finalize` produces.

use vstd::prelude::*;

use ascon_hash::digest::{ExtendableOutputReset, Update, XofReader};

use crate::stream::stream_take;

verus! {

/// Opaque absorbing-phase state of the Ascon-AXOF permutation.
#[verifier::external_body]
pub struct AsconAXofState {
    inner: ascon_hash::AsconAXof,
}

/// The bytes absorbed into an `AsconAXofState` since it was fresh.
pub uninterp spec fn ascona_xof_absorbed(s: AsconAXofState) -> Seq<u8>;

/// Opaque squeezing-phase state of the Ascon-AXOF permutation.
#[verifier::external_body]
pub struct AsconAXofReaderState {
    inner: ascon_hash::AsconAXofReader,
}

/// The input whose Ascon-AXOF output stream a reader serves.
pub uninterp spec fn ascona_xof_reader_input(r: AsconAXofReaderState) -> Seq<u8>;

/// How many output bytes a reader has already served.
pub uninterp spec fn ascona_xof_reader_pos(r: AsconAXofReaderState) -> nat;

/// Byte `i` of the Ascon-AXOF output stream for `input`. The stream depends
/// on the absorbed bytes alone.
pub uninterp spec fn ascona_xof_stream_byte(input: Seq<u8>, i: int) -> u8;

/// Relies on `ascon_hash::AsconAXof::default()`: a fresh hasher with nothing
/// absorbed.
#[verifier::external_body]
fn ascona_xof_state_new() -> (s: AsconAXofState)
    ensures
        ascona_xof_absorbed(s) == Seq::<u8>::empty(),
{
    AsconAXofState { inner: ascon_hash::AsconAXof::default() }
}

/// Relies on `digest::Update::update` for `ascon_hash::AsconAXof`: appends `data`
/// to the absorbed input.
#[verifier::external_body]
fn ascona_xof_state_update(s: &mut AsconAXofState, data: &[u8])
    ensures
        ascona_xof_absorbed(*final(s)) == ascona_xof_absorbed(*old(s)) + data@,
{
    s.inner.update(data);
}

/// Relies on `digest::ExtendableOutputReset::finalize_xof_reset` for
/// `ascon_hash::AsconAXof`: returns a reader over the output stream of everything
/// absorbed so far, positioned at its start, and resets the hasher to the
/// fresh state.
#[verifier::external_body]
fn ascona_xof_state_finalize_reset(s: &mut AsconAXofState) -> (r: AsconAXofReaderState)
    ensures
        ascona_xof_absorbed(*final(s)) == Seq::<u8>::empty(),
        ascona_xof_reader_input(r) == ascona_xof_absorbed(*old(s)),
        ascona_xof_reader_pos(r) == 0,
{
    AsconAXofReaderState { inner: s.inner.finalize_xof_reset() }
}

/// Relies on `digest::XofReader::read` for `ascon_hash::AsconAXofReader`: fills
/// the buffer with the next `n` bytes of the output stream and advances
/// the reader past them; callable any number of times.
#[verifier::external_body]
fn ascona_xof_reader_read(r: &mut AsconAXofReaderState, n: usize) -> (out: Vec<u8>)
    ensures
        ascona_xof_reader_input(*final(r)) == ascona_xof_reader_input(*old(r)),
        ascona_xof_reader_pos(*final(r)) == ascona_xof_reader_pos(*old(r)) + n,
        out@ == stream_take(
            (|i: int| ascona_xof_stream_byte(ascona_xof_reader_input(*old(r)), i)),
            ascona_xof_reader_pos(*old(r)) as int,
            n as nat,
        ),
{
    let mut out = vec![0u8; n];
    r.inner.read(&mut out);
    out
}

/// Absorbing phase of an Ascon-AXOF sponge. Accumulates input bytes;
/// `finalize` turns them into an `AsconASponge` and resets the absorber.
pub struct AsconA {
    state: AsconAXofState,
}

/// Squeezing phase of an Ascon-AXOF sponge: a monotonic forward cursor over
/// the infinite output stream determined by the absorbed input. It can
/// never absorb again.
pub struct AsconASponge {
    reader: AsconAXofReaderState,
}

impl AsconA {
    /// The bytes absorbed since construction or the last `finalize`.
    pub closed spec fn absorbed(self) -> Seq<u8> {
        ascona_xof_absorbed(self.state)
    }

    /// A fresh absorber; `input_bytes`, if given, is absorbed immediately.
    pub fn new(input_bytes: Option<&[u8]>) -> (s: Self)
        ensures
            s.absorbed() == match input_bytes {
                Some(d) => d@,
                None => Seq::<u8>::empty(),
            },
    {
        let mut state = ascona_xof_state_new();
        match input_bytes {
            Some(d) => {
                ascona_xof_state_update(&mut state, d);
                proof {
                    assert(Seq::<u8>::empty() + d@ =~= d@);
                }
            },
            None => {},
        }
        AsconA { state }
    }

    /// Appends `input_bytes` to the absorbed input. Absorbing `a` then `b`
    /// accumulates exactly `a + b`; a zero-length input changes nothing.
    pub fn absorb(&mut self, input_bytes: &[u8])
        ensures
            final(self).absorbed() == old(self).absorbed() + input_bytes@,
    {
        ascona_xof_state_update(&mut self.state, input_bytes);
    }

    /// Moves the accumulated input into a sponge positioned at the start
    /// of its output stream, and resets this absorber to the fresh state,
    /// ready for an independent next cycle.
    pub fn finalize(&mut self) -> (sp: AsconASponge)
        ensures
            final(self).absorbed() == Seq::<u8>::empty(),
            sp.input() == old(self).absorbed(),
            sp.position() == 0,
    {
        AsconASponge { reader: ascona_xof_state_finalize_reset(&mut self.state) }
    }
}

impl AsconASponge {
    /// The absorbed input that determines this sponge's output stream.
    pub closed spec fn input(self) -> Seq<u8> {
        ascona_xof_reader_input(self.reader)
    }

    /// How many output bytes have been read so far.
    pub closed spec fn position(self) -> nat {
        ascona_xof_reader_pos(self.reader)
    }

    /// This sponge's whole output stream, byte by byte.
    pub open spec fn stream(self) -> spec_fn(int) -> u8 {
        |i: int| ascona_xof_stream_byte(self.input(), i)
    }

    /// Returns exactly the next `n` bytes of the output stream and
    /// advances the cursor past them; `n = 0` returns the empty vector.
    pub fn read(&mut self, n: usize) -> (out: Vec<u8>)
        ensures
            final(self).input() == old(self).input(),
            final(self).position() == old(self).position() + n,
            out@ == stream_take(old(self).stream(), old(self).position() as int, n as nat),
            out@.len() == n,
    {
        ascona_xof_reader_read(&mut self.reader, n)
    }

    /// Overwrites `buf` with the next `buf.len()` bytes of the output
    /// stream, advancing the cursor by exactly that many.
    pub fn read_into(&mut self, buf: &mut Vec<u8>)
        ensures
            final(self).input() == old(self).input(),
            final(self).position() == old(self).position() + old(buf)@.len(),
            final(buf)@ == stream_take(
                old(self).stream(),
                old(self).position() as int,
                old(buf)@.len(),
            ),
            final(buf)@.len() == old(buf)@.len(),
    {
        let n = buf.len();
        let out = self.read(n);
        *buf = out;
    }
}

/// One-shot construction: absorbs `data` into a fresh absorber and
/// finalizes it at once. The sponge returned is in exactly the state that
/// `AsconA::new(Some(data))` followed by `finalize` yields: its stream
/// is determined by `data` and its cursor sits at the start.
pub fn ascona_xof(data: &[u8]) -> (sp: AsconASponge)
    ensures
        sp.input() == data@,
        sp.position() == 0,
{
    let mut shaker = AsconA::new(Some(data));
    shaker.finalize()
}

} // verus!
