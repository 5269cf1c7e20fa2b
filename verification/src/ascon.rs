//! The Ascon-XOF extendable-output function: an absorber (`Ascon`) and
//! the sponge reader (`AsconSponge`) its `finalize` produces.

use vstd::prelude::*;

use ascon_hash::digest::{ExtendableOutputReset, Update, XofReader};

use crate::stream::stream_take;

verus! {

/// Opaque absorbing-phase state of the Ascon-XOF permutation.
#[verifier::external_body]
pub struct AsconXofState {
    inner: ascon_hash::AsconXof,
}

/// The bytes absorbed into an `AsconXofState` since it was fresh.
pub uninterp spec fn ascon_xof_absorbed(s: AsconXofState) -> Seq<u8>;

/// Opaque squeezing-phase state of the Ascon-XOF permutation.
#[verifier::external_body]
pub struct AsconXofReaderState {
    inner: ascon_hash::AsconXofReader,
}

/// The input whose Ascon-XOF output stream a reader serves.
pub uninterp spec fn ascon_xof_reader_input(r: AsconXofReaderState) -> Seq<u8>;

/// How many output bytes a reader has already served.
pub uninterp spec fn ascon_xof_reader_pos(r: AsconXofReaderState) -> nat;

/// Byte `i` of the Ascon-XOF output stream for `input`. The stream depends
/// on the absorbed bytes alone.
pub uninterp spec fn ascon_xof_stream_byte(input: Seq<u8>, i: int) -> u8;

/// Relies on `ascon_hash::AsconXof::default()`: a fresh hasher with nothing
/// absorbed.
#[verifier::external_body]
fn ascon_xof_state_new() -> (s: AsconXofState)
    ensures
        ascon_xof_absorbed(s) == Seq::<u8>::empty(),
{
    AsconXofState { inner: ascon_hash::AsconXof::default() }
}

/// Relies on `digest::Update::update` for `ascon_hash::AsconXof`: appends `data`
/// to the absorbed input.
#[verifier::external_body]
fn ascon_xof_state_update(s: &mut AsconXofState, data: &[u8])
    ensures
        ascon_xof_absorbed(*final(s)) == ascon_xof_absorbed(*old(s)) + data@,
{
    s.inner.update(data);
}

/// Relies on `digest::ExtendableOutputReset::finalize_xof_reset` for
/// `ascon_hash::AsconXof`: returns a reader over the output stream of everything
/// absorbed so far, positioned at its start, and resets the hasher to the
/// fresh state.
#[verifier::external_body]
fn ascon_xof_state_finalize_reset(s: &mut AsconXofState) -> (r: AsconXofReaderState)
    ensures
        ascon_xof_absorbed(*final(s)) == Seq::<u8>::empty(),
        ascon_xof_reader_input(r) == ascon_xof_absorbed(*old(s)),
        ascon_xof_reader_pos(r) == 0,
{
    AsconXofReaderState { inner: s.inner.finalize_xof_reset() }
}

/// Relies on `digest::XofReader::read` for `ascon_hash::AsconXofReader`: fills
/// the buffer with the next `n` bytes of the output stream and advances
/// the reader past them; callable any number of times.
#[verifier::external_body]
fn ascon_xof_reader_read(r: &mut AsconXofReaderState, n: usize) -> (out: Vec<u8>)
    ensures
        ascon_xof_reader_input(*final(r)) == ascon_xof_reader_input(*old(r)),
        ascon_xof_reader_pos(*final(r)) == ascon_xof_reader_pos(*old(r)) + n,
        out@ == stream_take(
            (|i: int| ascon_xof_stream_byte(ascon_xof_reader_input(*old(r)), i)),
            ascon_xof_reader_pos(*old(r)) as int,
            n as nat,
        ),
{
    let mut out = vec![0u8; n];
    r.inner.read(&mut out);
    out
}

/// Absorbing phase of an Ascon-XOF sponge. Accumulates input bytes;
/// `finalize` turns them into an `AsconSponge` and resets the absorber.
pub struct Ascon {
    state: AsconXofState,
}

/// Squeezing phase of an Ascon-XOF sponge: a monotonic forward cursor over
/// the infinite output stream determined by the absorbed input. It can
/// never absorb again.
pub struct AsconSponge {
    reader: AsconXofReaderState,
}

impl Ascon {
    /// The bytes absorbed since construction or the last `finalize`.
    pub closed spec fn absorbed(self) -> Seq<u8> {
        ascon_xof_absorbed(self.state)
    }

    /// A fresh absorber; `input_bytes`, if given, is absorbed immediately.
    pub fn new(input_bytes: Option<&[u8]>) -> (s: Self)
        ensures
            s.absorbed() == match input_bytes {
                Some(d) => d@,
                None => Seq::<u8>::empty(),
            },
    {
        let mut state = ascon_xof_state_new();
        match input_bytes {
            Some(d) => {
                ascon_xof_state_update(&mut state, d);
                proof {
                    assert(Seq::<u8>::empty() + d@ =~= d@);
                }
            },
            None => {},
        }
        Ascon { state }
    }

    /// Appends `input_bytes` to the absorbed input. Absorbing `a` then `b`
    /// accumulates exactly `a + b`; a zero-length input changes nothing.
    pub fn absorb(&mut self, input_bytes: &[u8])
        ensures
            final(self).absorbed() == old(self).absorbed() + input_bytes@,
    {
        ascon_xof_state_update(&mut self.state, input_bytes);
    }

    /// Moves the accumulated input into a sponge positioned at the start
    /// of its output stream, and resets this absorber to the fresh state,
    /// ready for an independent next cycle.
    pub fn finalize(&mut self) -> (sp: AsconSponge)
        ensures
            final(self).absorbed() == Seq::<u8>::empty(),
            sp.input() == old(self).absorbed(),
            sp.position() == 0,
    {
        AsconSponge { reader: ascon_xof_state_finalize_reset(&mut self.state) }
    }
}

impl AsconSponge {
    /// The absorbed input that determines this sponge's output stream.
    pub closed spec fn input(self) -> Seq<u8> {
        ascon_xof_reader_input(self.reader)
    }

    /// How many output bytes have been read so far.
    pub closed spec fn position(self) -> nat {
        ascon_xof_reader_pos(self.reader)
    }

    /// This sponge's whole output stream, byte by byte.
    pub open spec fn stream(self) -> spec_fn(int) -> u8 {
        |i: int| ascon_xof_stream_byte(self.input(), i)
    }

    /// Returns exactly the next `n` bytes of the output stream and
    /// advances the cursor past them; `n = 0` returns the empty vector.
    pub fn read(&mut self, n: usize) -> (out: Vec<u8>)
        ensures
            final(self).input() == old(self).input(),
            final(self).position() == old(self).position() + n,
            out@ == stream_take(old(self).stream(), old(self).position() as int, n as nat),
            out@.len() == n,
    {
        ascon_xof_reader_read(&mut self.reader, n)
    }

    /// Overwrites `buf` with the next `buf.len()` bytes of the output
    /// stream, advancing the cursor by exactly that many.
    pub fn read_into(&mut self, buf: &mut Vec<u8>)
        ensures
            final(self).input() == old(self).input(),
            final(self).position() == old(self).position() + old(buf)@.len(),
            final(buf)@ == stream_take(
                old(self).stream(),
                old(self).position() as int,
                old(buf)@.len(),
            ),
            final(buf)@.len() == old(buf)@.len(),
    {
        let n = buf.len();
        let out = self.read(n);
        *buf = out;
    }
}

/// One-shot construction: absorbs `data` into a fresh absorber and
/// finalizes it at once. The sponge returned is in exactly the state that
/// `Ascon::new(Some(data))` followed by `finalize` yields: its stream
/// is determined by `data` and its cursor sits at the start.
pub fn ascon_xof(data: &[u8]) -> (sp: AsconSponge)
    ensures
        sp.input() == data@,
        sp.position() == 0,
{
    let mut shaker = Ascon::new(Some(data));
    shaker.finalize()
}

} // verus!
