//! The TurboSHAKE256 extendable-output function: an absorber
//! (`TurboShaker256`) carrying a domain-separation byte, and the sponge
//! reader (`TurboSponge256`) its `finalize` produces.
//!
//! The domain-separation byte is validated once, at construction: it must
//! lie in the inclusive range `0x01 ..= 0x7F`, or no absorber is created.

use vstd::prelude::*;

use sha3::digest::core_api::CoreWrapper;
use sha3::digest::{ExtendableOutputReset, Update, XofReader};

use crate::error::XofError;
use crate::stream::stream_take;

verus! {

/// Opaque absorbing-phase state of the TurboSHAKE256 permutation.
#[verifier::external_body]
pub struct TurboShake256State {
    inner: sha3::TurboShake256,
}

/// The bytes absorbed into a `TurboShake256State` since it was fresh.
pub uninterp spec fn turbo_shake256_absorbed(s: TurboShake256State) -> Seq<u8>;

/// The domain-separation byte a `TurboShake256State` was built with.
pub uninterp spec fn turbo_shake256_state_domain(s: TurboShake256State) -> u8;

/// Opaque squeezing-phase state of the TurboSHAKE256 permutation.
#[verifier::external_body]
pub struct TurboShake256ReaderState {
    inner: sha3::TurboShake256Reader,
}

/// The input whose TurboSHAKE256 output stream a reader serves.
pub uninterp spec fn turbo_shake256_reader_input(r: TurboShake256ReaderState) -> Seq<u8>;

/// The domain-separation byte of the stream a reader serves.
pub uninterp spec fn turbo_shake256_reader_domain(r: TurboShake256ReaderState) -> u8;

/// How many output bytes a reader has already served.
pub uninterp spec fn turbo_shake256_reader_pos(r: TurboShake256ReaderState) -> nat;

/// Byte `i` of the TurboSHAKE256 output stream for `input` under the
/// domain-separation byte `domain_sep`. The stream depends on those two
/// alone.
pub uninterp spec fn turbo_shake256_stream_byte(domain_sep: u8, input: Seq<u8>, i: int) -> u8;

/// Relies on `sha3::TurboShake256Core::new`, which panics unless the
/// domain-separation byte lies in `0x01 ..= 0x7F`, and on
/// `CoreWrapper::from_core`, which wraps the core with an empty buffer:
/// a fresh hasher with nothing absorbed, carrying `domain_sep`.
#[verifier::external_body]
fn turbo_shake256_state_new(domain_sep: u8) -> (s: TurboShake256State)
    requires
        0x01 <= domain_sep <= 0x7f,
    ensures
        turbo_shake256_absorbed(s) == Seq::<u8>::empty(),
        turbo_shake256_state_domain(s) == domain_sep,
{
    TurboShake256State { inner: CoreWrapper::from_core(sha3::TurboShake256Core::new(domain_sep)) }
}

/// Relies on `digest::Update::update` for `sha3::TurboShake256`: appends
/// `data` to the absorbed input; the domain-separation byte is untouched.
#[verifier::external_body]
fn turbo_shake256_state_update(s: &mut TurboShake256State, data: &[u8])
    ensures
        turbo_shake256_absorbed(*final(s)) == turbo_shake256_absorbed(*old(s)) + data@,
        turbo_shake256_state_domain(*final(s)) == turbo_shake256_state_domain(*old(s)),
{
    s.inner.update(data);
}

/// Relies on `digest::ExtendableOutputReset::finalize_xof_reset` for
/// `sha3::TurboShake256`: returns a reader over the output stream of the
/// absorbed bytes under this state's domain-separation byte, positioned at
/// its start, and resets the hasher to the fresh state with the same
/// domain-separation byte (its `Reset` rebuilds the core from it).
#[verifier::external_body]
fn turbo_shake256_state_finalize_reset(s: &mut TurboShake256State) -> (r:
    TurboShake256ReaderState)
    ensures
        turbo_shake256_absorbed(*final(s)) == Seq::<u8>::empty(),
        turbo_shake256_state_domain(*final(s)) == turbo_shake256_state_domain(*old(s)),
        turbo_shake256_reader_input(r) == turbo_shake256_absorbed(*old(s)),
        turbo_shake256_reader_domain(r) == turbo_shake256_state_domain(*old(s)),
        turbo_shake256_reader_pos(r) == 0,
{
    TurboShake256ReaderState { inner: s.inner.finalize_xof_reset() }
}

/// Relies on `digest::XofReader::read` for `sha3::TurboShake256Reader`:
/// fills the buffer with the next `n` bytes of the output stream and
/// advances the reader past them; callable any number of times.
#[verifier::external_body]
fn turbo_shake256_reader_read(r: &mut TurboShake256ReaderState, n: usize) -> (out: Vec<u8>)
    ensures
        turbo_shake256_reader_input(*final(r)) == turbo_shake256_reader_input(*old(r)),
        turbo_shake256_reader_domain(*final(r)) == turbo_shake256_reader_domain(*old(r)),
        turbo_shake256_reader_pos(*final(r)) == turbo_shake256_reader_pos(*old(r)) + n,
        out@ == stream_take(
            (|i: int| turbo_shake256_stream_byte(
                turbo_shake256_reader_domain(*old(r)),
                turbo_shake256_reader_input(*old(r)),
                i,
            )),
            turbo_shake256_reader_pos(*old(r)) as int,
            n as nat,
        ),
{
    let mut out = vec![0u8; n];
    r.inner.read(&mut out);
    out
}

/// Absorbing phase of a TurboSHAKE256 sponge. Exists only with a valid
/// domain-separation byte; accumulates input bytes until `finalize`.
pub struct TurboShaker256 {
    state: TurboShake256State,
}

/// Squeezing phase of a TurboSHAKE256 sponge: a monotonic forward cursor
/// over the output stream determined by the absorbed input and the
/// domain-separation byte. It can never absorb again.
pub struct TurboSponge256 {
    reader: TurboShake256ReaderState,
}

impl TurboShaker256 {
    /// The bytes absorbed since construction or the last `finalize`.
    pub closed spec fn absorbed(self) -> Seq<u8> {
        turbo_shake256_absorbed(self.state)
    }

    /// The domain-separation byte this absorber was built with.
    pub closed spec fn domain(self) -> u8 {
        turbo_shake256_state_domain(self.state)
    }

    /// Every absorber that exists carries a valid domain-separation byte:
    /// construction rejects the rest before any state is created.
    pub open spec fn valid_domain(domain_sep: u8) -> bool {
        0x01 <= domain_sep <= 0x7f
    }

    /// A fresh absorber under `domain_sep`; `input_bytes`, if given, is
    /// absorbed immediately. Succeeds exactly when `domain_sep` lies in
    /// `0x01 ..= 0x7F`; outside that range nothing is created and the one
    /// construction error is returned.
    pub fn new(domain_sep: u8, input_bytes: Option<&[u8]>) -> (r: Result<Self, XofError>)
        ensures
            r is Ok <==> Self::valid_domain(domain_sep),
            r is Ok ==> r->Ok_0.domain() == domain_sep,
            r is Ok ==> r->Ok_0.absorbed() == match input_bytes {
                Some(d) => d@,
                None => Seq::<u8>::empty(),
            },
            r is Err ==> r->Err_0 == XofError::InvalidDomainSeparator,
    {
        if domain_sep < 0x01 || domain_sep > 0x7f {
            return Err(XofError::InvalidDomainSeparator);
        }
        let mut state = turbo_shake256_state_new(domain_sep);
        match input_bytes {
            Some(d) => {
                turbo_shake256_state_update(&mut state, d);
                proof {
                    assert(Seq::<u8>::empty() + d@ =~= d@);
                }
            },
            None => {},
        }
        Ok(TurboShaker256 { state })
    }

    /// Appends `input_bytes` to the absorbed input. Absorbing `a` then `b`
    /// accumulates exactly `a + b`; a zero-length input changes nothing.
    pub fn absorb(&mut self, input_bytes: &[u8])
        ensures
            final(self).absorbed() == old(self).absorbed() + input_bytes@,
            final(self).domain() == old(self).domain(),
    {
        turbo_shake256_state_update(&mut self.state, input_bytes);
    }

    /// Moves the accumulated input into a sponge positioned at the start
    /// of its output stream, and resets this absorber to the fresh state
    /// under the same domain-separation byte, ready for an independent
    /// next cycle.
    pub fn finalize(&mut self) -> (sp: TurboSponge256)
        ensures
            final(self).absorbed() == Seq::<u8>::empty(),
            final(self).domain() == old(self).domain(),
            sp.input() == old(self).absorbed(),
            sp.domain() == old(self).domain(),
            sp.position() == 0,
    {
        TurboSponge256 { reader: turbo_shake256_state_finalize_reset(&mut self.state) }
    }
}

impl TurboSponge256 {
    /// The absorbed input that determines this sponge's output stream.
    pub closed spec fn input(self) -> Seq<u8> {
        turbo_shake256_reader_input(self.reader)
    }

    /// The domain-separation byte that determines this sponge's stream.
    pub closed spec fn domain(self) -> u8 {
        turbo_shake256_reader_domain(self.reader)
    }

    /// How many output bytes have been read so far.
    pub closed spec fn position(self) -> nat {
        turbo_shake256_reader_pos(self.reader)
    }

    /// This sponge's whole output stream, byte by byte.
    pub open spec fn stream(self) -> spec_fn(int) -> u8 {
        |i: int| turbo_shake256_stream_byte(self.domain(), self.input(), i)
    }

    /// Returns exactly the next `n` bytes of the output stream and
    /// advances the cursor past them; `n = 0` returns the empty vector.
    pub fn read(&mut self, n: usize) -> (out: Vec<u8>)
        ensures
            final(self).input() == old(self).input(),
            final(self).domain() == old(self).domain(),
            final(self).position() == old(self).position() + n,
            out@ == stream_take(old(self).stream(), old(self).position() as int, n as nat),
            out@.len() == n,
    {
        turbo_shake256_reader_read(&mut self.reader, n)
    }

    /// Overwrites `buf` with the next `buf.len()` bytes of the output
    /// stream, advancing the cursor by exactly that many.
    pub fn read_into(&mut self, buf: &mut Vec<u8>)
        ensures
            final(self).input() == old(self).input(),
            final(self).domain() == old(self).domain(),
            final(self).position() == old(self).position() + old(buf)@.len(),
            final(buf)@ == stream_take(
                old(self).stream(),
                old(self).position() as int,
                old(buf)@.len(),
            ),
            final(buf)@.len() == old(buf)@.len(),
    {
        let n = buf.len();
        let out = self.read(n);
        *buf = out;
    }
}

/// One-shot construction: absorbs `data` into a fresh absorber under
/// `domain_sep` and finalizes it at once. Succeeds exactly when
/// `domain_sep` is valid, and the sponge returned is in exactly the state
/// that `TurboShaker256::new(domain_sep, Some(data))` followed by
/// `finalize` yields.
pub fn turbo_shake256(domain_sep: u8, data: &[u8]) -> (r: Result<TurboSponge256, XofError>)
    ensures
        r is Ok <==> TurboShaker256::valid_domain(domain_sep),
        r is Ok ==> r->Ok_0.input() == data@,
        r is Ok ==> r->Ok_0.domain() == domain_sep,
        r is Ok ==> r->Ok_0.position() == 0,
        r is Err ==> r->Err_0 == XofError::InvalidDomainSeparator,
{
    let mut shaker = match TurboShaker256::new(domain_sep, Some(data)) {
        Ok(s) => s,
        Err(e) => {
            return Err(e);
        },
    };
    Ok(shaker.finalize())
}

} // verus!
