use vstd::prelude::*;

verus! {

/// The one failure the sponge engine itself can report: a Turbo-family
/// absorber was asked for with a domain-separation byte outside the
/// inclusive range `0x01 ..= 0x7F`.
///
/// Byte `0x00` is reserved for the plain-SHAKE-equivalent use of the
/// permutation, and values with the top bit set collide with reserved
/// padding patterns, so neither may reach the underlying construction.
#[derive(Clone, Copy, Debug, PartialEq, Eq, Structural)]
pub enum XofError {
    InvalidDomainSeparator,
}

} // verus!
