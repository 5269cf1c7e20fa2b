//! Verified absorb/finalize/squeeze state machines for extendable-output
//! hash functions (XOFs): SHAKE128/256, TurboSHAKE128/256 with domain
//! separation, and the Ascon XOF family.
//!
//! Each family pairs an absorber (`Shaker*`, `TurboShaker*`, `Ascon*`) with
//! a sponge reader produced by `finalize`. The underlying permutations come
//! from the `sha3` and `ascon-hash` crates and are trusted as opaque
//! primitives; everything above them — phase transitions, domain-separation
//! validation, exact-length reads, and the reset-on-finalize semantics — is
//! verified against an abstract model: the sequence of absorbed bytes and a
//! cursor over the output stream each family's input determines.

pub mod ascon;
pub mod ascon_a;
pub mod error;
pub mod shake128;
pub mod shake256;
pub mod stream;
pub mod turbo_shake128;
pub mod turbo_shake256;

pub use ascon::ascon_xof;
pub use ascon::Ascon;
pub use ascon::AsconSponge;
pub use ascon_a::ascona_xof;
pub use ascon_a::AsconA;
pub use ascon_a::AsconASponge;
pub use error::XofError;
pub use shake128::shake128;
pub use shake128::Shaker128;
pub use shake128::Sponge128;
pub use shake256::shake256;
pub use shake256::Shaker256;
pub use shake256::Sponge256;
pub use turbo_shake128::turbo_shake128;
pub use turbo_shake128::TurboShaker128;
pub use turbo_shake128::TurboSponge128;
pub use turbo_shake256::turbo_shake256;
pub use turbo_shake256::TurboShaker256;
pub use turbo_shake256::TurboSponge256;
