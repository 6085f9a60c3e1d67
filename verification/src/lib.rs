//! Adapters between the generations of the `rand_core` randomness-source
//! interface, with the translation of their error values.
//!
//! A source written for one generation is wrapped in `Rng05`, `Rng06` or
//! `Rng09` (or their `Try..` forms) and then answers the calls of the other
//! generations. The adapters add nothing of their own: every call reaches the
//! wrapped source once, and what it gave is handed on. Errors cross a
//! generation boundary by their code, see [`error`].

pub mod compat;
pub mod error;
pub mod le;
pub mod source;

pub use compat::v0_5::{Error05, Rng05, TryRng05};
pub use compat::v0_6::{Error06, Rng06, TryRng06};
pub use compat::v0_9::{Error09, Fatal, Rng09, TryRng09};
pub use error::{ErrorMode, OS_ERROR_0, UNKNOWN};
pub use source::{
    CryptoRng05, CryptoRng06, CryptoRng09, Event, RngCore05, RngCore06, RngCore09, TryCryptoRng09,
    TryRngCore09,
};
