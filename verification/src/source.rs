//! The interfaces of the three generations, and the vocabulary in which the
//! behaviour of a source is stated.
//!
//! Nothing here says what numbers a source gives. Each interface has a
//! relation `step`: whether a source in one state may answer a call in a given
//! way and be left in another state. A source of which nothing is known keeps
//! the relation that holds of everything; an adapter defines its own relation
//! from that of the source it wraps, and this is its whole contract.

use vstd::prelude::*;
use core::convert::Infallible;

verus! {

/// One call made of a source, with what came back. `E` is the type in which
/// the source reports a failure.
#[allow(inconsistent_fields)]
pub enum Event<E> {
    /// `next_u32` returned `out`.
    NextU32 { out: u32 },
    /// `next_u64` returned `out`.
    NextU64 { out: u64 },
    /// `fill_bytes` was given a buffer holding `before` and left `after` in it.
    FillBytes { before: Seq<u8>, after: Seq<u8> },
    /// `try_fill_bytes` was given a buffer holding `before`, left `after` in
    /// it and returned `result`.
    TryFillBytes { before: Seq<u8>, after: Seq<u8>, result: Result<(), E> },
    /// `try_next_u32` returned `result`.
    TryNextU32 { result: Result<u32, E> },
    /// `try_next_u64` returned `result`.
    TryNextU64 { result: Result<u64, E> },
}

/// A source of the 0.5 generation: three calls that cannot fail and a
/// fill that can.
pub trait RngCore05: Sized {
    /// Whether a source in state `pre` may go through `event` and be left in
    /// state `post`.
    open spec fn step(pre: Self, event: Event<rand_core::Error>, post: Self) -> bool {
        true
    }

    /// Returns the next 32 bits.
    fn next_u32(&mut self) -> (out: u32)
        ensures
            Self::step(*old(self), Event::NextU32 { out }, *final(self)),
    ;

    /// Returns the next 64 bits.
    fn next_u64(&mut self) -> (out: u64)
        ensures
            Self::step(*old(self), Event::NextU64 { out }, *final(self)),
    ;

    /// Fills `dst` completely.
    fn fill_bytes(&mut self, dst: &mut [u8])
        ensures
            final(dst)@.len() == old(dst)@.len(),
            Self::step(
                *old(self),
                Event::FillBytes { before: old(dst)@, after: final(dst)@ },
                *final(self),
            ),
    ;

    /// Fills `dst` completely, or reports why it could not.
    fn try_fill_bytes(&mut self, dst: &mut [u8]) -> (result: Result<(), rand_core::Error>)
        ensures
            final(dst)@.len() == old(dst)@.len(),
            Self::step(
                *old(self),
                Event::TryFillBytes { before: old(dst)@, after: final(dst)@, result },
                *final(self),
            ),
    ;
}

/// Marks a source of the 0.5 generation as fit for cryptographic use.
pub trait CryptoRng05 {

}

/// A source of the 0.6 generation: the same calls as the 0.5 generation.
pub trait RngCore06: Sized {
    /// Whether a source in state `pre` may go through `event` and be left in
    /// state `post`.
    open spec fn step(pre: Self, event: Event<rand_core::Error>, post: Self) -> bool {
        true
    }

    /// Returns the next 32 bits.
    fn next_u32(&mut self) -> (out: u32)
        ensures
            Self::step(*old(self), Event::NextU32 { out }, *final(self)),
    ;

    /// Returns the next 64 bits.
    fn next_u64(&mut self) -> (out: u64)
        ensures
            Self::step(*old(self), Event::NextU64 { out }, *final(self)),
    ;

    /// Fills `dst` completely.
    fn fill_bytes(&mut self, dst: &mut [u8])
        ensures
            final(dst)@.len() == old(dst)@.len(),
            Self::step(
                *old(self),
                Event::FillBytes { before: old(dst)@, after: final(dst)@ },
                *final(self),
            ),
    ;

    /// Fills `dst` completely, or reports why it could not.
    fn try_fill_bytes(&mut self, dst: &mut [u8]) -> (result: Result<(), rand_core::Error>)
        ensures
            final(dst)@.len() == old(dst)@.len(),
            Self::step(
                *old(self),
                Event::TryFillBytes { before: old(dst)@, after: final(dst)@, result },
                *final(self),
            ),
    ;
}

/// Marks a source of the 0.6 generation as fit for cryptographic use.
pub trait CryptoRng06 {

}

/// A source of the 0.9 generation that cannot fail.
pub trait RngCore09: Sized {
    /// Whether a source in state `pre` may go through `event` and be left in
    /// state `post`.
    open spec fn step(pre: Self, event: Event<Infallible>, post: Self) -> bool {
        true
    }

    /// Returns the next 32 bits.
    fn next_u32(&mut self) -> (out: u32)
        ensures
            Self::step(*old(self), Event::NextU32 { out }, *final(self)),
    ;

    /// Returns the next 64 bits.
    fn next_u64(&mut self) -> (out: u64)
        ensures
            Self::step(*old(self), Event::NextU64 { out }, *final(self)),
    ;

    /// Fills `dst` completely.
    fn fill_bytes(&mut self, dst: &mut [u8])
        ensures
            final(dst)@.len() == old(dst)@.len(),
            Self::step(
                *old(self),
                Event::FillBytes { before: old(dst)@, after: final(dst)@ },
                *final(self),
            ),
    ;
}

/// Marks an infallible source of the 0.9 generation as fit for
/// cryptographic use.
pub trait CryptoRng09: RngCore09 {

}

/// A source of the 0.9 generation that can fail, with an error type of its
/// own choosing.
pub trait TryRngCore09: Sized {
    /// The type in which the source reports a failure.
    type Error: core::fmt::Debug + core::fmt::Display;

    /// Whether a source in state `pre` may go through `event` and be left in
    /// state `post`.
    open spec fn step(pre: Self, event: Event<Self::Error>, post: Self) -> bool {
        true
    }

    /// Returns the next 32 bits, or reports why it could not.
    fn try_next_u32(&mut self) -> (result: Result<u32, Self::Error>)
        ensures
            Self::step(*old(self), Event::TryNextU32 { result }, *final(self)),
    ;

    /// Returns the next 64 bits, or reports why it could not.
    fn try_next_u64(&mut self) -> (result: Result<u64, Self::Error>)
        ensures
            Self::step(*old(self), Event::TryNextU64 { result }, *final(self)),
    ;

    /// Fills `dst` completely, or reports why it could not.
    fn try_fill_bytes(&mut self, dst: &mut [u8]) -> (result: Result<(), Self::Error>)
        ensures
            final(dst)@.len() == old(dst)@.len(),
            Self::step(
                *old(self),
                Event::TryFillBytes { before: old(dst)@, after: final(dst)@, result },
                *final(self),
            ),
    ;
}

/// Marks a fallible source of the 0.9 generation as fit for cryptographic
/// use.
pub trait TryCryptoRng09: TryRngCore09 {

}

} // verus!

verus! {

/// Whether `states` and `events` record calls made one after another of one
/// source of the 0.5 generation: call `i` takes it from `states[i]` to
/// `states[i + 1]`.
pub open spec fn runs05<T: RngCore05>(states: Seq<T>, events: Seq<Event<rand_core::Error>>) -> bool {
    &&& states.len() == events.len() + 1
    &&& forall|i: int|
        0 <= i < events.len() ==> T::step(states[i], #[trigger] events[i], states[i + 1])
}

/// Whether `states` and `events` record calls made one after another of one
/// source of the 0.6 generation.
pub open spec fn runs06<T: RngCore06>(states: Seq<T>, events: Seq<Event<rand_core::Error>>) -> bool {
    &&& states.len() == events.len() + 1
    &&& forall|i: int|
        0 <= i < events.len() ==> T::step(states[i], #[trigger] events[i], states[i + 1])
}

/// Whether `states` and `events` record calls made one after another of one
/// infallible source of the 0.9 generation.
pub open spec fn runs09<T: RngCore09>(states: Seq<T>, events: Seq<Event<Infallible>>) -> bool {
    &&& states.len() == events.len() + 1
    &&& forall|i: int|
        0 <= i < events.len() ==> T::step(states[i], #[trigger] events[i], states[i + 1])
}

/// Whether `states` and `events` record calls made one after another of one
/// fallible source of the 0.9 generation.
pub open spec fn try_runs09<T: TryRngCore09>(states: Seq<T>, events: Seq<Event<T::Error>>) -> bool {
    &&& states.len() == events.len() + 1
    &&& forall|i: int|
        0 <= i < events.len() ==> T::step(states[i], #[trigger] events[i], states[i + 1])
}

} // verus!
