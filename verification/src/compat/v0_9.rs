//! Adapters for a source of the 0.9 generation.

use vstd::prelude::*;
use core::convert::Infallible;
use crate::compat::{all_unfailing, decodes_u32, decodes_u64, unfailing, zeros};
use crate::error::{error_code, error_from_code, UNKNOWN};
use crate::le::{u32_from_le, u64_from_le};
use crate::source::{
    runs05, runs06, runs09, CryptoRng05, CryptoRng06, CryptoRng09, Event, RngCore05, RngCore06,
    RngCore09, TryCryptoRng09, TryRngCore09,
};

verus! {

/// Wrapper for an infallible source of the 0.9 generation.
///
/// It answers the calls of the other generations.
#[derive(Clone, Debug)]
pub struct Rng09<T: RngCore09>(pub T);

/// Wrapper for a fallible source of the 0.9 generation.
///
/// It answers the calls of the other generations.
#[derive(Clone, Debug)]
pub struct TryRng09<T: TryRngCore09>(pub T);

/// Wrapper for an error of a fallible source of the 0.9 generation.
///
/// It can be converted to the errors of the other generations.
#[derive(Debug)]
pub struct Error09<T: core::fmt::Debug + core::fmt::Display + Send + Sync + 'static>(pub T);

/// The failure of a source during a call that has no way to report one.
/// Whoever receives it must give the call up: there is nothing to return
/// in its place.
#[derive(Debug)]
pub struct Fatal<E>(pub E);

/// Converts to an error of the 0.5 or 0.6 generation. Nothing can be read
/// from an error of unknown type, so the code is `UNKNOWN`.
impl<T: core::fmt::Debug + core::fmt::Display + Send + Sync + 'static> From<Error09<T>> for rand_core::Error {
    fn from(error: Error09<T>) -> (out: rand_core::Error)
        ensures
            error_code(out) == Some(UNKNOWN),
    {
        error_from_code(UNKNOWN)
    }
}

impl<T: core::fmt::Debug + core::fmt::Display + Send + Sync + 'static> vstd::std_specs::convert::FromSpecImpl<Error09<T>> for rand_core::Error {
    open spec fn obeys_from_spec() -> bool {
        false
    }

    open spec fn from_spec(v: Error09<T>) -> rand_core::Error {
        arbitrary()
    }
}

/// The source cannot fail, so `try_fill_bytes` fills and reports success.
impl<T: RngCore09> RngCore05 for Rng09<T> {
    open spec fn step(pre: Self, event: Event<rand_core::Error>, post: Self) -> bool {
        match unfailing(event) {
            Some(inner) => T::step(pre.0, inner, post.0),
            None => false,
        }
    }

    fn next_u32(&mut self) -> (out: u32) {
        self.0.next_u32()
    }

    fn next_u64(&mut self) -> (out: u64) {
        self.0.next_u64()
    }

    fn fill_bytes(&mut self, dst: &mut [u8]) {
        self.0.fill_bytes(dst)
    }

    fn try_fill_bytes(&mut self, dst: &mut [u8]) -> (result: Result<(), rand_core::Error>) {
        self.0.fill_bytes(dst);
        Ok(())
    }
}

impl<T: CryptoRng09> CryptoRng05 for Rng09<T> {

}

/// The source cannot fail, so `try_fill_bytes` fills and reports success.
impl<T: RngCore09> RngCore06 for Rng09<T> {
    open spec fn step(pre: Self, event: Event<rand_core::Error>, post: Self) -> bool {
        match unfailing(event) {
            Some(inner) => T::step(pre.0, inner, post.0),
            None => false,
        }
    }

    fn next_u32(&mut self) -> (out: u32) {
        self.0.next_u32()
    }

    fn next_u64(&mut self) -> (out: u64) {
        self.0.next_u64()
    }

    fn fill_bytes(&mut self, dst: &mut [u8]) {
        self.0.fill_bytes(dst)
    }

    fn try_fill_bytes(&mut self, dst: &mut [u8]) -> (result: Result<(), rand_core::Error>) {
        self.0.fill_bytes(dst);
        Ok(())
    }
}

impl<T: CryptoRng09> CryptoRng06 for Rng09<T> {

}

impl<T: RngCore09> Rng09<T> {
    /// The wrapped sources of a sequence of wrappers.
    pub open spec fn sources(states: Seq<Self>) -> Seq<T> {
        Seq::new(states.len(), |i: int| states[i].0)
    }

    /// Calls made one after another of the wrapper, as a source of the 0.5
    /// generation, are calls made one after another of the wrapped source,
    /// each with the same answer; behind each `try_fill_bytes` stands a
    /// `fill_bytes` that left the same bytes, and no `try_fill_bytes` fails.
    pub proof fn lemma_forwards_to_05(states: Seq<Self>, events: Seq<Event<rand_core::Error>>)
        ensures
            runs05::<Self>(states, events) <==> exists|inner: Seq<Event<Infallible>>|
                runs09::<T>(Self::sources(states), inner) && #[trigger] all_unfailing(
                    inner,
                    events,
                ),
    {
        let sources = Self::sources(states);
        if runs05::<Self>(states, events) {
            let inner = Seq::new(events.len(), |i: int| unfailing(events[i]).unwrap());
            assert forall|i: int| 0 <= i < inner.len() implies unfailing(events[i]) == Some(
                #[trigger] inner[i],
            ) && T::step(sources[i], inner[i], sources[i + 1]) by {
                assert(<Self as RngCore05>::step(states[i], events[i], states[i + 1]));
            }
            assert(runs09::<T>(sources, inner) && all_unfailing(inner, events));
        }
        if exists|inner: Seq<Event<Infallible>>|
            runs09::<T>(sources, inner) && #[trigger] all_unfailing(inner, events) {
            let inner = choose|inner: Seq<Event<Infallible>>|
                runs09::<T>(sources, inner) && #[trigger] all_unfailing(inner, events);
            assert forall|i: int| 0 <= i < events.len() implies <Self as RngCore05>::step(
                states[i],
                #[trigger] events[i],
                states[i + 1],
            ) by {
                assert(T::step(sources[i], inner[i], sources[i + 1]));
                assert(unfailing(events[i]) == Some(inner[i]));
            }
        }
    }

    /// The same of the wrapper as a source of the 0.6 generation.
    pub proof fn lemma_forwards_to_06(states: Seq<Self>, events: Seq<Event<rand_core::Error>>)
        ensures
            runs06::<Self>(states, events) <==> exists|inner: Seq<Event<Infallible>>|
                runs09::<T>(Self::sources(states), inner) && #[trigger] all_unfailing(
                    inner,
                    events,
                ),
    {
        let sources = Self::sources(states);
        if runs06::<Self>(states, events) {
            let inner = Seq::new(events.len(), |i: int| unfailing(events[i]).unwrap());
            assert forall|i: int| 0 <= i < inner.len() implies unfailing(events[i]) == Some(
                #[trigger] inner[i],
            ) && T::step(sources[i], inner[i], sources[i + 1]) by {
                assert(<Self as RngCore06>::step(states[i], events[i], states[i + 1]));
            }
            assert(runs09::<T>(sources, inner) && all_unfailing(inner, events));
        }
        if exists|inner: Seq<Event<Infallible>>|
            runs09::<T>(sources, inner) && #[trigger] all_unfailing(inner, events) {
            let inner = choose|inner: Seq<Event<Infallible>>|
                runs09::<T>(sources, inner) && #[trigger] all_unfailing(inner, events);
            assert forall|i: int| 0 <= i < events.len() implies <Self as RngCore06>::step(
                states[i],
                #[trigger] events[i],
                states[i + 1],
            ) by {
                assert(T::step(sources[i], inner[i], sources[i + 1]));
                assert(unfailing(events[i]) == Some(inner[i]));
            }
        }
    }

    /// The fill that reports failure never does: whatever the buffer, a
    /// `try_fill_bytes` of the wrapper returns `Ok`, and the bytes it leaves
    /// are those that a `fill_bytes` of the wrapped source left.
    pub proof fn lemma_try_fill_never_fails(
        pre: Self,
        before: Seq<u8>,
        after: Seq<u8>,
        result: Result<(), rand_core::Error>,
        post: Self,
    )
        requires
            <Self as RngCore05>::step(pre, Event::TryFillBytes { before, after, result }, post)
                || <Self as RngCore06>::step(
                pre,
                Event::TryFillBytes { before, after, result },
                post,
            ),
        ensures
            result is Ok,
            T::step(pre.0, Event::FillBytes { before, after }, post.0),
    {
    }
}

/// What the wrapped source returned, behind what a call that cannot
/// report failure made of it.
pub open spec fn unfatal<V, E>(result: Result<V, Fatal<E>>) -> Result<V, E> {
    match result {
        Ok(value) => Ok(value),
        Err(fatal) => Err(fatal.0),
    }
}

/// The calls of the 0.5 and 0.6 generations, answered by a source that may
/// fail. Those generations let only `try_fill_bytes` report a failure; where
/// the source fails during one of the other three calls, the call hands back
/// a `Fatal` and no value.
impl<T: TryRngCore09> TryRng09<T> where T::Error: Send + Sync + 'static {
    /// Fills a scratch buffer of four zero bytes with the source's
    /// `try_fill_bytes` and reads it in little-endian order. Fatal exactly
    /// when that fill failed, with its error.
    pub fn next_u32(&mut self) -> (result: Result<u32, Fatal<T::Error>>)
        ensures
            exists|after: Seq<u8>, filled: Result<(), T::Error>|
                {
                    &&& after.len() == 4
                    &&& #[trigger] T::step(
                        old(self).0,
                        Event::TryFillBytes { before: zeros(4), after, result: filled },
                        final(self).0,
                    )
                    &&& decodes_u32(filled, after, unfatal(result))
                },
    {
        let mut buf: [u8; 4] = [0u8; 4];
        assert(buf@ =~= zeros(4));
        let filled = self.0.try_fill_bytes(&mut buf);
        let ghost inner = Event::TryFillBytes { before: zeros(4), after: buf@, result: filled };
        assert(T::step(old(self).0, inner, self.0));
        match filled {
            Ok(_) => {
                let value = u32_from_le(&buf);
                assert(decodes_u32(filled, buf@, Ok::<u32, T::Error>(value)));
                Ok(value)
            },
            Err(error) => {
                assert(decodes_u32(filled, buf@, Err::<u32, T::Error>(error)));
                Err(Fatal(error))
            },
        }
    }

    /// Fills a scratch buffer of eight zero bytes with the source's
    /// `try_fill_bytes` and reads it in little-endian order. Fatal exactly
    /// when that fill failed, with its error.
    pub fn next_u64(&mut self) -> (result: Result<u64, Fatal<T::Error>>)
        ensures
            exists|after: Seq<u8>, filled: Result<(), T::Error>|
                {
                    &&& after.len() == 8
                    &&& #[trigger] T::step(
                        old(self).0,
                        Event::TryFillBytes { before: zeros(8), after, result: filled },
                        final(self).0,
                    )
                    &&& decodes_u64(filled, after, unfatal(result))
                },
    {
        let mut buf: [u8; 8] = [0u8; 8];
        assert(buf@ =~= zeros(8));
        let filled = self.0.try_fill_bytes(&mut buf);
        let ghost inner = Event::TryFillBytes { before: zeros(8), after: buf@, result: filled };
        assert(T::step(old(self).0, inner, self.0));
        match filled {
            Ok(_) => {
                let value = u64_from_le(&buf);
                assert(decodes_u64(filled, buf@, Ok::<u64, T::Error>(value)));
                Ok(value)
            },
            Err(error) => {
                assert(decodes_u64(filled, buf@, Err::<u64, T::Error>(error)));
                Err(Fatal(error))
            },
        }
    }

    /// Fills `dst` with the source's `try_fill_bytes`. Fatal exactly when
    /// that fill failed, with its error; the bytes in `dst` are those that
    /// the source left there.
    pub fn fill_bytes(&mut self, dst: &mut [u8]) -> (result: Result<(), Fatal<T::Error>>)
        ensures
            final(dst)@.len() == old(dst)@.len(),
            T::step(
                old(self).0,
                Event::TryFillBytes {
                    before: old(dst)@,
                    after: final(dst)@,
                    result: unfatal(result),
                },
                final(self).0,
            ),
    {
        let filled = self.0.try_fill_bytes(dst);
        match filled {
            Ok(done) => Ok(done),
            Err(error) => Err(Fatal(error)),
        }
    }

    /// Fills `dst` with the source's `try_fill_bytes`. It fails exactly
    /// when that fill failed, and then with an error whose code is
    /// `UNKNOWN`; the bytes in `dst` are those that the source left there.
    pub fn try_fill_bytes(&mut self, dst: &mut [u8]) -> (result: Result<(), rand_core::Error>)
        ensures
            final(dst)@.len() == old(dst)@.len(),
            match result {
                Ok(done) => T::step(
                    old(self).0,
                    Event::TryFillBytes {
                        before: old(dst)@,
                        after: final(dst)@,
                        result: Ok::<(), T::Error>(done),
                    },
                    final(self).0,
                ),
                Err(out) => error_code(out) == Some(UNKNOWN) && exists|error: T::Error| #[trigger]
                    T::step(
                        old(self).0,
                        Event::TryFillBytes {
                            before: old(dst)@,
                            after: final(dst)@,
                            result: Err::<(), T::Error>(error),
                        },
                        final(self).0,
                    ),
            },
    {
        let filled = self.0.try_fill_bytes(dst);
        match filled {
            Ok(done) => Ok(done),
            Err(error) => {
                assert(T::step(
                    old(self).0,
                    Event::TryFillBytes {
                        before: old(dst)@,
                        after: dst@,
                        result: Err::<(), T::Error>(error),
                    },
                    self.0,
                ));
                Err(rand_core::Error::from(Error09(error)))
            },
        }
    }
}

impl<T: TryCryptoRng09> CryptoRng05 for TryRng09<T> {

}

impl<T: TryCryptoRng09> CryptoRng06 for TryRng09<T> {

}

/// Calls `Display` of `value`, through `format`. What the text is lies with
/// the type.
#[verifier::external_body]
fn display_of<T: core::fmt::Display>(value: &T) -> (text: String) {
    format!("{}", value)
}

impl<T: core::fmt::Debug + core::fmt::Display + Send + Sync + 'static> Error09<T> {
    /// The wrapped error, shown as it shows itself.
    pub fn to_string(&self) -> (text: String) {
        display_of(&self.0)
    }
}

} // verus!
