//! Adapters for a source of the 0.5 generation.

use vstd::prelude::*;
use core::convert::Infallible;
use crate::compat::{all_pass_on, all_plain, decodes_u32, decodes_u64, passes_on, plain, zeros};
use crate::error::{translate, translates, ErrorMode};
use crate::le::{u32_from_le, u64_from_le};
use crate::source::{
    runs05, runs06, runs09, CryptoRng05, CryptoRng06, CryptoRng09, Event, RngCore05, RngCore06,
    RngCore09, TryCryptoRng09, TryRngCore09,
};

verus! {

/// Wrapper for a source of the 0.5 generation.
///
/// It answers the calls of the other generations.
#[derive(Clone, Debug)]
pub struct Rng05<T: RngCore05>(pub T);

/// Wrapper for a source of the 0.5 generation, for callers that handle
/// failure.
///
/// It answers the calls of the other generations.
#[derive(Clone, Debug)]
pub struct TryRng05<T: RngCore05>(pub T);

/// Wrapper for an error of the 0.5 generation.
///
/// It can be converted to the errors of the other generations.
#[derive(Debug)]
pub struct Error05(pub rand_core::Error);

/// Whether a `try_fill_bytes` of `pre` may fail with an error of which `out`
/// is the translation by code, leaving `after` in a buffer that held
/// `before`, and the source as `post`.
pub open spec fn fails_with<T: RngCore05>(
    pre: T,
    before: Seq<u8>,
    after: Seq<u8>,
    out: rand_core::Error,
    post: T,
) -> bool {
    exists|error: rand_core::Error| #[trigger]
        T::step(pre, Event::TryFillBytes { before, after, result: Err(error) }, post)
            && translates(error, ErrorMode::Minimal, out)
}

/// Converts to an error of the 0.6 generation, which holds one code: the
/// custom code of the error if it has one, else its platform code, else
/// `UNKNOWN`.
impl From<Error05> for rand_core::Error {
    fn from(error: Error05) -> (out: rand_core::Error)
        ensures
            translates(error.0, ErrorMode::Minimal, out),
    {
        translate(error.0, ErrorMode::Minimal)
    }
}

impl vstd::std_specs::convert::FromSpecImpl<Error05> for rand_core::Error {
    open spec fn obeys_from_spec() -> bool {
        false
    }

    open spec fn from_spec(v: Error05) -> rand_core::Error {
        arbitrary()
    }
}

/// The 0.6 generation has the same calls, so each is handed on as it is,
/// and the error of a failed fill is translated.
impl<T: RngCore05> RngCore06 for Rng05<T> {
    open spec fn step(pre: Self, event: Event<rand_core::Error>, post: Self) -> bool {
        match event {
            Event::TryFillBytes { before, after, result: Err(out) } => fails_with(
                pre.0,
                before,
                after,
                out,
                post.0,
            ),
            _ => T::step(pre.0, event, post.0),
        }
    }

    fn next_u32(&mut self) -> (out: u32) {
        self.0.next_u32()
    }

    fn next_u64(&mut self) -> (out: u64) {
        self.0.next_u64()
    }

    fn fill_bytes(&mut self, dst: &mut [u8]) {
        self.0.fill_bytes(dst)
    }

    fn try_fill_bytes(&mut self, dst: &mut [u8]) -> (result: Result<(), rand_core::Error>) {
        let filled = self.0.try_fill_bytes(dst);
        match filled {
            Ok(done) => Ok(done),
            Err(error) => {
                let out = rand_core::Error::from(Error05(error));
                assert(T::step(
                    old(self).0,
                    Event::TryFillBytes {
                        before: old(dst)@,
                        after: dst@,
                        result: Err::<(), rand_core::Error>(error),
                    },
                    self.0,
                ));
                assert(fails_with(old(self).0, old(dst)@, dst@, out, self.0));
                Err(out)
            },
        }
    }
}

impl<T: RngCore05 + CryptoRng05> CryptoRng06 for Rng05<T> {

}

/// The 0.6 generation has the same calls, so each is handed on as it is,
/// and the error of a failed fill is translated.
impl<T: RngCore05> RngCore06 for TryRng05<T> {
    open spec fn step(pre: Self, event: Event<rand_core::Error>, post: Self) -> bool {
        match event {
            Event::TryFillBytes { before, after, result: Err(out) } => fails_with(
                pre.0,
                before,
                after,
                out,
                post.0,
            ),
            _ => T::step(pre.0, event, post.0),
        }
    }

    fn next_u32(&mut self) -> (out: u32) {
        self.0.next_u32()
    }

    fn next_u64(&mut self) -> (out: u64) {
        self.0.next_u64()
    }

    fn fill_bytes(&mut self, dst: &mut [u8]) {
        self.0.fill_bytes(dst)
    }

    fn try_fill_bytes(&mut self, dst: &mut [u8]) -> (result: Result<(), rand_core::Error>) {
        let filled = self.0.try_fill_bytes(dst);
        match filled {
            Ok(done) => Ok(done),
            Err(error) => {
                let out = rand_core::Error::from(Error05(error));
                assert(T::step(
                    old(self).0,
                    Event::TryFillBytes {
                        before: old(dst)@,
                        after: dst@,
                        result: Err::<(), rand_core::Error>(error),
                    },
                    self.0,
                ));
                assert(fails_with(old(self).0, old(dst)@, dst@, out, self.0));
                Err(out)
            },
        }
    }
}

impl<T: RngCore05 + CryptoRng05> CryptoRng06 for TryRng05<T> {

}

/// The 0.9 generation has no fill that reports failure; its three calls
/// are handed on as they are.
impl<T: RngCore05> RngCore09 for Rng05<T> {
    open spec fn step(pre: Self, event: Event<Infallible>, post: Self) -> bool {
        match plain::<rand_core::Error>(event) {
            Some(inner) => T::step(pre.0, inner, post.0),
            None => false,
        }
    }

    fn next_u32(&mut self) -> (out: u32) {
        self.0.next_u32()
    }

    fn next_u64(&mut self) -> (out: u64) {
        self.0.next_u64()
    }

    fn fill_bytes(&mut self, dst: &mut [u8]) {
        self.0.fill_bytes(dst)
    }
}

impl<T: RngCore05 + CryptoRng05> CryptoRng09 for Rng05<T> {

}

/// The fallible interface of the 0.9 generation. The 0.5 generation has no
/// call that gives an integer or a failure, so `try_next_u32` and
/// `try_next_u64` fill a scratch buffer of zeros with `try_fill_bytes` and
/// read it in little-endian order. Errors are handed on unchanged.
impl<T: RngCore05> TryRngCore09 for TryRng05<T> {
    type Error = rand_core::Error;

    open spec fn step(pre: Self, event: Event<rand_core::Error>, post: Self) -> bool {
        match event {
            Event::TryFillBytes { .. } => T::step(pre.0, event, post.0),
            Event::TryNextU32 { result } => exists|after: Seq<u8>, filled: Result<(), rand_core::Error>|
                {
                    &&& after.len() == 4
                    &&& #[trigger] T::step(
                        pre.0,
                        Event::TryFillBytes { before: zeros(4), after, result: filled },
                        post.0,
                    )
                    &&& decodes_u32(filled, after, result)
                },
            Event::TryNextU64 { result } => exists|after: Seq<u8>, filled: Result<(), rand_core::Error>|
                {
                    &&& after.len() == 8
                    &&& #[trigger] T::step(
                        pre.0,
                        Event::TryFillBytes { before: zeros(8), after, result: filled },
                        post.0,
                    )
                    &&& decodes_u64(filled, after, result)
                },
            _ => false,
        }
    }

    fn try_next_u32(&mut self) -> (result: Result<u32, rand_core::Error>) {
        let mut buf: [u8; 4] = [0u8; 4];
        assert(buf@ =~= zeros(4));
        let filled = self.0.try_fill_bytes(&mut buf);
        let ghost inner = Event::TryFillBytes { before: zeros(4), after: buf@, result: filled };
        assert(T::step(old(self).0, inner, self.0));
        match filled {
            Ok(_) => {
                let value = u32_from_le(&buf);
                assert(decodes_u32(filled, buf@, Ok::<u32, rand_core::Error>(value)));
                Ok(value)
            },
            Err(error) => {
                assert(decodes_u32(filled, buf@, Err::<u32, rand_core::Error>(error)));
                Err(error)
            },
        }
    }

    fn try_next_u64(&mut self) -> (result: Result<u64, rand_core::Error>) {
        let mut buf: [u8; 8] = [0u8; 8];
        assert(buf@ =~= zeros(8));
        let filled = self.0.try_fill_bytes(&mut buf);
        let ghost inner = Event::TryFillBytes { before: zeros(8), after: buf@, result: filled };
        assert(T::step(old(self).0, inner, self.0));
        match filled {
            Ok(_) => {
                let value = u64_from_le(&buf);
                assert(decodes_u64(filled, buf@, Ok::<u64, rand_core::Error>(value)));
                Ok(value)
            },
            Err(error) => {
                assert(decodes_u64(filled, buf@, Err::<u64, rand_core::Error>(error)));
                Err(error)
            },
        }
    }

    fn try_fill_bytes(&mut self, dst: &mut [u8]) -> (result: Result<(), rand_core::Error>) {
        self.0.try_fill_bytes(dst)
    }
}

impl<T: RngCore05 + CryptoRng05> TryCryptoRng09 for TryRng05<T> {

}

impl<T: RngCore05> Rng05<T> {
    /// The wrapped sources of a sequence of wrappers.
    pub open spec fn sources(states: Seq<Self>) -> Seq<T> {
        Seq::new(states.len(), |i: int| states[i].0)
    }

    /// One call of the wrapper, as a source of the 0.6 generation, is one
    /// call of the wrapped source with the same answer, but that the error of
    /// a failed fill is translated.
    pub proof fn lemma_step_passes_on(pre: Self, event: Event<rand_core::Error>, post: Self)
        ensures
            <Self as RngCore06>::step(pre, event, post) <==> exists|inner: Event<rand_core::Error>| #[trigger]
                T::step(pre.0, inner, post.0) && passes_on(inner, event),
    {
        if <Self as RngCore06>::step(pre, event, post) {
            match event {
                Event::TryFillBytes { before, after, result: Err(out) } => {
                    let error = choose|error: rand_core::Error| #[trigger]
                        T::step(
                            pre.0,
                            Event::TryFillBytes { before, after, result: Err(error) },
                            post.0,
                        ) && translates(error, ErrorMode::Minimal, out);
                    let inner = Event::TryFillBytes { before, after, result: Err(error) };
                    assert(T::step(pre.0, inner, post.0) && passes_on(inner, event));
                },
                _ => {
                    assert(T::step(pre.0, event, post.0) && passes_on(event, event));
                },
            }
        }
        if exists|inner: Event<rand_core::Error>| #[trigger]
            T::step(pre.0, inner, post.0) && passes_on(inner, event) {
            let inner = choose|inner: Event<rand_core::Error>| #[trigger]
                T::step(pre.0, inner, post.0) && passes_on(inner, event);
            assert(T::step(pre.0, inner, post.0));
            assert(passes_on(inner, event));
            match inner {
                Event::TryFillBytes { before, after, result: Err(error) } => {
                    assert(T::step(
                        pre.0,
                        Event::TryFillBytes { before, after, result: Err(error) },
                        post.0,
                    ));
                },
                _ => {
                    assert(event == inner);
                },
            }
        }
    }

    /// Calls made one after another of the wrapper, as a source of the 0.6
    /// generation, are calls made one after another of the wrapped source:
    /// the same calls in the same order, each with the same answer, but that
    /// the error of a failed fill is translated. And whatever the wrapped
    /// source may do, the wrapper may do.
    pub proof fn lemma_forwards_to_06(states: Seq<Self>, events: Seq<Event<rand_core::Error>>)
        ensures
            runs06::<Self>(states, events) <==> exists|inner: Seq<Event<rand_core::Error>>|
                runs05::<T>(Self::sources(states), inner) && #[trigger] all_pass_on(inner, events),
    {
        let sources = Self::sources(states);
        if runs06::<Self>(states, events) {
            let inner = Seq::new(
                events.len(),
                |i: int|
                    choose|event: Event<rand_core::Error>| #[trigger]
                        T::step(states[i].0, event, states[i + 1].0) && passes_on(event, events[i]),
            );
            assert forall|i: int| 0 <= i < inner.len() implies passes_on(
                #[trigger] inner[i],
                events[i],
            ) && T::step(sources[i], inner[i], sources[i + 1]) by {
                assert(<Self as RngCore06>::step(states[i], events[i], states[i + 1]));
                Self::lemma_step_passes_on(states[i], events[i], states[i + 1]);
            }
            assert(runs05::<T>(sources, inner) && all_pass_on(inner, events));
        }
        if exists|inner: Seq<Event<rand_core::Error>>|
            runs05::<T>(sources, inner) && #[trigger] all_pass_on(inner, events) {
            let inner = choose|inner: Seq<Event<rand_core::Error>>|
                runs05::<T>(sources, inner) && #[trigger] all_pass_on(inner, events);
            assert forall|i: int| 0 <= i < events.len() implies <Self as RngCore06>::step(
                states[i],
                #[trigger] events[i],
                states[i + 1],
            ) by {
                assert(T::step(sources[i], inner[i], sources[i + 1]));
                assert(passes_on(inner[i], events[i]));
                Self::lemma_step_passes_on(states[i], events[i], states[i + 1]);
            }
        }
    }

    /// Calls made one after another of the wrapper, as a source of the 0.9
    /// generation, are the same calls made of the wrapped source, each with
    /// the same answer.
    pub proof fn lemma_forwards_to_09(states: Seq<Self>, events: Seq<Event<Infallible>>)
        ensures
            runs09::<Self>(states, events) <==> exists|inner: Seq<Event<rand_core::Error>>|
                runs05::<T>(Self::sources(states), inner) && #[trigger] all_plain(inner, events),
    {
        let sources = Self::sources(states);
        if runs09::<Self>(states, events) {
            let inner = Seq::new(
                events.len(),
                |i: int| plain::<rand_core::Error>(events[i]).unwrap(),
            );
            assert forall|i: int| 0 <= i < inner.len() implies plain::<rand_core::Error>(events[i])
                == Some(#[trigger] inner[i]) && T::step(sources[i], inner[i], sources[i + 1]) by {
                assert(<Self as RngCore09>::step(states[i], events[i], states[i + 1]));
            }
            assert(runs05::<T>(sources, inner) && all_plain(inner, events));
        }
        if exists|inner: Seq<Event<rand_core::Error>>|
            runs05::<T>(sources, inner) && #[trigger] all_plain(inner, events) {
            let inner = choose|inner: Seq<Event<rand_core::Error>>|
                runs05::<T>(sources, inner) && #[trigger] all_plain(inner, events);
            assert forall|i: int| 0 <= i < events.len() implies <Self as RngCore09>::step(
                states[i],
                #[trigger] events[i],
                states[i + 1],
            ) by {
                assert(T::step(sources[i], inner[i], sources[i + 1]));
                assert(plain::<rand_core::Error>(events[i]) == Some(inner[i]));
            }
        }
    }
}

impl<T: RngCore05> TryRng05<T> {
    /// The wrapped sources of a sequence of wrappers.
    pub open spec fn sources(states: Seq<Self>) -> Seq<T> {
        Seq::new(states.len(), |i: int| states[i].0)
    }

    /// One call of the wrapper, as a source of the 0.6 generation, is one
    /// call of the wrapped source with the same answer, but that the error of
    /// a failed fill is translated.
    pub proof fn lemma_step_passes_on(pre: Self, event: Event<rand_core::Error>, post: Self)
        ensures
            <Self as RngCore06>::step(pre, event, post) <==> exists|inner: Event<rand_core::Error>| #[trigger]
                T::step(pre.0, inner, post.0) && passes_on(inner, event),
    {
        if <Self as RngCore06>::step(pre, event, post) {
            match event {
                Event::TryFillBytes { before, after, result: Err(out) } => {
                    let error = choose|error: rand_core::Error| #[trigger]
                        T::step(
                            pre.0,
                            Event::TryFillBytes { before, after, result: Err(error) },
                            post.0,
                        ) && translates(error, ErrorMode::Minimal, out);
                    let inner = Event::TryFillBytes { before, after, result: Err(error) };
                    assert(T::step(pre.0, inner, post.0) && passes_on(inner, event));
                },
                _ => {
                    assert(T::step(pre.0, event, post.0) && passes_on(event, event));
                },
            }
        }
        if exists|inner: Event<rand_core::Error>| #[trigger]
            T::step(pre.0, inner, post.0) && passes_on(inner, event) {
            let inner = choose|inner: Event<rand_core::Error>| #[trigger]
                T::step(pre.0, inner, post.0) && passes_on(inner, event);
            assert(T::step(pre.0, inner, post.0));
            assert(passes_on(inner, event));
            match inner {
                Event::TryFillBytes { before, after, result: Err(error) } => {
                    assert(T::step(
                        pre.0,
                        Event::TryFillBytes { before, after, result: Err(error) },
                        post.0,
                    ));
                },
                _ => {
                    assert(event == inner);
                },
            }
        }
    }

    /// Calls made one after another of the wrapper, as a source of the 0.6
    /// generation, are calls made one after another of the wrapped source:
    /// the same calls in the same order, each with the same answer, but that
    /// the error of a failed fill is translated. And whatever the wrapped
    /// source may do, the wrapper may do.
    pub proof fn lemma_forwards_to_06(states: Seq<Self>, events: Seq<Event<rand_core::Error>>)
        ensures
            runs06::<Self>(states, events) <==> exists|inner: Seq<Event<rand_core::Error>>|
                runs05::<T>(Self::sources(states), inner) && #[trigger] all_pass_on(inner, events),
    {
        let sources = Self::sources(states);
        if runs06::<Self>(states, events) {
            let inner = Seq::new(
                events.len(),
                |i: int|
                    choose|event: Event<rand_core::Error>| #[trigger]
                        T::step(states[i].0, event, states[i + 1].0) && passes_on(event, events[i]),
            );
            assert forall|i: int| 0 <= i < inner.len() implies passes_on(
                #[trigger] inner[i],
                events[i],
            ) && T::step(sources[i], inner[i], sources[i + 1]) by {
                assert(<Self as RngCore06>::step(states[i], events[i], states[i + 1]));
                Self::lemma_step_passes_on(states[i], events[i], states[i + 1]);
            }
            assert(runs05::<T>(sources, inner) && all_pass_on(inner, events));
        }
        if exists|inner: Seq<Event<rand_core::Error>>|
            runs05::<T>(sources, inner) && #[trigger] all_pass_on(inner, events) {
            let inner = choose|inner: Seq<Event<rand_core::Error>>|
                runs05::<T>(sources, inner) && #[trigger] all_pass_on(inner, events);
            assert forall|i: int| 0 <= i < events.len() implies <Self as RngCore06>::step(
                states[i],
                #[trigger] events[i],
                states[i + 1],
            ) by {
                assert(T::step(sources[i], inner[i], sources[i + 1]));
                assert(passes_on(inner[i], events[i]));
                Self::lemma_step_passes_on(states[i], events[i], states[i + 1]);
            }
        }
    }
}

} // verus!
