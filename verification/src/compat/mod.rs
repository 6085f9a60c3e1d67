//! The adapters, one module for each generation that a source may be of.

use vstd::prelude::*;
use core::convert::Infallible;
use crate::error::{translates, ErrorMode};
use crate::le::le_value;
use crate::source::Event;

pub mod v0_5;
pub mod v0_6;
pub mod v0_9;

verus! {

/// Whether `outer` is what an adapter between the 0.5 and 0.6 generations
/// reports when the source it wraps went through `inner`: the same event,
/// but that the error of a failed fill is translated by its code.
pub open spec fn passes_on(inner: Event<rand_core::Error>, outer: Event<rand_core::Error>) -> bool {
    match inner {
        Event::TryFillBytes { before, after, result: Err(error) } => match outer {
            Event::TryFillBytes { before: outer_before, after: outer_after, result: Err(out) } => {
                &&& outer_before == before
                &&& outer_after == after
                &&& translates(error, ErrorMode::Minimal, out)
            },
            _ => false,
        },
        _ => outer == inner,
    }
}

/// One of the three calls that no generation lets fail, as the event of a
/// source that reports failures in `E`. Other events have no such form.
pub open spec fn plain<E>(event: Event<Infallible>) -> Option<Event<E>> {
    match event {
        Event::NextU32 { out } => Some(Event::NextU32 { out }),
        Event::NextU64 { out } => Some(Event::NextU64 { out }),
        Event::FillBytes { before, after } => Some(Event::FillBytes { before, after }),
        _ => None,
    }
}

/// Whether `result` is what is made of a fill of a four-byte scratch
/// buffer: the bytes it left read in little-endian order, or its error.
pub open spec fn decodes_u32<E>(filled: Result<(), E>, bytes: Seq<u8>, result: Result<u32, E>) -> bool {
    match filled {
        Ok(_) => result matches Ok(value) && value == le_value(bytes),
        Err(error) => result == Err::<u32, E>(error),
    }
}

/// Whether `result` is what is made of a fill of an eight-byte scratch
/// buffer: the bytes it left read in little-endian order, or its error.
pub open spec fn decodes_u64<E>(filled: Result<(), E>, bytes: Seq<u8>, result: Result<u64, E>) -> bool {
    match filled {
        Ok(_) => result matches Ok(value) && value == le_value(bytes),
        Err(error) => result == Err::<u64, E>(error),
    }
}

/// A buffer of `len` zero bytes.
pub open spec fn zeros(len: nat) -> Seq<u8> {
    Seq::new(len, |i: int| 0u8)
}

/// Whether each event of `outer` is what an adapter between the 0.5 and
/// 0.6 generations reports for the event of `inner` in the same place.
pub open spec fn all_pass_on(inner: Seq<Event<rand_core::Error>>, outer: Seq<Event<rand_core::Error>>) -> bool {
    &&& inner.len() == outer.len()
    &&& forall|i: int| 0 <= i < inner.len() ==> passes_on(#[trigger] inner[i], outer[i])
}

/// Whether each event of `outer` is one of the three calls that cannot
/// fail, and `inner` holds the same events.
pub open spec fn all_plain<E>(inner: Seq<Event<E>>, outer: Seq<Event<Infallible>>) -> bool {
    &&& inner.len() == outer.len()
    &&& forall|i: int| 0 <= i < inner.len() ==> plain::<E>(outer[i]) == Some(#[trigger] inner[i])
}

/// The event of an infallible source behind an event of the 0.5 or 0.6
/// generation: one of the three calls that cannot fail, or the fill behind
/// a `try_fill_bytes` that reported success. Other events have none.
pub open spec fn unfailing(event: Event<rand_core::Error>) -> Option<Event<Infallible>> {
    match event {
        Event::NextU32 { out } => Some(Event::NextU32 { out }),
        Event::NextU64 { out } => Some(Event::NextU64 { out }),
        Event::FillBytes { before, after } => Some(Event::FillBytes { before, after }),
        Event::TryFillBytes { before, after, result: Ok(_) } => Some(
            Event::FillBytes { before, after },
        ),
        _ => None,
    }
}

/// Whether each event of `outer` has the event of `inner` in the same place
/// behind it.
pub open spec fn all_unfailing(inner: Seq<Event<Infallible>>, outer: Seq<Event<rand_core::Error>>) -> bool {
    &&& inner.len() == outer.len()
    &&& forall|i: int| 0 <= i < inner.len() ==> unfailing(outer[i]) == Some(#[trigger] inner[i])
}

} // verus!
