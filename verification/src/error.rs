//! Reserved error codes and the translation of error values.
//!
//! An error of the 0.5 and 0.6 generations is a `rand_core::Error`. Of such a
//! value the translation reads two things, its custom code and its raw
//! platform code, and in its code-only mode it builds the new error from one
//! number chosen among them.

use vstd::prelude::*;

verus! {

/// Error code used when no code could be extracted from the error that is
/// translated.
pub const UNKNOWN: u32 = 3222222222;

/// Error code used when the platform code of the error that is translated
/// was 0.
pub const OS_ERROR_0: u32 = 3222222223;

#[verifier::external_type_specification]
#[verifier::external_body]
pub struct ExError(rand_core::Error);

/// What `rand_core::Error::code` returns for `error`, as a plain number.
pub uninterp spec fn error_code(error: rand_core::Error) -> Option<u32>;

/// What `rand_core::Error::raw_os_error` returns for `error`.
pub uninterp spec fn error_raw_os(error: rand_core::Error) -> Option<i32>;

/// Calls `rand_core::Error::code`. The code it finds is a `NonZeroU32`, so
/// the number handed back is never 0.
#[verifier::external_body]
pub(crate) fn code_of(error: &rand_core::Error) -> (code: Option<u32>)
    ensures
        code == error_code(*error),
        code != Some(0u32),
{
    match error.code() {
        Some(code) => Some(code.get()),
        None => None,
    }
}

/// Calls `rand_core::Error::raw_os_error`.
#[verifier::external_body]
pub(crate) fn raw_os_error_of(error: &rand_core::Error) -> (raw: Option<i32>)
    ensures
        raw == error_raw_os(*error),
{
    error.raw_os_error()
}

/// Calls `From<NonZeroU32>` of `rand_core::Error`. An error built this way
/// holds the code, and `code` gives it back.
#[verifier::external_body]
pub(crate) fn error_from_code(code: u32) -> (out: rand_core::Error)
    requires
        code != 0,
    ensures
        error_code(out) == Some(code),
{
    rand_core::Error::from(core::num::NonZeroU32::new(code).unwrap())
}

/// Calls `rand_core::Error::take_inner` and hands the boxed error to
/// `rand_core::Error::new`. The new error holds the very object the old one
/// held, so both of its codes read as before.
#[verifier::external_body]
pub(crate) fn rewrap(error: rand_core::Error) -> (out: rand_core::Error)
    ensures
        error_code(out) == error_code(error),
        error_raw_os(out) == error_raw_os(error),
{
    rand_core::Error::new(error.take_inner())
}

/// The unsigned number with the bit pattern of `raw`.
pub open spec fn os_code(raw: i32) -> u32 {
    if raw < 0 {
        (raw + 0x1_0000_0000) as u32
    } else {
        raw as u32
    }
}

/// The one code that stands for an error in code-only mode: its custom code
/// if it has one; else its platform code, with `OS_ERROR_0` in place of 0;
/// else `UNKNOWN`.
pub open spec fn translated_code(code: Option<u32>, raw_os_error: Option<i32>) -> u32 {
    match code {
        Some(c) => c,
        None => match raw_os_error {
            Some(raw) => if raw == 0 {
                OS_ERROR_0
            } else {
                os_code(raw)
            },
            None => UNKNOWN,
        },
    }
}

/// Chooses the code under which an error with these two readings is passed on.
pub fn translate_code(code: Option<u32>, raw_os_error: Option<i32>) -> (out: u32)
    ensures
        out == translated_code(code, raw_os_error),
        code != Some(0u32) ==> out != 0,
{
    if let Some(c) = code {
        return c;
    }
    if let Some(raw) = raw_os_error {
        if raw == 0 {
            return OS_ERROR_0;
        }
        if raw < 0 {
            let wide: i64 = raw as i64 + 0x1_0000_0000;
            return wide as u32;
        }
        return raw as u32;
    }
    UNKNOWN
}

/// How much of an error its translation keeps.
#[derive(Clone, Copy, Debug, PartialEq, Eq)]
pub enum ErrorMode {
    /// The new error holds the whole object that the old one held.
    Rich,
    /// The new error holds one code.
    Minimal,
}

/// Whether `out` is a translation of `error` in `mode`.
pub open spec fn translates(error: rand_core::Error, mode: ErrorMode, out: rand_core::Error) -> bool {
    match mode {
        ErrorMode::Rich => error_code(out) == error_code(error) && error_raw_os(out) == error_raw_os(
            error,
        ),
        ErrorMode::Minimal => error_code(out) == Some(
            translated_code(error_code(error), error_raw_os(error)),
        ),
    }
}

/// Translates an error of one generation into an error of another. It
/// always succeeds.
pub fn translate(error: rand_core::Error, mode: ErrorMode) -> (out: rand_core::Error)
    ensures
        translates(error, mode, out),
{
    match mode {
        ErrorMode::Rich => rewrap(error),
        ErrorMode::Minimal => {
            let code = code_of(&error);
            let raw = raw_os_error_of(&error);
            error_from_code(translate_code(code, raw))
        },
    }
}

/// Translation never fails and never leaves the new error without a code:
/// in code-only mode the code is there and is not 0, whatever the old error
/// held.
pub proof fn lemma_translation_has_code(error: rand_core::Error, out: rand_core::Error)
    requires
        translates(error, ErrorMode::Minimal, out),
        error_code(error) != Some(0u32),
    ensures
        error_code(out) is Some,
        error_code(out) != Some(0u32),
{
}

/// An error that carries a custom code is translated into an error that
/// carries the same code, whatever its platform code.
pub proof fn lemma_custom_code_is_kept(error: rand_core::Error, out: rand_core::Error, code: u32)
    requires
        translates(error, ErrorMode::Minimal, out),
        error_code(error) == Some(code),
    ensures
        error_code(out) == Some(code),
{
}

/// An error without a custom code whose platform code is 0 is translated
/// into an error with the code `OS_ERROR_0`. This differs from the code of
/// an error that held no code at all, which is `UNKNOWN`.
pub proof fn lemma_platform_zero_is_told_apart(
    error: rand_core::Error,
    out: rand_core::Error,
    bare: rand_core::Error,
    bare_out: rand_core::Error,
)
    requires
        translates(error, ErrorMode::Minimal, out),
        error_code(error) is None,
        error_raw_os(error) == Some(0i32),
        translates(bare, ErrorMode::Minimal, bare_out),
        error_code(bare) is None,
        error_raw_os(bare) is None,
    ensures
        error_code(out) == Some(OS_ERROR_0),
        error_code(bare_out) == Some(UNKNOWN),
        error_code(out) != error_code(bare_out),
{
}

/// An error without a custom code whose platform code is not 0 is
/// translated into an error whose code has the bit pattern of the platform
/// code.
pub proof fn lemma_platform_code_is_kept(error: rand_core::Error, out: rand_core::Error, raw: i32)
    requires
        translates(error, ErrorMode::Minimal, out),
        error_code(error) is None,
        error_raw_os(error) == Some(raw),
        raw != 0,
    ensures
        error_code(out) == Some(os_code(raw)),
        os_code(raw) != 0,
{
}

/// To translate by code a second time changes nothing: the code of an error
/// that came out of a translation is the code that a translation of it gives.
pub proof fn lemma_translation_is_stable(
    error: rand_core::Error,
    once: rand_core::Error,
    twice: rand_core::Error,
)
    requires
        translates(error, ErrorMode::Minimal, once),
        translates(once, ErrorMode::Minimal, twice),
    ensures
        error_code(twice) == error_code(once),
{
}

} // verus!
