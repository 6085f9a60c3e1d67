use rand_core_compat::error::{translate, translate_code};
use rand_core_compat::{Error05, Error06, Error09, ErrorMode, OS_ERROR_0, UNKNOWN};
use std::num::NonZeroU32;

fn with_code(code: u32) -> rand_core::Error {
    rand_core::Error::from(NonZeroU32::new(code).unwrap())
}

fn with_platform_code(raw: i32) -> rand_core::Error {
    rand_core::Error::new(std::io::Error::from_raw_os_error(raw))
}

fn without_code() -> rand_core::Error {
    rand_core::Error::new("no code at all")
}

fn code(error: &rand_core::Error) -> Option<u32> {
    error.code().map(|c| c.get())
}

#[test]
fn sentinel_values() {
    assert_eq!(UNKNOWN, 3222222222);
    assert_eq!(OS_ERROR_0, 3222222223);
    assert_ne!(UNKNOWN, 0);
    assert_ne!(OS_ERROR_0, 0);
    assert_ne!(UNKNOWN, OS_ERROR_0);
}

#[test]
fn translate_code_prefers_custom_code() {
    assert_eq!(translate_code(Some(42), None), 42);
    assert_eq!(translate_code(Some(42), Some(5)), 42);
    assert_eq!(translate_code(Some(42), Some(0)), 42);
}

#[test]
fn translate_code_maps_platform_code() {
    assert_eq!(translate_code(None, Some(5)), 5);
    assert_eq!(translate_code(None, Some(i32::MAX)), 0x7fff_ffff);
    assert_eq!(translate_code(None, Some(-1)), 0xffff_ffff);
    assert_eq!(translate_code(None, Some(i32::MIN)), 0x8000_0000);
}

#[test]
fn translate_code_remaps_platform_zero() {
    assert_eq!(translate_code(None, Some(0)), OS_ERROR_0);
    assert_eq!(translate_code(None, Some(0)), 3222222223);
}

#[test]
fn translate_code_falls_back_to_unknown() {
    assert_eq!(translate_code(None, None), UNKNOWN);
    assert_eq!(translate_code(None, None), 3222222222);
}

#[test]
fn minimal_translation_keeps_custom_code() {
    let out = translate(with_code(42), ErrorMode::Minimal);
    assert_eq!(code(&out), Some(42));
}

#[test]
fn minimal_translation_of_platform_code() {
    let out = translate(with_platform_code(5), ErrorMode::Minimal);
    assert_eq!(code(&out), Some(5));
    assert_eq!(out.raw_os_error(), Some(5));
}

#[test]
fn minimal_translation_of_platform_zero() {
    let out = translate(with_platform_code(0), ErrorMode::Minimal);
    assert_eq!(code(&out), Some(OS_ERROR_0));
    assert_ne!(code(&out), Some(UNKNOWN));
    assert_ne!(code(&out), None);
}

#[test]
fn minimal_translation_without_any_code() {
    let out = translate(without_code(), ErrorMode::Minimal);
    assert_eq!(code(&out), Some(UNKNOWN));
}

#[test]
fn minimal_translation_twice_is_stable() {
    let once = translate(with_platform_code(0), ErrorMode::Minimal);
    let first = code(&once);
    let twice = translate(once, ErrorMode::Minimal);
    assert_eq!(code(&twice), first);
}

#[test]
fn rich_translation_keeps_the_object() {
    let out = translate(with_platform_code(0), ErrorMode::Rich);
    assert_eq!(code(&out), None);
    assert_eq!(out.raw_os_error(), Some(0));
    assert!(out.inner().downcast_ref::<std::io::Error>().is_some());

    let out = translate(with_code(42), ErrorMode::Rich);
    assert_eq!(code(&out), Some(42));

    let out = translate(without_code(), ErrorMode::Rich);
    assert_eq!(code(&out), None);
    assert_eq!(out.raw_os_error(), None);
    assert_eq!(format!("{}", out), "no code at all");
}

#[test]
fn error05_converts_by_code() {
    let out = rand_core::Error::from(Error05(with_code(42)));
    assert_eq!(code(&out), Some(42));
    let out: rand_core::Error = Error05(with_platform_code(0)).into();
    assert_eq!(code(&out), Some(OS_ERROR_0));
    let out: rand_core::Error = Error05(without_code()).into();
    assert_eq!(code(&out), Some(UNKNOWN));
}

#[test]
fn error06_converts_by_code() {
    let out = rand_core::Error::from(Error06(with_code(42)));
    assert_eq!(code(&out), Some(42));
    let out: rand_core::Error = Error06(with_platform_code(11)).into();
    assert_eq!(code(&out), Some(11));
    let out: rand_core::Error = Error06(with_platform_code(0)).into();
    assert_eq!(code(&out), Some(OS_ERROR_0));
    let out: rand_core::Error = Error06(without_code()).into();
    assert_eq!(code(&out), Some(UNKNOWN));
}

#[test]
fn error09_converts_to_unknown() {
    let out = rand_core::Error::from(Error09("anything"));
    assert_eq!(code(&out), Some(UNKNOWN));
    let out = rand_core::Error::from(Error09(42u32));
    assert_eq!(code(&out), Some(UNKNOWN));
    let out = rand_core::Error::from(Error09(with_code(42)));
    assert_eq!(code(&out), Some(UNKNOWN));
}

#[test]
fn error09_shows_the_wrapped_error() {
    assert_eq!(Error09("out of entropy").to_string(), "out of entropy");
    assert_eq!(Error09(7u32).to_string(), "7");
}
