use rand_core_compat::{
    Fatal, Rng05, Rng06, Rng09, RngCore05, RngCore06, RngCore09, TryRng05, TryRng06, TryRng09,
    TryRngCore09, OS_ERROR_0, UNKNOWN,
};
use std::fmt;
use std::num::NonZeroU32;

/// Counts upwards; its fill fails from call `fail_at` on (counted from 1),
/// with the error that `failure` names.
#[derive(Clone)]
struct Counting {
    next: u8,
    fills: u32,
    fail_at: u32,
    failure: Failure,
}

#[derive(Clone, Copy)]
enum Failure {
    Code(u32),
    Platform(i32),
    Bare,
}

impl Counting {
    fn new() -> Self {
        Counting { next: 1, fills: 0, fail_at: u32::MAX, failure: Failure::Bare }
    }

    fn failing_at(fail_at: u32, failure: Failure) -> Self {
        Counting { next: 1, fills: 0, fail_at, failure }
    }

    fn byte(&mut self) -> u8 {
        let b = self.next;
        self.next = self.next.wrapping_add(1);
        b
    }

    fn word(&mut self) -> u32 {
        let w = self.next as u32;
        self.next = self.next.wrapping_add(1);
        w
    }

    fn fill(&mut self, dst: &mut [u8]) {
        for b in dst.iter_mut() {
            *b = self.byte();
        }
    }

    fn try_fill(&mut self, dst: &mut [u8]) -> Result<(), rand_core::Error> {
        self.fills += 1;
        if self.fills >= self.fail_at {
            return Err(match self.failure {
                Failure::Code(c) => rand_core::Error::from(NonZeroU32::new(c).unwrap()),
                Failure::Platform(raw) => {
                    rand_core::Error::new(std::io::Error::from_raw_os_error(raw))
                }
                Failure::Bare => rand_core::Error::new("no code"),
            });
        }
        self.fill(dst);
        Ok(())
    }
}

impl RngCore05 for Counting {
    fn next_u32(&mut self) -> u32 {
        self.word()
    }
    fn next_u64(&mut self) -> u64 {
        self.word() as u64 * 1000
    }
    fn fill_bytes(&mut self, dst: &mut [u8]) {
        self.fill(dst)
    }
    fn try_fill_bytes(&mut self, dst: &mut [u8]) -> Result<(), rand_core::Error> {
        self.try_fill(dst)
    }
}

impl RngCore06 for Counting {
    fn next_u32(&mut self) -> u32 {
        self.word()
    }
    fn next_u64(&mut self) -> u64 {
        self.word() as u64 * 1000
    }
    fn fill_bytes(&mut self, dst: &mut [u8]) {
        self.fill(dst)
    }
    fn try_fill_bytes(&mut self, dst: &mut [u8]) -> Result<(), rand_core::Error> {
        self.try_fill(dst)
    }
}

impl RngCore09 for Counting {
    fn next_u32(&mut self) -> u32 {
        self.word()
    }
    fn next_u64(&mut self) -> u64 {
        self.word() as u64 * 1000
    }
    fn fill_bytes(&mut self, dst: &mut [u8]) {
        self.fill(dst)
    }
}

/// The error of the scripted fallible source.
#[derive(Debug, Clone, PartialEq)]
struct Coded(u32);

impl fmt::Display for Coded {
    fn fmt(&self, f: &mut fmt::Formatter<'_>) -> fmt::Result {
        f.write_str(&format!("code {}", self.0))
    }
}

/// Answers each fill from a script: the bytes to give, or the code to fail
/// with.
struct Scripted {
    script: Vec<Result<Vec<u8>, u32>>,
    at: usize,
}

impl Scripted {
    fn new(script: Vec<Result<Vec<u8>, u32>>) -> Self {
        Scripted { script, at: 0 }
    }
}

impl TryRngCore09 for Scripted {
    type Error = Coded;

    fn try_next_u32(&mut self) -> Result<u32, Coded> {
        Ok(0xdead_beef)
    }
    fn try_next_u64(&mut self) -> Result<u64, Coded> {
        Ok(0xdead_beef_dead_beef)
    }
    fn try_fill_bytes(&mut self, dst: &mut [u8]) -> Result<(), Coded> {
        let entry = self.script[self.at].clone();
        self.at += 1;
        match entry {
            Ok(bytes) => {
                dst.copy_from_slice(&bytes[..dst.len()]);
                Ok(())
            }
            Err(code) => Err(Coded(code)),
        }
    }
}

fn code(error: &rand_core::Error) -> Option<u32> {
    error.code().map(|c| c.get())
}

#[test]
fn g5_source_wrapped_as_g6_counts_one_two_three() {
    let mut wrapped = Rng05(Counting::new());
    assert_eq!(RngCore06::next_u32(&mut wrapped), 1);
    assert_eq!(RngCore06::next_u32(&mut wrapped), 2);
    assert_eq!(RngCore06::next_u32(&mut wrapped), 3);
}

#[test]
fn g6_source_wrapped_as_g5_counts_one_two_three() {
    let mut wrapped = Rng06(Counting::new());
    assert_eq!(RngCore05::next_u32(&mut wrapped), 1);
    assert_eq!(RngCore05::next_u32(&mut wrapped), 2);
    assert_eq!(RngCore05::next_u32(&mut wrapped), 3);
}

#[test]
fn fallible_g9_source_that_fails_on_its_second_fill() {
    let script = || vec![Ok(vec![0x01, 0x02, 0x03, 0x04]), Err(7)];

    let mut wrapped = TryRng09(Scripted::new(script()));
    let mut buf = [0u8; 4];
    assert!(wrapped.fill_bytes(&mut buf).is_ok());
    assert_eq!(buf, [0x01, 0x02, 0x03, 0x04]);
    match wrapped.fill_bytes(&mut buf) {
        Err(Fatal(error)) => assert_eq!(error, Coded(7)),
        Ok(()) => panic!("the second fill must be fatal"),
    }

    let mut wrapped = TryRng09(Scripted::new(script()));
    let mut buf = [0u8; 4];
    assert!(wrapped.try_fill_bytes(&mut buf).is_ok());
    assert_eq!(buf, [0x01, 0x02, 0x03, 0x04]);
    let error = wrapped.try_fill_bytes(&mut buf).unwrap_err();
    assert_eq!(code(&error), Some(UNKNOWN));
}

#[test]
fn same_shape_wrappers_forward_every_call() {
    let mut direct = Counting::new();
    let mut wrapped = Rng05(Counting::new());
    let mut try_wrapped = TryRng05(Counting::new());
    let mut back = Rng06(Counting::new());
    let mut try_back = TryRng06(Counting::new());
    for round in 0..20usize {
        let a = RngCore05::next_u32(&mut direct);
        assert_eq!(RngCore06::next_u32(&mut wrapped), a);
        assert_eq!(RngCore06::next_u32(&mut try_wrapped), a);
        assert_eq!(RngCore05::next_u32(&mut back), a);
        assert_eq!(RngCore05::next_u32(&mut try_back), a);

        let b = RngCore05::next_u64(&mut direct);
        assert_eq!(RngCore06::next_u64(&mut wrapped), b);
        assert_eq!(RngCore06::next_u64(&mut try_wrapped), b);
        assert_eq!(RngCore05::next_u64(&mut back), b);
        assert_eq!(RngCore05::next_u64(&mut try_back), b);

        let mut want = vec![0u8; round];
        RngCore05::fill_bytes(&mut direct, &mut want);
        let mut got = vec![0u8; round];
        RngCore06::fill_bytes(&mut wrapped, &mut got);
        assert_eq!(got, want);
        let mut got = vec![0u8; round];
        RngCore06::fill_bytes(&mut try_wrapped, &mut got);
        assert_eq!(got, want);
        let mut got = vec![0u8; round];
        RngCore05::fill_bytes(&mut back, &mut got);
        assert_eq!(got, want);
        let mut got = vec![0u8; round];
        RngCore05::fill_bytes(&mut try_back, &mut got);
        assert_eq!(got, want);

        let mut want = vec![0u8; round];
        assert!(RngCore05::try_fill_bytes(&mut direct, &mut want).is_ok());
        let mut got = vec![0u8; round];
        assert!(RngCore06::try_fill_bytes(&mut wrapped, &mut got).is_ok());
        assert_eq!(got, want);
        let mut got = vec![0u8; round];
        assert!(RngCore06::try_fill_bytes(&mut try_wrapped, &mut got).is_ok());
        assert_eq!(got, want);
        let mut got = vec![0u8; round];
        assert!(RngCore05::try_fill_bytes(&mut back, &mut got).is_ok());
        assert_eq!(got, want);
        let mut got = vec![0u8; round];
        assert!(RngCore05::try_fill_bytes(&mut try_back, &mut got).is_ok());
        assert_eq!(got, want);
    }
}

#[test]
fn g5_and_g6_wrappers_forward_as_g9() {
    let mut direct = Counting::new();
    let mut from5 = Rng05(Counting::new());
    let mut from6 = Rng06(Counting::new());
    for round in 0..10usize {
        let a = RngCore05::next_u32(&mut direct);
        assert_eq!(RngCore09::next_u32(&mut from5), a);
        assert_eq!(RngCore09::next_u32(&mut from6), a);
        let b = RngCore05::next_u64(&mut direct);
        assert_eq!(RngCore09::next_u64(&mut from5), b);
        assert_eq!(RngCore09::next_u64(&mut from6), b);
        let mut want = vec![0u8; round];
        RngCore05::fill_bytes(&mut direct, &mut want);
        let mut got = vec![0u8; round];
        RngCore09::fill_bytes(&mut from5, &mut got);
        assert_eq!(got, want);
        let mut got = vec![0u8; round];
        RngCore09::fill_bytes(&mut from6, &mut got);
        assert_eq!(got, want);
    }
}

#[test]
fn same_shape_wrapper_translates_the_error_of_a_failed_fill() {
    let mut buf = [0u8; 4];

    let mut wrapped = Rng05(Counting::failing_at(2, Failure::Code(42)));
    assert!(RngCore06::try_fill_bytes(&mut wrapped, &mut buf).is_ok());
    assert_eq!(buf, [1, 2, 3, 4]);
    let error = RngCore06::try_fill_bytes(&mut wrapped, &mut buf).unwrap_err();
    assert_eq!(code(&error), Some(42));

    let mut wrapped = TryRng05(Counting::failing_at(1, Failure::Platform(0)));
    let error = RngCore06::try_fill_bytes(&mut wrapped, &mut buf).unwrap_err();
    assert_eq!(code(&error), Some(OS_ERROR_0));

    let mut wrapped = Rng06(Counting::failing_at(1, Failure::Platform(13)));
    let error = RngCore05::try_fill_bytes(&mut wrapped, &mut buf).unwrap_err();
    assert_eq!(code(&error), Some(13));

    let mut wrapped = TryRng06(Counting::failing_at(1, Failure::Bare));
    let error = RngCore05::try_fill_bytes(&mut wrapped, &mut buf).unwrap_err();
    assert_eq!(code(&error), Some(UNKNOWN));
}

#[test]
fn infallible_source_wrapped_never_fails() {
    for len in 0..70usize {
        let mut direct = Counting::new();
        let mut want = vec![0u8; len];
        RngCore09::fill_bytes(&mut direct, &mut want);

        let mut wrapped = Rng09(Counting::new());
        let mut got = vec![0u8; len];
        assert!(RngCore05::try_fill_bytes(&mut wrapped, &mut got).is_ok());
        assert_eq!(got, want);

        let mut wrapped = Rng09(Counting::new());
        let mut got = vec![0u8; len];
        assert!(RngCore06::try_fill_bytes(&mut wrapped, &mut got).is_ok());
        assert_eq!(got, want);
    }
}

#[test]
fn infallible_source_wrapped_forwards_the_other_calls() {
    let mut direct = Counting::new();
    let mut as5 = Rng09(Counting::new());
    let mut as6 = Rng09(Counting::new());
    for round in 0..10usize {
        let a = RngCore09::next_u32(&mut direct);
        assert_eq!(RngCore05::next_u32(&mut as5), a);
        assert_eq!(RngCore06::next_u32(&mut as6), a);
        let b = RngCore09::next_u64(&mut direct);
        assert_eq!(RngCore05::next_u64(&mut as5), b);
        assert_eq!(RngCore06::next_u64(&mut as6), b);
        let mut want = vec![0u8; round];
        RngCore09::fill_bytes(&mut direct, &mut want);
        let mut got = vec![0u8; round];
        RngCore05::fill_bytes(&mut as5, &mut got);
        assert_eq!(got, want);
        let mut got = vec![0u8; round];
        RngCore06::fill_bytes(&mut as6, &mut got);
        assert_eq!(got, want);
    }
}

#[test]
fn fallible_source_wrapped_is_fatal_from_the_failing_call_on() {
    let chunk = |k: u8| vec![k, k + 1, k + 2];
    for n in 0..5usize {
        let mut script: Vec<Result<Vec<u8>, u32>> = Vec::new();
        for k in 0..n {
            script.push(Ok(chunk(k as u8 * 3)));
        }
        script.push(Err(99));
        let mut wrapped = TryRng09(Scripted::new(script));
        for k in 0..n {
            let mut buf = [0u8; 3];
            assert!(wrapped.fill_bytes(&mut buf).is_ok());
            assert_eq!(buf.to_vec(), chunk(k as u8 * 3));
        }
        let mut buf = [0u8; 3];
        match wrapped.fill_bytes(&mut buf) {
            Err(Fatal(error)) => assert_eq!(error, Coded(99)),
            Ok(()) => panic!("call {} must be fatal", n),
        }
    }
}

#[test]
fn fallible_source_wrapped_derives_integers_from_a_fill() {
    let mut wrapped = TryRng09(Scripted::new(vec![
        Ok(vec![0x01, 0x02, 0x03, 0x04]),
        Ok(vec![0x01, 0x02, 0x03, 0x04, 0x05, 0x06, 0x07, 0x08]),
        Err(5),
        Err(6),
    ]));
    assert_eq!(wrapped.next_u32().ok(), Some(0x0403_0201));
    assert_eq!(wrapped.next_u64().ok(), Some(0x0807_0605_0403_0201));
    match wrapped.next_u32() {
        Err(Fatal(error)) => assert_eq!(error, Coded(5)),
        Ok(_) => panic!("a failed fill must be fatal"),
    }
    match wrapped.next_u64() {
        Err(Fatal(error)) => assert_eq!(error, Coded(6)),
        Ok(_) => panic!("a failed fill must be fatal"),
    }
}

#[test]
fn try_next_is_little_endian_of_the_fill() {
    let mut wrapped = TryRng05(Counting::new());
    assert_eq!(TryRngCore09::try_next_u32(&mut wrapped).unwrap(), 0x0403_0201);
    assert_eq!(
        TryRngCore09::try_next_u64(&mut wrapped).unwrap(),
        0x0c0b_0a09_0807_0605
    );
    let mut wrapped = TryRng06(Counting::new());
    assert_eq!(TryRngCore09::try_next_u64(&mut wrapped).unwrap(), 0x0807_0605_0403_0201);
    assert_eq!(TryRngCore09::try_next_u32(&mut wrapped).unwrap(), 0x0c0b_0a09);

    let mut direct = Counting::new();
    let mut wrapped = TryRng05(Counting::new());
    for _ in 0..50 {
        let mut four = [0u8; 4];
        RngCore05::try_fill_bytes(&mut direct, &mut four).unwrap();
        assert_eq!(
            TryRngCore09::try_next_u32(&mut wrapped).unwrap(),
            u32::from_le_bytes(four)
        );
        let mut eight = [0u8; 8];
        RngCore05::try_fill_bytes(&mut direct, &mut eight).unwrap();
        assert_eq!(
            TryRngCore09::try_next_u64(&mut wrapped).unwrap(),
            u64::from_le_bytes(eight)
        );
    }
}

#[test]
fn try_wrapper_hands_errors_on_unchanged_as_g9() {
    let mut wrapped = TryRng05(Counting::failing_at(2, Failure::Platform(0)));
    let mut buf = [0u8; 2];
    assert!(TryRngCore09::try_fill_bytes(&mut wrapped, &mut buf).is_ok());
    assert_eq!(buf, [1, 2]);
    let error = TryRngCore09::try_fill_bytes(&mut wrapped, &mut buf).unwrap_err();
    assert_eq!(code(&error), None);
    assert_eq!(error.raw_os_error(), Some(0));
    let error = TryRngCore09::try_next_u32(&mut wrapped).unwrap_err();
    assert_eq!(error.raw_os_error(), Some(0));

    let mut wrapped = TryRng06(Counting::failing_at(1, Failure::Code(42)));
    let error = TryRngCore09::try_next_u64(&mut wrapped).unwrap_err();
    assert_eq!(code(&error), Some(42));
}
