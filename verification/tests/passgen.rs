use passgen::charset::{build, Options};
use passgen::generator::{run, ConfigError, MIN_LENGTH};
use passgen::sampler::{generate_password, sample};

const UPPER: &[u8] = b"ABCDEFGHIJKLMNOPQRSTUVWXYZ";
const LOWER: &[u8] = b"abcdefghijklmnopqrstuvwxyz";
const DIGITS: &[u8] = b"0123456789";
const SYMBOLS: &[u8] = b"!@#$%^&*()-_=+[]{};:,.<>?";

fn opts(length: usize, no_symbols: bool, no_numbers: bool, only_letters: bool) -> Options {
    Options { length, no_symbols, no_numbers, only_letters }
}

fn full_pool() -> Vec<u8> {
    let mut v = Vec::new();
    v.extend_from_slice(UPPER);
    v.extend_from_slice(LOWER);
    v.extend_from_slice(DIGITS);
    v.extend_from_slice(SYMBOLS);
    v
}

#[test]
fn build_is_deterministic() {
    for &(ns, nn, ol) in &[
        (false, false, false),
        (true, false, false),
        (false, true, false),
        (true, true, false),
        (false, false, true),
        (true, true, true),
    ] {
        let a = build(&opts(16, ns, nn, ol));
        let b = build(&opts(16, ns, nn, ol));
        assert_eq!(a, b);
    }
}

#[test]
fn default_pool_is_exact() {
    let cs = build(&opts(16, false, false, false));
    assert_eq!(cs, full_pool());
    assert_eq!(cs.len(), 87);
}

#[test]
fn letters_only_overrides_other_flags() {
    let expected: Vec<u8> = [UPPER, LOWER].concat();
    for &(ns, nn) in &[(false, false), (true, false), (false, true), (true, true)] {
        let cs = build(&opts(16, ns, nn, true));
        assert_eq!(cs, expected);
        assert_eq!(cs.len(), 52);
    }
}

#[test]
fn no_numbers_excludes_digits_keeps_symbols() {
    let cs = build(&opts(16, false, true, false));
    assert_eq!(cs, [UPPER, LOWER, SYMBOLS].concat());
    assert!(cs.iter().all(|b| !b.is_ascii_digit()));
    for s in SYMBOLS {
        assert!(cs.contains(s));
    }
}

#[test]
fn no_symbols_excludes_symbols_keeps_digits() {
    let cs = build(&opts(16, true, false, false));
    assert_eq!(cs, [UPPER, LOWER, DIGITS].concat());
    for s in SYMBOLS {
        assert!(!cs.contains(s));
    }
}

#[test]
fn sample_length_and_membership() {
    let cs = full_pool();
    for &len in &[1usize, 8, 16, 100] {
        let out = sample(len, &cs);
        assert_eq!(out.len(), len);
        assert!(out.iter().all(|b| cs.contains(b)));
    }
}

#[test]
fn sample_zero_length_is_empty() {
    let cs = full_pool();
    assert_eq!(sample(0, &cs), Vec::<u8>::new());
}

#[test]
fn sample_empty_charset_is_empty() {
    let empty: Vec<u8> = Vec::new();
    for &len in &[0usize, 1, 16, 1000] {
        assert_eq!(sample(len, &empty), Vec::<u8>::new());
    }
}

#[test]
fn sample_single_char_charset() {
    let cs = vec![b'x'];
    let out = sample(64, &cs);
    assert_eq!(out.len(), 64);
    assert!(out.iter().all(|&b| b == b'x'));
}

#[test]
fn generate_password_draws_from_charset() {
    let cs: Vec<u8> = [UPPER, LOWER].concat();
    let p = generate_password(20, &cs);
    assert_eq!(p.chars().count(), 20);
    assert!(p.bytes().all(|b| cs.contains(&b)));
}

#[test]
fn generate_password_empty_charset() {
    let empty: Vec<u8> = Vec::new();
    assert_eq!(generate_password(10, &empty), String::new());
}

#[test]
fn sampling_is_uniform_over_fixed_charset() {
    // Chi-square uniformity check: 100,000 draws over the 87-character pool.
    let cs = full_pool();
    let n: usize = 100_000;
    let out = sample(n, &cs);
    assert_eq!(out.len(), n);
    let mut counts = [0usize; 256];
    for &b in &out {
        counts[b as usize] += 1;
    }
    let k = cs.len();
    let expected = n as f64 / k as f64;
    let mut stat = 0.0f64;
    for &b in &cs {
        let observed = counts[b as usize] as f64;
        // Every charset character should show up in a draw this large.
        assert!(observed > 0.0);
        let d = observed - expected;
        stat += d * d / expected;
    }
    // 86 degrees of freedom: the statistic stays far below this bound unless
    // the selection is biased.
    assert!(stat < 160.0, "chi-square statistic too large: {stat}");
    // Nothing outside the charset may ever be drawn.
    for (b, &c) in counts.iter().enumerate() {
        if c > 0 {
            assert!(cs.contains(&(b as u8)));
        }
    }
}

#[test]
fn run_default_sixteen() {
    let r = run(&opts(16, false, false, false));
    let p = r.expect("a valid configuration must succeed");
    assert_eq!(p.chars().count(), 16);
    let pool = full_pool();
    assert!(p.bytes().all(|b| pool.contains(&b)));
}

#[test]
fn run_rejects_short_length() {
    assert!(MIN_LENGTH == 8);
    let r = run(&opts(7, false, false, false));
    assert_eq!(r, Err(ConfigError::LengthTooShort));
}

#[test]
fn run_only_letters_twelve() {
    let r = run(&opts(12, false, false, true));
    let p = r.expect("a valid configuration must succeed");
    assert_eq!(p.chars().count(), 12);
    let letters: Vec<u8> = [UPPER, LOWER].concat();
    assert!(p.bytes().all(|b| letters.contains(&b)));
}
