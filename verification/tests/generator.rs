use std::collections::HashSet;

use upload_store::alphabet::generate;

fn is_alphabet_char(c: char) -> bool {
    c.is_ascii_lowercase() || c.is_ascii_uppercase() || c.is_ascii_digit()
}

#[test]
fn generate_zero_length_is_empty() {
    assert_eq!(generate(0), String::new());
}

#[test]
fn generate_returns_exact_length() {
    for len in [1usize, 2, 6, 8, 32, 100] {
        let s = generate(len);
        assert_eq!(s.chars().count(), len);
    }
}

#[test]
fn generate_draws_from_the_alphabet_only() {
    for _ in 0..200 {
        let s = generate(16);
        assert!(s.chars().all(is_alphabet_char), "bad identifier: {s}");
    }
}

#[test]
fn generate_hits_every_alphabet_group() {
    // Lowercase, uppercase and digits must all be reachable; with 6200
    // characters drawn, missing a whole group is practically impossible.
    let mut lower = false;
    let mut upper = false;
    let mut digit = false;
    for _ in 0..100 {
        for c in generate(62).chars() {
            lower |= c.is_ascii_lowercase();
            upper |= c.is_ascii_uppercase();
            digit |= c.is_ascii_digit();
        }
    }
    assert!(lower && upper && digit);
}

#[test]
fn generate_many_samples_no_duplicates() {
    let mut seen: HashSet<String> = HashSet::new();
    for _ in 0..10_000 {
        let s = generate(8);
        assert!(seen.insert(s), "duplicate identifier among 10,000 samples");
    }
}
