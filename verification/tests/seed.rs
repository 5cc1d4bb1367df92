use indy_load_generator::seed::{generate_seed, is_alphanumeric, is_seed, SEED_LENGTH};

#[test]
fn generated_seed_has_the_form_of_a_seed() {
    for _ in 0..50 {
        let seed = generate_seed();
        assert_eq!(seed.chars().count(), 32);
        assert!(seed.chars().all(|c| c.is_ascii_alphanumeric()));
        assert!(is_seed(&seed));
    }
}

#[test]
fn generated_seeds_differ() {
    let first = generate_seed();
    let mut differs = false;
    for _ in 0..20 {
        if generate_seed() != first {
            differs = true;
        }
    }
    assert!(differs);
}

#[test]
fn seed_length_is_thirty_two() {
    assert_eq!(SEED_LENGTH, 32);
}

#[test]
fn is_seed_checks_length_and_alphabet() {
    assert!(is_seed("000000000000000000000000Trustee1"));
    assert!(!is_seed("000000000000000000000000Trustee"));
    assert!(!is_seed("000000000000000000000000Trustee12"));
    assert!(!is_seed("00000000000000000000000 Trustee1"));
    assert!(!is_seed("0000000000000000000000000Trust\u{e9}e"));
    assert!(!is_seed(""));
}

#[test]
fn alphanumeric_is_ascii_letters_and_digits() {
    for c in ['0', '5', '9', 'a', 'm', 'z', 'A', 'M', 'Z'] {
        assert!(is_alphanumeric(c));
    }
    for c in ['/', ':', '@', '[', '`', '{', ' ', '-', '_', '\u{e9}', '\u{663}'] {
        assert!(!is_alphanumeric(c));
    }
}
