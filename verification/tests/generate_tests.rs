use nitrous::nitrous::Nitrous;

fn is_alnum(c: char) -> bool {
    c.is_ascii_alphanumeric()
}

#[test]
fn generate_five_codes() {
    let codes = Nitrous::generate(5);
    assert_eq!(codes.len(), 5);
    for code in &codes {
        assert_eq!(code.chars().count(), 16);
        assert!(code.chars().all(is_alnum));
    }
}

#[test]
fn generate_zero_codes() {
    let codes = Nitrous::generate(0);
    assert!(codes.is_empty());
}

#[test]
fn generate_one_code() {
    let codes = Nitrous::generate(1);
    assert_eq!(codes.len(), 1);
    assert_eq!(codes[0].len(), 16);
    assert!(codes[0].chars().all(is_alnum));
}

#[test]
fn generated_codes_vary() {
    // 32 tokens of 16 random alphanumeric characters collide with
    // negligible probability; identical ones would mean the sampler
    // returns a constant.
    let codes = Nitrous::generate(32);
    let first = &codes[0];
    assert!(codes.iter().any(|c| c != first) || first.chars().any(|c| c != first.chars().next().unwrap()));
}
