use rcli::process_gen_pass;

const UPPER: &str = "ABCDEFGHJKLMNPQRSTUVWXYZ";
const LOWER: &str = "abcdefghijkmnopqrstuvwxyz";
const NUMBER: &str = "123456789";
const SYMBOL: &str = "!@#$%^&*()_";

#[test]
fn test_gen_pass_length_and_charset() {
    let pass = process_gen_pass(32, true, true, true, true).unwrap();
    assert_eq!(pass.len(), 32);
    for c in pass.chars() {
        assert!(
            UPPER.contains(c) || LOWER.contains(c) || NUMBER.contains(c) || SYMBOL.contains(c),
            "unexpected character: {:?}",
            c
        );
    }
}

#[test]
fn test_gen_pass_numbers_only() {
    let pass = process_gen_pass(10, false, false, true, false).unwrap();
    assert_eq!(pass.len(), 10);
    for c in pass.chars() {
        assert!(NUMBER.contains(c));
    }
}

#[test]
fn test_gen_pass_symbols_only() {
    let pass = process_gen_pass(8, false, false, false, true).unwrap();
    assert_eq!(pass.len(), 8);
    for c in pass.chars() {
        assert!(SYMBOL.contains(c));
    }
}

#[test]
fn test_gen_pass_empty() {
    let pass = process_gen_pass(0, false, false, false, false).unwrap();
    assert_eq!(pass, "");
}

#[test]
fn test_gen_pass_varies() {
    let first = process_gen_pass(24, true, true, true, true).unwrap();
    let second = process_gen_pass(24, true, true, true, true).unwrap();
    assert_ne!(first, second);
}
