use sai_hf_bot::utils::{
    format_bps, generate_random_address, generate_random_signature, is_valid_address,
    random_base58,
};

#[test]
fn test_generate_random_address() {
    let address = generate_random_address();
    assert_eq!(address.len(), 44);
    assert!(address.chars().all(|c| c.is_alphanumeric()));
}

#[test]
fn test_generate_random_signature() {
    let signature = generate_random_signature();
    assert_eq!(signature.len(), 88);
    assert!(signature.chars().all(|c| c.is_alphanumeric()));
}

#[test]
fn test_format_bps() {
    assert_eq!(format_bps(50), "0.50%");
    assert_eq!(format_bps(100), "1.00%");
}

#[test]
fn test_is_valid_address() {
    let valid = generate_random_address();
    assert!(is_valid_address(&valid));

    assert!(!is_valid_address("too_short"));
    assert!(!is_valid_address("this_is_way_too_long_to_be_a_valid_solana_address"));

    // Test invalid base58 characters (0, O, I, l)
    let invalid_with_zero = format!("0{}", "1".repeat(43));
    assert!(!is_valid_address(&invalid_with_zero));

    let invalid_with_o = format!("O{}", "1".repeat(43));
    assert!(!is_valid_address(&invalid_with_o));

    let invalid_with_i = format!("I{}", "1".repeat(43));
    assert!(!is_valid_address(&invalid_with_i));

    let invalid_with_l = format!("l{}", "1".repeat(43));
    assert!(!is_valid_address(&invalid_with_l));
}

#[test]
fn format_bps_edges() {
    assert_eq!(format_bps(0), "0.00%");
    assert_eq!(format_bps(1), "0.01%");
    assert_eq!(format_bps(9), "0.09%");
    assert_eq!(format_bps(99), "0.99%");
    assert_eq!(format_bps(150), "1.50%");
    assert_eq!(format_bps(10000), "100.00%");
    assert_eq!(format_bps(u16::MAX), "655.35%");
}

#[test]
fn random_strings_stay_in_the_alphabet() {
    for _ in 0..200 {
        let address = generate_random_address();
        assert!(is_valid_address(&address));
        let signature = generate_random_signature();
        assert_eq!(signature.chars().count(), 88);
        assert!(signature.chars().all(|c| !matches!(c, '0' | 'O' | 'I' | 'l')));
        assert!(signature.chars().all(|c| c.is_ascii_alphanumeric()));
    }
    assert_eq!(random_base58(0), "");
    assert_eq!(random_base58(7).len(), 7);
}

#[test]
fn random_draws_cover_the_alphabet() {
    // A draw that always gave the same place would leave one character only.
    let text = random_base58(4000);
    let mut seen = std::collections::BTreeSet::new();
    for c in text.chars() {
        seen.insert(c);
    }
    assert!(seen.len() > 40);
    let alphabet = "123456789ABCDEFGHJKLMNPQRSTUVWXYZabcdefghijkmnopqrstuvwxyz";
    assert!(seen.iter().all(|c| alphabet.contains(*c)));
}

#[test]
fn address_shape_edges() {
    assert!(is_valid_address(&"1".repeat(44)));
    assert!(is_valid_address(&"z".repeat(44)));
    assert!(!is_valid_address(&"1".repeat(43)));
    assert!(!is_valid_address(&"1".repeat(45)));
    assert!(!is_valid_address(""));
    // 44 bytes, but fewer characters
    let with_wide = format!("{}é", "1".repeat(42));
    assert_eq!(with_wide.len(), 44);
    assert!(!is_valid_address(&with_wide));
    // 44 characters, one of them not ASCII
    let with_wide_44 = format!("{}é", "1".repeat(43));
    assert!(!is_valid_address(&with_wide_44));
    for bad in ['0', 'O', 'I', 'l', ' ', '_', '-', '+', '/'] {
        let text = format!("{}{}", "A".repeat(43), bad);
        assert!(!is_valid_address(&text));
    }
}
