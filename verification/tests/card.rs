use sqlrepo::card::{
    calculate_luhn_checksum, generate_random_pan, get_pan_account_identifier, get_pan_bin,
    get_pan_mii, is_valid_pan, pan_of_payload, Pan,
};

#[test]
fn test_valid_pan() {
    let payload1: [u8; 10] = [1, 7, 8, 9, 3, 7, 2, 9, 9, 7];
    assert_eq!(calculate_luhn_checksum(&payload1), 4);
    let pan1 = "17893729974";
    assert!(is_valid_pan(pan1));

    let payload2: [u8; 15] = [4, 9, 0, 2, 4, 5, 5, 3, 9, 7, 8, 8, 8, 9, 4];
    assert_eq!(calculate_luhn_checksum(&payload2), 9);
    let pan2 = "4902455397888949";
    assert!(is_valid_pan(pan2));

    let payload3: [u8; 15] = [4, 9, 0, 2, 4, 5, 5, 3, 9, 7, 8, 8, 8, 9, 5]; // Slightly change the payload
    assert_ne!(calculate_luhn_checksum(&payload3), 9);
    let pan3 = "4902455397888948"; // Slightly change the validation digit
    assert!(!is_valid_pan(pan3));
}

#[test]
fn test_generate_random_pan() {
    let pan: Pan = generate_random_pan();
    assert!(is_valid_pan(&pan));
}

#[test]
fn test_pan_getters() {
    // GIVEN a valid PAN
    let pan = "4902455397888949".to_string();

    // WHEN we try to get the account number, the BIC and the MII associated
    // with the PAN
    let mii = get_pan_mii(&pan);
    let bin = get_pan_bin(&pan);
    let account_number = get_pan_account_identifier(&pan);

    // THEN we get matching results
    assert_eq!(mii, "4");
    assert_eq!(bin, "49024553");
    assert_eq!(account_number, "45539788894");
}

#[test]
fn luhn_checksum_of_edge_payloads() {
    assert_eq!(calculate_luhn_checksum(&[]), 0);
    assert_eq!(calculate_luhn_checksum(&[0]), 0);
    // 5 doubled is 10, less 9 is 1: the check digit is 9
    assert_eq!(calculate_luhn_checksum(&[5]), 9);
    // 9 doubled is 18, less 9 is 9: the check digit is 1
    assert_eq!(calculate_luhn_checksum(&[9]), 1);
    // from the right: 2 doubled is 4, 1 counts once: 5
    assert_eq!(calculate_luhn_checksum(&[1, 2]), 5);
    // 7992739871 is the classic payload with check digit 3
    assert_eq!(calculate_luhn_checksum(&[7, 9, 9, 2, 7, 3, 9, 8, 7, 1]), 3);
}

#[test]
fn pan_validation_reads_the_digits_only() {
    assert!(is_valid_pan("4902 4553 9788 8949"));
    assert!(is_valid_pan("79927398713"));
    assert!(!is_valid_pan("79927398710"));
    assert!(is_valid_pan("0"));
    assert!(!is_valid_pan("5"));
}

#[test]
fn random_pans_have_sixteen_digits() {
    for _ in 0..50 {
        let pan = generate_random_pan();
        assert_eq!(pan.len(), 16);
        assert!(pan.chars().all(|c| c.is_ascii_digit()));
        assert!(is_valid_pan(&pan));
    }
}

#[test]
fn pan_of_a_payload_ends_in_its_check_digit() {
    let pan = pan_of_payload(vec![4, 9, 0, 2, 4, 5, 5, 3, 9, 7, 8, 8, 8, 9, 4]);
    assert_eq!(pan, "4902455397888949");
}
