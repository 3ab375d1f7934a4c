use partal_gallery_api::address::normalize_address;

#[test]
fn lowercases_evm_addresses() {
    assert_eq!(
        normalize_address("0xAbCdEf0000000000000000000000000000000001"),
        "0xabcdef0000000000000000000000000000000001"
    );
}

#[test]
fn lowercases_consistently_so_reads_match_writes() {
    let mixed = "tz1Burnxxxxxxxxxxxxxxxxxxxxxxxxxxx";
    assert_eq!(normalize_address(mixed), mixed.to_lowercase());
    assert_eq!(
        normalize_address(mixed),
        normalize_address(&mixed.to_uppercase())
    );
}

#[test]
fn normalized_key_is_stable() {
    let key = normalize_address("0xABCDEF");
    assert_eq!(normalize_address(&key), key);
}

#[test]
fn differently_cased_addresses_share_a_key() {
    assert_eq!(normalize_address("0xAbC"), normalize_address("0XaBc"));
    assert_eq!(normalize_address("SoLaNa9"), "solana9");
}

#[test]
fn non_ascii_uses_unicode_lowercase() {
    assert_eq!(normalize_address("ΑΒΓ"), "αβγ");
    // Case folding is not symmetric beyond ASCII: "ß" upper-cases to "SS".
    assert_ne!(normalize_address("ß"), normalize_address(&"ß".to_uppercase()));
}

#[test]
fn empty_address_stays_empty() {
    assert_eq!(normalize_address(""), "");
}
