use qrng_blockchain::decimal::append_decimal;
use qrng_blockchain::digest::digest;
use qrng_blockchain::hex::to_hex;
use qrng_blockchain::Block;

const GENESIS_TEXT: &str = "Dr. Kogge buys Ancient Aliens Live T-shirt for 20 USD.";

fn decimal(n: u64) -> String {
    let mut out = String::new();
    append_decimal(&mut out, n);
    out
}

#[test]
fn decimal_text_of_small_and_large_numbers() {
    assert_eq!(decimal(0), "0");
    assert_eq!(decimal(7), "7");
    assert_eq!(decimal(10), "10");
    assert_eq!(decimal(305), "305");
    assert_eq!(decimal(65535), "65535");
    assert_eq!(decimal(u64::MAX), "18446744073709551615");
}

#[test]
fn decimal_text_is_appended_to_what_is_there() {
    let mut out = String::from("n=");
    append_decimal(&mut out, 42);
    append_decimal(&mut out, 0);
    assert_eq!(out, "n=420");
}

#[test]
fn hex_text_is_lowercase_high_half_first() {
    assert_eq!(to_hex(&[]), "");
    assert_eq!(to_hex(&[0x00]), "00");
    assert_eq!(to_hex(&[0xab, 0x07, 0xf0, 0xff]), "ab07f0ff");
    assert_eq!(to_hex(&[10, 20, 30]), "0a141e");
}

#[test]
fn digest_of_the_genesis_fields() {
    assert_eq!(
        digest(0, 1700000000, GENESIS_TEXT, "0", 0),
        "5c74bb7e05f99a4bca4e585d3f0e3ca8146bf319c63b53e7e88896c7bb42307f"
    );
}

#[test]
fn digest_with_empty_payload() {
    assert_eq!(
        digest(7, 42, "", "abc", 9),
        "d2f7334995f91b93d880617b5cb1aa0deed3639d89fbcae82e3845f3b89b033c"
    );
}

#[test]
fn digest_with_non_ascii_payload() {
    assert_eq!(
        digest(2, 1234567890, "héllo wörld ✓", "0", 65535),
        "6c07d55e28cd7b9114ba8b724144723da15237be89ad8ddf3588f8b3ba8fcfd3"
    );
}

#[test]
fn digest_with_the_largest_numbers() {
    assert_eq!(
        digest(u32::MAX, u64::MAX, "x", "y", u64::MAX),
        "4e7bbca451d13f6e249c151d30abd3bbd0762f8a1b27bff51a9e2f92dff64174"
    );
}

#[test]
fn digest_is_the_same_on_every_call() {
    let inputs = [
        (0u32, 0u64, "", "", 0u64),
        (1, 1700000001, "test", "0", 203),
        (9, 5, "héllo wörld ✓", "00ab", 65535),
    ];
    for (index, timestamp, data, previous, nonce) in inputs {
        let first = digest(index, timestamp, data, previous, nonce);
        let second = digest(index, timestamp, data, previous, nonce);
        assert_eq!(first, second);
    }
}

#[test]
fn digest_is_sixty_four_lowercase_hex_characters() {
    for nonce in 0..50u64 {
        let text = digest(3, 99, "payload", "prev", nonce);
        assert_eq!(text.len(), 64);
        assert!(text.chars().all(|c| matches!(c, '0'..='9' | 'a'..='f')));
    }
}

#[test]
fn digest_has_no_delimiters_between_fields() {
    // index 1, timestamp 23 and index 12, timestamp 3 give the same preimage
    assert_eq!(digest(1, 23, "a", "b", 4), digest(12, 3, "a", "b", 4));
    // the payload may run into the previous digest
    assert_eq!(digest(1, 2, "ab", "c", 4), digest(1, 2, "a", "bc", 4));
}

#[test]
fn digest_depends_on_the_order_of_fields() {
    assert_ne!(digest(1, 2, "a", "b", 4), digest(1, 2, "b", "a", 4));
    assert_ne!(digest(1, 2, "a", "b", 4), digest(2, 1, "a", "b", 4));
}

#[test]
fn block_with_timestamp_has_nonce_zero_and_its_digest() {
    let block = Block::with_timestamp(0, 1700000000, GENESIS_TEXT.to_string(), "0".to_string());
    assert_eq!(block.index, 0);
    assert_eq!(block.timestamp, 1700000000);
    assert_eq!(block.data, GENESIS_TEXT);
    assert_eq!(block.previous_hash, "0");
    assert_eq!(block.nonce, 0);
    assert_eq!(block.hash, "5c74bb7e05f99a4bca4e585d3f0e3ca8146bf319c63b53e7e88896c7bb42307f");
}

#[test]
fn block_new_computes_the_digest_of_its_fields() {
    let block = Block::new(4, "payload".to_string(), "00ff".to_string()).expect("clock");
    assert_eq!(block.index, 4);
    assert_eq!(block.data, "payload");
    assert_eq!(block.previous_hash, "00ff");
    assert_eq!(block.nonce, 0);
    assert_eq!(block.hash, digest(4, block.timestamp, "payload", "00ff", 0));
    assert_eq!(block.hash, block.calculate_hash());
}

#[test]
fn calculate_hash_reads_the_fields_not_the_stored_digest() {
    let mut block = Block::with_timestamp(1, 1700000001, "test".to_string(), "0".to_string());
    let before = block.calculate_hash();
    block.hash = "something else".to_string();
    assert_eq!(block.calculate_hash(), before);
    block.nonce = 1;
    assert_ne!(block.calculate_hash(), before);
    assert_eq!(block.hash, "something else");
}

#[test]
fn set_nonce_installs_the_nonce_and_the_new_digest() {
    let previous = "5c74bb7e05f99a4bca4e585d3f0e3ca8146bf319c63b53e7e88896c7bb42307f";
    let mut block = Block::with_timestamp(1, 1700000001, "test".to_string(), previous.to_string());
    assert_eq!(block.hash, "eadbc007df0ba5fb5d36edec049d4e24c4dc5627f5e46543569236bcc781fe4d");
    block.set_nonce(203);
    assert_eq!(block.nonce, 203);
    assert_eq!(block.hash, "00965c99a819b054eea320c696d832b7bbdfa0dbdfca3e3d83d86bd7ea06c040");
    assert_eq!(block.index, 1);
    assert_eq!(block.timestamp, 1700000001);
    assert_eq!(block.data, "test");
    assert_eq!(block.previous_hash, previous);
}

fn block_with_hash(hash: &str) -> Block {
    Block {
        index: 1,
        timestamp: 0,
        data: String::new(),
        previous_hash: String::new(),
        nonce: 0,
        hash: hash.to_string(),
    }
}

#[test]
fn is_sealed_counts_leading_zeros() {
    let block = block_with_hash("00ab0");
    assert!(block.is_sealed(0));
    assert!(block.is_sealed(1));
    assert!(block.is_sealed(2));
    assert!(!block.is_sealed(3));
    assert!(!block.is_sealed(5));
}

#[test]
fn is_sealed_with_difficulty_beyond_the_digest() {
    assert!(block_with_hash("000").is_sealed(3));
    assert!(!block_with_hash("000").is_sealed(4));
    assert!(block_with_hash("").is_sealed(0));
    assert!(!block_with_hash("").is_sealed(1));
    assert!(!block_with_hash("000").is_sealed(usize::MAX));
}

#[test]
fn is_sealed_counts_characters_not_bytes() {
    assert!(!block_with_hash("é0").is_sealed(1));
    assert!(block_with_hash("0é").is_sealed(1));
    assert!(!block_with_hash("0é").is_sealed(2));
}
