use qrng_blockchain::{
    metrics_entry, nonce_data_entries, nonce_entry, sealed_metrics_entry, Block, EntropySource,
    Sealing,
};

#[test]
fn nonce_entry_is_the_nonce_and_a_newline() {
    assert_eq!(nonce_entry(0), "0\n");
    assert_eq!(nonce_entry(42), "42\n");
    assert_eq!(nonce_entry(65535), "65535\n");
    assert_eq!(nonce_entry(u64::MAX), "18446744073709551615\n");
}

#[test]
fn nonce_data_entries_name_the_source_on_every_line() {
    assert_eq!(
        nonce_data_entries(&[1, 22, 333], "Quantum"),
        "Quantum,1\nQuantum,22\nQuantum,333\n"
    );
    assert_eq!(nonce_data_entries(&[0], "Classical"), "Classical,0\n");
}

#[test]
fn nonce_data_entries_of_no_nonce_are_empty() {
    assert_eq!(nonce_data_entries(&[], "Quantum"), "");
}

#[test]
fn nonce_data_entries_take_any_source_text() {
    assert_eq!(nonce_data_entries(&[7, 8], ""), ",7\n,8\n");
    assert_eq!(nonce_data_entries(&[7], "quelle ✓"), "quelle ✓,7\n");
}

#[test]
fn metrics_entry_has_four_fields() {
    assert_eq!(metrics_entry(3, EntropySource::Local, 12, "1.5ms"), "3,Classical,12,1.5ms\n");
    assert_eq!(
        metrics_entry(1, EntropySource::Remote, 203, "417.25µs"),
        "1,Quantum,203,417.25µs\n"
    );
    assert_eq!(
        metrics_entry(u32::MAX, EntropySource::Remote, u32::MAX, ""),
        "4294967295,Quantum,4294967295,\n"
    );
}

#[test]
fn sealed_metrics_entry_reads_the_search() {
    let block = Block::with_timestamp(7, 1700000001, "test".to_string(), "0".to_string());
    let mut sealing = Sealing::new(block, EntropySource::Remote);
    assert_eq!(sealed_metrics_entry(&sealing, "2s"), "7,Quantum,0,2s\n");
    sealing.attempt(5);
    sealing.attempt(6);
    assert_eq!(sealed_metrics_entry(&sealing, "1.5ms"), "7,Quantum,2,1.5ms\n");
    let local = Sealing::new(
        Block::with_timestamp(1, 0, String::new(), String::new()),
        EntropySource::Local,
    );
    assert_eq!(sealed_metrics_entry(&local, ""), "1,Classical,0,\n");
}
