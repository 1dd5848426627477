use qrng_blockchain::clock::timestamp_of_reading;
use qrng_blockchain::limiter::FETCH_WINDOW;
use qrng_blockchain::remote::{entropy_from_decoded, numbers_from_items};
use qrng_blockchain::{
    entropy_request_url, generate_classical_random_numbers, now, parse_entropy_reply,
    EntropySource, FetchPermit, RateLimiter, SealError,
};

const SECOND: u64 = 1_000_000_000;

#[test]
fn classical_numbers_come_in_the_asked_count_and_range() {
    let numbers = generate_classical_random_numbers(1000);
    assert_eq!(numbers.len(), 1000);
    assert!(numbers.iter().all(|&n| n < 65536));
    // a thousand draws of sixteen bits are not all the same
    assert!(numbers.iter().any(|&n| n != numbers[0]));
}

#[test]
fn classical_numbers_of_count_zero_and_one() {
    assert!(generate_classical_random_numbers(0).is_empty());
    let one = generate_classical_random_numbers(1);
    assert_eq!(one.len(), 1);
    assert!(one[0] < 65536);
}

#[test]
fn source_labels_and_logs() {
    assert_eq!(EntropySource::Local.label(), "Classical");
    assert_eq!(EntropySource::Remote.label(), "Quantum");
    assert_eq!(EntropySource::Local.nonce_log(), "classical_nonces.csv");
    assert_eq!(EntropySource::Remote.nonce_log(), "quantum_nonces.csv");
}

#[test]
fn window_is_sixty_seconds() {
    assert_eq!(FETCH_WINDOW, 60 * SECOND);
}

#[test]
fn first_request_is_granted_at_once() {
    let mut limiter = RateLimiter::new();
    assert_eq!(limiter.last_fetch, None);
    assert_eq!(limiter.delay(0), 0);
    assert_eq!(limiter.delay(u64::MAX), 0);
    assert_eq!(limiter.request(123 * SECOND), FetchPermit::Granted);
    assert_eq!(limiter.last_fetch, Some(123 * SECOND));
}

#[test]
fn second_request_waits_out_the_window() {
    let mut limiter = RateLimiter::new();
    assert_eq!(limiter.request(100 * SECOND), FetchPermit::Granted);

    assert_eq!(limiter.delay(100 * SECOND), 60 * SECOND);
    assert_eq!(limiter.delay(101 * SECOND), 59 * SECOND);
    assert_eq!(limiter.delay(130 * SECOND + 5), 30 * SECOND - 5);
    assert_eq!(limiter.delay(160 * SECOND - 1), 1);
    assert_eq!(limiter.delay(160 * SECOND), 0);
    assert_eq!(limiter.delay(u64::MAX), 0);

    assert_eq!(limiter.request(101 * SECOND), FetchPermit::Wait { nanos: 59 * SECOND });
    assert_eq!(limiter.last_fetch, Some(100 * SECOND));
    assert_eq!(limiter.request(160 * SECOND - 1), FetchPermit::Wait { nanos: 1 });
    assert_eq!(limiter.last_fetch, Some(100 * SECOND));
    assert_eq!(limiter.request(160 * SECOND), FetchPermit::Granted);
    assert_eq!(limiter.last_fetch, Some(160 * SECOND));
    assert_eq!(limiter.request(161 * SECOND), FetchPermit::Wait { nanos: 59 * SECOND });
}

#[test]
fn requests_are_never_closer_than_the_window() {
    let mut limiter = RateLimiter::new();
    let mut sent: Vec<u64> = Vec::new();
    let mut clock = 0u64;
    // triggers at irregular instants, some of them close together
    for trigger in [5u64, 6, 7, 70, 71, 200, 200, 259, 1000].map(|s| s * SECOND) {
        clock = clock.max(trigger);
        loop {
            match limiter.request(clock) {
                FetchPermit::Granted => break,
                FetchPermit::Wait { nanos } => clock += nanos,
            }
        }
        sent.push(clock);
    }
    assert_eq!(sent.len(), 9);
    assert_eq!(sent[0], 5 * SECOND);
    assert_eq!(sent[1], 65 * SECOND);
    assert_eq!(sent[2], 125 * SECOND);
    for pair in sent.windows(2) {
        assert!(pair[1] - pair[0] >= 60 * SECOND);
    }
}

#[test]
fn clock_that_ran_backwards_waits_a_full_window() {
    let mut limiter = RateLimiter::new();
    assert_eq!(limiter.request(500 * SECOND), FetchPermit::Granted);
    assert_eq!(limiter.delay(499 * SECOND), 60 * SECOND);
    assert_eq!(limiter.request(0), FetchPermit::Wait { nanos: 60 * SECOND });
    assert_eq!(limiter.last_fetch, Some(500 * SECOND));
}

#[test]
fn request_at_the_end_of_time() {
    let mut limiter = RateLimiter { last_fetch: Some(u64::MAX) };
    assert_eq!(limiter.request(u64::MAX), FetchPermit::Wait { nanos: 60 * SECOND });
    let mut limiter = RateLimiter { last_fetch: Some(u64::MAX - 60 * SECOND) };
    assert_eq!(limiter.request(u64::MAX), FetchPermit::Granted);
    assert_eq!(limiter.last_fetch, Some(u64::MAX));
}

#[test]
fn request_url_names_the_batch_size() {
    assert_eq!(
        entropy_request_url(500),
        "https://qrng.anu.edu.au/API/jsonI.php?length=500&type=uint16"
    );
    assert_eq!(
        entropy_request_url(0),
        "https://qrng.anu.edu.au/API/jsonI.php?length=0&type=uint16"
    );
    assert_eq!(
        entropy_request_url(1024),
        "https://qrng.anu.edu.au/API/jsonI.php?length=1024&type=uint16"
    );
}

#[test]
fn reply_with_data_gives_the_numbers_in_order() {
    let body = r#"{"type":"uint16","length":4,"data":[40211,0,65535,7],"success":true}"#;
    assert_eq!(parse_entropy_reply(body), Ok(vec![40211, 0, 65535, 7]));
}

#[test]
fn reply_with_empty_data_gives_no_numbers() {
    assert_eq!(parse_entropy_reply(r#"{"data":[]}"#), Ok(Vec::new()));
}

#[test]
fn reply_with_an_item_of_the_wrong_type_is_a_parse_failure() {
    for body in [
        r#"{"data":[1,"x"]}"#,
        r#"{"data":[1,-2]}"#,
        r#"{"data":["3"]}"#,
        r#"{"data":[4.5,1]}"#,
        r#"{"data":[1,2,null]}"#,
        r#"{"data":[[6]]}"#,
        r#"{"data":[{"n":7}]}"#,
        r#"{"data":[true]}"#,
        r#"{"data":[1e2]}"#,
    ] {
        assert_eq!(parse_entropy_reply(body), Err(SealError::EntropyParseFailed));
    }
}

#[test]
fn reply_with_a_number_beyond_sixteen_bits_is_a_parse_failure() {
    assert_eq!(parse_entropy_reply(r#"{"data":[65535]}"#), Ok(vec![65535]));
    for body in [
        r#"{"data":[65536]}"#,
        r#"{"data":[1,2,70000]}"#,
        r#"{"data":[18446744073709551615]}"#,
        r#"{"data":[18446744073709551616]}"#,
    ] {
        assert_eq!(parse_entropy_reply(body), Err(SealError::EntropyParseFailed));
    }
}

#[test]
fn reply_without_data_is_a_parse_failure() {
    assert_eq!(
        parse_entropy_reply(r#"{"success":false}"#),
        Err(SealError::EntropyParseFailed)
    );
    assert_eq!(parse_entropy_reply("{}"), Err(SealError::EntropyParseFailed));
    assert_eq!(
        parse_entropy_reply(r#"{"Data":[1,2]}"#),
        Err(SealError::EntropyParseFailed)
    );
}

#[test]
fn reply_with_data_of_another_type_is_a_parse_failure() {
    for body in [
        r#"{"data":"1,2,3"}"#,
        r#"{"data":7}"#,
        r#"{"data":null}"#,
        r#"{"data":{"0":1}}"#,
        "[1,2,3]",
        "42",
        "null",
    ] {
        assert_eq!(parse_entropy_reply(body), Err(SealError::EntropyParseFailed));
    }
}

#[test]
fn reply_that_is_not_json_is_a_fetch_failure() {
    for body in ["", "<html>busy</html>", r#"{"data":[1,2"#, r#"{"data":[1,2]} trailing"#] {
        assert_eq!(parse_entropy_reply(body), Err(SealError::EntropyFetchFailed));
    }
}

#[test]
fn items_become_numbers() {
    assert_eq!(
        numbers_from_items(&vec![Some(5), Some(0), Some(65535)]),
        Some(vec![5, 0, 65535])
    );
    assert_eq!(numbers_from_items(&Vec::new()), Some(Vec::new()));
}

#[test]
fn one_item_of_the_wrong_type_spoils_the_array() {
    assert_eq!(numbers_from_items(&vec![Some(5), None, Some(0)]), None);
    assert_eq!(numbers_from_items(&vec![None]), None);
    assert_eq!(numbers_from_items(&vec![Some(1), Some(65536)]), None);
    assert_eq!(numbers_from_items(&vec![Some(u64::MAX), Some(1)]), None);
}

#[test]
fn decoded_reply_gives_numbers_or_the_failure() {
    assert_eq!(entropy_from_decoded(None), Err(SealError::EntropyFetchFailed));
    assert_eq!(entropy_from_decoded(Some(None)), Err(SealError::EntropyParseFailed));
    assert_eq!(entropy_from_decoded(Some(Some(vec![Some(3), Some(4)]))), Ok(vec![3, 4]));
    assert_eq!(entropy_from_decoded(Some(Some(Vec::new()))), Ok(Vec::new()));
    assert_eq!(
        entropy_from_decoded(Some(Some(vec![Some(1), None]))),
        Err(SealError::EntropyParseFailed)
    );
    assert_eq!(
        entropy_from_decoded(Some(Some(vec![Some(65536)]))),
        Err(SealError::EntropyParseFailed)
    );
}

#[test]
fn error_messages() {
    assert_eq!(SealError::EntropyFetchFailed.message(), "Failed to fetch QRNG numbers");
    assert_eq!(SealError::EntropyParseFailed.message(), "Failed to parse QRNG numbers");
    assert_eq!(SealError::LogWriteFailed.message(), "Failed to write log");
    assert_eq!(SealError::BlockRejected.message(), "Block does not extend the chain");
}

#[test]
fn clock_reads_a_time_after_the_year_2020() {
    let reading = now();
    assert!(reading.is_some());
    assert!(timestamp_of_reading(reading) > 1_577_836_800);
}

#[test]
fn timestamp_is_the_whole_seconds_of_the_reading() {
    assert_eq!(timestamp_of_reading(Some(0)), 0);
    assert_eq!(timestamp_of_reading(Some(1_700_000_000)), 1_700_000_000);
    assert_eq!(timestamp_of_reading(Some(u64::MAX)), u64::MAX);
}
