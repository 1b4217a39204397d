use ares::checkers::CheckResult;
use ares::decoders::base64_decoder::Base64Decoder;
use ares::decoders::interface::Crack;

// helper for tests
fn get_test_checker() -> impl Fn(&str) -> CheckResult {
    |text: &str| CheckResult {
        is_identified: text.chars().all(|c| c.is_ascii_alphabetic() || c == ' '),
        checker_name: "words",
        description: String::from("letters and spaces only"),
    }
}

#[test]
fn it_works() {
    let base64_decoder = Base64Decoder::new();
    let _result = base64_decoder
        .crack("aGVsbG8gd29ybGQ=", &get_test_checker())
        .unencrypted_text
        .unwrap();
    assert_eq!(true, true);
}

#[test]
fn base64_decoder_successful_decoding() {
    let base64_decoder = Base64Decoder::new();
    let result = base64_decoder
        .crack("aGVsbG8gd29ybGQ=", &get_test_checker())
        .unencrypted_text
        .unwrap();
    assert_eq!(result[0], "hello world");
}

#[test]
fn base64_decode_empty_string() {
    // Base64 returns an empty string, this is a valid base64 string
    // but returns False on check_string_success
    let base64_decoder = Base64Decoder::new();
    let result = base64_decoder
        .crack("", &get_test_checker())
        .unencrypted_text;
    assert!(result.is_none());
}

#[test]
fn base64_decode_handles_panics() {
    let base64_decoder = Base64Decoder::new();
    let result = base64_decoder
        .crack(
            "hello my name is panicky mc panic face!",
            &get_test_checker(),
        )
        .unencrypted_text;
    if result.is_some() {
        panic!("Decode_base64 did not return an option with Some<t>.")
    } else {
        // If we get here, the test passed
        // Because the base64_decoder.crack function returned None
        // as it should do for the input
        assert_eq!(true, true);
    }
}

#[test]
fn base64_handle_panic_if_empty_string() {
    let base64_decoder = Base64Decoder::new();
    let result = base64_decoder
        .crack("", &get_test_checker())
        .unencrypted_text;
    if result.is_some() {
        assert_eq!(true, true);
    }
}

#[test]
fn base64_work_if_string_not_base64() {
    // You can base64 decode a string that is not base64
    let base64_decoder = Base64Decoder::new();
    let result = base64_decoder
        .crack("hello good day!", &get_test_checker())
        .unencrypted_text;
    if result.is_some() {
        assert_eq!(true, true);
    }
}

#[test]
fn base64_handle_panic_if_emoji() {
    let base64_decoder = Base64Decoder::new();
    let result = base64_decoder
        .crack("😂", &get_test_checker())
        .unencrypted_text;
    if result.is_some() {
        assert_eq!(true, true);
    }
}

#[test]
fn base64_emoji_yields_no_candidate() {
    let base64_decoder = Base64Decoder::new();
    let result = base64_decoder.crack("😂", &get_test_checker());
    assert!(result.unencrypted_text.is_none());
    assert_eq!(Base64Decoder::decode_base64_no_error_handling("😂"), None);
}

#[test]
fn base64_record_of_a_success_is_complete() {
    let base64_decoder = Base64Decoder::new();
    let result = base64_decoder.crack("aGVsbG8gd29ybGQ=", &get_test_checker());
    assert_eq!(result.input_text, "aGVsbG8gd29ybGQ=");
    assert_eq!(result.unencrypted_text, Some(vec![String::from("hello world")]));
    assert!(result.success);
    assert_eq!(result.checker_name, "words");
    assert_eq!(result.checker_description, "letters and spaces only");
    assert_eq!(result.source_descriptor.name, "base64");
}

#[test]
fn base64_decodes_empty_text_to_empty_text() {
    assert_eq!(Base64Decoder::decode_base64_no_error_handling(""), Some(String::new()));
}

#[test]
fn base64_rejects_wrong_padding_and_foreign_characters() {
    assert_eq!(Base64Decoder::decode_base64_no_error_handling("aGVsbG8gd29ybGQ"), Some(String::from("hello world")));
    assert_eq!(Base64Decoder::decode_base64_no_error_handling("aGVsbG8gd29ybGQ=="), None);
    assert_eq!(Base64Decoder::decode_base64_no_error_handling("aGVsbG8-d29ybGQ="), None);
    assert_eq!(Base64Decoder::decode_base64_no_error_handling("a"), None);
}

#[test]
fn base64_repairs_bytes_that_are_no_text() {
    // "/w==" is the Base64 of the single byte 0xFF, "aP9p" of 'h', 0xFF, 'i'.
    assert_eq!(
        Base64Decoder::decode_base64_no_error_handling("/w=="),
        Some(String::from("\u{fffd}"))
    );
    assert_eq!(
        Base64Decoder::decode_base64_no_error_handling("aP9p"),
        Some(String::from("h\u{fffd}i"))
    );
    let base64_decoder = Base64Decoder::new();
    let result = base64_decoder.crack("aP9p", &get_test_checker());
    assert_eq!(result.unencrypted_text, Some(vec![String::from("h\u{fffd}i")]));
    assert!(!result.success);
}

#[test]
fn base64_takes_long_and_multibyte_input() {
    let base64_decoder = Base64Decoder::new();
    let long = "aGVsbG8g".repeat(100_000);
    let result = base64_decoder.crack(&long, &get_test_checker());
    assert_eq!(result.unencrypted_text.unwrap()[0], "hello ".repeat(100_000));
    let multibyte = "héllo wörld 😂😂😂 \u{0}\u{7f}\u{10ffff}";
    let result = base64_decoder.crack(multibyte, &get_test_checker());
    assert!(result.unencrypted_text.is_none());
}

#[test]
fn base64_descriptor_is_as_published() {
    let base64_decoder = Base64Decoder::new();
    let decoder = base64_decoder.get_decoder();
    assert_eq!(decoder.name, "base64");
    assert_eq!(decoder.link, "https://en.wikipedia.org/wiki/Base64");
    assert!(decoder.description.starts_with(" Base64 is a group of binary-to-text"));
    assert!(decoder.description.ends_with("radix-64 representation."));
    assert_eq!(decoder.tags, vec!["base64", "decoder", "baser"]);
    assert_eq!(decoder.popularity, 1100);
    assert_eq!(decoder.popularity as f32 / 1000.0, 1.1);
    assert_eq!(decoder.expected_runtime, 10);
    assert_eq!(decoder.failure_runtime, 10);
    assert_eq!(decoder.expected_success, 1000);
    assert_eq!(decoder.expected_success as f32 / 1000.0, 1.0);
    assert_eq!(decoder.normalised_entropy.low, 1000);
    assert_eq!(decoder.normalised_entropy.high, 10000);
    assert_eq!(base64_decoder.get_name(), "base64");
    assert_eq!(base64_decoder.get_tags(), &vec!["base64", "decoder", "baser"]);
}
