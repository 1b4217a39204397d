use std::cell::Cell;

use ares::checkers::CheckResult;
use ares::decoders::base32_decoder::Base32Decoder;
use ares::decoders::base58_ripple_decoder::Base58RippleDecoder;
use ares::decoders::base64_decoder::Base64Decoder;
use ares::decoders::interface::{judge, Crack};
use ares::decoders::plausibility::PlausibilityFilter;

fn yes(_text: &str) -> CheckResult {
    CheckResult {
        is_identified: true,
        checker_name: "yes",
        description: String::from("says yes to everything"),
    }
}

#[test]
fn judge_without_a_decoding_returns_a_fresh_record() {
    let plugin = Base64Decoder::new();
    let asked = Cell::new(0);
    let checker = |text: &str| {
        asked.set(asked.get() + 1);
        yes(text)
    };
    let record = judge(
        plugin.get_decoder(),
        &PlausibilityFilter::lenient(),
        "some input",
        None,
        &checker,
    );
    assert_eq!(record.unencrypted_text, None);
    assert_eq!(record.input_text, "some input");
    assert!(!record.success);
    assert_eq!(record.checker_name, "");
    assert_eq!(record.checker_description, "");
    assert_eq!(asked.get(), 0);
}

#[test]
fn judge_never_returns_the_input_as_a_candidate() {
    let plugin = Base64Decoder::new();
    let asked = Cell::new(0);
    let checker = |text: &str| {
        asked.set(asked.get() + 1);
        yes(text)
    };
    let record = judge(
        plugin.get_decoder(),
        &PlausibilityFilter::lenient(),
        "same text",
        Some(String::from("same text")),
        &checker,
    );
    assert_eq!(record.unencrypted_text, None);
    assert!(!record.success);
    assert_eq!(asked.get(), 0);
}

#[test]
fn judge_drops_an_empty_decoding_without_asking_the_checker() {
    let plugin = Base64Decoder::new();
    let asked = Cell::new(0);
    let checker = |text: &str| {
        asked.set(asked.get() + 1);
        yes(text)
    };
    let record = judge(
        plugin.get_decoder(),
        &PlausibilityFilter::lenient(),
        "some input",
        Some(String::new()),
        &checker,
    );
    assert_eq!(record.unencrypted_text, None);
    assert_eq!(asked.get(), 0);
}

#[test]
fn judge_asks_the_checker_once_about_the_survivor() {
    let plugin = Base64Decoder::new();
    let asked = Cell::new(0);
    let seen = Cell::new(false);
    let checker = |text: &str| {
        asked.set(asked.get() + 1);
        seen.set(text == "a decoding");
        yes(text)
    };
    let record = judge(
        plugin.get_decoder(),
        &PlausibilityFilter::lenient(),
        "some input",
        Some(String::from("a decoding")),
        &checker,
    );
    assert_eq!(record.unencrypted_text, Some(vec![String::from("a decoding")]));
    assert_eq!(record.input_text, "some input");
    assert!(record.success);
    assert_eq!(record.checker_name, "yes");
    assert_eq!(record.checker_description, "says yes to everything");
    assert_eq!(record.source_descriptor.name, "base64");
    assert_eq!(asked.get(), 1);
    assert!(seen.get());
}

#[test]
fn judge_applies_the_tunable_rule() {
    let plugin = Base64Decoder::new();
    let strict = PlausibilityFilter { min_printable: 900 };
    let record = judge(
        plugin.get_decoder(),
        &strict,
        "some input",
        Some(String::from("h\u{fffd}i")),
        yes,
    );
    assert_eq!(record.unencrypted_text, None);
    let record = judge(
        plugin.get_decoder(),
        &strict,
        "some input",
        Some(String::from("hello")),
        yes,
    );
    assert_eq!(record.unencrypted_text, Some(vec![String::from("hello")]));
}

#[test]
fn crack_with_filter_applies_the_tunable_rule() {
    let strict = PlausibilityFilter { min_printable: 900 };
    let base64_decoder = Base64Decoder::new();
    // "aP9p" decodes to 'h', 0xFF, 'i': two printable characters of three.
    assert!(base64_decoder.crack("aP9p", yes).unencrypted_text.is_some());
    assert!(base64_decoder
        .crack_with_filter("aP9p", yes, &strict)
        .unencrypted_text
        .is_none());
    assert_eq!(
        base64_decoder
            .crack_with_filter("aGVsbG8gd29ybGQ=", yes, &strict)
            .unencrypted_text,
        Some(vec![String::from("hello world")])
    );
    let base32_decoder = Base32Decoder::new();
    assert!(base32_decoder
        .crack_with_filter("74======", yes, &strict)
        .unencrypted_text
        .is_none());
    assert_eq!(
        base32_decoder
            .crack_with_filter("NBSWY3DPEB3W64TMMQ======", yes, &strict)
            .unencrypted_text,
        Some(vec![String::from("hello world")])
    );
    let base58_ripple_decoder = Base58RippleDecoder::new();
    assert!(base58_ripple_decoder
        .crack_with_filter("cGXw", yes, &strict)
        .unencrypted_text
        .is_none());
    assert_eq!(
        base58_ripple_decoder
            .crack_with_filter("StVrDLaUATiyKyV", yes, &strict)
            .unencrypted_text,
        Some(vec![String::from("hello world")])
    );
}

#[test]
fn crack_with_lenient_filter_is_crack() {
    let lenient = PlausibilityFilter::lenient();
    let base64_decoder = Base64Decoder::new();
    for text in ["aGVsbG8gd29ybGQ=", "aP9p", "", "😂", "not base64!"] {
        let plain = base64_decoder.crack(text, yes);
        let with = base64_decoder.crack_with_filter(text, yes, &lenient);
        assert_eq!(plain.unencrypted_text, with.unencrypted_text);
        assert_eq!(plain.success, with.success);
        assert_eq!(plain.input_text, with.input_text);
        assert_eq!(plain.checker_name, with.checker_name);
    }
}

#[test]
fn every_scheme_yields_nothing_on_empty_input() {
    assert!(Base32Decoder::new().crack("", yes).unencrypted_text.is_none());
    assert!(Base58RippleDecoder::new().crack("", yes).unencrypted_text.is_none());
    assert!(Base64Decoder::new().crack("", yes).unencrypted_text.is_none());
}

#[test]
fn every_scheme_yields_nothing_on_an_emoji() {
    assert!(Base32Decoder::new().crack("😂", yes).unencrypted_text.is_none());
    assert!(Base58RippleDecoder::new().crack("😂", yes).unencrypted_text.is_none());
    assert!(Base64Decoder::new().crack("😂", yes).unencrypted_text.is_none());
}

#[test]
fn no_candidate_equals_the_input() {
    let inputs = [
        "NBSWY3DPEB3W64TMMQ======",
        "StVrDLaUATiyKyV",
        "aGVsbG8gd29ybGQ=",
        "hello",
        "AAAA",
        "rrrr",
        "1234",
        "=",
        "r",
        "A",
    ];
    for text in inputs {
        let base32_decoder = Base32Decoder::new();
        let base58_ripple_decoder = Base58RippleDecoder::new();
        let base64_decoder = Base64Decoder::new();
        let records = [
            base32_decoder.crack(text, yes),
            base58_ripple_decoder.crack(text, yes),
            base64_decoder.crack(text, yes),
        ];
        for record in records {
            assert_eq!(record.input_text, text);
            if let Some(candidates) = record.unencrypted_text {
                assert_eq!(candidates.len(), 1);
                assert!(!candidates[0].is_empty());
                assert_ne!(candidates[0], text);
            }
        }
    }
}

#[test]
fn checker_is_not_asked_when_decoding_fails() {
    let asked = Cell::new(0);
    let checker = |text: &str| {
        asked.set(asked.get() + 1);
        yes(text)
    };
    let base64_decoder = Base64Decoder::new();
    let record = base64_decoder.crack("not base64!", &checker);
    assert!(record.unencrypted_text.is_none());
    assert_eq!(asked.get(), 0);
    let record = base64_decoder.crack("aGVsbG8gd29ybGQ=", &checker);
    assert!(record.unencrypted_text.is_some());
    assert_eq!(asked.get(), 1);
}
