use rust_experiments::adc::{offset_counts, reading_from_be_bytes, AdcChannel};
use rust_experiments::pacing::{sample_delay, Span};
use rust_experiments::sysfs::{char_is_whitespace, parse_reading, SampleOutcome, SampleReader};

#[test]
fn be_bytes_decode() {
    assert_eq!(reading_from_be_bytes([0x12, 0x34]), 0x1234);
    assert_eq!(reading_from_be_bytes([0xFF, 0xFF]), 65535);
    assert_eq!(reading_from_be_bytes([0x00, 0x01]), 1);
    assert_eq!(reading_from_be_bytes([0x01, 0x00]), 256);
}

#[test]
fn offset_is_subtracted() {
    assert_eq!(offset_counts([0, 100], 30), 70);
    assert_eq!(offset_counts([0, 10], 30), -20);
    assert_eq!(offset_counts([0xFF, 0xFF], -5), 65540);
    assert_eq!(offset_counts([0x12, 0x34], 0), 0x1234);
}

#[test]
fn adc_channel_counts_samples() {
    let mut ch = AdcChannel::new(100);
    assert_eq!(ch.offset_adc(), 100);
    assert_eq!(ch.counter(), 0);
    assert_eq!(ch.record([0x01, 0x00]), 156);
    assert_eq!(ch.record([0x00, 0x00]), -100);
    assert_eq!(ch.counter(), 2);
}

#[test]
fn span_from_micros() {
    assert_eq!(Span::from_micros(20000), Span { secs: 0, nanos: 20_000_000 });
    assert_eq!(Span::from_micros(1_500_000), Span { secs: 1, nanos: 500_000_000 });
    assert_eq!(Span::from_micros(0), Span { secs: 0, nanos: 0 });
}

#[test]
fn span_checked_sub() {
    let a = Span::new(1, 200);
    assert_eq!(a.checked_sub(Span::new(0, 300)), Some(Span { secs: 0, nanos: 999_999_900 }));
    assert_eq!(a.checked_sub(Span::new(1, 200)), Some(Span { secs: 0, nanos: 0 }));
    assert_eq!(a.checked_sub(Span::new(1, 201)), None);
    assert_eq!(a.checked_sub(Span::new(2, 0)), None);
    assert_eq!(Span::new(5, 7).checked_sub(Span::new(2, 3)), Some(Span { secs: 3, nanos: 4 }));
}

#[test]
fn sample_delays() {
    assert_eq!(sample_delay(1), Span { secs: 1, nanos: 0 });
    assert_eq!(sample_delay(4), Span { secs: 0, nanos: 250_000_000 });
    assert_eq!(sample_delay(3), Span { secs: 0, nanos: 333_333_000 });
    assert_eq!(sample_delay(-1), Span { secs: 0, nanos: 0 });
}

#[test]
fn whitespace_set() {
    for c in [' ', '\t', '\n', '\r', '\u{0B}', '\u{0C}', '\u{85}', '\u{A0}', '\u{2003}', '\u{3000}'] {
        assert!(char_is_whitespace(c));
        assert_eq!(char_is_whitespace(c), c.is_whitespace());
    }
    for c in ['0', 'a', '+', '\u{200B}', '\u{1F600}'] {
        assert!(!char_is_whitespace(c));
        assert_eq!(char_is_whitespace(c), c.is_whitespace());
    }
}

#[test]
fn parse_accepts_numbers() {
    assert_eq!(parse_reading("1234\n"), Some(1234));
    assert_eq!(parse_reading("  +42 \t"), Some(42));
    assert_eq!(parse_reading("007"), Some(7));
    assert_eq!(parse_reading("4294967295"), Some(u32::MAX));
    assert_eq!(parse_reading("\u{A0}7\u{3000}"), Some(7));
    assert_eq!(parse_reading("0"), Some(0));
}

#[test]
fn parse_rejects_non_numbers() {
    assert_eq!(parse_reading(""), None);
    assert_eq!(parse_reading(" \n"), None);
    assert_eq!(parse_reading("+"), None);
    assert_eq!(parse_reading("-1"), None);
    assert_eq!(parse_reading("12a"), None);
    assert_eq!(parse_reading("1 2"), None);
    assert_eq!(parse_reading("++1"), None);
    assert_eq!(parse_reading("4294967296"), None);
    assert_eq!(parse_reading("99999999999x"), None);
}

#[test]
fn parse_matches_std() {
    for t in ["1234\n", " +42 ", "", "+", "-0", "4294967296", "\u{2028}9\u{85}", "1_000", "٣"] {
        assert_eq!(parse_reading(t), t.trim().parse::<u32>().ok());
    }
}

#[test]
fn sample_reader_keeps_unreadable_text() {
    let mut r = SampleReader::new();
    assert_eq!(r.ingest("12\n"), SampleOutcome::Reading { value: 12, count: 0 });
    assert_eq!(r.pending(), "");
    assert_eq!(r.ingest("x"), SampleOutcome::Unreadable { count: 1 });
    assert_eq!(r.pending(), "x");
    assert_eq!(r.ingest("5\n"), SampleOutcome::Unreadable { count: 2 });
    assert_eq!(r.pending(), "x5\n");
    assert_eq!(r.count(), 3);
}

#[test]
fn sample_reader_joins_partial_reads() {
    let mut r = SampleReader::new();
    assert_eq!(r.ingest(""), SampleOutcome::Unreadable { count: 0 });
    assert_eq!(r.ingest("31"), SampleOutcome::Reading { value: 31, count: 1 });
    assert_eq!(r.pending(), "");
}

#[test]
fn driver_text_reads_back() {
    for n in [0u32, 7, 10, 255, 65535, 1_000_000, u32::MAX] {
        assert_eq!(parse_reading(&format!("{}\n", n)), Some(n));
        assert_eq!(parse_reading(&n.to_string()), Some(n));
    }
}
