use price_bot::fullwidth::{format_price_fullwidth, wide_char_of};
use price_bot::message::{channel_name, channel_name_from_lowered, price_message, webhook_payload};

fn narrow(s: &str) -> String {
    s.chars()
        .map(|c| match c {
            '０'..='９' => char::from_u32(c as u32 - 0xFF10 + '0' as u32).unwrap(),
            '．' => '.',
            _ => c,
        })
        .collect()
}

#[test]
fn fullwidth_maps_digits_and_point() {
    assert_eq!(format_price_fullwidth("43250.50"), "４３２５０．５０");
    assert_eq!(format_price_fullwidth("0.01"), "０．０１");
}

#[test]
fn fullwidth_keeps_other_characters() {
    assert_eq!(format_price_fullwidth("-1.00"), "-１．００");
    assert_eq!(format_price_fullwidth("NaN"), "NaN");
    assert_eq!(format_price_fullwidth("inf"), "inf");
    assert_eq!(format_price_fullwidth(""), "");
}

#[test]
fn fullwidth_round_trip_on_formatted_floats() {
    for p in [0.0f64, 0.005, 1.0, 43250.5, 123456789.987, -3.25, 1e20] {
        let text = format!("{:.2}", p);
        let wide = format_price_fullwidth(&text);
        assert_eq!(wide.chars().count(), text.chars().count());
        assert_eq!(narrow(&wide), text);
    }
}

#[test]
fn wide_char_single_characters() {
    assert_eq!(wide_char_of('7'), '７');
    assert_eq!(wide_char_of('.'), '．');
    assert_eq!(wide_char_of('x'), 'x');
}

#[test]
fn message_for_bitcoin_example() {
    assert_eq!(price_message("📈", "BTC", "43250.50"), "📈 BTC: $43250.50");
}

#[test]
fn channel_name_for_bitcoin_example() {
    assert_eq!(channel_name("📈", "BTC", "43250.50"), "📈btc４３２５０．５０");
    assert_eq!(channel_name_from_lowered("💎", "ton", "5.10"), "💎ton５．１０");
}

#[test]
fn payload_wraps_message_in_content_object() {
    assert_eq!(
        webhook_payload("📈 BTC: $43250.50"),
        "{\"content\":\"📈 BTC: $43250.50\"}"
    );
}

#[test]
fn payload_escapes_quotes_and_backslashes() {
    assert_eq!(webhook_payload("a\"b\\c"), "{\"content\":\"a\\\"b\\\\c\"}");
}

#[test]
fn payload_escapes_control_characters() {
    assert_eq!(webhook_payload("a\nb\tc"), "{\"content\":\"a\\nb\\tc\"}");
    assert_eq!(webhook_payload("\u{1}\u{1f}"), "{\"content\":\"\\u0001\\u001f\"}");
}
