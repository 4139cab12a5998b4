use license_check::make_expring_message;
use license_check::message::i64_to_dec_string;
use license_check::message::u64_to_dec_string;

#[test]
fn message_follows_the_template_exactly() {
    let expected = "Your license will expire in 5 days.\n\nTo ensure uninterrupted access to Tabby and to continue enjoying all the premium features, please renew your license before it expires.\n\nIf you have any questions or need assistance with the renewal process, please don't hesitate to contact our support team at support@tabbyml.com.\n";
    assert_eq!(make_expring_message(5), expected);
}

#[test]
fn message_names_each_day_count_in_the_window() {
    for d in 1..7i64 {
        let message = make_expring_message(d);
        assert!(message.contains(&format!("expire in {} days", d)));
    }
}

#[test]
fn message_renders_day_counts_outside_the_window_too() {
    assert!(make_expring_message(0).contains("expire in 0 days"));
    assert!(make_expring_message(123).contains("expire in 123 days"));
    assert!(make_expring_message(-12).contains("expire in -12 days"));
}

#[test]
fn decimal_rendering_of_unsigned_values() {
    assert_eq!(u64_to_dec_string(0), "0");
    assert_eq!(u64_to_dec_string(7), "7");
    assert_eq!(u64_to_dec_string(10), "10");
    assert_eq!(u64_to_dec_string(1203), "1203");
    assert_eq!(u64_to_dec_string(u64::MAX), "18446744073709551615");
}

#[test]
fn decimal_rendering_of_signed_values() {
    assert_eq!(i64_to_dec_string(0), "0");
    assert_eq!(i64_to_dec_string(42), "42");
    assert_eq!(i64_to_dec_string(-1), "-1");
    assert_eq!(i64_to_dec_string(-904), "-904");
    assert_eq!(i64_to_dec_string(i64::MAX), "9223372036854775807");
    assert_eq!(i64_to_dec_string(i64::MIN), "-9223372036854775808");
}
