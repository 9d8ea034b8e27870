use ocpp_backend::text::{decimal_string, is_integer_text, is_json_number_text, str_eq};

#[test]
fn str_eq_compares_characters() {
    assert!(str_eq("Heartbeat", "Heartbeat"));
    assert!(!str_eq("Heartbeat", "heartbeat"));
    assert!(!str_eq("Heartbeat", "Heartbeats"));
    assert!(str_eq("", ""));
    assert!(str_eq("grüß", "grüß"));
    assert!(!str_eq("grüß", "gruss"));
}

#[test]
fn decimal_string_writes_numerals() {
    assert_eq!(decimal_string(0), "0");
    assert_eq!(decimal_string(7), "7");
    assert_eq!(decimal_string(10), "10");
    assert_eq!(decimal_string(300), "300");
    assert_eq!(decimal_string(1234567890), "1234567890");
    assert_eq!(decimal_string(u64::MAX), "18446744073709551615");
}

#[test]
fn decimal_string_is_injective_on_samples() {
    let mut seen: Vec<String> = Vec::new();
    for n in 0..200u64 {
        let text = decimal_string(n);
        assert!(!seen.contains(&text));
        seen.push(text);
    }
}

#[test]
fn integer_text_accepts_integers_only() {
    assert!(is_integer_text("0"));
    assert!(is_integer_text("60"));
    assert!(is_integer_text("-3"));
    assert!(is_integer_text("18446744073709551615"));
    assert!(!is_integer_text(""));
    assert!(!is_integer_text("-"));
    assert!(!is_integer_text("1.5"));
    assert!(!is_integer_text("1e3"));
    assert!(!is_integer_text("3-"));
    assert!(!is_integer_text("+3"));
    assert!(!is_integer_text("١٢"));
}

#[test]
fn json_number_text_follows_the_grammar_of_json() {
    for good in [
        "0", "-0", "7", "60", "-3", "1234567890", "0.5", "-0.25", "10.01", "1e5", "1E5", "1e+5",
        "1e-5", "0e0", "2.5e10", "-2.5E-10", "18446744073709551615", "1.0",
    ] {
        assert!(is_json_number_text(good), "{}", good);
    }
    for bad in [
        "", "-", "+1", "01", "-01", "00", "1.", ".5", "1.e5", "1e", "1e+", "1e-", "e5", "1e5.0",
        "1..2", "1 ", " 1", "abc", "0x10", "1,5", "--1", "1-", "NaN", "Infinity", "١",
    ] {
        assert!(!is_json_number_text(bad), "{}", bad);
    }
}
