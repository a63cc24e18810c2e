use every_variant::demo::Message;
use every_variant::parsing::{parse_double_strings_into_numbers, parse_single_string};
use every_variant::EveryVariant;

#[test]
fn crashtest_parse_double_strings_into_numbers() {
    for s1 in String::every_variant() {
        for s2 in String::every_variant() {
            let _ = parse_double_strings_into_numbers(s1.clone(), s2.clone());
        }
    }
}

#[test]
fn crashtest_parse_single_string() {
    for s1 in String::every_variant() {
        let _ = parse_single_string(s1.clone());
    }
}

#[test]
fn main_messages_number() {
    let msgs = Message::every_variant().len();
    assert_eq!(20, msgs);
}

#[test]
fn parse_reads_numbers() {
    assert_eq!(parse_single_string("12".to_string()), 12);
    assert_eq!(parse_single_string("+7".to_string()), 7);
    assert_eq!(parse_single_string("0065535".to_string()), 65535);
}

#[test]
fn parse_falls_back_to_zero() {
    assert_eq!(parse_single_string("example String".to_string()), 0);
    assert_eq!(parse_single_string("".to_string()), 0);
    assert_eq!(parse_single_string("+".to_string()), 0);
    assert_eq!(parse_single_string("-1".to_string()), 0);
    assert_eq!(parse_single_string(" 1".to_string()), 0);
    assert_eq!(parse_single_string("65536".to_string()), 0);
}

#[test]
fn parse_two_texts() {
    assert_eq!(
        parse_double_strings_into_numbers("40".to_string(), "x".to_string()),
        (40, 0)
    );
}
