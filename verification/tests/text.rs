use ledger_engine::text::push_amount;
use ledger_engine::text::push_bool;
use ledger_engine::text::push_decimal;
use ledger_engine::text::same_text;
use ledger_engine::types::ClientId;
use ledger_engine::types::FixedFloat;
use ledger_engine::types::TransactionId;

#[test]
fn whole_amounts_have_no_fraction() {
    assert_eq!(FixedFloat(10000).to_string(), "1");
    assert_eq!(FixedFloat(-10000).to_string(), "-1");
    assert_eq!(FixedFloat(1230000).to_string(), "123");
    assert_eq!(FixedFloat(100000).to_string(), "10");
}

#[test]
fn trailing_zeros_of_the_fraction_are_left_out() {
    assert_eq!(FixedFloat(15000).to_string(), "1.5");
    assert_eq!(FixedFloat(15500).to_string(), "1.55");
    assert_eq!(FixedFloat(15550).to_string(), "1.555");
    assert_eq!(FixedFloat(15555).to_string(), "1.5555");
    assert_eq!(FixedFloat(10500).to_string(), "1.05");
    assert_eq!(FixedFloat(10050).to_string(), "1.005");
    assert_eq!(FixedFloat(10005).to_string(), "1.0005");
    assert_eq!(FixedFloat(10100).to_string(), "1.01");
    assert_eq!(FixedFloat(10010).to_string(), "1.001");
}

#[test]
fn amounts_below_one_start_with_a_zero() {
    assert_eq!(FixedFloat(1).to_string(), "0.0001");
    assert_eq!(FixedFloat(10).to_string(), "0.001");
    assert_eq!(FixedFloat(100).to_string(), "0.01");
    assert_eq!(FixedFloat(1000).to_string(), "0.1");
    assert_eq!(FixedFloat(9999).to_string(), "0.9999");
    assert_eq!(FixedFloat(-1).to_string(), "-0.0001");
    assert_eq!(FixedFloat(-5000).to_string(), "-0.5");
}

#[test]
fn the_largest_and_the_smallest_amount() {
    assert_eq!(FixedFloat(i64::MAX).to_string(), "922337203685477.5807");
    assert_eq!(FixedFloat(i64::MIN).to_string(), "-922337203685477.5808");
}

#[test]
fn amounts_wider_than_an_amount() {
    let mut out = String::from("=");
    push_amount(&mut out, i128::MAX);
    assert_eq!(out, "=17014118346046923173168730371588410.5727");
    let mut out = String::new();
    push_amount(&mut out, i128::MIN);
    assert_eq!(out, "-17014118346046923173168730371588410.5728");
}

#[test]
fn amounts_agree_with_division_by_ten_thousand() {
    for scaled in [0i64, 1, -1, 12345, 27183, 31416, -1234567, 9876543210000, 500, 70] {
        assert_eq!(
            FixedFloat(scaled).to_string(),
            format!("{}", scaled as f64 / 10000.0)
        );
    }
}

#[test]
fn identifiers_are_decimal_numerals() {
    assert_eq!(TransactionId(0).to_string(), "0");
    assert_eq!(TransactionId(7).to_string(), "7");
    assert_eq!(TransactionId(10).to_string(), "10");
    assert_eq!(TransactionId(1234567890).to_string(), "1234567890");
    assert_eq!(TransactionId(u32::MAX).to_string(), "4294967295");
    assert_eq!(ClientId(0).to_string(), "0");
    assert_eq!(ClientId(906).to_string(), "906");
    assert_eq!(ClientId(u16::MAX).to_string(), "65535");
}

#[test]
fn decimal_numerals_are_appended() {
    let mut out = String::from("n=");
    push_decimal(&mut out, 0);
    push_decimal(&mut out, 42);
    push_decimal(&mut out, u128::MAX);
    assert_eq!(out, "n=042340282366920938463463374607431768211455");
}

#[test]
fn truth_values_are_written_out() {
    let mut out = String::new();
    push_bool(&mut out, true);
    push_bool(&mut out, false);
    assert_eq!(out, "truefalse");
}

#[test]
fn strings_are_compared_by_their_characters() {
    assert!(same_text("", ""));
    assert!(same_text("deposit", "deposit"));
    assert!(!same_text("deposit", "deposit "));
    assert!(!same_text("deposit", "Deposit"));
    assert!(!same_text("deposit", "deposiT"));
    assert!(!same_text("resolve", "dispute"));
    assert!(!same_text("", "x"));
    assert!(same_text("d\u{e9}p\u{f4}t \u{1f4b0}", "d\u{e9}p\u{f4}t \u{1f4b0}"));
    assert!(!same_text("d\u{e9}p\u{f4}t", "depot"));
}
