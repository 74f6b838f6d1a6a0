use card_wallet::dtos::{
    AddMoneyRequestDto, CardCreateDto, CheckCardPinDto, CreateVendorPin, PaymentRequestDto, ReciveMoneyToWallet,
    WithdrawMoneyRequestDto, WithdrawalRequestDto,
};
use card_wallet::validation::{join_strings, pin_pattern_matches};

fn card(childname: &str, phonenumber: &str, pin: &str) -> CardCreateDto {
    CardCreateDto { childname: childname.to_string(), phonenumber: phonenumber.to_string(), card_pin: pin.to_string() }
}

#[test]
fn card_create_accepts_good_body() {
    assert_eq!(card("Ann", "0123456789", "123456").validate(), Ok(()));
}

#[test]
fn card_create_reports_each_failed_field_in_order() {
    let r = card("", "12345", "12a4").validate();
    assert_eq!(
        r,
        Err("childname: Childname is requiured\nphonenumber: Enter a valid phonenumber\ncard_pin: PIN must be exactly 6 digits, PIN must contain only digits".to_string())
    );
}

#[test]
fn card_create_pin_of_six_letters_fails_only_the_pattern() {
    let r = card("Ann", "0123456789", "abcdef").validate();
    assert_eq!(r, Err("card_pin: PIN must contain only digits".to_string()));
}

#[test]
fn card_create_phone_length_counts_characters() {
    // ten characters, more than ten bytes
    assert_eq!(card("Ann", "é123456789", "123456").validate(), Ok(()));
    assert_eq!(card("Ann", "01234567890", "123456").validate(), Err("phonenumber: Enter a valid phonenumber".to_string()));
}

#[test]
fn pin_pattern_takes_unicode_digits() {
    assert!(pin_pattern_matches("123456"));
    assert!(pin_pattern_matches("١٢٣٤٥٦"));
    assert!(!pin_pattern_matches("12345"));
    assert!(!pin_pattern_matches("1234567"));
    assert!(!pin_pattern_matches(" 12345"));
}

#[test]
fn join_strings_joins() {
    let v = vec!["a".to_string(), "b".to_string(), "c".to_string()];
    assert_eq!(join_strings(&v, ", "), "a, b, c");
    assert_eq!(join_strings(&vec![], ", "), "");
}

#[test]
fn check_pin_body() {
    assert_eq!(CheckCardPinDto { card_id: 1, card_pin: "654321".to_string() }.validate(), Ok(()));
    assert_eq!(
        CheckCardPinDto { card_id: 1, card_pin: "1".to_string() }.validate(),
        Err("card_pin: PIN must be exactly 6 digits, PIN must contain only digits".to_string())
    );
}

#[test]
fn recive_money_body() {
    let ok = ReciveMoneyToWallet { qr_code_link: "x".to_string(), amount: 1, card_pin: "1".to_string() };
    assert_eq!(ok.validate(), Ok(()));
    let bad = ReciveMoneyToWallet { qr_code_link: String::new(), amount: 0, card_pin: String::new() };
    assert_eq!(
        bad.validate(),
        Err("qr_code_link: QR code link is required\namount: Amount must be greater than 0\ncard_pin: Pin is required".to_string())
    );
}

#[test]
fn vendor_pin_body() {
    assert_eq!(CreateVendorPin { pin: "000000".to_string() }.validate(), Ok(()));
    assert_eq!(CreateVendorPin { pin: "0000000".to_string() }.validate(), Err("pin: PIN must be exactly 6 digits, PIN must contain only digits".to_string()));
}

#[test]
fn withdraw_body() {
    assert_eq!(WithdrawMoneyRequestDto { amount: 5, pin: "123456".to_string() }.validate(), Ok(()));
    assert_eq!(
        WithdrawMoneyRequestDto { amount: 0, pin: "123456".to_string() }.validate(),
        Err("amount: Amount must be greater than 0".to_string())
    );
}

#[test]
fn add_money_body() {
    assert_eq!(AddMoneyRequestDto { amount: 1, card_id: 3 }.validate(), Ok(()));
    assert_eq!(AddMoneyRequestDto { amount: 0, card_id: 3 }.validate(), Err("amount: Amount must be greater than 0".to_string()));
}

#[test]
fn payment_and_withdrawal_request_bodies() {
    let p = PaymentRequestDto { card_id: 1, amount: String::new(), card_pin: "123456".to_string() };
    assert_eq!(p.validate(false), Err("amount: Amount is required, Amount must be a valid number greater than 0".to_string()));
    let p = PaymentRequestDto { card_id: 1, amount: "2.5".to_string(), card_pin: "123456".to_string() };
    assert_eq!(p.validate(true), Ok(()));
    let w = WithdrawalRequestDto { user_id: 1, amount: "-1".to_string() };
    assert_eq!(w.validate(false), Err("amount: Amount must be a valid number greater than 0".to_string()));
}
