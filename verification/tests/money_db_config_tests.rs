use card_wallet::config::{parse_i64, parse_u32, Config, EnvValues};
use card_wallet::db::{
    cards_or_not_found, create_wallet_query, get_wallet_query, row_or_not_found, update_wallet_query, wallet_owner,
    SqlValue, WalletOwner,
};
use card_wallet::errors::DbError;
use card_wallet::dtos::{AddMoneyRequestDto, WithdrawMoneyRequestDto};
use card_wallet::errors::HttpMessage;
use card_wallet::flows::{
    add_card_money_start, add_card_money_step, recive_money_step, withdraw_money_start, withdraw_money_step, Action, Event,
    PaymentState, Step, WithdrawState,
};
use card_wallet::models::{Card, CardStatus, Wallet};
use card_wallet::money::Decimal;

fn d(digits: i128, scale: u32) -> Decimal {
    Decimal { negative: digits < 0, magnitude: digits.unsigned_abs().to_be_bytes().to_vec(), scale }
}

/// The magnitude of `x`'s unscaled digits, where it fits in a `u128`.
fn magnitude_of(x: &Decimal) -> u128 {
    let mut v: u128 = 0;
    for b in &x.magnitude {
        v = v * 256 + u128::from(*b);
    }
    v
}

/// The unscaled digits of `x`, where they fit in an `i128`.
fn digits_of(x: &Decimal) -> i128 {
    let v = i128::try_from(magnitude_of(x)).unwrap();
    if x.negative { -v } else { v }
}

fn wallet(balance: Decimal) -> Wallet {
    Wallet { id: 2, user_id: Some(5), card_id: None, balance, locked_balance: d(0, 0), created_at: 0, updated_at: 0 }
}

/// The value of `x` written with `scale` digits after the point.
fn value_times(x: Decimal, scale: u32) -> i128 {
    digits_of(&x) * 10i128.pow(scale - x.scale)
}

/// The balance a withdrawal of `amount` from `balance` writes, or the status it fails with.
fn withdrawal(balance: Decimal, amount: u64) -> Result<Decimal, u16> {
    let s = WithdrawState::AwaitWallet { user_id: 5, amount };
    match withdraw_money_step(s, Event::Wallet(Ok(wallet(balance)))) {
        Step::Next(_, Action::UpdateWallet { balance: Some(b), .. }) => Ok(b),
        Step::Done(Err(e)) => Err(e.status),
        _ => panic!("unexpected step"),
    }
}

/// The balance a payment of `amount` to a vendor whose wallet holds `balance` writes, or the status it fails with.
fn vendor_credit(balance: Decimal, amount: u64) -> Result<Decimal, (u16, HttpMessage)> {
    let s = PaymentState::AwaitVendorWallet { amount, vendor_id: 5, user_wallet: wallet(d(0, 0)) };
    match recive_money_step(s, Event::Wallet(Ok(wallet(balance)))) {
        Step::Next(_, Action::UpdateWallet { balance: Some(b), .. }) => Ok(b),
        Step::Done(Err(e)) => Err((e.status, e.message)),
        _ => panic!("unexpected step"),
    }
}

#[test]
fn added_money_is_the_whole_amount() {
    let s = match add_card_money_start(&AddMoneyRequestDto { amount: 25, card_id: 3 }) { Step::Next(s, _) => s, _ => panic!() };
    let card = Card {
        id: 3, parent_id: 1, cardname: "A".to_string(), phonenumber: "1".to_string(), card_status: CardStatus::Active,
        card_qr_code: None, created_at: 0, updated_at: 0,
    };
    match add_card_money_step(s, Event::Card(Ok(card))) {
        Step::Next(_, Action::UpdateWallet { balance: Some(b), .. }) => assert_eq!((digits_of(&b), b.scale), (25, 0)),
        _ => panic!(),
    }
}

#[test]
fn balances_compare_by_value() {
    assert_eq!(withdrawal(d(999, 2), 10).err(), Some(400));
    assert!(withdrawal(d(1000, 2), 10).is_ok());
    assert!(withdrawal(d(1001, 2), 10).is_ok());
    assert_eq!(withdrawal(d(-1, 0), 0).err(), Some(400));
}

#[test]
fn debit_is_exact() {
    assert_eq!(value_times(withdrawal(d(1050, 2), 3).unwrap(), 4), 75_000);
    assert_eq!(value_times(withdrawal(d(3, 0), 3).unwrap(), 4), 0);
    let body = WithdrawMoneyRequestDto { amount: 3, pin: "123456".to_string() };
    assert!(matches!(withdraw_money_start(&body, 5), Step::Next(WithdrawState::AwaitWallet { user_id: 5, amount: 3 }, _)));
}

#[test]
fn credit_is_exact() {
    assert_eq!(value_times(vendor_credit(d(1050, 2), 3).unwrap(), 4), 135_000);
    assert_eq!(value_times(vendor_credit(d(0, 5), 3).unwrap(), 5), 300_000);
}

#[test]
fn balances_of_any_size_are_credited() {
    // one past the largest i128
    let b = vendor_credit(d(i128::MAX, 0), 1).unwrap();
    assert!(!b.negative);
    assert_eq!(b.scale, 0);
    assert_eq!(magnitude_of(&b), 1u128 << 127);
    // 10^40 at scale 40 is one
    let b = vendor_credit(d(0, 40), 1).unwrap();
    assert_eq!(b.scale, 40);
    let big = bigdecimal::num_bigint::BigInt::from(10).pow(40u32);
    assert_eq!(b.magnitude, big.to_bytes_be().1);
    // a debit from a balance past the i128 range
    let mut huge = d(0, 0);
    huge.magnitude = big.to_bytes_be().1;
    let left = withdrawal(huge, 1).unwrap();
    let expected_left: bigdecimal::num_bigint::BigInt = big - bigdecimal::num_bigint::BigInt::from(1);
    assert_eq!(left.magnitude, expected_left.to_bytes_be().1);
}

#[test]
fn wallet_owner_needs_exactly_one() {
    assert!(matches!(wallet_owner(Some(1), None, "m"), Ok(WalletOwner::User(1))));
    assert!(matches!(wallet_owner(None, Some(2), "m"), Ok(WalletOwner::Card(2))));
    assert!(matches!(wallet_owner(None, None, "m"), Err(DbError::Protocol(ref t)) if t == "m"));
    assert!(matches!(wallet_owner(Some(1), Some(2), "m"), Err(DbError::Protocol(_))));
}

#[test]
fn create_wallet_sql() {
    let q = create_wallet_query(Some(5), None).unwrap();
    assert_eq!(q.sql, "INSERT INTO wallets (user_id) VALUES ($1) RETURNING id, user_id, card_id, balance, locked_balance, created_at, updated_at");
    assert!(matches!(q.binds.as_slice(), [SqlValue::Id(5)]));
    assert!(matches!(create_wallet_query(None, None), Err(DbError::Protocol(ref t)) if t == "Provide either user_id OR card_id (not both)"));
}

#[test]
fn get_wallet_sql() {
    let q = get_wallet_query(None, Some(9)).unwrap();
    assert_eq!(q.sql, "SELECT id, user_id, card_id, balance, locked_balance, created_at, updated_at FROM wallets WHERE card_id = $1");
    assert!(matches!(q.binds.as_slice(), [SqlValue::Id(9)]));
}

#[test]
fn update_wallet_sql() {
    let q = update_wallet_query(None, Some(9), Some(d(100, 0)), None).unwrap();
    assert_eq!(q.sql, "UPDATE wallets SET balance = $1 WHERE card_id = $2 RETURNING id, user_id, card_id, balance, locked_balance, created_at, updated_at");
    assert!(matches!(q.binds.as_slice(), [SqlValue::Amount(Decimal { negative: false, scale: 0, .. }), SqlValue::Id(9)]));
    let q = update_wallet_query(Some(4), None, Some(d(1, 0)), Some(d(2, 0))).unwrap();
    assert_eq!(q.sql, "UPDATE wallets SET balance = $1 locked_balance = $2 WHERE user_id = $3 RETURNING id, user_id, card_id, balance, locked_balance, created_at, updated_at");
    let q = update_wallet_query(Some(4), None, None, Some(d(2, 0))).unwrap();
    assert_eq!(q.sql, "UPDATE wallets SET locked_balance = $1 WHERE user_id = $2 RETURNING id, user_id, card_id, balance, locked_balance, created_at, updated_at");
    assert!(matches!(update_wallet_query(Some(4), None, None, None), Err(DbError::Protocol(ref t)) if t == "Provide at least one field"));
    assert!(matches!(update_wallet_query(Some(4), Some(1), Some(d(1, 0)), None), Err(DbError::Protocol(ref t)) if t == "Provide either user_id OR card_id"));
}

#[test]
fn row_and_cards_helpers() {
    assert!(matches!(row_or_not_found(Some(3)), Ok(3)));
    assert!(matches!(row_or_not_found::<u8>(None), Err(DbError::RowNotFound)));
    assert!(matches!(cards_or_not_found(vec![]), Err(DbError::RowNotFound)));
}

#[test]
fn parse_numbers_like_std() {
    for s in ["0", "8080", "+7", "4294967295", "4294967296", "", "+", "-1", " 1", "1a", "٣"] {
        assert_eq!(parse_u32(s), s.parse::<u32>().ok(), "{}", s);
    }
    for s in ["0", "-0", "-9223372036854775808", "9223372036854775807", "9223372036854775808",
              "-9223372036854775809", "+12", "-", "--1", "3600", "1.5"] {
        assert_eq!(parse_i64(s), s.parse::<i64>().ok(), "{}", s);
    }
}

fn env(port: Option<&str>, maxage: Option<&str>) -> EnvValues {
    let s = |x: &str| Some(x.to_string());
    EnvValues {
        database_url: s("postgres://db"),
        jwt_secret: s("j"),
        qr_secret: s("q"),
        jwt_maxage: maxage.map(|x| x.to_string()),
        port: port.map(|x| x.to_string()),
        aws_access_key_id: s("a"),
        aws_secret_access_key: s("b"),
        aws_region: s("eu-west-1"),
        s3_bucket: s("cards"),
    }
}

#[test]
fn config_defaults_port() {
    let c = Config::from_values(env(None, Some("60"))).unwrap();
    assert_eq!(c.port, 8080);
    assert_eq!(c.jwt_maxage, 60);
    assert_eq!(c.s3_bucket, "cards");
}

#[test]
fn config_errors_in_order() {
    assert_eq!(Config::from_values(env(Some("x"), None)).unwrap_err(), "jwt expiration time does not exist");
    assert_eq!(Config::from_values(env(Some("x"), Some("1"))).unwrap_err(), "port number must be a u32");
    assert_eq!(Config::from_values(env(Some("80"), Some("1h"))).unwrap_err(), "expiration must be a i16");
    let mut e = env(None, Some("1"));
    e.database_url = None;
    assert_eq!(Config::from_values(e).unwrap_err(), "Database Url does not exist");
    let mut e = env(None, Some("1"));
    e.s3_bucket = None;
    assert_eq!(Config::from_values(e).unwrap_err(), "S3_BUCKET missing");
}
