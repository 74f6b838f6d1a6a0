use card_wallet::dtos::{
    AddMoneyRequestDto, CardCreateDto, CheckCardPinDto, CreateVendorPin, LoginUserDto, RegisterUserDto,
    ReciveMoneyToWallet, WithdrawMoneyRequestDto,
};
use card_wallet::errors::{DbError, ErrorMessage, HttpMessage};
use card_wallet::flows::{
    add_card_money_start, add_card_money_step, check_user_card_pin_start, check_user_card_pin_step, create_card_start,
    create_card_step, create_vendor_wallet_pin_start, create_vendor_wallet_pin_step, get_user_cards_start, get_user_cards_step,
    login_start, login_step, recive_money_start, recive_money_step, register_start, register_step, withdraw_money_start,
    withdraw_money_step, Action, AddMoneyState, CardsState, CheckPinState, CreateCardState, Event, LoginState, PaymentState,
    RegisterState, Step, WithdrawState,
};
use card_wallet::models::{Card, CardPin, CardStatus, Role, User, Wallet, WithdrawalPin};
use card_wallet::money::Decimal;
use card_wallet::pin_hasher::{compare_password, hash_password, pin_hash};
use card_wallet::qr::qr_link;

fn dec(digits: i128, scale: u32) -> Decimal {
    Decimal { negative: digits < 0, magnitude: digits.unsigned_abs().to_be_bytes().to_vec(), scale }
}

/// The unscaled digits of `x`, where they fit in an `i128`.
fn digits_of(x: &Decimal) -> i128 {
    let mut v: i128 = 0;
    for b in &x.magnitude {
        v = v * 256 + i128::from(*b);
    }
    if x.negative { -v } else { v }
}

fn card(id: u128) -> Card {
    Card {
        id,
        parent_id: 1,
        cardname: "Ann".to_string(),
        phonenumber: "0123456789".to_string(),
        card_status: CardStatus::Active,
        card_qr_code: None,
        created_at: 0,
        updated_at: 0,
    }
}

fn wallet(id: u128, user_id: Option<u128>, card_id: Option<u128>, balance: Decimal) -> Wallet {
    Wallet { id, user_id, card_id, balance, locked_balance: dec(0, 0), created_at: 0, updated_at: 0 }
}

fn pin_row(card_id: u128, hashed_pin: String) -> CardPin {
    CardPin { id: 9, card_id, hashed_pin, created_at: 0, updated_at: 0 }
}

fn err_of<S, R>(s: Step<S, Result<R, card_wallet::errors::HttpError>>) -> (u16, HttpMessage) {
    match s {
        Step::Done(Err(e)) => (e.status, e.message),
        _ => panic!("expected an error"),
    }
}

fn padless_link(card_id: u128, secret: &str) -> String {
    qr_link(card_id, secret).trim_end_matches('=').to_string()
}

#[test]
fn qr_payment_moves_the_amount() {
    let card_id: u128 = 77;
    let vendor: u128 = 5;
    let body = ReciveMoneyToWallet { qr_code_link: padless_link(card_id, "qs"), amount: 30, card_pin: "123456".to_string() };
    let (s, a) = match recive_money_start(&body, vendor, "qs") { Step::Next(s, a) => (s, a), _ => panic!() };
    assert!(matches!(a, Action::GetCard { card_id: 77 }));
    let (s, a) = match recive_money_step(s, Event::Card(Ok(card(card_id)))) { Step::Next(s, a) => (s, a), _ => panic!() };
    assert!(matches!(a, Action::GetWallet { user_id: None, card_id: Some(77) }));
    let (s, a) = match recive_money_step(s, Event::Wallet(Ok(wallet(1, None, Some(card_id), dec(10000, 2))))) { Step::Next(s, a) => (s, a), _ => panic!() };
    assert!(matches!(a, Action::CheckCardPin { card_id: 77 }));
    let h = pin_hash(b"123456").unwrap();
    let (s, a) = match recive_money_step(s, Event::CardPin(Ok(pin_row(card_id, h)))) { Step::Next(s, a) => (s, a), _ => panic!() };
    let new_balance = match a { Action::UpdateWallet { user_id: None, card_id: Some(77), balance: Some(b), locked_balance: None } => b, _ => panic!() };
    assert_eq!(digits_of(&new_balance) * 10i128.pow(2 - new_balance.scale), 7000);
    let (s, a) = match recive_money_step(s, Event::Wallet(Ok(wallet(1, None, Some(card_id), new_balance)))) { Step::Next(s, a) => (s, a), _ => panic!() };
    assert!(matches!(a, Action::GetWallet { user_id: Some(5), card_id: None }));
    let (s, a) = match recive_money_step(s, Event::Wallet(Ok(wallet(2, Some(vendor), None, dec(5, 0))))) { Step::Next(s, a) => (s, a), _ => panic!() };
    let vendor_balance = match a { Action::UpdateWallet { user_id: Some(5), card_id: None, balance: Some(b), locked_balance: None } => b, _ => panic!() };
    assert_eq!(digits_of(&vendor_balance) * 10i128.pow(0 - vendor_balance.scale), 35);
    match recive_money_step(s, Event::Wallet(Ok(wallet(2, Some(vendor), None, vendor_balance)))) {
        Step::Done(Ok(data)) => {
            assert_eq!(data.user_wallet.id, 1);
            assert_eq!(data.vendor_wallet.id, 2);
        },
        _ => panic!(),
    }
}

fn payment_at_pin_check(balance: Decimal) -> Step<PaymentState, Result<card_wallet::dtos::ReciveMoneyData, card_wallet::errors::HttpError>> {
    let s = PaymentState::AwaitCardWallet { card_id: 3, card_key: 3, amount: 30, pin: "123456".to_string(), vendor_id: 5 };
    recive_money_step(s, Event::Wallet(Ok(wallet(1, None, Some(3), balance))))
}

#[test]
fn qr_payment_refuses_overdraft() {
    let (status, msg) = err_of(payment_at_pin_check(dec(2999, 2)));
    assert_eq!(status, 400);
    assert!(matches!(msg, HttpMessage::Text(ref t) if t == "Insufficient Balance"));
    assert!(matches!(payment_at_pin_check(dec(30, 0)), Step::Next(..)));
}

#[test]
fn qr_payment_refuses_wrong_pin() {
    let h = pin_hash(b"123456").unwrap();
    let s = PaymentState::AwaitCardPin { card_id: 3, amount: 1, pin: "000000".to_string(), vendor_id: 5, new_balance: dec(0, 0) };
    let (status, msg) = err_of(recive_money_step(s, Event::CardPin(Ok(pin_row(3, h)))));
    assert_eq!(status, 404);
    assert!(matches!(msg, HttpMessage::Text(ref t) if t == "Entered Pin is wrong"));
}

#[test]
fn qr_payment_unknown_card_and_bad_link() {
    let s = PaymentState::AwaitCard { card_id: 3, amount: 1, pin: "1".to_string(), vendor_id: 5 };
    let (status, msg) = err_of(recive_money_step(s, Event::Card(Err(DbError::RowNotFound))));
    assert_eq!(status, 404);
    assert!(matches!(msg, HttpMessage::Text(ref t) if t == "Card not found"));
    let body = ReciveMoneyToWallet { qr_code_link: "!!".to_string(), amount: 1, card_pin: "1".to_string() };
    let (status, _) = err_of(recive_money_start(&body, 5, "k"));
    assert_eq!(status, 400);
}

#[test]
fn qr_payment_answer_out_of_turn_is_server_error() {
    let s = PaymentState::AwaitCard { card_id: 3, amount: 1, pin: "1".to_string(), vendor_id: 5 };
    let (status, msg) = err_of(recive_money_step(s, Event::Uploaded(Ok(()))));
    assert_eq!(status, 500);
    assert!(matches!(msg, HttpMessage::Known(ErrorMessage::ServerError)));
}

#[test]
fn withdrawal_debits_or_refuses() {
    let body = WithdrawMoneyRequestDto { amount: 10, pin: "123456".to_string() };
    let s = match withdraw_money_start(&body, 5) { Step::Next(s, Action::GetWallet { user_id: Some(5), card_id: None }) => s, _ => panic!() };
    match withdraw_money_step(s, Event::Wallet(Ok(wallet(2, Some(5), None, dec(15, 0))))) {
        Step::Next(WithdrawState::AwaitUpdate, Action::UpdateWallet { balance: Some(b), .. }) => assert_eq!(digits_of(&b) * 10i128.pow(0 - b.scale), 5),
        _ => panic!(),
    }
    let s = WithdrawState::AwaitWallet { user_id: 5, amount: 10 };
    let (status, _) = err_of(withdraw_money_step(s, Event::Wallet(Ok(wallet(2, Some(5), None, dec(9, 0))))));
    assert_eq!(status, 400);
}

#[test]
fn add_money_sets_the_balance_to_the_amount() {
    let body = AddMoneyRequestDto { amount: 40, card_id: 3 };
    let s = match add_card_money_start(&body) { Step::Next(s, Action::GetCard { card_id: 3 }) => s, _ => panic!() };
    match add_card_money_step(s, Event::Card(Ok(card(3)))) {
        Step::Next(AddMoneyState::AwaitUpdate, Action::UpdateWallet { user_id: None, card_id: Some(3), balance: Some(b), locked_balance: None }) => {
            assert_eq!((digits_of(&b), b.scale), (40, 0));
        },
        _ => panic!(),
    }
}

#[test]
fn vendor_pin_is_stored_as_given() {
    let body = CreateVendorPin { pin: "112233".to_string() };
    let s = match create_vendor_wallet_pin_start(&body, 8) {
        Step::Next(s, Action::CreateWithdrawalPin { vendor_id: 8, withdrawal_pin }) => { assert_eq!(withdrawal_pin, "112233"); s },
        _ => panic!(),
    };
    let row = WithdrawalPin { id: 1, vendor_id: 8, hashed_pin: "112233".to_string(), created_at: 0, updated_at: 0 };
    match create_vendor_wallet_pin_step(s, Event::WithdrawalPin(Ok(row))) {
        Step::Done(Ok(a)) => { assert_eq!(a.status, "success"); assert!(a.is_pin_available); },
        _ => panic!(),
    }
}

#[test]
fn card_pin_check() {
    let h = pin_hash(b"123456").unwrap();
    let body = CheckCardPinDto { card_id: 3, card_pin: "123456".to_string() };
    let s = match check_user_card_pin_start(&body) { Step::Next(s, Action::CheckCardPin { card_id: 3 }) => s, _ => panic!() };
    match check_user_card_pin_step(s, Event::CardPin(Ok(pin_row(3, h.clone())))) {
        Step::Done(Ok(r)) => assert_eq!(r.message, "Correct Pin"),
        _ => panic!(),
    }
    let s = CheckPinState::AwaitPin { pin: "999999".to_string() };
    let (status, msg) = err_of(check_user_card_pin_step(s, Event::CardPin(Ok(pin_row(3, h)))));
    assert_eq!(status, 401);
    assert!(matches!(msg, HttpMessage::Known(ErrorMessage::WrongPin)));
    let s = CheckPinState::AwaitPin { pin: "999999".to_string() };
    let (status, _) = err_of(check_user_card_pin_step(s, Event::CardPin(Err(DbError::RowNotFound))));
    assert_eq!(status, 404);
}

#[test]
fn listing_cards() {
    let s = match get_user_cards_start(1) { Step::Next(s, Action::GetCards { parent_id: 1 }) => s, _ => panic!() };
    match get_user_cards_step(s, Event::Cards(Ok(vec![card(3), card(4)]))) {
        Step::Done(Ok(v)) => { assert_eq!(v.len(), 2); assert_eq!(v[1].id, 4); },
        _ => panic!(),
    }
    let (status, _) = err_of(get_user_cards_step(CardsState::AwaitCards, Event::Cards(Err(DbError::RowNotFound))));
    assert_eq!(status, 404);
    let (status, msg) = err_of(get_user_cards_step(CardsState::AwaitCards, Event::Cards(Ok(vec![]))));
    assert_eq!(status, 404);
    assert!(matches!(msg, HttpMessage::Db(DbError::RowNotFound)));
}

#[test]
fn card_creation_runs_through() {
    let body = CardCreateDto { childname: "Ann".to_string(), phonenumber: "0123456789".to_string(), card_pin: "123456".to_string() };
    let s = match create_card_start(&body, 1, "qs", "bucket", "eu-west-1") { Step::Next(s, Action::CreateCard { parent_id: 1, .. }) => s, _ => panic!() };
    let id: u128 = 0x67e5_5044_10b1_426f_9247_bb68_0e5f_e0c8;
    let s = match create_card_step(s, Event::Card(Ok(card(id)))) {
        Step::Next(s, Action::Upload { bucket, key, body }) => {
            assert_eq!(bucket, "bucket");
            assert_eq!(key, "cards/67e55044-10b1-426f-9247-bb680e5fe0c8.png");
            assert_eq!(&body[1..4], b"PNG");
            s
        },
        _ => panic!(),
    };
    let s = match create_card_step(s, Event::Uploaded(Ok(()))) {
        Step::Next(s, Action::UpdateCard { card_id, qr_code_link }) => {
            assert_eq!(card_id, id);
            assert_eq!(qr_code_link, "https://bucket.s3.eu-west-1.amazonaws.com/cards/67e55044-10b1-426f-9247-bb680e5fe0c8.png");
            s
        },
        _ => panic!(),
    };
    let s = match create_card_step(s, Event::Card(Ok(card(id)))) { Step::Next(s, Action::CreateWallet { user_id: None, card_id: Some(c) }) if c == id => s, _ => panic!() };
    let s = match create_card_step(s, Event::Wallet(Ok(wallet(1, None, Some(id), dec(0, 0))))) {
        Step::Next(s, Action::CreateCardPin { card_id, hashed_pin }) => {
            assert_eq!(card_id, id);
            assert_eq!(card_wallet::pin_hasher::pin_compare(b"123456", &hashed_pin), Ok(true));
            assert!(hashed_pin.starts_with("$argon2id$"));
            assert_ne!(hashed_pin, "123456");
            s
        },
        _ => panic!(),
    };
    let (status, msg) = err_of(create_card_step(
        CreateCardState::AwaitCardPin { updated: card(id), wallet: wallet(1, None, Some(id), dec(0, 0)) },
        Event::CardPin(Err(DbError::Other("boom".to_string()))),
    ));
    assert_eq!(status, 500);
    assert!(matches!(msg, HttpMessage::TextThenDb(ref t, _) if t == "Unable to create card pin "));
    match create_card_step(s, Event::CardPin(Ok(pin_row(id, String::new())))) {
        Step::Done(Ok(data)) => { assert_eq!(data.card.id, id); assert_eq!(data.wallet.id, 1); },
        _ => panic!(),
    }
}

fn user(role: Role) -> User {
    User {
        id: 0x67e5_5044_10b1_426f_9247_bb68_0e5f_e0c8,
        username: "u".to_string(),
        email: "u@x".to_string(),
        phonenumber: "1".to_string(),
        user_role: role,
        password: "h".to_string(),
        created_at: None,
        updated_at: None,
    }
}

#[test]
fn vendor_sign_up_makes_a_wallet() {
    let body = RegisterUserDto { username: "u".to_string(), email: "u@x".to_string(), password: "p".to_string(), phonenumber: "1".to_string(), user_role: Role::Vendor };
    let s = match register_start(&body, Ok(())) {
        Step::Next(s, Action::Register { password, .. }) => {
            assert!(password.starts_with("$argon2id$"));
            assert_eq!(compare_password(b"p", &password), Ok(true));
            assert_eq!(compare_password(b"q", &password), Ok(false));
            s
        },
        _ => panic!(),
    };
    let s = match register_step(s, Event::User(Ok(user(Role::Vendor)))) { Step::Next(s, Action::CreateWallet { user_id: Some(_), card_id: None }) => s, _ => panic!() };
    match register_step(s, Event::Wallet(Ok(wallet(1, Some(1), None, dec(0, 0))))) {
        Step::Done(Ok(r)) => assert_eq!(r.message, "User Regsitered successfully"),
        _ => panic!(),
    }
    match register_step(RegisterState::AwaitUser, Event::User(Ok(user(Role::Parent)))) {
        Step::Done(Ok(_)) => {},
        _ => panic!(),
    }
}

#[test]
fn sign_up_body_that_fails_its_checks_is_refused() {
    let body = RegisterUserDto { username: "u".to_string(), email: "u@x".to_string(), password: "p".to_string(), phonenumber: "1".to_string(), user_role: Role::Parent };
    let (status, msg) = err_of(register_start(&body, Err("email: bad".to_string())));
    assert_eq!(status, 400);
    assert!(matches!(msg, HttpMessage::Text(ref t) if t == "email: bad"));
    let login = LoginUserDto { email: "u@x".to_string(), password: "p".to_string() };
    let (status, _) = err_of(login_start(&login, Err("email: bad".to_string()), "js", 60));
    assert_eq!(status, 400);
}

#[test]
fn sign_up_conflict() {
    let e = DbError::Database { message: "duplicate key".to_string(), unique_violation: true };
    let (status, msg) = err_of(register_step(RegisterState::AwaitUser, Event::User(Err(e))));
    assert_eq!(status, 409);
    assert!(matches!(msg, HttpMessage::Text(ref t) if t == "duplicate key"));
    let e = DbError::Database { message: "other".to_string(), unique_violation: false };
    let (status, msg) = err_of(register_step(RegisterState::AwaitUser, Event::User(Err(e))));
    assert_eq!(status, 500);
    assert!(matches!(msg, HttpMessage::Known(ErrorMessage::ServerError)));
}

#[test]
fn sign_in() {
    let mut known = user(Role::Parent);
    known.password = hash_password(b"p").unwrap();
    let body = LoginUserDto { email: "u@x".to_string(), password: "p".to_string() };
    let s = match login_start(&body, Ok(()), "js", 60) { Step::Next(s, Action::FindUserByEmail { email }) => { assert_eq!(email, "u@x"); s }, _ => panic!() };
    let s = match login_step(s, Event::MaybeUser(Ok(Some(known)))) {
        Step::Next(s, Action::CreateToken { user_id, max_age: 60, .. }) => { assert_eq!(user_id, "67e55044-10b1-426f-9247-bb680e5fe0c8"); s },
        _ => panic!(),
    };
    match login_step(s, Event::Token(Ok("t".to_string()))) {
        Step::Done(Ok(d)) => { assert_eq!(d.token, "t"); assert_eq!(d.user.email.as_deref(), Some("u@x")); },
        _ => panic!(),
    }
    let s = LoginState::AwaitUser { password: "p".to_string(), jwt_secret: "js".to_string(), jwt_maxage: 1 };
    let (status, msg) = err_of(login_step(s, Event::MaybeUser(Ok(None))));
    assert_eq!(status, 401);
    assert!(matches!(msg, HttpMessage::Known(ErrorMessage::UserNoLongerExist)));
}

#[test]
fn sign_in_refuses_wrong_password_and_bad_hash() {
    let mut known = user(Role::Parent);
    known.password = hash_password(b"p").unwrap();
    let s = LoginState::AwaitUser { password: "x".to_string(), jwt_secret: "js".to_string(), jwt_maxage: 1 };
    let (status, msg) = err_of(login_step(s, Event::MaybeUser(Ok(Some(known)))));
    assert_eq!(status, 401);
    assert!(matches!(msg, HttpMessage::Known(ErrorMessage::WrongCredentials)));
    let s = LoginState::AwaitUser { password: "p".to_string(), jwt_secret: "js".to_string(), jwt_maxage: 1 };
    let (status, msg) = err_of(login_step(s, Event::MaybeUser(Ok(Some(user(Role::Parent))))));
    assert_eq!(status, 500);
    assert!(matches!(msg, HttpMessage::Known(ErrorMessage::InvalidHashFormat)));
}
