//! The request handlers as step functions. A handler's work alternates
//! database or storage requests with decisions; here each decision is a step
//! from the handler's state and the answer to its last request to the next
//! state and request, or to the handler's final answer. The edge performs the
//! requests and feeds the answers back.
use vstd::prelude::*;
use vstd::utf8::encode_utf8;
use crate::dtos::{
    add_money_fields, check_card_pin_fields, create_vendor_pin_fields, opt_text, shows_wallet, withdraw_money_fields,
    card_create_fields, AddMoneyRequestDto, CardCreateDto, CheckCardPinDto, CreateCardData, CreateVendorPin, FilterCardDto, FilterWalletDto, ReciveMoneyData,
    ReciveMoneyToWallet, Response, WalletData, RegisterUserDto, LoginUserDto, FilterUserDto, UserData, WalletPinResponseDto, WithdrawMoneyRequestDto,
};
use crate::errors::{
    http_error, text, DbError, ErrorMessage, HttpError, HttpErrorView, HttpMessage, HttpMessageView,
    STATUS_BAD_REQUEST, STATUS_INTERNAL_SERVER_ERROR, STATUS_NOT_FOUND, STATUS_UNAUTHORIZED, STATUS_CONFLICT, DbErrorView,
};
use crate::models::{Card, CardPin, User, Wallet, WithdrawalPin, Role};
use crate::money::{below_whole, decimal_below_u64, decimal_from_u64, decimal_minus_u64, decimal_plus_u64, represents, pow10, non_negative, debit_keeps_balance_non_negative, Decimal};
use crate::pin_hasher::{compare_password, hash_password, hashes_password, max_password_len, password_compare_outcome, is_argon2id_phc, lemma_utf8_len_at_least_chars, pin_compare, pin_compare_outcome, pin_hash, pin_length_error, MIN_PIN_LENGTH};
use crate::qr::{unpadded_qr_link_text, qr_link, qr_link_outcome, qr_link_text, qr_png, qr_png_outcome, read_qr_link, uuid_text, uuid_to_string};
use crate::validation::{outcome_view, validation_outcome};
use crate::dtos::recive_money_fields;

verus! {

/// A request a handler makes of the database or of the file store, or a
/// computation it hands to the edge.
#[derive(Debug)]
pub enum Action {
    GetCard { card_id: u128 },
    GetCards { parent_id: u128 },
    CreateCard { parent_id: u128, childname: String, phonenumber: String },
    UpdateCard { card_id: u128, qr_code_link: String },
    GetWallet { user_id: Option<u128>, card_id: Option<u128> },
    CreateWallet { user_id: Option<u128>, card_id: Option<u128> },
    UpdateWallet { user_id: Option<u128>, card_id: Option<u128>, balance: Option<Decimal>, locked_balance: Option<Decimal> },
    CheckCardPin { card_id: u128 },
    CreateCardPin { card_id: u128, hashed_pin: String },
    CreateWithdrawalPin { vendor_id: u128, withdrawal_pin: String },
    Register { username: String, password: String, email: String, phonenumber: String, user_role: Role },
    FindUserByEmail { email: String },
    Upload { bucket: String, key: String, body: Vec<u8> },
    CreateToken { user_id: String, secret: String, max_age: i64 },
}

/// The answer to a request.
#[derive(Debug)]
pub enum Event {
    Card(Result<Card, DbError>),
    Cards(Result<Vec<Card>, DbError>),
    Wallet(Result<Wallet, DbError>),
    CardPin(Result<CardPin, DbError>),
    WithdrawalPin(Result<WithdrawalPin, DbError>),
    User(Result<User, DbError>),
    MaybeUser(Result<Option<User>, DbError>),
    Uploaded(Result<(), String>),
    Token(Result<String, String>),
}

/// What a step gives: the next state and the request to make, or the answer.
#[derive(Debug)]
pub enum Step<S, R> {
    Next(S, Action),
    Done(R),
}

/// The step ends the handler with the error `e`.
pub open spec fn fails_with<S, R>(r: Step<S, Result<R, HttpError>>, e: HttpErrorView) -> bool {
    r matches Step::Done(Err(x)) && x@ == e
}

/// The error for an answer that does not fit the request made.
pub open spec fn unexpected() -> HttpErrorView {
    http_error(HttpMessageView::Known(ErrorMessage::ServerError), STATUS_INTERNAL_SERVER_ERROR)
}

fn unexpected_error() -> (r: HttpError)
    ensures
        r@ == unexpected(),
{
    HttpError::server_error(HttpMessage::Known(ErrorMessage::ServerError))
}

/// A fixed text as a message view.
pub open spec fn txt(s: Seq<char>) -> HttpMessageView {
    HttpMessageView::Text(s)
}

/// The error of a validation report.
pub open spec fn invalid_body(report: Seq<char>) -> HttpErrorView {
    http_error(HttpMessageView::Text(report), STATUS_BAD_REQUEST)
}

// ---------------------------------------------------------------------------
// A vendor takes a payment from a card by its QR code.

/// Where a QR payment stands.
#[derive(Debug)]
pub enum PaymentState {
    /// The card named by the QR code is being read.
    AwaitCard { card_id: u128, amount: u64, pin: String, vendor_id: u128 },
    /// The card's wallet is being read.
    AwaitCardWallet { card_id: u128, card_key: u128, amount: u64, pin: String, vendor_id: u128 },
    /// The card's PIN hash is being read; the card's new balance is known.
    AwaitCardPin { card_id: u128, amount: u64, pin: String, vendor_id: u128, new_balance: Decimal },
    /// The card's wallet is being debited.
    AwaitCardUpdate { amount: u64, vendor_id: u128 },
    /// The vendor's wallet is being read.
    AwaitVendorWallet { amount: u64, vendor_id: u128, user_wallet: Wallet },
    /// The vendor's wallet is being credited.
    AwaitVendorUpdate { user_wallet: Wallet },
}

/// The first step of a QR payment: the body must pass its checks and the code
/// must carry a card id signed with `qr_secret`; then the card is read.
pub fn recive_money_start(body: &ReciveMoneyToWallet, vendor_id: u128, qr_secret: &str)
    -> (r: Step<PaymentState, Result<ReciveMoneyData, HttpError>>)
    ensures
        match validation_outcome(recive_money_fields(body.qr_code_link@, body.amount, body.card_pin@)) {
            Err(report) => fails_with(r, invalid_body(report)),
            Ok(()) => match qr_link_outcome(encode_utf8(body.qr_code_link@), encode_utf8(qr_secret@)) {
                Err(e) => fails_with(r, e),
                Ok(card_id) => r matches Step::Next(PaymentState::AwaitCard { card_id: c, amount, pin, vendor_id: v }, Action::GetCard { card_id: g })
                    && c == card_id && g == card_id && amount == body.amount && pin@ == body.card_pin@ && v == vendor_id,
            },
        },
        forall|card_id: u128| validation_outcome(recive_money_fields(body.qr_code_link@, body.amount, body.card_pin@)) is Ok
            && body.qr_code_link@ == #[trigger] unpadded_qr_link_text(card_id, encode_utf8(qr_secret@))
            ==> (r matches Step::Next(PaymentState::AwaitCard { card_id: c, .. }, Action::GetCard { card_id: g }) && c == card_id && g == card_id),
{
    match body.validate() {
        Err(report) => return Step::Done(Err(HttpError::bad_request(HttpMessage::Text(report)))),
        Ok(()) => {},
    }
    match read_qr_link(body.qr_code_link.as_str(), qr_secret) {
        Err(e) => Step::Done(Err(e)),
        Ok(card_id) => Step::Next(
            PaymentState::AwaitCard { card_id, amount: body.amount, pin: body.card_pin.clone(), vendor_id },
            Action::GetCard { card_id },
        ),
    }
}


/// One step of a QR payment. The card's wallet is debited only where it holds
/// at least the amount and the PIN matches; then the vendor's wallet is
/// credited with the amount.
pub fn recive_money_step(state: PaymentState, event: Event) -> (r: Step<PaymentState, Result<ReciveMoneyData, HttpError>>)
    ensures
        state matches PaymentState::AwaitCard { card_id, amount, pin, vendor_id } ==> match event {
            Event::Card(Err(_)) => fails_with(r, http_error(txt("Card not found"@), STATUS_NOT_FOUND)),
            Event::Card(Ok(card)) => r matches Step::Next(
                    PaymentState::AwaitCardWallet { card_id: c, card_key, amount: a, pin: p, vendor_id: v },
                    Action::GetWallet { user_id, card_id: w })
                && c == card_id && card_key == card.id && a == amount && p@ == pin@ && v == vendor_id
                && user_id is None && w == Some(card.id),
            _ => fails_with(r, unexpected()),
        },
        state matches PaymentState::AwaitCardWallet { card_id, card_key, amount, pin, vendor_id } ==> match event {
            Event::Wallet(Err(e)) => fails_with(r, http_error(HttpMessageView::Db(e@), STATUS_NOT_FOUND)),
            Event::Wallet(Ok(wallet)) => if below_whole(wallet.balance, amount as int) {
                fails_with(r, http_error(txt("Insufficient Balance"@), STATUS_BAD_REQUEST))
            } else {
                r matches Step::Next(
                        PaymentState::AwaitCardPin { card_id: c, amount: a, pin: p, vendor_id: v, new_balance },
                        Action::CheckCardPin { card_id: k })
                    && c == card_id && a == amount && p@ == pin@ && v == vendor_id && k == card_key
                    && represents(new_balance, wallet.balance.digits() - amount * pow10(wallet.balance.scale as nat), wallet.balance.scale as nat)
                    && non_negative(new_balance)
            },
            _ => fails_with(r, unexpected()),
        },
        state matches PaymentState::AwaitCardPin { card_id, amount, pin, vendor_id, new_balance } ==> match event {
            Event::CardPin(Err(e)) => fails_with(r, http_error(HttpMessageView::Db(e@), STATUS_INTERNAL_SERVER_ERROR)),
            Event::CardPin(Ok(row)) => match pin_compare_outcome(encode_utf8(pin@), row.hashed_pin@) {
                Err(m) => fails_with(r, http_error(HttpMessageView::Known(m), STATUS_BAD_REQUEST)),
                Ok(false) => fails_with(r, http_error(txt("Entered Pin is wrong"@), STATUS_NOT_FOUND)),
                Ok(true) => r matches Step::Next(
                        PaymentState::AwaitCardUpdate { amount: a, vendor_id: v },
                        Action::UpdateWallet { user_id, card_id: c, balance, locked_balance })
                    && a == amount && v == vendor_id && user_id is None && c == Some(card_id)
                    && balance == Some(new_balance) && locked_balance is None,
            },
            _ => fails_with(r, unexpected()),
        },
        state matches PaymentState::AwaitCardUpdate { amount, vendor_id } ==> match event {
            Event::Wallet(Err(_)) => fails_with(r, unexpected()),
            Event::Wallet(Ok(wallet)) => r matches Step::Next(
                    PaymentState::AwaitVendorWallet { amount: a, vendor_id: v, user_wallet },
                    Action::GetWallet { user_id, card_id })
                && a == amount && v == vendor_id && user_wallet == wallet && user_id == Some(vendor_id) && card_id is None,
            _ => fails_with(r, unexpected()),
        },
        state matches PaymentState::AwaitVendorWallet { amount, vendor_id, user_wallet } ==> match event {
            Event::Wallet(Err(e)) => fails_with(r, http_error(HttpMessageView::Db(e@), STATUS_NOT_FOUND)),
            Event::Wallet(Ok(wallet)) => r matches Step::Next(
                    PaymentState::AwaitVendorUpdate { user_wallet: u },
                    Action::UpdateWallet { user_id, card_id, balance: Some(b), locked_balance })
                && u == user_wallet && user_id == Some(vendor_id) && card_id is None && locked_balance is None
                && represents(b, wallet.balance.digits() + amount * pow10(wallet.balance.scale as nat), wallet.balance.scale as nat),
            _ => fails_with(r, unexpected()),
        },
        state matches PaymentState::AwaitVendorUpdate { user_wallet } ==> match event {
            Event::Wallet(Err(_)) => fails_with(r, unexpected()),
            Event::Wallet(Ok(wallet)) => r matches Step::Done(Ok(data))
                && shows_wallet(data.user_wallet, user_wallet) && shows_wallet(data.vendor_wallet, wallet),
            _ => fails_with(r, unexpected()),
        },
{
    match state {
        PaymentState::AwaitCard { card_id, amount, pin, vendor_id } => match event {
            Event::Card(Err(_)) => Step::Done(Err(HttpError::not_found(text("Card not found")))),
            Event::Card(Ok(card)) => Step::Next(
                PaymentState::AwaitCardWallet { card_id, card_key: card.id, amount, pin, vendor_id },
                Action::GetWallet { user_id: None, card_id: Some(card.id) },
            ),
            _ => Step::Done(Err(unexpected_error())),
        },
        PaymentState::AwaitCardWallet { card_id, card_key, amount, pin, vendor_id } => match event {
            Event::Wallet(Err(e)) => Step::Done(Err(HttpError::not_found(HttpMessage::Db(e)))),
            Event::Wallet(Ok(wallet)) => {
                if decimal_below_u64(&wallet.balance, amount) {
                    return Step::Done(Err(HttpError::new(text("Insufficient Balance"), STATUS_BAD_REQUEST)));
                }
                let new_balance = decimal_minus_u64(&wallet.balance, amount);
                proof {
                    debit_keeps_balance_non_negative(wallet.balance, amount as int, new_balance);
                }
                Step::Next(
                    PaymentState::AwaitCardPin { card_id, amount, pin, vendor_id, new_balance },
                    Action::CheckCardPin { card_id: card_key },
                )
            },
            _ => Step::Done(Err(unexpected_error())),
        },
        PaymentState::AwaitCardPin { card_id, amount, pin, vendor_id, new_balance } => match event {
            Event::CardPin(Err(e)) => Step::Done(Err(HttpError::server_error(HttpMessage::Db(e)))),
            Event::CardPin(Ok(row)) => match pin_compare(pin.as_str().as_bytes(), row.hashed_pin.as_str()) {
                Err(m) => Step::Done(Err(HttpError::bad_request(HttpMessage::Known(m)))),
                Ok(false) => Step::Done(Err(HttpError::not_found(text("Entered Pin is wrong")))),
                Ok(true) => Step::Next(
                    PaymentState::AwaitCardUpdate { amount, vendor_id },
                    Action::UpdateWallet { user_id: None, card_id: Some(card_id), balance: Some(new_balance), locked_balance: None },
                ),
            },
            _ => Step::Done(Err(unexpected_error())),
        },
        PaymentState::AwaitCardUpdate { amount, vendor_id } => match event {
            Event::Wallet(Err(_)) => Step::Done(Err(unexpected_error())),
            Event::Wallet(Ok(wallet)) => Step::Next(
                PaymentState::AwaitVendorWallet { amount, vendor_id, user_wallet: wallet },
                Action::GetWallet { user_id: Some(vendor_id), card_id: None },
            ),
            _ => Step::Done(Err(unexpected_error())),
        },
        PaymentState::AwaitVendorWallet { amount, vendor_id, user_wallet } => match event {
            Event::Wallet(Err(e)) => Step::Done(Err(HttpError::not_found(HttpMessage::Db(e)))),
            Event::Wallet(Ok(wallet)) => {
                let b = decimal_plus_u64(&wallet.balance, amount);
                Step::Next(
                    PaymentState::AwaitVendorUpdate { user_wallet },
                    Action::UpdateWallet { user_id: Some(vendor_id), card_id: None, balance: Some(b), locked_balance: None },
                )
            },
            _ => Step::Done(Err(unexpected_error())),
        },
        PaymentState::AwaitVendorUpdate { user_wallet } => match event {
            Event::Wallet(Err(_)) => Step::Done(Err(unexpected_error())),
            Event::Wallet(Ok(wallet)) => Step::Done(Ok(ReciveMoneyData {
                user_wallet: FilterWalletDto::filter_wallet(&user_wallet),
                vendor_wallet: FilterWalletDto::filter_wallet(&wallet),
            })),
            _ => Step::Done(Err(unexpected_error())),
        },
    }
}


// ---------------------------------------------------------------------------
// A vendor withdraws money from their wallet.

/// Where a withdrawal stands.
#[derive(Debug)]
pub enum WithdrawState {
    /// The vendor's wallet is being read.
    AwaitWallet { user_id: u128, amount: u64 },
    /// The vendor's wallet is being debited.
    AwaitUpdate,
}

/// The first step of a withdrawal: the body must pass its checks; then the
/// vendor's wallet is read.
pub fn withdraw_money_start(body: &WithdrawMoneyRequestDto, user_id: u128) -> (r: Step<WithdrawState, Result<WalletData, HttpError>>)
    ensures
        match validation_outcome(withdraw_money_fields(body.amount, body.pin@)) {
            Err(report) => fails_with(r, invalid_body(report)),
            Ok(()) => r matches Step::Next(WithdrawState::AwaitWallet { user_id: u, amount }, Action::GetWallet { user_id: wu, card_id })
                && u == user_id && amount == body.amount && wu == Some(user_id) && card_id is None,
        },
{
    match body.validate() {
        Err(report) => Step::Done(Err(HttpError::bad_request(HttpMessage::Text(report)))),
        Ok(()) => Step::Next(
            WithdrawState::AwaitWallet { user_id, amount: body.amount },
            Action::GetWallet { user_id: Some(user_id), card_id: None },
        ),
    }
}

/// One step of a withdrawal: the wallet is debited only where it holds at
/// least the amount.
pub fn withdraw_money_step(state: WithdrawState, event: Event) -> (r: Step<WithdrawState, Result<WalletData, HttpError>>)
    ensures
        state matches WithdrawState::AwaitWallet { user_id, amount } ==> match event {
            Event::Wallet(Err(e)) => fails_with(r, http_error(HttpMessageView::Db(e@), STATUS_INTERNAL_SERVER_ERROR)),
            Event::Wallet(Ok(wallet)) => if below_whole(wallet.balance, amount as int) {
                fails_with(r, http_error(txt("Insufficient Balance"@), STATUS_BAD_REQUEST))
            } else {
                r matches Step::Next(
                        WithdrawState::AwaitUpdate,
                        Action::UpdateWallet { user_id: u, card_id, balance: Some(b), locked_balance })
                    && u == Some(user_id) && card_id is None && locked_balance is None
                    && represents(b, wallet.balance.digits() - amount * pow10(wallet.balance.scale as nat), wallet.balance.scale as nat)
                    && non_negative(b)
            },
            _ => fails_with(r, unexpected()),
        },
        state matches WithdrawState::AwaitUpdate ==> match event {
            Event::Wallet(Err(e)) => fails_with(r, http_error(HttpMessageView::Db(e@), STATUS_INTERNAL_SERVER_ERROR)),
            Event::Wallet(Ok(wallet)) => r matches Step::Done(Ok(data)) && shows_wallet(data.wallet, wallet),
            _ => fails_with(r, unexpected()),
        },
{
    match state {
        WithdrawState::AwaitWallet { user_id, amount } => match event {
            Event::Wallet(Err(e)) => Step::Done(Err(HttpError::server_error(HttpMessage::Db(e)))),
            Event::Wallet(Ok(wallet)) => {
                if decimal_below_u64(&wallet.balance, amount) {
                    return Step::Done(Err(HttpError::bad_request(text("Insufficient Balance"))));
                }
                let b = decimal_minus_u64(&wallet.balance, amount);
                proof {
                    debit_keeps_balance_non_negative(wallet.balance, amount as int, b);
                }
                Step::Next(
                    WithdrawState::AwaitUpdate,
                    Action::UpdateWallet { user_id: Some(user_id), card_id: None, balance: Some(b), locked_balance: None },
                )
            },
            _ => Step::Done(Err(unexpected_error())),
        },
        WithdrawState::AwaitUpdate => match event {
            Event::Wallet(Err(e)) => Step::Done(Err(HttpError::server_error(HttpMessage::Db(e)))),
            Event::Wallet(Ok(wallet)) => Step::Done(Ok(WalletData { wallet: FilterWalletDto::filter_wallet(&wallet) })),
            _ => Step::Done(Err(unexpected_error())),
        },
    }
}

// ---------------------------------------------------------------------------
// A parent puts money on a card.

/// Where putting money on a card stands.
#[derive(Debug)]
pub enum AddMoneyState {
    /// The card is being read.
    AwaitCard { amount: u64 },
    /// The card's wallet is being written.
    AwaitUpdate,
}

/// The first step of putting money on a card: the body must pass its checks;
/// then the card is read.
pub fn add_card_money_start(body: &AddMoneyRequestDto) -> (r: Step<AddMoneyState, Result<WalletData, HttpError>>)
    ensures
        match validation_outcome(add_money_fields(body.amount)) {
            Err(report) => fails_with(r, invalid_body(report)),
            Ok(()) => r matches Step::Next(AddMoneyState::AwaitCard { amount }, Action::GetCard { card_id })
                && amount == body.amount && card_id == body.card_id,
        },
{
    match body.validate() {
        Err(report) => Step::Done(Err(HttpError::bad_request(HttpMessage::Text(report)))),
        Ok(()) => Step::Next(AddMoneyState::AwaitCard { amount: body.amount }, Action::GetCard { card_id: body.card_id }),
    }
}

/// One step of putting money on a card: the card's wallet balance is set to
/// the amount.
pub fn add_card_money_step(state: AddMoneyState, event: Event) -> (r: Step<AddMoneyState, Result<WalletData, HttpError>>)
    ensures
        state matches AddMoneyState::AwaitCard { amount } ==> match event {
            Event::Card(Err(_)) => fails_with(r, http_error(txt("Card not found"@), STATUS_NOT_FOUND)),
            Event::Card(Ok(card)) => r matches Step::Next(
                    AddMoneyState::AwaitUpdate,
                    Action::UpdateWallet { user_id, card_id, balance: Some(b), locked_balance })
                && user_id is None && card_id == Some(card.id) && locked_balance is None
                && b.digits() == amount && b.scale == 0,
            _ => fails_with(r, unexpected()),
        },
        state matches AddMoneyState::AwaitUpdate ==> match event {
            Event::Wallet(Err(e)) => fails_with(r, http_error(HttpMessageView::Db(e@), STATUS_INTERNAL_SERVER_ERROR)),
            Event::Wallet(Ok(wallet)) => r matches Step::Done(Ok(data)) && shows_wallet(data.wallet, wallet),
            _ => fails_with(r, unexpected()),
        },
{
    match state {
        AddMoneyState::AwaitCard { amount } => match event {
            Event::Card(Err(_)) => Step::Done(Err(HttpError::not_found(text("Card not found")))),
            Event::Card(Ok(card)) => {
                let b = decimal_from_u64(amount);
                Step::Next(
                    AddMoneyState::AwaitUpdate,
                    Action::UpdateWallet { user_id: None, card_id: Some(card.id), balance: Some(b), locked_balance: None },
                )
            },
            _ => Step::Done(Err(unexpected_error())),
        },
        AddMoneyState::AwaitUpdate => match event {
            Event::Wallet(Err(e)) => Step::Done(Err(HttpError::server_error(HttpMessage::Db(e)))),
            Event::Wallet(Ok(wallet)) => Step::Done(Ok(WalletData { wallet: FilterWalletDto::filter_wallet(&wallet) })),
            _ => Step::Done(Err(unexpected_error())),
        },
    }
}

// ---------------------------------------------------------------------------
// A vendor sets a withdrawal PIN.

/// Where setting a withdrawal PIN stands: the PIN is being stored.
#[derive(Debug)]
pub enum VendorPinState {
    AwaitPin,
}

/// The first step of setting a withdrawal PIN: the body must pass its checks;
/// then the PIN is stored as given.
pub fn create_vendor_wallet_pin_start(body: &CreateVendorPin, user_id: u128) -> (r: Step<VendorPinState, Result<WalletPinResponseDto, HttpError>>)
    ensures
        match validation_outcome(create_vendor_pin_fields(body.pin@)) {
            Err(report) => fails_with(r, invalid_body(report)),
            Ok(()) => r matches Step::Next(VendorPinState::AwaitPin, Action::CreateWithdrawalPin { vendor_id, withdrawal_pin })
                && vendor_id == user_id && withdrawal_pin@ == body.pin@,
        },
{
    match body.validate() {
        Err(report) => Step::Done(Err(HttpError::bad_request(HttpMessage::Text(report)))),
        Ok(()) => Step::Next(
            VendorPinState::AwaitPin,
            Action::CreateWithdrawalPin { vendor_id: user_id, withdrawal_pin: body.pin.clone() },
        ),
    }
}

/// The last step of setting a withdrawal PIN.
pub fn create_vendor_wallet_pin_step(state: VendorPinState, event: Event) -> (r: Step<VendorPinState, Result<WalletPinResponseDto, HttpError>>)
    ensures
        match event {
            Event::WithdrawalPin(Err(e)) => fails_with(r, http_error(HttpMessageView::Db(e@), STATUS_INTERNAL_SERVER_ERROR)),
            Event::WithdrawalPin(Ok(_)) => r matches Step::Done(Ok(answer)) && answer.status@ == "success"@ && answer.is_pin_available,
            _ => fails_with(r, unexpected()),
        },
{
    match event {
        Event::WithdrawalPin(Err(e)) => Step::Done(Err(HttpError::server_error(HttpMessage::Db(e)))),
        Event::WithdrawalPin(Ok(_)) => Step::Done(Ok(WalletPinResponseDto { status: "success", is_pin_available: true })),
        _ => Step::Done(Err(unexpected_error())),
    }
}

// ---------------------------------------------------------------------------
// A parent checks a card's PIN.

/// Where a PIN check stands: the card's PIN hash is being read.
#[derive(Debug)]
pub enum CheckPinState {
    AwaitPin { pin: String },
}

/// The first step of a PIN check: the body must pass its checks; then the
/// card's PIN hash is read.
pub fn check_user_card_pin_start(body: &CheckCardPinDto) -> (r: Step<CheckPinState, Result<Response, HttpError>>)
    ensures
        match validation_outcome(check_card_pin_fields(body.card_pin@)) {
            Err(report) => fails_with(r, invalid_body(report)),
            Ok(()) => r matches Step::Next(CheckPinState::AwaitPin { pin }, Action::CheckCardPin { card_id })
                && pin@ == body.card_pin@ && card_id == body.card_id,
        },
{
    match body.validate() {
        Err(report) => Step::Done(Err(HttpError::bad_request(HttpMessage::Text(report)))),
        Ok(()) => Step::Next(CheckPinState::AwaitPin { pin: body.card_pin.clone() }, Action::CheckCardPin { card_id: body.card_id }),
    }
}

/// The last step of a PIN check: the PIN is compared with the stored hash.
pub fn check_user_card_pin_step(state: CheckPinState, event: Event) -> (r: Step<CheckPinState, Result<Response, HttpError>>)
    ensures
        state matches CheckPinState::AwaitPin { pin } ==> match event {
            Event::CardPin(Err(_)) => fails_with(r, http_error(txt("Cannot find the card"@), STATUS_NOT_FOUND)),
            Event::CardPin(Ok(row)) => match pin_compare_outcome(encode_utf8(pin@), row.hashed_pin@) {
                Err(m) => fails_with(r, http_error(HttpMessageView::Known(m), STATUS_BAD_REQUEST)),
                Ok(true) => r matches Step::Done(Ok(answer)) && answer.status@ == "success"@ && answer.message@ == "Correct Pin"@,
                Ok(false) => fails_with(r, http_error(HttpMessageView::Known(ErrorMessage::WrongPin), STATUS_UNAUTHORIZED)),
            },
            _ => fails_with(r, unexpected()),
        },
{
    match state {
        CheckPinState::AwaitPin { pin } => match event {
            Event::CardPin(Err(_)) => Step::Done(Err(HttpError::not_found(text("Cannot find the card")))),
            Event::CardPin(Ok(row)) => match pin_compare(pin.as_str().as_bytes(), row.hashed_pin.as_str()) {
                Err(m) => Step::Done(Err(HttpError::new(HttpMessage::Known(m), STATUS_BAD_REQUEST))),
                Ok(true) => Step::Done(Ok(Response { status: "success", message: "Correct Pin".to_owned() })),
                Ok(false) => Step::Done(Err(HttpError::unauthorized(HttpMessage::Known(ErrorMessage::WrongPin)))),
            },
            _ => Step::Done(Err(unexpected_error())),
        },
    }
}

// ---------------------------------------------------------------------------
// A parent lists their cards.

/// Where listing cards stands: the cards are being read.
#[derive(Debug)]
pub enum CardsState {
    AwaitCards,
}

/// The first step of listing a parent's cards.
pub fn get_user_cards_start(user_id: u128) -> (r: Step<CardsState, Result<Vec<FilterCardDto>, HttpError>>)
    ensures
        r matches Step::Next(CardsState::AwaitCards, Action::GetCards { parent_id }) && parent_id == user_id,
{
    Step::Next(CardsState::AwaitCards, Action::GetCards { parent_id: user_id })
}

/// The shown card `c` is `card`.
pub open spec fn shows_card(c: FilterCardDto, card: Card) -> bool {
    &&& c.id == card.id
    &&& c.parent_id == card.parent_id
    &&& c.cardname@ == card.cardname@
    &&& c.phonenumber@ == card.phonenumber@
    &&& c.card_status == card.card_status
    &&& opt_text(c.card_qr_code) == opt_text(card.card_qr_code)
}

/// The last step of listing cards: each card as it is shown, in order; a
/// parent with no card is not found.
pub fn get_user_cards_step(state: CardsState, event: Event) -> (r: Step<CardsState, Result<Vec<FilterCardDto>, HttpError>>)
    ensures
        match event {
            Event::Cards(Err(e)) => fails_with(r, http_error(HttpMessageView::Db(e@), STATUS_NOT_FOUND)),
            Event::Cards(Ok(cards)) => if cards@.len() == 0 {
                fails_with(r, http_error(HttpMessageView::Db(DbErrorView::RowNotFound), STATUS_NOT_FOUND))
            } else {
                r matches Step::Done(Ok(shown)) && shown@.len() == cards@.len()
                    && forall|i: int| 0 <= i < cards@.len() ==> shows_card(#[trigger] shown@[i], cards@[i])
            },
            _ => fails_with(r, unexpected()),
        },
{
    match event {
        Event::Cards(Err(e)) => Step::Done(Err(HttpError::not_found(HttpMessage::Db(e)))),
        Event::Cards(Ok(cards)) => {
            if cards.len() == 0 {
                return Step::Done(Err(HttpError::not_found(HttpMessage::Db(DbError::RowNotFound))));
            }
            let mut shown: Vec<FilterCardDto> = Vec::new();
            let n = cards.len();
            let mut i: usize = 0;
            while i < n
                invariant
                    n == cards@.len(),
                    i <= n,
                    shown@.len() == i,
                    forall|j: int| 0 <= j < i ==> shows_card(#[trigger] shown@[j], cards@[j]),
                decreases n - i,
            {
                shown.push(FilterCardDto::filter_card(&cards[i]));
                i = i + 1;
            }
            Step::Done(Ok(shown))
        },
        _ => Step::Done(Err(unexpected_error())),
    }
}


// ---------------------------------------------------------------------------
// A parent creates a card for a child.

/// Where a card creation stands.
#[derive(Debug)]
pub enum CreateCardState {
    /// The card is being stored.
    AwaitCard { card_pin: String, qr_secret: String, bucket: String, region: String },
    /// The picture of the card's QR code is being uploaded under `key`.
    AwaitUpload { card_pin: String, card_id: u128, key: String, bucket: String, region: String },
    /// The card's QR code link is being stored.
    AwaitCardUpdate { card_pin: String, card_id: u128 },
    /// The card's wallet is being created.
    AwaitWallet { card_pin: String, card_id: u128, updated: Card },
    /// The hash of the card's PIN is being stored.
    AwaitCardPin { updated: Card, wallet: Wallet },
}

/// The file name of the picture of a card's QR code.
pub open spec fn qr_picture_key(card_id: u128) -> Seq<char> {
    "cards/"@ + uuid_text(card_id) + ".png"@
}

/// The address of a file stored under `key` in `bucket` in `region`.
pub open spec fn s3_url(bucket: Seq<char>, region: Seq<char>, key: Seq<char>) -> Seq<char> {
    "https://"@ + bucket + ".s3."@ + region + ".amazonaws.com/"@ + key
}

/// The first step of a card creation: the body must pass its checks; then the
/// card is stored for the parent.
pub fn create_card_start(body: &CardCreateDto, user_id: u128, qr_secret: &str, bucket: &str, region: &str)
    -> (r: Step<CreateCardState, Result<CreateCardData, HttpError>>)
    ensures
        match validation_outcome(card_create_fields(body.childname@, body.phonenumber@, body.card_pin@)) {
            Err(report) => fails_with(r, invalid_body(report)),
            Ok(()) => r matches Step::Next(
                    CreateCardState::AwaitCard { card_pin, qr_secret: s, bucket: b, region: g },
                    Action::CreateCard { parent_id, childname, phonenumber })
                && card_pin@ == body.card_pin@ && s@ == qr_secret@ && b@ == bucket@ && g@ == region@
                && parent_id == user_id && childname@ == body.childname@ && phonenumber@ == body.phonenumber@,
        },
{
    match body.validate() {
        Err(report) => Step::Done(Err(HttpError::bad_request(HttpMessage::Text(report)))),
        Ok(()) => Step::Next(
            CreateCardState::AwaitCard {
                card_pin: body.card_pin.clone(),
                qr_secret: qr_secret.to_owned(),
                bucket: bucket.to_owned(),
                region: region.to_owned(),
            },
            Action::CreateCard { parent_id: user_id, childname: body.childname.clone(), phonenumber: body.phonenumber.clone() },
        ),
    }
}

/// One step of a card creation: the card's QR code holds its id signed with
/// the QR secret; its picture is uploaded, its address stored on the card,
/// the card's wallet created and the hash of its PIN stored.
pub fn create_card_step(state: CreateCardState, event: Event) -> (r: Step<CreateCardState, Result<CreateCardData, HttpError>>)
    ensures
        state matches CreateCardState::AwaitCard { card_pin, qr_secret, bucket, region } ==> match event {
            Event::Card(Err(_)) => fails_with(r, http_error(HttpMessageView::Known(ErrorMessage::ServerError), STATUS_INTERNAL_SERVER_ERROR)),
            Event::Card(Ok(card)) => match qr_png_outcome(encode_utf8(qr_link_text(card.id, encode_utf8(qr_secret@)))) {
                Err(e) => fails_with(r, e),
                Ok(png) => r matches Step::Next(
                        CreateCardState::AwaitUpload { card_pin: p, card_id, key, bucket: b, region: g },
                        Action::Upload { bucket: ub, key: uk, body })
                    && p@ == card_pin@ && card_id == card.id && key@ == qr_picture_key(card.id) && b@ == bucket@ && g@ == region@
                    && ub@ == bucket@ && uk@ == qr_picture_key(card.id) && body@ == png,
            },
            _ => fails_with(r, unexpected()),
        },
        state matches CreateCardState::AwaitUpload { card_pin, card_id, key, bucket, region } ==> match event {
            Event::Uploaded(Err(msg)) => fails_with(r, http_error(txt(msg@), STATUS_INTERNAL_SERVER_ERROR)),
            Event::Uploaded(Ok(())) => r matches Step::Next(
                    CreateCardState::AwaitCardUpdate { card_pin: p, card_id: c },
                    Action::UpdateCard { card_id: u, qr_code_link })
                && p@ == card_pin@ && c == card_id && u == card_id && qr_code_link@ == s3_url(bucket@, region@, key@),
            _ => fails_with(r, unexpected()),
        },
        state matches CreateCardState::AwaitCardUpdate { card_pin, card_id } ==> match event {
            Event::Card(Err(e)) => fails_with(r, http_error(HttpMessageView::Db(e@), STATUS_INTERNAL_SERVER_ERROR)),
            Event::Card(Ok(updated)) => r matches Step::Next(
                    CreateCardState::AwaitWallet { card_pin: p, card_id: c, updated: u },
                    Action::CreateWallet { user_id, card_id: w })
                && p@ == card_pin@ && c == card_id && u == updated && user_id is None && w == Some(card_id),
            _ => fails_with(r, unexpected()),
        },
        state matches CreateCardState::AwaitWallet { card_pin, card_id, updated } ==> match event {
            Event::Wallet(Err(e)) => fails_with(r, http_error(HttpMessageView::Db(e@), STATUS_INTERNAL_SERVER_ERROR)),
            Event::Wallet(Ok(wallet)) => if pin_length_error(encode_utf8(card_pin@).len(), ErrorMessage::PasswordTooShort(MIN_PIN_LENGTH)) is Some {
                fails_with(r, http_error(HttpMessageView::Known(ErrorMessage::HashingError), STATUS_INTERNAL_SERVER_ERROR))
            } else {
                r matches Step::Next(
                        CreateCardState::AwaitCardPin { updated: u, wallet: w },
                        Action::CreateCardPin { card_id: c, hashed_pin })
                    && u == updated && w == wallet && c == card_id
                    && is_argon2id_phc(hashed_pin@) && hashed_pin@ != card_pin@
                    && pin_compare_outcome(encode_utf8(card_pin@), hashed_pin@) == Ok::<bool, ErrorMessage>(true)
            },
            _ => fails_with(r, unexpected()),
        },
        state matches CreateCardState::AwaitCardPin { updated, wallet } ==> match event {
            Event::CardPin(Err(e)) => fails_with(r, http_error(HttpMessageView::TextThenDb("Unable to create card pin "@, e@), STATUS_INTERNAL_SERVER_ERROR)),
            Event::CardPin(Ok(_)) => r matches Step::Done(Ok(data)) && shows_card(data.card, updated) && shows_wallet(data.wallet, wallet),
            _ => fails_with(r, unexpected()),
        },
{
    match state {
        CreateCardState::AwaitCard { card_pin, qr_secret, bucket, region } => match event {
            Event::Card(Err(_)) => Step::Done(Err(HttpError::server_error(HttpMessage::Known(ErrorMessage::ServerError)))),
            Event::Card(Ok(card)) => {
                let link = qr_link(card.id, qr_secret.as_str());
                match qr_png(link.as_str().as_bytes()) {
                    Err(e) => Step::Done(Err(e)),
                    Ok(png) => {
                        let key = "cards/".to_owned().concat(uuid_to_string(card.id).as_str()).concat(".png");
                        let upload_bucket = bucket.clone();
                        let upload_key = key.clone();
                        Step::Next(
                            CreateCardState::AwaitUpload { card_pin, card_id: card.id, key, bucket, region },
                            Action::Upload { bucket: upload_bucket, key: upload_key, body: png },
                        )
                    },
                }
            },
            _ => Step::Done(Err(unexpected_error())),
        },
        CreateCardState::AwaitUpload { card_pin, card_id, key, bucket, region } => match event {
            Event::Uploaded(Err(msg)) => Step::Done(Err(HttpError::server_error(HttpMessage::Text(msg)))),
            Event::Uploaded(Ok(())) => {
                let url = "https://".to_owned().concat(bucket.as_str()).concat(".s3.").concat(region.as_str())
                    .concat(".amazonaws.com/").concat(key.as_str());
                Step::Next(
                    CreateCardState::AwaitCardUpdate { card_pin, card_id },
                    Action::UpdateCard { card_id, qr_code_link: url },
                )
            },
            _ => Step::Done(Err(unexpected_error())),
        },
        CreateCardState::AwaitCardUpdate { card_pin, card_id } => match event {
            Event::Card(Err(e)) => Step::Done(Err(HttpError::server_error(HttpMessage::Db(e)))),
            Event::Card(Ok(updated)) => Step::Next(
                CreateCardState::AwaitWallet { card_pin, card_id, updated },
                Action::CreateWallet { user_id: None, card_id: Some(card_id) },
            ),
            _ => Step::Done(Err(unexpected_error())),
        },
        CreateCardState::AwaitWallet { card_pin, card_id, updated } => match event {
            Event::Wallet(Err(e)) => Step::Done(Err(HttpError::server_error(HttpMessage::Db(e)))),
            Event::Wallet(Ok(wallet)) => match pin_hash(card_pin.as_str().as_bytes()) {
                Err(_) => Step::Done(Err(HttpError::server_error(HttpMessage::Known(ErrorMessage::HashingError)))),
                Ok(hashed_pin) => {
                    proof {
                        lemma_utf8_len_at_least_chars(card_pin@);
                        reveal_strlit("$argon2id$");
                    }
                    Step::Next(
                        CreateCardState::AwaitCardPin { updated, wallet },
                        Action::CreateCardPin { card_id, hashed_pin },
                    )
                },
            },
            _ => Step::Done(Err(unexpected_error())),
        },
        CreateCardState::AwaitCardPin { updated, wallet } => match event {
            Event::CardPin(Err(e)) => Step::Done(Err(HttpError::new(
                HttpMessage::TextThenDb("Unable to create card pin ".to_owned(), e),
                STATUS_INTERNAL_SERVER_ERROR,
            ))),
            Event::CardPin(Ok(_)) => Step::Done(Ok(CreateCardData {
                card: FilterCardDto::filter_card(&updated),
                wallet: FilterWalletDto::filter_wallet(&wallet),
            })),
            _ => Step::Done(Err(unexpected_error())),
        },
    }
}


// ---------------------------------------------------------------------------
// A user signs up.

/// Where a sign-up stands.
#[derive(Debug)]
pub enum RegisterState {
    /// The user is being stored.
    AwaitUser,
    /// A vendor's wallet is being created.
    AwaitWallet,
}

/// The error a failed store of a new user or wallet gives: a conflict with
/// the database's own text where a unique value is taken, a server error
/// otherwise.
pub open spec fn store_failure(e: DbErrorView) -> HttpErrorView {
    match e {
        DbErrorView::Database { message, unique_violation } => if unique_violation {
            http_error(txt(message), STATUS_CONFLICT)
        } else {
            http_error(HttpMessageView::Known(ErrorMessage::ServerError), STATUS_INTERNAL_SERVER_ERROR)
        },
        _ => http_error(HttpMessageView::Db(e), STATUS_INTERNAL_SERVER_ERROR),
    }
}

fn store_failure_error(e: DbError) -> (r: HttpError)
    ensures
        r@ == store_failure(e@),
{
    match e {
        DbError::Database { message, unique_violation } => if unique_violation {
            HttpError::unique_constraint_violation(HttpMessage::Text(message))
        } else {
            HttpError::server_error(HttpMessage::Known(ErrorMessage::ServerError))
        },
        other => HttpError::server_error(HttpMessage::Db(other)),
    }
}

/// The answer to a sign-up.
pub open spec fn registered(r: Response) -> bool {
    r.status@ == "success"@ && r.message@ == "User Regsitered successfully"@
}

fn registered_answer() -> (r: Response)
    ensures
        registered(r),
{
    Response { status: "success", message: "User Regsitered successfully".to_owned() }
}

/// The first step of a sign-up, given the outcome of the body's checks (a
/// failure is a bad request with its report): the password is hashed with
/// Argon2id (a failure is a bad request), then the user is stored with the
/// hash.
pub fn register_start(body: &RegisterUserDto, checked: Result<(), String>) -> (r: Step<RegisterState, Result<Response, HttpError>>)
    ensures
        match checked {
            Err(report) => fails_with(r, invalid_body(report@)),
            Ok(()) => {
                ||| (r matches Step::Next(RegisterState::AwaitUser, Action::Register { username, password, email, phonenumber, user_role })
                    && username@ == body.username@ && hashes_password(password@, encode_utf8(body.password@)) && email@ == body.email@
                    && phonenumber@ == body.phonenumber@ && user_role == body.user_role)
                ||| (encode_utf8(body.password@).len() > max_password_len()
                    && fails_with(r, http_error(HttpMessageView::Known(ErrorMessage::HashingError), STATUS_BAD_REQUEST)))
            },
        },
{
    match checked {
        Err(report) => return Step::Done(Err(HttpError::bad_request(HttpMessage::Text(report)))),
        Ok(()) => {},
    }
    match hash_password(body.password.as_str().as_bytes()) {
        Err(m) => Step::Done(Err(HttpError::bad_request(HttpMessage::Known(m)))),
        Ok(h) => Step::Next(
            RegisterState::AwaitUser,
            Action::Register {
                username: body.username.clone(),
                password: h,
                email: body.email.clone(),
                phonenumber: body.phonenumber.clone(),
                user_role: body.user_role,
            },
        ),
    }
}

/// One step of a sign-up: a vendor also gets a wallet.
pub fn register_step(state: RegisterState, event: Event) -> (r: Step<RegisterState, Result<Response, HttpError>>)
    ensures
        state matches RegisterState::AwaitUser ==> match event {
            Event::User(Err(e)) => fails_with(r, store_failure(e@)),
            Event::User(Ok(user)) => if user.user_role == Role::Vendor {
                r matches Step::Next(RegisterState::AwaitWallet, Action::CreateWallet { user_id, card_id })
                    && user_id == Some(user.id) && card_id is None
            } else {
                r matches Step::Done(Ok(answer)) && registered(answer)
            },
            _ => fails_with(r, unexpected()),
        },
        state matches RegisterState::AwaitWallet ==> match event {
            Event::Wallet(Err(e)) => fails_with(r, store_failure(e@)),
            Event::Wallet(Ok(_)) => r matches Step::Done(Ok(answer)) && registered(answer),
            _ => fails_with(r, unexpected()),
        },
{
    match state {
        RegisterState::AwaitUser => match event {
            Event::User(Err(e)) => Step::Done(Err(store_failure_error(e))),
            Event::User(Ok(user)) => if user.user_role == Role::Vendor {
                Step::Next(RegisterState::AwaitWallet, Action::CreateWallet { user_id: Some(user.id), card_id: None })
            } else {
                Step::Done(Ok(registered_answer()))
            },
            _ => Step::Done(Err(unexpected_error())),
        },
        RegisterState::AwaitWallet => match event {
            Event::Wallet(Err(e)) => Step::Done(Err(store_failure_error(e))),
            Event::Wallet(Ok(_)) => Step::Done(Ok(registered_answer())),
            _ => Step::Done(Err(unexpected_error())),
        },
    }
}

// ---------------------------------------------------------------------------
// A user signs in.

/// Where a sign-in stands.
#[derive(Debug)]
pub enum LoginState {
    /// The user is being looked up by email.
    AwaitUser { password: String, jwt_secret: String, jwt_maxage: i64 },
    /// The user's token is being made.
    AwaitToken { user: FilterUserDto },
}

/// The first step of a sign-in, given the outcome of the body's checks (a
/// failure is a bad request with its report): the user is looked up by email.
pub fn login_start(body: &LoginUserDto, checked: Result<(), String>, jwt_secret: &str, jwt_maxage: i64) -> (r: Step<LoginState, Result<UserData, HttpError>>)
    ensures
        match checked {
            Err(report) => fails_with(r, invalid_body(report@)),
            Ok(()) => r matches Step::Next(LoginState::AwaitUser { password, jwt_secret: s, jwt_maxage: m }, Action::FindUserByEmail { email })
                && password@ == body.password@ && s@ == jwt_secret@ && m == jwt_maxage && email@ == body.email@,
        },
{
    match checked {
        Err(report) => Step::Done(Err(HttpError::bad_request(HttpMessage::Text(report)))),
        Ok(()) => Step::Next(
            LoginState::AwaitUser { password: body.password.clone(), jwt_secret: jwt_secret.to_owned(), jwt_maxage },
            Action::FindUserByEmail { email: body.email.clone() },
        ),
    }
}

/// `shown` is how `user` is shown.
pub open spec fn shows_user(shown: FilterUserDto, user: User) -> bool {
    &&& shown.id == Some(user.id)
    &&& opt_text(shown.username) == Some(user.username@)
    &&& opt_text(shown.email) == Some(user.email@)
    &&& opt_text(shown.phonenumber) == Some(user.phonenumber@)
    &&& shown.user_role == Some(user.user_role)
}

/// One step of a sign-in: an unknown email or a password that Argon2 does
/// not verify against the stored hash is refused; otherwise the user gets a
/// token for their id.
pub fn login_step(state: LoginState, event: Event) -> (r: Step<LoginState, Result<UserData, HttpError>>)
    ensures
        state matches LoginState::AwaitUser { password, jwt_secret, jwt_maxage } ==> match event {
            Event::MaybeUser(Err(e)) => fails_with(r, http_error(HttpMessageView::Db(e@), STATUS_INTERNAL_SERVER_ERROR)),
            Event::MaybeUser(Ok(None)) => fails_with(r, http_error(HttpMessageView::Known(ErrorMessage::UserNoLongerExist), STATUS_UNAUTHORIZED)),
            Event::MaybeUser(Ok(Some(user))) => match password_compare_outcome(encode_utf8(password@), user.password@) {
                Err(m) => fails_with(r, http_error(HttpMessageView::Known(m), STATUS_INTERNAL_SERVER_ERROR)),
                Ok(false) => fails_with(r, http_error(HttpMessageView::Known(ErrorMessage::WrongCredentials), STATUS_UNAUTHORIZED)),
                Ok(true) => r matches Step::Next(
                        LoginState::AwaitToken { user: shown },
                        Action::CreateToken { user_id: id, secret, max_age })
                    && shows_user(shown, user) && id@ == uuid_text(user.id) && secret@ == jwt_secret@ && max_age == jwt_maxage,
            },
            _ => fails_with(r, unexpected()),
        },
        state matches LoginState::AwaitToken { user } ==> match event {
            Event::Token(Err(t)) => fails_with(r, http_error(txt(t@), STATUS_INTERNAL_SERVER_ERROR)),
            Event::Token(Ok(token)) => r matches Step::Done(Ok(data)) && data.user == user && data.token@ == token@,
            _ => fails_with(r, unexpected()),
        },
{
    match state {
        LoginState::AwaitUser { password, jwt_secret, jwt_maxage } => match event {
            Event::MaybeUser(Err(e)) => Step::Done(Err(HttpError::server_error(HttpMessage::Db(e)))),
            Event::MaybeUser(Ok(None)) => Step::Done(Err(HttpError::unauthorized(HttpMessage::Known(ErrorMessage::UserNoLongerExist)))),
            Event::MaybeUser(Ok(Some(user))) => {
                let shown = FilterUserDto::filter_user(&user);
                match compare_password(password.as_str().as_bytes(), user.password.as_str()) {
                    Err(m) => Step::Done(Err(HttpError::server_error(HttpMessage::Known(m)))),
                    Ok(false) => Step::Done(Err(HttpError::unauthorized(HttpMessage::Known(ErrorMessage::WrongCredentials)))),
                    Ok(true) => Step::Next(
                        LoginState::AwaitToken { user: shown },
                        Action::CreateToken { user_id: uuid_to_string(user.id), secret: jwt_secret, max_age: jwt_maxage },
                    ),
                }
            },
            _ => Step::Done(Err(unexpected_error())),
        },
        LoginState::AwaitToken { user } => match event {
            Event::Token(Err(t)) => Step::Done(Err(HttpError::server_error(HttpMessage::Text(t)))),
            Event::Token(Ok(token)) => Step::Done(Ok(UserData { user, token })),
            _ => Step::Done(Err(unexpected_error())),
        },
    }
}

} // verus!
