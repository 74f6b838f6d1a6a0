//! Request bodies with their field checks, and the shapes of the answers.
use vstd::prelude::*;
use crate::models::{Card, CardStatus, Role, User, Wallet};
use crate::money::{same_decimal, Decimal};
use crate::validation::{
    add_check, check, field_check, matches_pin_pattern, outcome_view, pin_pattern_matches,
    validation_outcome, validation_report, FieldCheck, passes_iff_no_field_failed, regex_match_result,
    failing_lines, field_line, join,
};

verus! {

/// The view of an optional string.
pub open spec fn opt_text(s: Option<String>) -> Option<Seq<char>> {
    match s {
        Some(t) => Some(t@),
        None => None,
    }
}

/// A copy of an optional string.
pub fn copy_opt_text(s: &Option<String>) -> (r: Option<String>)
    ensures
        opt_text(r) == opt_text(*s),
{
    match s {
        Some(t) => Some(t.clone()),
        None => None,
    }
}

/// The messages of the checks a six digit PIN field fails.
pub open spec fn six_digit_pin_messages(pin: Seq<char>) -> Seq<Seq<char>> {
    check(pin.len() == 6, "PIN must be exactly 6 digits"@)
        + check(matches_pin_pattern(pin), "PIN must contain only digits"@)
}

/// The messages of the checks of an amount that must be at least one.
pub open spec fn positive_amount_messages(amount: u64) -> Seq<Seq<char>> {
    check(amount >= 1, "Amount must be greater than 0"@)
}

/// The checks of a six digit PIN field.
fn six_digit_pin_check(field: &str, pin: &str) -> (r: FieldCheck)
    ensures
        r@ == (field@, six_digit_pin_messages(pin@)),
{
    let mut m: Vec<String> = Vec::new();
    add_check(&mut m, pin.unicode_len() == 6, "PIN must be exactly 6 digits");
    add_check(&mut m, pin_pattern_matches(pin), "PIN must contain only digits");
    field_check(field, m)
}

/// The checks of an amount that must be at least one.
fn positive_amount_check(field: &str, amount: u64) -> (r: FieldCheck)
    ensures
        r@ == (field@, positive_amount_messages(amount)),
{
    let mut m: Vec<String> = Vec::new();
    add_check(&mut m, amount >= 1, "Amount must be greater than 0");
    field_check(field, m)
}

/// The checks of a text field that must hold at least one character.
fn required_text_check(field: &str, value: &str, msg: &str) -> (r: FieldCheck)
    ensures
        r@ == (field@, check(value@.len() >= 1, msg@)),
{
    let mut m: Vec<String> = Vec::new();
    add_check(&mut m, value.unicode_len() >= 1, msg);
    field_check(field, m)
}

/// A card as it is shown to its owner.
#[derive(Debug)]
pub struct FilterCardDto {
    pub id: u128,
    pub parent_id: u128,
    pub cardname: String,
    pub phonenumber: String,
    pub card_status: CardStatus,
    pub card_qr_code: Option<String>,
}

impl FilterCardDto {
    /// The shown fields of `card`.
    pub fn filter_card(card: &Card) -> (r: FilterCardDto)
        ensures
            r.id == card.id,
            r.parent_id == card.parent_id,
            r.cardname@ == card.cardname@,
            r.phonenumber@ == card.phonenumber@,
            r.card_status == card.card_status,
            opt_text(r.card_qr_code) == opt_text(card.card_qr_code),
    {
        FilterCardDto {
            id: card.id,
            parent_id: card.parent_id,
            cardname: card.cardname.clone(),
            phonenumber: card.phonenumber.clone(),
            card_status: card.card_status,
            card_qr_code: copy_opt_text(&card.card_qr_code),
        }
    }
}

/// The body of a request to create a card for a child.
#[derive(Debug)]
pub struct CardCreateDto {
    pub childname: String,
    pub phonenumber: String,
    pub card_pin: String,
}

/// The checks of a card creation request, field by field.
pub open spec fn card_create_fields(childname: Seq<char>, phonenumber: Seq<char>, card_pin: Seq<char>) -> Seq<(Seq<char>, Seq<Seq<char>>)> {
    seq![
        ("childname"@, check(childname.len() >= 1, "Childname is requiured"@)),
        ("phonenumber"@, check(10 <= phonenumber.len() <= 10, "Enter a valid phonenumber"@)),
        ("card_pin"@, six_digit_pin_messages(card_pin)),
    ]
}

impl CardCreateDto {
    /// Success where the child's name is not empty, the phone number has ten
    /// characters and the PIN six digits; else the report of the failed checks.
    pub fn validate(&self) -> (r: Result<(), String>)
        ensures
            outcome_view(r) == validation_outcome(card_create_fields(self.childname@, self.phonenumber@, self.card_pin@)),
    {
        let mut checks: Vec<FieldCheck> = Vec::new();
        checks.push(required_text_check("childname", self.childname.as_str(), "Childname is requiured"));
        let mut m: Vec<String> = Vec::new();
        let n = self.phonenumber.unicode_len();
        add_check(&mut m, 10 <= n && n <= 10, "Enter a valid phonenumber");
        checks.push(field_check("phonenumber", m));
        checks.push(six_digit_pin_check("card_pin", self.card_pin.as_str()));
        proof {
            assert(crate::validation::check_views(checks@) =~= card_create_fields(self.childname@, self.phonenumber@, self.card_pin@));
        }
        validation_report(&checks)
    }
}

/// The body of a request to check a card's PIN.
#[derive(Debug)]
pub struct CheckCardPinDto {
    pub card_id: u128,
    pub card_pin: String,
}

/// The checks of a PIN check request, field by field.
pub open spec fn check_card_pin_fields(card_pin: Seq<char>) -> Seq<(Seq<char>, Seq<Seq<char>>)> {
    seq![("card_pin"@, six_digit_pin_messages(card_pin))]
}

impl CheckCardPinDto {
    /// Success where the PIN has six digits; else the report of the failed checks.
    pub fn validate(&self) -> (r: Result<(), String>)
        ensures
            outcome_view(r) == validation_outcome(check_card_pin_fields(self.card_pin@)),
    {
        let mut checks: Vec<FieldCheck> = Vec::new();
        checks.push(six_digit_pin_check("card_pin", self.card_pin.as_str()));
        proof {
            assert(crate::validation::check_views(checks@) =~= check_card_pin_fields(self.card_pin@));
        }
        validation_report(&checks)
    }
}

/// The list of a user's cards.
#[derive(Debug)]
pub struct CardsData {
    pub card: Vec<FilterCardDto>,
}

/// The answer that lists a user's cards.
#[derive(Debug)]
pub struct GetCardsResponse {
    pub status: &'static str,
    pub data: CardsData,
}

/// A new card and its wallet.
#[derive(Debug)]
pub struct CreateCardData {
    pub card: FilterCardDto,
    pub wallet: FilterWalletDto,
}

/// The answer to a card creation.
#[derive(Debug)]
pub struct CreateCardResponse {
    pub status: &'static str,
    pub data: CreateCardData,
}

/// A plain answer: a status and a message.
#[derive(Debug)]
pub struct Response {
    pub status: &'static str,
    pub message: String,
}

/// The messages of the check of a decimal amount given as text: at least one
/// character, and a number above zero (`positive` says whether it is).
pub open spec fn amount_text_messages(amount: Seq<char>, positive: bool) -> Seq<Seq<char>> {
    check(amount.len() >= 1, "Amount is required"@)
        + check(positive, "Amount must be a valid number greater than 0"@)
}

/// The checks of a decimal amount given as text.
fn amount_text_check(amount: &str, positive: bool) -> (r: FieldCheck)
    ensures
        r@ == ("amount"@, amount_text_messages(amount@, positive)),
{
    let mut m: Vec<String> = Vec::new();
    add_check(&mut m, amount.unicode_len() >= 1, "Amount is required");
    add_check(&mut m, positive, "Amount must be a valid number greater than 0");
    field_check("amount", m)
}

/// The body of a card payment request.
#[derive(Debug)]
pub struct PaymentRequestDto {
    pub card_id: u128,
    pub amount: String,
    pub card_pin: String,
}

/// The checks of a card payment request, field by field.
pub open spec fn payment_request_fields(amount: Seq<char>, amount_positive: bool, card_pin: Seq<char>) -> Seq<(Seq<char>, Seq<Seq<char>>)> {
    seq![
        ("amount"@, amount_text_messages(amount, amount_positive)),
        ("card_pin"@, six_digit_pin_messages(card_pin)),
    ]
}

impl PaymentRequestDto {
    /// Success where the amount is a number above zero (`amount_positive`
    /// says whether the text reads as one) and the PIN has six digits; else
    /// the report of the failed checks.
    pub fn validate(&self, amount_positive: bool) -> (r: Result<(), String>)
        ensures
            outcome_view(r) == validation_outcome(payment_request_fields(self.amount@, amount_positive, self.card_pin@)),
    {
        let mut checks: Vec<FieldCheck> = Vec::new();
        checks.push(amount_text_check(self.amount.as_str(), amount_positive));
        checks.push(six_digit_pin_check("card_pin", self.card_pin.as_str()));
        proof {
            assert(crate::validation::check_views(checks@) =~= payment_request_fields(self.amount@, amount_positive, self.card_pin@));
        }
        validation_report(&checks)
    }
}

/// The body of a withdrawal request.
#[derive(Debug)]
pub struct WithdrawalRequestDto {
    pub user_id: u128,
    pub amount: String,
}

/// The checks of a withdrawal request, field by field.
pub open spec fn withdrawal_request_fields(amount: Seq<char>, amount_positive: bool) -> Seq<(Seq<char>, Seq<Seq<char>>)> {
    seq![("amount"@, amount_text_messages(amount, amount_positive))]
}

impl WithdrawalRequestDto {
    /// Success where the amount is a number above zero (`amount_positive`
    /// says whether the text reads as one); else the report of the failed checks.
    pub fn validate(&self, amount_positive: bool) -> (r: Result<(), String>)
        ensures
            outcome_view(r) == validation_outcome(withdrawal_request_fields(self.amount@, amount_positive)),
    {
        let mut checks: Vec<FieldCheck> = Vec::new();
        checks.push(amount_text_check(self.amount.as_str(), amount_positive));
        proof {
            assert(crate::validation::check_views(checks@) =~= withdrawal_request_fields(self.amount@, amount_positive));
        }
        validation_report(&checks)
    }
}

/// A user as it is shown.
#[derive(Debug)]
pub struct FilterUserDto {
    pub id: Option<u128>,
    pub username: Option<String>,
    pub email: Option<String>,
    pub phonenumber: Option<String>,
    pub user_role: Option<Role>,
}

impl FilterUserDto {
    /// The shown fields of `user`, all present.
    pub fn filter_user(user: &User) -> (r: FilterUserDto)
        ensures
            r.id == Some(user.id),
            opt_text(r.username) == Some(user.username@),
            opt_text(r.email) == Some(user.email@),
            opt_text(r.phonenumber) == Some(user.phonenumber@),
            r.user_role == Some(user.user_role),
    {
        FilterUserDto {
            id: Some(user.id),
            username: Some(user.username.clone()),
            email: Some(user.email.clone()),
            phonenumber: Some(user.phonenumber.clone()),
            user_role: Some(user.user_role),
        }
    }
}

/// A signed-in user and their token.
#[derive(Debug)]
pub struct UserData {
    pub user: FilterUserDto,
    pub token: String,
}

/// The answer to a sign-in.
#[derive(Debug)]
pub struct UserResponse {
    pub status: &'static str,
    pub data: UserData,
}

/// A wallet as it is shown.
#[derive(Clone, Debug)]
pub struct FilterWalletDto {
    pub id: u128,
    pub user_id: Option<u128>,
    pub card_id: Option<u128>,
    pub balance: Decimal,
    pub locked_balance: Decimal,
}

/// `shown` shows `wallet`: its ids, and its balances written the same way.
pub open spec fn shows_wallet(shown: FilterWalletDto, wallet: Wallet) -> bool {
    &&& shown.id == wallet.id
    &&& shown.user_id == wallet.user_id
    &&& shown.card_id == wallet.card_id
    &&& same_decimal(shown.balance, wallet.balance)
    &&& same_decimal(shown.locked_balance, wallet.locked_balance)
}

impl FilterWalletDto {
    /// The shown fields of `wallet`.
    pub fn filter_wallet(wallet: &Wallet) -> (r: FilterWalletDto)
        ensures
            shows_wallet(r, *wallet),
    {
        FilterWalletDto {
            id: wallet.id,
            user_id: wallet.user_id,
            card_id: wallet.card_id,
            balance: wallet.balance.duplicate(),
            locked_balance: wallet.locked_balance.duplicate(),
        }
    }
}

/// The body of a request naming a card's or user's wallet.
#[derive(Debug)]
pub struct GetCardWalletDto {
    pub id: u128,
}

/// One wallet.
#[derive(Clone, Debug)]
pub struct WalletData {
    pub wallet: FilterWalletDto,
}

/// The answer that shows one wallet.
#[derive(Debug)]
pub struct WalletResponseDto {
    pub status: &'static str,
    pub data: WalletData,
}

/// The answer to the creation of a vendor's withdrawal PIN.
#[derive(Debug)]
pub struct WalletPinResponseDto {
    pub status: &'static str,
    pub is_pin_available: bool,
}

/// The body of a payment a vendor takes from a card by its QR code.
#[derive(Debug)]
pub struct ReciveMoneyToWallet {
    pub qr_code_link: String,
    pub amount: u64,
    pub card_pin: String,
}

/// The checks of a QR payment request, field by field.
pub open spec fn recive_money_fields(qr_code_link: Seq<char>, amount: u64, card_pin: Seq<char>) -> Seq<(Seq<char>, Seq<Seq<char>>)> {
    seq![
        ("qr_code_link"@, check(qr_code_link.len() >= 1, "QR code link is required"@)),
        ("amount"@, positive_amount_messages(amount)),
        ("card_pin"@, check(card_pin.len() >= 1, "Pin is required"@)),
    ]
}

impl ReciveMoneyToWallet {
    /// Success where the link and the PIN are not empty and the amount is at
    /// least one; else the report of the failed checks.
    pub fn validate(&self) -> (r: Result<(), String>)
        ensures
            outcome_view(r) == validation_outcome(recive_money_fields(self.qr_code_link@, self.amount, self.card_pin@)),
    {
        let mut checks: Vec<FieldCheck> = Vec::new();
        checks.push(required_text_check("qr_code_link", self.qr_code_link.as_str(), "QR code link is required"));
        checks.push(positive_amount_check("amount", self.amount));
        checks.push(required_text_check("card_pin", self.card_pin.as_str(), "Pin is required"));
        proof {
            assert(crate::validation::check_views(checks@) =~= recive_money_fields(self.qr_code_link@, self.amount, self.card_pin@));
        }
        validation_report(&checks)
    }
}

/// Two wallets after a payment: the card's and the vendor's.
#[derive(Clone, Debug)]
pub struct ReciveMoneyData {
    pub user_wallet: FilterWalletDto,
    pub vendor_wallet: FilterWalletDto,
}

/// The answer to a QR payment.
#[derive(Debug)]
pub struct ReciveMoneyResponseDto {
    pub status: &'static str,
    pub data: ReciveMoneyData,
}

/// The body of a request to set a vendor's withdrawal PIN.
#[derive(Debug)]
pub struct CreateVendorPin {
    pub pin: String,
}

/// The checks of a withdrawal PIN request, field by field.
pub open spec fn create_vendor_pin_fields(pin: Seq<char>) -> Seq<(Seq<char>, Seq<Seq<char>>)> {
    seq![("pin"@, six_digit_pin_messages(pin))]
}

impl CreateVendorPin {
    /// Success where the PIN has six digits; else the report of the failed checks.
    pub fn validate(&self) -> (r: Result<(), String>)
        ensures
            outcome_view(r) == validation_outcome(create_vendor_pin_fields(self.pin@)),
    {
        let mut checks: Vec<FieldCheck> = Vec::new();
        checks.push(six_digit_pin_check("pin", self.pin.as_str()));
        proof {
            assert(crate::validation::check_views(checks@) =~= create_vendor_pin_fields(self.pin@));
        }
        validation_report(&checks)
    }
}

/// The body of a vendor's withdrawal.
#[derive(Debug)]
pub struct WithdrawMoneyRequestDto {
    pub amount: u64,
    pub pin: String,
}

/// The checks of a vendor's withdrawal, field by field.
pub open spec fn withdraw_money_fields(amount: u64, pin: Seq<char>) -> Seq<(Seq<char>, Seq<Seq<char>>)> {
    seq![
        ("amount"@, positive_amount_messages(amount)),
        ("pin"@, six_digit_pin_messages(pin)),
    ]
}

impl WithdrawMoneyRequestDto {
    /// Success where the amount is at least one and the PIN has six digits;
    /// else the report of the failed checks.
    pub fn validate(&self) -> (r: Result<(), String>)
        ensures
            outcome_view(r) == validation_outcome(withdraw_money_fields(self.amount, self.pin@)),
    {
        let mut checks: Vec<FieldCheck> = Vec::new();
        checks.push(positive_amount_check("amount", self.amount));
        checks.push(six_digit_pin_check("pin", self.pin.as_str()));
        proof {
            assert(crate::validation::check_views(checks@) =~= withdraw_money_fields(self.amount, self.pin@));
        }
        validation_report(&checks)
    }
}

/// The body of a request to put money on a card.
#[derive(Debug)]
pub struct AddMoneyRequestDto {
    pub amount: u64,
    pub card_id: u128,
}

/// The checks of a request to put money on a card, field by field.
pub open spec fn add_money_fields(amount: u64) -> Seq<(Seq<char>, Seq<Seq<char>>)> {
    seq![("amount"@, positive_amount_messages(amount))]
}

impl AddMoneyRequestDto {
    /// Success where the amount is at least one; else the report.
    pub fn validate(&self) -> (r: Result<(), String>)
        ensures
            outcome_view(r) == validation_outcome(add_money_fields(self.amount)),
    {
        let mut checks: Vec<FieldCheck> = Vec::new();
        checks.push(positive_amount_check("amount", self.amount));
        proof {
            assert(crate::validation::check_views(checks@) =~= add_money_fields(self.amount));
        }
        validation_report(&checks)
    }
}


/// The body of a sign-up request.
#[derive(Debug)]
pub struct RegisterUserDto {
    pub username: String,
    pub email: String,
    pub password: String,
    pub phonenumber: String,
    pub user_role: Role,
}

/// The body of a sign-in request.
#[derive(Debug)]
pub struct LoginUserDto {
    pub email: String,
    pub password: String,
}

/// A six-digit PIN field has no failed check exactly when the PIN has six
/// characters that match `^\d{6}$`.
pub proof fn six_digit_pin_passes_iff(pin: Seq<char>)
    ensures
        six_digit_pin_messages(pin).len() == 0 <==> (pin.len() == 6 && regex_match_result("^\\d{6}$"@, pin) == Some(true)),
{
}

/// A vendor's withdrawal PIN is accepted exactly when it has six characters
/// matching `^\d{6}$`. One of six characters that does not match is refused
/// for its digits alone; one that matches but is not six characters long,
/// for its length alone.
pub proof fn vendor_pin_accepted_iff_six_digits(pin: Seq<char>)
    ensures
        validation_outcome(create_vendor_pin_fields(pin)) is Ok <==> (pin.len() == 6 && regex_match_result("^\\d{6}$"@, pin) == Some(true)),
        pin.len() == 6 && regex_match_result("^\\d{6}$"@, pin) != Some(true)
            ==> validation_outcome(create_vendor_pin_fields(pin)) == Err::<(), Seq<char>>("pin: PIN must contain only digits"@),
        pin.len() != 6 && regex_match_result("^\\d{6}$"@, pin) == Some(true)
            ==> validation_outcome(create_vendor_pin_fields(pin)) == Err::<(), Seq<char>>("pin: PIN must be exactly 6 digits"@),
{
    let fields = create_vendor_pin_fields(pin);
    passes_iff_no_field_failed(fields);
    assert(fields[0] == ("pin"@, six_digit_pin_messages(pin)));
    reveal_strlit("pin");
    reveal_strlit(": ");
    reveal_strlit("PIN must contain only digits");
    reveal_strlit("PIN must be exactly 6 digits");
    reveal_strlit("pin: PIN must contain only digits");
    reveal_strlit("pin: PIN must be exactly 6 digits");
    if pin.len() == 6 && regex_match_result("^\\d{6}$"@, pin) != Some(true) {
        let msgs = six_digit_pin_messages(pin);
        assert(msgs =~= seq!["PIN must contain only digits"@]);
        assert(fields.drop_last().len() == 0);
        assert(failing_lines(fields.drop_last()) =~= Seq::<Seq<char>>::empty());
        assert(fields.last() == ("pin"@, msgs));
        assert(failing_lines(fields) =~= seq![field_line("pin"@, msgs)]);
        assert(field_line("pin"@, msgs) =~= "pin: PIN must contain only digits"@);
    }
    if pin.len() != 6 && regex_match_result("^\\d{6}$"@, pin) == Some(true) {
        let msgs = six_digit_pin_messages(pin);
        assert(msgs =~= seq!["PIN must be exactly 6 digits"@]);
        assert(fields.drop_last().len() == 0);
        assert(failing_lines(fields.drop_last()) =~= Seq::<Seq<char>>::empty());
        assert(fields.last() == ("pin"@, msgs));
        assert(failing_lines(fields) =~= seq![field_line("pin"@, msgs)]);
        assert(field_line("pin"@, msgs) =~= "pin: PIN must be exactly 6 digits"@);
    }
}

/// A PIN check request is accepted exactly when the PIN has six characters
/// matching `^\d{6}$`.
pub proof fn card_pin_check_accepted_iff_six_digits(pin: Seq<char>)
    ensures
        validation_outcome(check_card_pin_fields(pin)) is Ok <==> (pin.len() == 6 && regex_match_result("^\\d{6}$"@, pin) == Some(true)),
{
    let fields = check_card_pin_fields(pin);
    passes_iff_no_field_failed(fields);
    assert(fields[0] == ("card_pin"@, six_digit_pin_messages(pin)));
}

/// A card is created only for a child's name that is not empty, a phone
/// number of ten characters and a PIN of six characters matching `^\d{6}$`.
pub proof fn card_creation_accepted_iff(childname: Seq<char>, phonenumber: Seq<char>, pin: Seq<char>)
    ensures
        validation_outcome(card_create_fields(childname, phonenumber, pin)) is Ok
            <==> childname.len() >= 1 && phonenumber.len() == 10 && (pin.len() == 6 && regex_match_result("^\\d{6}$"@, pin) == Some(true)),
{
    let fields = card_create_fields(childname, phonenumber, pin);
    passes_iff_no_field_failed(fields);
    assert(fields[0].1.len() == 0 <==> childname.len() >= 1);
    assert(fields[1].1.len() == 0 <==> phonenumber.len() == 10);
    assert(fields[2] == ("card_pin"@, six_digit_pin_messages(pin)));
}

/// A withdrawal is accepted only for an amount of at least one and a PIN of
/// six characters matching `^\d{6}$`.
pub proof fn withdrawal_accepted_iff(amount: u64, pin: Seq<char>)
    ensures
        validation_outcome(withdraw_money_fields(amount, pin)) is Ok <==> amount >= 1 && (pin.len() == 6 && regex_match_result("^\\d{6}$"@, pin) == Some(true)),
{
    let fields = withdraw_money_fields(amount, pin);
    passes_iff_no_field_failed(fields);
    assert(fields[0].1.len() == 0 <==> amount >= 1);
    assert(fields[1] == ("pin"@, six_digit_pin_messages(pin)));
}

/// A QR payment is accepted only with a link and a PIN that are not empty and
/// an amount of at least one.
pub proof fn payment_accepted_iff(link: Seq<char>, amount: u64, pin: Seq<char>)
    ensures
        validation_outcome(recive_money_fields(link, amount, pin)) is Ok <==> link.len() >= 1 && amount >= 1 && pin.len() >= 1,
{
    let fields = recive_money_fields(link, amount, pin);
    passes_iff_no_field_failed(fields);
    assert(fields[0].1.len() == 0 <==> link.len() >= 1);
    assert(fields[1].1.len() == 0 <==> amount >= 1);
    assert(fields[2].1.len() == 0 <==> pin.len() >= 1);
}

/// Money is put on a card only for an amount of at least one.
pub proof fn adding_money_accepted_iff(amount: u64)
    ensures
        validation_outcome(add_money_fields(amount)) is Ok <==> amount >= 1,
{
    let fields = add_money_fields(amount);
    passes_iff_no_field_failed(fields);
    assert(fields[0].1.len() == 0 <==> amount >= 1);
}

/// A payment request with an amount in text is accepted only for an amount
/// that is not empty and reads as a number above zero, and a PIN of six
/// characters matching `^\d{6}$`; a withdrawal request only for such an
/// amount.
pub proof fn text_amount_requests_accepted_iff(amount: Seq<char>, positive: bool, pin: Seq<char>)
    ensures
        validation_outcome(payment_request_fields(amount, positive, pin)) is Ok
            <==> amount.len() >= 1 && positive && (pin.len() == 6 && regex_match_result("^\\d{6}$"@, pin) == Some(true)),
        validation_outcome(withdrawal_request_fields(amount, positive)) is Ok <==> amount.len() >= 1 && positive,
{
    let fields = payment_request_fields(amount, positive, pin);
    passes_iff_no_field_failed(fields);
    assert(fields[0].1.len() == 0 <==> amount.len() >= 1 && positive);
    assert(fields[1] == ("card_pin"@, six_digit_pin_messages(pin)));
    let w = withdrawal_request_fields(amount, positive);
    passes_iff_no_field_failed(w);
    assert(w[0].1.len() == 0 <==> amount.len() >= 1 && positive);
}

} // verus!
