//! The rows of the service's tables, with identifiers as 128-bit numbers
//! (the value of a UUID), times as microseconds since the Unix epoch, and
//! amounts as `Decimal`.
use vstd::prelude::*;
use crate::money::Decimal;

verus! {

/// The role of a user account.
#[derive(Clone, Copy, Debug, PartialEq, Eq, Structural)]
pub enum Role {
    Parent,
    Vendor,
    Both,
}

/// Whether a card can be used.
#[derive(Clone, Copy, Debug, PartialEq, Eq, Structural)]
pub enum CardStatus {
    Active,
    Blocked,
}

/// Where a transaction stands.
#[derive(Clone, Copy, Debug, PartialEq, Eq, Structural)]
pub enum TransactionStatus {
    Pending,
    Success,
    Failed,
}

/// What a transaction moves money for.
#[derive(Clone, Copy, Debug, PartialEq, Eq, Structural)]
pub enum TransactionType {
    Recharge,
    Payment,
    Withdrawal,
}

/// A row of `users`.
#[derive(Debug)]
pub struct User {
    pub id: u128,
    pub username: String,
    pub email: String,
    pub phonenumber: String,
    pub user_role: Role,
    pub password: String,
    pub created_at: Option<i64>,
    pub updated_at: Option<i64>,
}

/// A row of `cards`.
#[derive(Debug)]
pub struct Card {
    pub id: u128,
    pub parent_id: u128,
    pub cardname: String,
    pub phonenumber: String,
    pub card_status: CardStatus,
    pub card_qr_code: Option<String>,
    pub created_at: i64,
    pub updated_at: i64,
}

/// A row of `card_pins`.
#[derive(Debug)]
pub struct CardPin {
    pub id: u128,
    pub card_id: u128,
    pub hashed_pin: String,
    pub created_at: i64,
    pub updated_at: i64,
}

/// A row of `withdrawal_pins`.
#[derive(Debug)]
pub struct WithdrawalPin {
    pub id: u128,
    pub vendor_id: u128,
    pub hashed_pin: String,
    pub created_at: i64,
    pub updated_at: i64,
}

/// A row of `wallets`: it belongs to a user or to a card.
#[derive(Clone, Debug)]
pub struct Wallet {
    pub id: u128,
    pub user_id: Option<u128>,
    pub card_id: Option<u128>,
    pub balance: Decimal,
    pub locked_balance: Decimal,
    pub created_at: i64,
    pub updated_at: i64,
}

/// A row of `transactions`.
#[derive(Clone, Debug)]
pub struct Transaction {
    pub id: u128,
    pub from_wallet_id: u128,
    pub to_wallet_id: u128,
    pub amount: Decimal,
    pub transaction_type: TransactionType,
    pub transaction_status: TransactionStatus,
    pub created_at: i64,
    pub updated_at: i64,
}

} // verus!
