//! The service's database requests: what each one asks for, the SQL of the
//! wallet queries, and the rules the store applies before and after a query.
use vstd::prelude::*;
use crate::errors::DbError;
use crate::models::Card;
use crate::money::Decimal;

verus! {

/// The columns a wallet query returns.
pub open spec fn wallet_columns() -> Seq<char> {
    " RETURNING id, user_id, card_id, balance, locked_balance, created_at, updated_at"@
}

/// The placeholder of the `k`-th bound value (`k` from 1 to 3).
pub open spec fn placeholder(k: nat) -> Seq<char> {
    if k == 1 { "$1"@ } else if k == 2 { "$2"@ } else { "$3"@ }
}

fn placeholder_text(k: usize) -> (r: &'static str)
    requires
        1 <= k <= 3,
    ensures
        r@ == placeholder(k as nat),
{
    if k == 1 { "$1" } else if k == 2 { "$2" } else { "$3" }
}

/// A value bound to a query.
#[derive(Clone, Debug)]
pub enum SqlValue {
    Id(u128),
    Amount(Decimal),
}

/// A query text with the values bound to its placeholders, in order.
#[derive(Debug)]
pub struct SqlQuery {
    pub sql: String,
    pub binds: Vec<SqlValue>,
}

/// The wallet a request names: a user's or a card's.
#[derive(Clone, Copy, Debug)]
pub enum WalletOwner {
    User(u128),
    Card(u128),
}

/// The column of a wallet's owner.
pub open spec fn owner_column(o: WalletOwner) -> Seq<char> {
    match o {
        WalletOwner::User(_) => "user_id"@,
        WalletOwner::Card(_) => "card_id"@,
    }
}

/// The id of a wallet's owner.
pub open spec fn owner_id(o: WalletOwner) -> u128 {
    match o {
        WalletOwner::User(id) => id,
        WalletOwner::Card(id) => id,
    }
}

/// The owner named by a user id or a card id: exactly one must be given.
pub open spec fn owner_of(user_id: Option<u128>, card_id: Option<u128>) -> Option<WalletOwner> {
    match (user_id, card_id) {
        (Some(u), None) => Some(WalletOwner::User(u)),
        (None, Some(c)) => Some(WalletOwner::Card(c)),
        _ => None,
    }
}

/// The owner named by `user_id` or `card_id`; a refusal with `message` where
/// both or neither are given.
pub fn wallet_owner(user_id: Option<u128>, card_id: Option<u128>, message: &str) -> (r: Result<WalletOwner, DbError>)
    ensures
        match owner_of(user_id, card_id) {
            Some(o) => r matches Ok(p) && p == o,
            None => r matches Err(DbError::Protocol(m)) && m@ == message@,
        },
{
    match (user_id, card_id) {
        (Some(u), None) => Ok(WalletOwner::User(u)),
        (None, Some(c)) => Ok(WalletOwner::Card(c)),
        _ => Err(DbError::Protocol(message.to_owned())),
    }
}

fn owner_column_text(o: WalletOwner) -> (r: &'static str)
    ensures
        r@ == owner_column(o),
{
    match o {
        WalletOwner::User(_) => "user_id",
        WalletOwner::Card(_) => "card_id",
    }
}

/// The SQL that creates the wallet of `owner`.
pub open spec fn create_wallet_sql(owner: WalletOwner) -> Seq<char> {
    "INSERT INTO wallets "@ + "("@ + owner_column(owner) + ") VALUES ("@ + placeholder(1) + ")"@ + wallet_columns()
}

/// The SQL that reads the wallet of `owner`.
pub open spec fn get_wallet_sql(owner: WalletOwner) -> Seq<char> {
    "SELECT id, user_id, card_id, balance, locked_balance, created_at, updated_at FROM wallets WHERE "@
        + owner_column(owner) + " = "@ + placeholder(1)
}

/// The SQL that sets the given balances of the wallet of `owner`: each given
/// column in turn, as written (with no comma between two of them).
pub open spec fn update_wallet_sql(owner: WalletOwner, balance: bool, locked: bool) -> Seq<char> {
    let n: nat = if balance { 1 } else { 0 };
    let m: nat = if locked { n + 1 } else { n };
    "UPDATE wallets SET"@
        + (if balance { " balance = "@ + placeholder(1) } else { Seq::empty() })
        + (if locked { " locked_balance = "@ + placeholder(n + 1) } else { Seq::empty() })
        + " WHERE "@ + owner_column(owner) + " = "@ + placeholder(m + 1)
        + wallet_columns()
}

/// The request that creates a wallet: refused unless exactly one owner is given.
pub fn create_wallet_query(user_id: Option<u128>, card_id: Option<u128>) -> (r: Result<SqlQuery, DbError>)
    ensures
        match owner_of(user_id, card_id) {
            Some(o) => r matches Ok(q) && q.sql@ == create_wallet_sql(o) && q.binds@ == seq![SqlValue::Id(owner_id(o))],
            None => r matches Err(DbError::Protocol(m)) && m@ == "Provide either user_id OR card_id (not both)"@,
        },
{
    let owner = wallet_owner(user_id, card_id, "Provide either user_id OR card_id (not both)")?;
    let id = match owner { WalletOwner::User(u) => u, WalletOwner::Card(c) => c };
    let sql = "INSERT INTO wallets ".to_owned().concat("(").concat(owner_column_text(owner))
        .concat(") VALUES (").concat(placeholder_text(1)).concat(")")
        .concat(" RETURNING id, user_id, card_id, balance, locked_balance, created_at, updated_at");
    let mut binds: Vec<SqlValue> = Vec::new();
    binds.push(SqlValue::Id(id));
    proof {
        assert(binds@ =~= seq![SqlValue::Id(owner_id(owner))]);
    }
    Ok(SqlQuery { sql, binds })
}

/// The request that reads a wallet: refused unless exactly one owner is given.
pub fn get_wallet_query(user_id: Option<u128>, card_id: Option<u128>) -> (r: Result<SqlQuery, DbError>)
    ensures
        match owner_of(user_id, card_id) {
            Some(o) => r matches Ok(q) && q.sql@ == get_wallet_sql(o) && q.binds@ == seq![SqlValue::Id(owner_id(o))],
            None => r matches Err(DbError::Protocol(m)) && m@ == "Provide either user_id OR card_id (not both)"@,
        },
{
    let owner = wallet_owner(user_id, card_id, "Provide either user_id OR card_id (not both)")?;
    let id = match owner { WalletOwner::User(u) => u, WalletOwner::Card(c) => c };
    let sql = "SELECT id, user_id, card_id, balance, locked_balance, created_at, updated_at FROM wallets WHERE ".to_owned()
        .concat(owner_column_text(owner)).concat(" = ").concat(placeholder_text(1));
    let mut binds: Vec<SqlValue> = Vec::new();
    binds.push(SqlValue::Id(id));
    proof {
        assert(binds@ =~= seq![SqlValue::Id(owner_id(owner))]);
    }
    Ok(SqlQuery { sql, binds })
}

/// The values an update binds, in order: the given balances, then the owner.
pub open spec fn update_wallet_binds(owner: WalletOwner, balance: Option<Decimal>, locked: Option<Decimal>) -> Seq<SqlValue> {
    (match balance { Some(b) => seq![SqlValue::Amount(b)], None => Seq::empty() })
        + (match locked { Some(l) => seq![SqlValue::Amount(l)], None => Seq::empty() })
        + seq![SqlValue::Id(owner_id(owner))]
}

/// The request that updates a wallet: refused unless exactly one owner is
/// given, then refused unless a balance is given.
pub fn update_wallet_query(
    user_id: Option<u128>,
    card_id: Option<u128>,
    balance: Option<Decimal>,
    locked_balance: Option<Decimal>,
) -> (r: Result<SqlQuery, DbError>)
    ensures
        match owner_of(user_id, card_id) {
            None => r matches Err(DbError::Protocol(m)) && m@ == "Provide either user_id OR card_id"@,
            Some(o) => if balance is None && locked_balance is None {
                r matches Err(DbError::Protocol(m)) && m@ == "Provide at least one field"@
            } else {
                r matches Ok(q) && q.sql@ == update_wallet_sql(o, balance is Some, locked_balance is Some)
                    && q.binds@ == update_wallet_binds(o, balance, locked_balance)
            },
        },
{
    let owner = wallet_owner(user_id, card_id, "Provide either user_id OR card_id")?;
    if balance.is_none() && locked_balance.is_none() {
        return Err(DbError::Protocol("Provide at least one field".to_owned()));
    }
    let mut sql = "UPDATE wallets SET".to_owned();
    let mut binds: Vec<SqlValue> = Vec::new();
    let ghost start = sql@;
    match balance {
        Some(b) => {
            sql = sql.concat(" balance = ").concat(placeholder_text(1));
            binds.push(SqlValue::Amount(b));
        },
        None => {},
    }
    let ghost after_balance = sql@;
    match locked_balance {
        Some(l) => {
            let k = binds.len() + 1;
            sql = sql.concat(" locked_balance = ").concat(placeholder_text(k));
            binds.push(SqlValue::Amount(l));
        },
        None => {},
    }
    let ghost after_locked = sql@;
    let k = binds.len() + 1;
    let id = match owner { WalletOwner::User(u) => u, WalletOwner::Card(c) => c };
    sql = sql.concat(" WHERE ").concat(owner_column_text(owner)).concat(" = ").concat(placeholder_text(k));
    binds.push(SqlValue::Id(id));
    sql = sql.concat(" RETURNING id, user_id, card_id, balance, locked_balance, created_at, updated_at");
    proof {
        let n: nat = if balance is Some { 1 } else { 0 };
        let m: nat = if locked_balance is Some { n + 1 } else { n };
        assert(after_balance =~= start + (if balance is Some { " balance = "@ + placeholder(1) } else { Seq::empty() }));
        assert(after_locked =~= after_balance + (if locked_balance is Some { " locked_balance = "@ + placeholder(n + 1) } else { Seq::empty() }));
        assert(sql@ =~= update_wallet_sql(owner, balance is Some, locked_balance is Some));
        assert(binds@ =~= update_wallet_binds(owner, balance, locked_balance));
    }
    Ok(SqlQuery { sql, binds })
}

/// The row a query found, or `RowNotFound`.
pub fn row_or_not_found<T>(row: Option<T>) -> (r: Result<T, DbError>)
    ensures
        match row {
            Some(t) => r matches Ok(u) && u == t,
            None => r matches Err(DbError::RowNotFound),
        },
{
    match row {
        Some(t) => Ok(t),
        None => Err(DbError::RowNotFound),
    }
}

/// A user's cards, or `RowNotFound` where there are none.
pub fn cards_or_not_found(cards: Vec<Card>) -> (r: Result<Vec<Card>, DbError>)
    ensures
        cards@.len() == 0 ==> r matches Err(DbError::RowNotFound),
        cards@.len() > 0 ==> (r matches Ok(v) && v@ == cards@),
{
    if cards.len() == 0 {
        Err(DbError::RowNotFound)
    } else {
        Ok(cards)
    }
}

/// The SQL that adds a user.
pub const REGISTER_SQL: &'static str = "INSERT INTO users (username,email,password,phonenumber,user_role) VALUES ($1,$2,$3,$4,$5::roles) RETURNING id,username,password,email,phonenumber,user_role,created_at,updated_at";
/// The SQL that finds a user by email.
pub const LOGIN_SQL: &'static str = "SELECT id, username, password, email, phonenumber, user_role, created_at, updated_at FROM users WHERE email = $1";
/// The SQL that finds a user by id.
pub const GET_USER_SQL: &'static str = "SELECT id, username, password, email, phonenumber, user_role, created_at, updated_at FROM users WHERE id = $1";
/// The SQL that adds a card.
pub const CREATE_CARD_SQL: &'static str = "INSERT INTO cards(parent_id,cardname,phonenumber) VALUES ($1,$2,$3) RETURNING id,parent_id,cardname,phonenumber,card_status,card_qr_code,created_at,updated_at";
/// The SQL that lists a parent's cards.
pub const GET_CARDS_SQL: &'static str = "SELECT id,parent_id, cardname, phonenumber, card_status, card_qr_code, created_at, updated_at FROM cards WHERE parent_id = $1";
/// The SQL that finds a card.
pub const GET_CARD_SQL: &'static str = "SELECT id,parent_id, cardname, phonenumber, card_status, card_qr_code, created_at, updated_at FROM cards WHERE id = $1";
/// The SQL that sets a card's QR code link.
pub const UPDATE_CARD_SQL: &'static str = "UPDATE cards SET card_qr_code = $1 WHERE id = $2 RETURNING id,parent_id,cardname,phonenumber,card_status,card_qr_code,created_at,updated_at";
/// The SQL that stores a card's PIN hash.
pub const CREATE_CARD_PIN_SQL: &'static str = "INSERT INTO card_pins (card_id,hashed_pin) VALUES ($1,$2) RETURNING id,card_id,hashed_pin,created_at,updated_at";
/// The SQL that finds a card's PIN hash.
pub const CHECK_CARD_PIN_SQL: &'static str = "SELECT id, card_id, hashed_pin, created_at,updated_at FROM card_pins WHERE card_id = $1";
/// The SQL that stores a vendor's withdrawal PIN.
pub const CREATE_WITHDRAWAL_PIN_SQL: &'static str = "INSERT INTO withdrawal_pins (vendor_id,hashed_pin) VALUES ($1,$2) RETURNING id,vendor_id,hashed_pin,created_at,updated_at";
/// The SQL that finds a vendor's withdrawal PIN.
pub const CHECK_WITHDRAWAL_PIN_SQL: &'static str = "SELECT id, vendor_id, hashed_pin, created_at,updated_at FROM withdrawal_pins WHERE vendor_id = $1";
/// The SQL that records a transaction.
pub const CREATE_TRANSACTION_SQL: &'static str = "INSERT INTO transactions ( from_wallet_id, to_wallet_id, amount, transaction_status, transaction_type) VALUES ( $1, $2, $3, $4::transaction_status, $5::types ) RETURNING id, from_wallet_id, to_wallet_id, amount, transaction_status, transaction_type, created_at, updated_at";

/// A user id alone names the user's wallet, a card id alone the card's; the
/// owner's id is the one given.
pub proof fn owner_is_the_one_given(u: u128, c: u128)
    ensures
        owner_of(Some(u), None) == Some(WalletOwner::User(u)),
        owner_of(None, Some(c)) == Some(WalletOwner::Card(c)),
        owner_of(None, None) is None,
        owner_of(Some(u), Some(c)) is None,
        owner_id(WalletOwner::User(u)) == u,
        owner_id(WalletOwner::Card(c)) == c,
{
}

/// A new wallet is inserted under the column of its owner's kind, `user_id`
/// for a user and `card_id` for a card.
pub proof fn wallet_insert_names_the_owner_column(u: u128, c: u128)
    ensures
        create_wallet_sql(WalletOwner::User(u)) == "INSERT INTO wallets (user_id) VALUES ($1) RETURNING id, user_id, card_id, balance, locked_balance, created_at, updated_at"@,
        create_wallet_sql(WalletOwner::Card(c)) == "INSERT INTO wallets (card_id) VALUES ($1) RETURNING id, user_id, card_id, balance, locked_balance, created_at, updated_at"@,
{
    reveal_strlit("INSERT INTO wallets ");
    reveal_strlit("(");
    reveal_strlit("user_id");
    reveal_strlit("card_id");
    reveal_strlit(") VALUES (");
    reveal_strlit("$1");
    reveal_strlit("$2");
    reveal_strlit("$3");
    reveal_strlit(")");
    reveal_strlit(" RETURNING id, user_id, card_id, balance, locked_balance, created_at, updated_at");
    reveal_strlit("SELECT id, user_id, card_id, balance, locked_balance, created_at, updated_at FROM wallets WHERE ");
    reveal_strlit(" = ");
    reveal_strlit("UPDATE wallets SET");
    reveal_strlit(" balance = ");
    reveal_strlit(" locked_balance = ");
    reveal_strlit(" WHERE ");
    reveal_strlit("INSERT INTO wallets (user_id) VALUES ($1) RETURNING id, user_id, card_id, balance, locked_balance, created_at, updated_at");
    reveal_strlit("INSERT INTO wallets (card_id) VALUES ($1) RETURNING id, user_id, card_id, balance, locked_balance, created_at, updated_at");
    assert(create_wallet_sql(WalletOwner::User(u)) =~= "INSERT INTO wallets (user_id) VALUES ($1) RETURNING id, user_id, card_id, balance, locked_balance, created_at, updated_at"@);
    assert(create_wallet_sql(WalletOwner::Card(c)) =~= "INSERT INTO wallets (card_id) VALUES ($1) RETURNING id, user_id, card_id, balance, locked_balance, created_at, updated_at"@);
}

/// A wallet is read by the column of its owner's kind, `user_id` for a user
/// and `card_id` for a card.
pub proof fn wallet_read_filters_on_the_owner_column(u: u128, c: u128)
    ensures
        get_wallet_sql(WalletOwner::User(u)) == "SELECT id, user_id, card_id, balance, locked_balance, created_at, updated_at FROM wallets WHERE user_id = $1"@,
        get_wallet_sql(WalletOwner::Card(c)) == "SELECT id, user_id, card_id, balance, locked_balance, created_at, updated_at FROM wallets WHERE card_id = $1"@,
{
    reveal_strlit("INSERT INTO wallets ");
    reveal_strlit("(");
    reveal_strlit("user_id");
    reveal_strlit("card_id");
    reveal_strlit(") VALUES (");
    reveal_strlit("$1");
    reveal_strlit("$2");
    reveal_strlit("$3");
    reveal_strlit(")");
    reveal_strlit(" RETURNING id, user_id, card_id, balance, locked_balance, created_at, updated_at");
    reveal_strlit("SELECT id, user_id, card_id, balance, locked_balance, created_at, updated_at FROM wallets WHERE ");
    reveal_strlit(" = ");
    reveal_strlit("UPDATE wallets SET");
    reveal_strlit(" balance = ");
    reveal_strlit(" locked_balance = ");
    reveal_strlit(" WHERE ");
    reveal_strlit("SELECT id, user_id, card_id, balance, locked_balance, created_at, updated_at FROM wallets WHERE user_id = $1");
    reveal_strlit("SELECT id, user_id, card_id, balance, locked_balance, created_at, updated_at FROM wallets WHERE card_id = $1");
    assert(get_wallet_sql(WalletOwner::User(u)) =~= "SELECT id, user_id, card_id, balance, locked_balance, created_at, updated_at FROM wallets WHERE user_id = $1"@);
    assert(get_wallet_sql(WalletOwner::Card(c)) =~= "SELECT id, user_id, card_id, balance, locked_balance, created_at, updated_at FROM wallets WHERE card_id = $1"@);
}

/// An update sets the given balances, numbered in order, and filters on the
/// column of the owner's kind with the next number.
pub proof fn wallet_update_sets_the_given_columns(u: u128, c: u128)
    ensures
        update_wallet_sql(WalletOwner::User(u), true, false) == "UPDATE wallets SET balance = $1 WHERE user_id = $2 RETURNING id, user_id, card_id, balance, locked_balance, created_at, updated_at"@,
        update_wallet_sql(WalletOwner::Card(c), true, false) == "UPDATE wallets SET balance = $1 WHERE card_id = $2 RETURNING id, user_id, card_id, balance, locked_balance, created_at, updated_at"@,
        update_wallet_sql(WalletOwner::User(u), false, true) == "UPDATE wallets SET locked_balance = $1 WHERE user_id = $2 RETURNING id, user_id, card_id, balance, locked_balance, created_at, updated_at"@,
        update_wallet_sql(WalletOwner::Card(c), false, true) == "UPDATE wallets SET locked_balance = $1 WHERE card_id = $2 RETURNING id, user_id, card_id, balance, locked_balance, created_at, updated_at"@,
        update_wallet_sql(WalletOwner::User(u), true, true) == "UPDATE wallets SET balance = $1 locked_balance = $2 WHERE user_id = $3 RETURNING id, user_id, card_id, balance, locked_balance, created_at, updated_at"@,
        update_wallet_sql(WalletOwner::Card(c), true, true) == "UPDATE wallets SET balance = $1 locked_balance = $2 WHERE card_id = $3 RETURNING id, user_id, card_id, balance, locked_balance, created_at, updated_at"@,
{
    reveal_strlit("INSERT INTO wallets ");
    reveal_strlit("(");
    reveal_strlit("user_id");
    reveal_strlit("card_id");
    reveal_strlit(") VALUES (");
    reveal_strlit("$1");
    reveal_strlit("$2");
    reveal_strlit("$3");
    reveal_strlit(")");
    reveal_strlit(" RETURNING id, user_id, card_id, balance, locked_balance, created_at, updated_at");
    reveal_strlit("SELECT id, user_id, card_id, balance, locked_balance, created_at, updated_at FROM wallets WHERE ");
    reveal_strlit(" = ");
    reveal_strlit("UPDATE wallets SET");
    reveal_strlit(" balance = ");
    reveal_strlit(" locked_balance = ");
    reveal_strlit(" WHERE ");
    reveal_strlit("UPDATE wallets SET balance = $1 WHERE user_id = $2 RETURNING id, user_id, card_id, balance, locked_balance, created_at, updated_at");
    reveal_strlit("UPDATE wallets SET balance = $1 WHERE card_id = $2 RETURNING id, user_id, card_id, balance, locked_balance, created_at, updated_at");
    reveal_strlit("UPDATE wallets SET locked_balance = $1 WHERE user_id = $2 RETURNING id, user_id, card_id, balance, locked_balance, created_at, updated_at");
    reveal_strlit("UPDATE wallets SET locked_balance = $1 WHERE card_id = $2 RETURNING id, user_id, card_id, balance, locked_balance, created_at, updated_at");
    reveal_strlit("UPDATE wallets SET balance = $1 locked_balance = $2 WHERE user_id = $3 RETURNING id, user_id, card_id, balance, locked_balance, created_at, updated_at");
    reveal_strlit("UPDATE wallets SET balance = $1 locked_balance = $2 WHERE card_id = $3 RETURNING id, user_id, card_id, balance, locked_balance, created_at, updated_at");
    assert(update_wallet_sql(WalletOwner::User(u), true, false) =~= "UPDATE wallets SET balance = $1 WHERE user_id = $2 RETURNING id, user_id, card_id, balance, locked_balance, created_at, updated_at"@);
    assert(update_wallet_sql(WalletOwner::Card(c), true, false) =~= "UPDATE wallets SET balance = $1 WHERE card_id = $2 RETURNING id, user_id, card_id, balance, locked_balance, created_at, updated_at"@);
    assert(update_wallet_sql(WalletOwner::User(u), false, true) =~= "UPDATE wallets SET locked_balance = $1 WHERE user_id = $2 RETURNING id, user_id, card_id, balance, locked_balance, created_at, updated_at"@);
    assert(update_wallet_sql(WalletOwner::Card(c), false, true) =~= "UPDATE wallets SET locked_balance = $1 WHERE card_id = $2 RETURNING id, user_id, card_id, balance, locked_balance, created_at, updated_at"@);
    assert(update_wallet_sql(WalletOwner::User(u), true, true) =~= "UPDATE wallets SET balance = $1 locked_balance = $2 WHERE user_id = $3 RETURNING id, user_id, card_id, balance, locked_balance, created_at, updated_at"@);
    assert(update_wallet_sql(WalletOwner::Card(c), true, true) =~= "UPDATE wallets SET balance = $1 locked_balance = $2 WHERE card_id = $3 RETURNING id, user_id, card_id, balance, locked_balance, created_at, updated_at"@);
}

/// An update binds the balance it was given, then the locked balance it was
/// given, each with the same digits and scale, then the owner's id.
pub proof fn wallet_update_binds_the_given_amounts(o: WalletOwner, balance: Option<Decimal>, locked: Option<Decimal>)
    ensures
        ({
            let binds = update_wallet_binds(o, balance, locked);
            let n: int = (if balance is Some { 1int } else { 0int }) + (if locked is Some { 1int } else { 0int });
            &&& binds.len() == n + 1
            &&& balance matches Some(b) ==> (binds[0] matches SqlValue::Amount(x) && x.digits() == b.digits() && x.scale == b.scale)
            &&& locked matches Some(l) ==> (binds[n - 1] matches SqlValue::Amount(x) && x.digits() == l.digits() && x.scale == l.scale)
            &&& binds[n] matches SqlValue::Id(id) && id == owner_id(o)
        }),
{
}

} // verus!
