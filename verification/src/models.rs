//! Data model of the authentication core: the stored user row, the ways to
//! identify a user, the claims carried by a token, and the request and
//! table-name types shared with the surrounding application.

use vstd::prelude::*;

verus! {

/// The columns of the `users` table, with their SQL names.
pub enum UserTable {
    Table,
    Id,
    Username,
    PasswordHash,
    Admin,
}

impl UserTable {
    /// The SQL name of this column (or of the table itself).
    pub open spec fn spec_sql_name(self) -> Seq<char> {
        match self {
            UserTable::Table => "users"@,
            UserTable::Id => "id"@,
            UserTable::Username => "username"@,
            UserTable::PasswordHash => "password_hash"@,
            UserTable::Admin => "admin"@,
        }
    }

    /// The SQL name of this column (or of the table itself).
    pub fn sql_name(&self) -> (r: String)
        ensures
            r@ == self.spec_sql_name(),
    {
        match self {
            UserTable::Table => "users".to_owned(),
            UserTable::Id => "id".to_owned(),
            UserTable::Username => "username".to_owned(),
            UserTable::PasswordHash => "password_hash".to_owned(),
            UserTable::Admin => "admin".to_owned(),
        }
    }
}

/// One persisted user: opaque identifier, unique username, password hash in
/// PHC string form, admin flag. Never holds a plaintext password.
#[derive(Debug)]
pub struct UserRow {
    pub id: String,
    pub username: String,
    pub password_hash: String,
    pub admin: bool,
}

/// The mathematical value of a `UserRow`: its string fields as character
/// sequences.
pub ghost struct UserRowView {
    pub id: Seq<char>,
    pub username: Seq<char>,
    pub password_hash: Seq<char>,
    pub admin: bool,
}

impl View for UserRow {
    type V = UserRowView;

    open spec fn view(&self) -> UserRowView {
        UserRowView {
            id: self.id@,
            username: self.username@,
            password_hash: self.password_hash@,
            admin: self.admin,
        }
    }
}

impl Clone for UserRow {
    fn clone(&self) -> (r: Self)
        ensures
            r@ == self@,
    {
        UserRow {
            id: self.id.clone(),
            username: self.username.clone(),
            password_hash: self.password_hash.clone(),
            admin: self.admin,
        }
    }
}

/// Ways to identify a user.
pub enum UserIdent {
    Id(String),
    Username(String),
}

/// The identity a verified token resolves to: the subject identifier that
/// was embedded in the token at issuance.
#[derive(Debug)]
pub struct UserClaims {
    pub id: String,
}

/// A presented username/password pair: exists only for the duration of one
/// login request.
#[derive(Debug)]
pub struct LoginRequest {
    pub username: String,
    pub password: String,
}

/// The columns of the `accounts` table, with their SQL names.
pub enum AccountTable {
    Table,
    Id,
    Name,
    Description,
    AvailableMoney,
    TotalMoney,
    UserId,
    IsAdhoc,
}

impl AccountTable {
    /// The SQL name of this column (or of the table itself).
    pub open spec fn spec_sql_name(self) -> Seq<char> {
        match self {
            AccountTable::Table => "accounts"@,
            AccountTable::Id => "id"@,
            AccountTable::Name => "name"@,
            AccountTable::Description => "description"@,
            AccountTable::AvailableMoney => "available_money"@,
            AccountTable::TotalMoney => "total_money"@,
            AccountTable::UserId => "user_id"@,
            AccountTable::IsAdhoc => "is_adhoc"@,
        }
    }

    /// The SQL name of this column (or of the table itself).
    pub fn sql_name(&self) -> (r: String)
        ensures
            r@ == self.spec_sql_name(),
    {
        match self {
            AccountTable::Table => "accounts".to_owned(),
            AccountTable::Id => "id".to_owned(),
            AccountTable::Name => "name".to_owned(),
            AccountTable::Description => "description".to_owned(),
            AccountTable::AvailableMoney => "available_money".to_owned(),
            AccountTable::TotalMoney => "total_money".to_owned(),
            AccountTable::UserId => "user_id".to_owned(),
            AccountTable::IsAdhoc => "is_adhoc".to_owned(),
        }
    }
}

/// Which kind of accounts a listing request asks for.
#[derive(Clone, Copy, Debug, PartialEq, Eq, Structural)]
pub enum AccountType {
    Any,
    Adhoc,
    Normal,
}

/// The query parameter of an account listing request.
#[derive(Clone, Copy, Debug, PartialEq, Eq, Structural)]
pub struct AccountTypeQuery {
    pub account_type: AccountType,
}

impl AccountTypeQuery {
    /// A query asking for the given kind of accounts.
    pub fn new(account_type: AccountType) -> (r: Self)
        ensures
            r.account_type == account_type,
    {
        AccountTypeQuery { account_type }
    }
}

impl Default for AccountTypeQuery {
    /// With no kind specified, a listing request asks for any account.
    fn default() -> (r: Self)
        ensures
            r.account_type == AccountType::Any,
    {
        AccountTypeQuery::new(AccountType::Any)
    }
}

} // verus!
