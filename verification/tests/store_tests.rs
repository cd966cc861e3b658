use budgetman_auth::models::{AccountTable, AccountType, AccountTypeQuery, UserIdent, UserRow,
    UserTable};
use budgetman_auth::password::validate_password;
use budgetman_auth::responses::{err_resp, ErrorResponse};
use budgetman_auth::store::CredentialStore;

#[test]
fn bootstrap_on_an_empty_store_creates_one_admin() {
    let mut store = CredentialStore::new();
    assert_eq!(store.len(), 0);
    let added = store.add_default_user().expect("bootstrap failed");
    assert!(added);
    assert_eq!(store.len(), 1);
    let admin = store
        .fetch_user_from(&UserIdent::Username("admin".to_owned()))
        .expect("admin user missing");
    assert!(admin.admin);
    assert_eq!(admin.username, "admin");
    assert_eq!(validate_password(&admin.password_hash, "admin"), Ok(true));
    assert_eq!(validate_password(&admin.password_hash, "not-the-password"), Ok(false));
    assert_eq!(validate_password(&admin.password_hash, ""), Ok(false));
}

#[test]
fn bootstrap_leaves_an_existing_admin_alone() {
    let mut store = CredentialStore::new();
    assert!(store.add_default_user().expect("bootstrap failed"));
    let added_again = store.add_default_user().expect("second bootstrap failed");
    assert!(!added_again);
    assert_eq!(store.len(), 1);
}

#[test]
fn bootstrap_ignores_plain_users_but_respects_admins() {
    let mut store = CredentialStore::new();
    assert!(store.add_user(UserRow {
        id: "u1".to_owned(),
        username: "alice".to_owned(),
        password_hash: "x".to_owned(),
        admin: false,
    }));
    assert!(store.add_default_user().expect("bootstrap failed"));
    assert_eq!(store.len(), 2);

    let mut store = CredentialStore::new();
    assert!(store.add_user(UserRow {
        id: "u2".to_owned(),
        username: "root".to_owned(),
        password_hash: "x".to_owned(),
        admin: true,
    }));
    assert!(!store.add_default_user().expect("bootstrap failed"));
    assert_eq!(store.len(), 1);
}

#[test]
fn duplicate_usernames_and_ids_are_refused() {
    let mut store = CredentialStore::new();
    assert!(store.add_user(UserRow {
        id: "u1".to_owned(),
        username: "alice".to_owned(),
        password_hash: "x".to_owned(),
        admin: false,
    }));
    // Same username, fresh id.
    assert!(!store.add_user(UserRow {
        id: "u2".to_owned(),
        username: "alice".to_owned(),
        password_hash: "y".to_owned(),
        admin: false,
    }));
    // Same id, fresh username.
    assert!(!store.add_user(UserRow {
        id: "u1".to_owned(),
        username: "bob".to_owned(),
        password_hash: "y".to_owned(),
        admin: false,
    }));
    assert_eq!(store.len(), 1);
}

#[test]
fn table_names_match_the_schema() {
    assert_eq!(UserTable::Table.sql_name(), "users");
    assert_eq!(UserTable::Id.sql_name(), "id");
    assert_eq!(UserTable::Username.sql_name(), "username");
    assert_eq!(UserTable::PasswordHash.sql_name(), "password_hash");
    assert_eq!(UserTable::Admin.sql_name(), "admin");
    assert_eq!(AccountTable::Table.sql_name(), "accounts");
    assert_eq!(AccountTable::AvailableMoney.sql_name(), "available_money");
    assert_eq!(AccountTable::IsAdhoc.sql_name(), "is_adhoc");
}

#[test]
fn error_response_keeps_code_and_message() {
    let resp = ErrorResponse::new(401, "Incorrect username or password".to_owned());
    assert_eq!(resp.get_code(), 401);
    assert_eq!(resp.get_message().as_str(), "Incorrect username or password");
    let short = err_resp(500, "DB error".to_owned());
    assert_eq!(short.get_code(), 500);
    assert_eq!(short.clone().get_code(), 500);
}

#[test]
fn account_type_query_defaults_to_any() {
    let q = AccountTypeQuery::new(AccountType::Adhoc);
    assert_eq!(q.account_type, AccountType::Adhoc);
    assert_eq!(AccountTypeQuery::default().account_type, AccountType::Any);
}
