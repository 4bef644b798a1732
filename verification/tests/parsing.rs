use vault_core::errors::AuthResult;
use vault_core::hashing::create_master;
use vault_core::menu::{parse_account_selector, parse_menu_choice, AccountSelector, MenuChoice};
use vault_core::records::{
    build_account, merge_account_update, open_account_password, optional_field, updated_field,
    updated_optional_field,
};
use vault_core::session::Session;

#[test]
fn menu_choices_parse_to_their_actions() {
    assert_eq!(parse_menu_choice("1"), MenuChoice::AddAccount);
    assert_eq!(parse_menu_choice("2"), MenuChoice::ListAccounts);
    assert_eq!(parse_menu_choice("3"), MenuChoice::GetAccount);
    assert_eq!(parse_menu_choice("4"), MenuChoice::UpdateAccount);
    assert_eq!(parse_menu_choice("5"), MenuChoice::DeleteAccount);
    assert_eq!(parse_menu_choice("6"), MenuChoice::ChangeMasterPassword);
    assert_eq!(parse_menu_choice("x"), MenuChoice::Exit);
    assert_eq!(parse_menu_choice("7"), MenuChoice::Invalid);
    assert_eq!(parse_menu_choice(""), MenuChoice::Invalid);
    assert_eq!(parse_menu_choice("10"), MenuChoice::Invalid);
}

#[test]
fn digit_runs_select_by_id() {
    assert!(matches!(parse_account_selector("42".to_string()), AccountSelector::ById(42)));
    assert!(matches!(parse_account_selector("0".to_string()), AccountSelector::ById(0)));
    assert!(matches!(parse_account_selector("007".to_string()), AccountSelector::ById(7)));
    assert!(matches!(
        parse_account_selector("123456789012345678".to_string()),
        AccountSelector::ById(123456789012345678)
    ));
}

#[test]
fn everything_else_selects_by_name() {
    for input in ["", "google", "12a", "-3", "1 2", "1234567890123456789"] {
        match parse_account_selector(input.to_string()) {
            AccountSelector::ByName(name) => assert_eq!(name, input),
            AccountSelector::ById(id) => panic!("{input:?} parsed as id {id}"),
        }
    }
}

#[test]
fn optional_fields_treat_empty_as_none() {
    assert_eq!(optional_field(String::new()), None);
    assert_eq!(optional_field("x.com".to_string()), Some("x.com".to_string()));
}

#[test]
fn updated_fields_keep_current_on_empty_input() {
    assert_eq!(updated_field(String::new(), "old".to_string()), "old");
    assert_eq!(updated_field("new".to_string(), "old".to_string()), "new");
    assert_eq!(updated_optional_field(String::new(), Some("old".to_string())), Some("old".to_string()));
    assert_eq!(updated_optional_field(String::new(), None), None);
    assert_eq!(updated_optional_field("new".to_string(), None), Some("new".to_string()));
}

fn authenticated_session() -> Session {
    let master = create_master("alice".to_string(), b"Tr0ub4dor&3").unwrap();
    let mut session = Session::new();
    assert_eq!(session.authenticate(b"Tr0ub4dor&3", Some(&master)), AuthResult::Success);
    session
}

#[test]
fn built_account_seals_its_password() {
    let session = authenticated_session();
    let account = build_account(
        &session,
        "Example".to_string(),
        "alice@example.com".to_string(),
        b"hunter2",
        String::new(),
        "the example account".to_string(),
    )
    .unwrap();
    assert_eq!(account.id, 0);
    assert_eq!(account.name, "Example");
    assert_eq!(account.url, None);
    assert_eq!(account.description, Some("the example account".to_string()));
    assert_ne!(account.password_blob, b"hunter2".to_vec());
    let opened = open_account_password(&session, &account).unwrap();
    assert_eq!(opened, b"hunter2".to_vec());
}

#[test]
fn account_update_keeps_fields_on_empty_input() {
    let session = authenticated_session();
    let account = build_account(
        &session,
        "Example".to_string(),
        "alice@example.com".to_string(),
        b"hunter2",
        "example.com".to_string(),
        String::new(),
    )
    .unwrap();
    let old_blob = account.password_blob.clone();
    let updated = merge_account_update(
        &session,
        account,
        String::new(),
        "bob@example.com".to_string(),
        b"",
        String::new(),
        String::new(),
    )
    .unwrap();
    assert_eq!(updated.name, "Example");
    assert_eq!(updated.username, "bob@example.com");
    assert_eq!(updated.password_blob, old_blob);
    assert_eq!(updated.url, Some("example.com".to_string()));
    assert_eq!(updated.description, None);
}

#[test]
fn account_update_reseals_a_new_password() {
    let session = authenticated_session();
    let account = build_account(
        &session,
        "Example".to_string(),
        "alice@example.com".to_string(),
        b"hunter2",
        String::new(),
        String::new(),
    )
    .unwrap();
    let updated = merge_account_update(
        &session,
        account,
        String::new(),
        String::new(),
        b"hunter3",
        String::new(),
        String::new(),
    )
    .unwrap();
    let opened = open_account_password(&session, &updated).unwrap();
    assert_eq!(opened, b"hunter3".to_vec());
}
