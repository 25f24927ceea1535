use passman::vault::{PasswordData, PasswordEntry};

fn entry(name: &str, password: &str) -> PasswordEntry {
    PasswordEntry { name: name.to_string(), password: password.to_string() }
}

#[test]
fn new_vault_is_empty() {
    let vault = PasswordData::new();
    assert_eq!(vault.passwords.len(), 0);
}

#[test]
fn add_then_get() {
    let mut vault = PasswordData::new();
    assert!(vault.add_password(entry("email", "hunter2")));
    assert!(vault.add_password(entry("bank", "letmein")));
    assert_eq!(vault.passwords.len(), 2);
    assert_eq!(vault.get_password_by_name(&"email".to_string()).unwrap(), "hunter2");
    assert_eq!(vault.get_password_by_name(&"bank".to_string()).unwrap(), "letmein");
}

#[test]
fn duplicate_name_is_rejected() {
    let mut vault = PasswordData::new();
    assert!(vault.add_password(entry("email", "first")));
    assert!(!vault.add_password(entry("email", "second")));
    assert_eq!(vault.passwords.len(), 1);
    assert_eq!(vault.get_password_by_name(&"email".to_string()).unwrap(), "first");
}

#[test]
fn get_missing_name_is_none() {
    let vault = PasswordData::new();
    assert!(vault.get_password_by_name(&"absent".to_string()).is_none());
}

#[test]
fn get_returns_first_match() {
    // The codec does not forbid duplicate names in a hand-built list; lookups
    // must take the first.
    let vault = PasswordData {
        passwords: vec![entry("dup", "one"), entry("dup", "two")],
    };
    assert_eq!(vault.get_password_by_name(&"dup".to_string()).unwrap(), "one");
}

#[test]
fn remove_by_name() {
    let mut vault = PasswordData::new();
    vault.add_password(entry("a", "1"));
    vault.add_password(entry("b", "2"));
    vault.add_password(entry("c", "3"));
    assert!(vault.remove_password_by_name(&"b".to_string()));
    assert_eq!(vault.passwords.len(), 2);
    assert_eq!(vault.passwords[0].name, "a");
    assert_eq!(vault.passwords[1].name, "c");
    assert!(!vault.remove_password_by_name(&"b".to_string()));
    assert_eq!(vault.passwords.len(), 2);
}

#[test]
fn update_replaces_secret_in_place() {
    let mut vault = PasswordData::new();
    vault.add_password(entry("a", "old"));
    vault.add_password(entry("b", "keep"));
    assert!(vault.update_password_by_name(&"a".to_string(), "new".to_string()));
    assert_eq!(vault.passwords.len(), 2);
    assert_eq!(vault.passwords[0].name, "a");
    assert_eq!(vault.passwords[0].password, "new");
    assert_eq!(vault.passwords[1].password, "keep");
}

#[test]
fn update_missing_name_changes_nothing() {
    let mut vault = PasswordData::new();
    vault.add_password(entry("a", "1"));
    assert!(!vault.update_password_by_name(&"absent".to_string(), "x".to_string()));
    assert_eq!(vault.passwords.len(), 1);
    assert_eq!(vault.passwords[0].password, "1");
}
