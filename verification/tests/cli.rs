use passman::cli::{apply_command, CommandOutcome, Commands};
use passman::vault::{PasswordData, PasswordEntry};

#[test]
fn add_trims_name_and_secret() {
    let mut vault = PasswordData::new();
    let outcome = apply_command(
        &mut vault,
        Commands::Add { name: "  alice  ".to_string(), password: " s3cret ".to_string() },
    );
    assert!(matches!(outcome, CommandOutcome::Added));
    assert_eq!(vault.passwords.len(), 1);
    assert_eq!(vault.passwords[0].name, "alice");
    assert_eq!(vault.passwords[0].password, "s3cret");
}

#[test]
fn add_duplicate_reports_duplicate_name() {
    let mut vault = PasswordData::new();
    apply_command(
        &mut vault,
        Commands::Add { name: "alice".to_string(), password: "one".to_string() },
    );
    let outcome = apply_command(
        &mut vault,
        Commands::Add { name: " alice ".to_string(), password: "two".to_string() },
    );
    assert!(matches!(outcome, CommandOutcome::DuplicateName));
    assert_eq!(vault.passwords.len(), 1);
    assert_eq!(vault.passwords[0].password, "one");
}

#[test]
fn get_reports_found_or_not_found() {
    let mut vault = PasswordData {
        passwords: vec![PasswordEntry { name: "k".to_string(), password: "v".to_string() }],
    };
    match apply_command(&mut vault, Commands::Get { name: "k".to_string() }) {
        CommandOutcome::Found { password } => assert_eq!(password, "v"),
        other => panic!("expected Found, got {:?}", other),
    }
    assert!(matches!(
        apply_command(&mut vault, Commands::Get { name: "absent".to_string() }),
        CommandOutcome::NotFound
    ));
    assert_eq!(vault.passwords.len(), 1);
}

#[test]
fn list_changes_nothing() {
    let mut vault = PasswordData {
        passwords: vec![PasswordEntry { name: "k".to_string(), password: "v".to_string() }],
    };
    assert!(matches!(apply_command(&mut vault, Commands::List), CommandOutcome::Listed));
    assert_eq!(vault.passwords.len(), 1);
    assert_eq!(vault.passwords[0].name, "k");
}

#[test]
fn update_and_remove_report_outcomes() {
    let mut vault = PasswordData::new();
    apply_command(&mut vault, Commands::Add { name: "a".to_string(), password: "1".to_string() });
    assert!(matches!(
        apply_command(
            &mut vault,
            Commands::Update { name: "a".to_string(), password: "2".to_string() }
        ),
        CommandOutcome::Updated
    ));
    assert_eq!(vault.passwords[0].password, "2");
    assert!(matches!(
        apply_command(
            &mut vault,
            Commands::Update { name: "b".to_string(), password: "x".to_string() }
        ),
        CommandOutcome::NotFound
    ));
    assert!(matches!(
        apply_command(&mut vault, Commands::Remove { name: "a".to_string() }),
        CommandOutcome::Removed
    ));
    assert_eq!(vault.passwords.len(), 0);
    assert!(matches!(
        apply_command(&mut vault, Commands::Remove { name: "a".to_string() }),
        CommandOutcome::NotFound
    ));
}
