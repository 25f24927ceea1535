//! The command model a front end hands to the library, and the verified
//! dispatch from a command to a vault operation.
//!
//! Argument parsing, prompting and printing stay with the caller; what reaches
//! this module is plain strings. `apply_command` makes every decision — which
//! entry-list operation runs and what outcome the caller has to report — so
//! the front end only performs I/O around it.

use vstd::prelude::*;

use crate::vault::PasswordData;
use crate::vault::PasswordEntry;

verus! {

/// A parsed invocation: which subcommand to run, if any.
#[derive(Debug)]
pub struct Cli {
    pub command: Option<Commands>,
}

/// The subcommands the vault understands.
#[derive(Debug)]
pub enum Commands {
    /// Store a new secret under a name.
    Add { name: String, password: String },
    /// Look a secret up by name.
    Get { name: String },
    /// List every stored entry.
    List,
    /// Replace the secret stored under a name.
    Update { name: String, password: String },
    /// Remove the entry stored under a name.
    Remove { name: String },
}

/// What a command decided, for the caller to report. `Added`, `Updated` and
/// `Removed` changed the vault, so the caller must re-seal and rewrite it;
/// the rest left it untouched.
#[derive(Debug)]
pub enum CommandOutcome {
    /// The entry was appended; the name was free.
    Added,
    /// Nothing was added: an entry of that name already exists.
    DuplicateName,
    /// The secret stored under the requested name.
    Found { password: String },
    /// No entry of the requested name exists.
    NotFound,
    /// The caller should list the entries itself; the vault is unchanged.
    Listed,
    /// The secret under the requested name was replaced.
    Updated,
    /// The entry of the requested name was removed.
    Removed,
}

/// What `str::trim` leaves of a string: a fixed function of the characters
/// alone.
pub uninterp spec fn trimmed(s: Seq<char>) -> Seq<char>;

/// Relies on `str::trim`: leading and trailing whitespace removed, a fixed
/// function of the input characters.
#[verifier::external_body]
fn trim_string(s: &String) -> (r: String)
    ensures
        r@ == trimmed(s@),
{
    s.trim().to_string()
}

/// Run one command against the vault and say what happened.
///
/// `Add` trims the name and secret before storing them, and refuses a name
/// already in use; `Get` reports the first matching secret; `Update` replaces
/// the first matching secret; `Remove` drops the first matching entry; `List`
/// decides nothing and changes nothing. Every command keeps name uniqueness.
pub fn apply_command(vault: &mut PasswordData, command: Commands) -> (outcome: CommandOutcome)
    ensures
        match command {
            Commands::Add { name, password } => {
                if old(vault).has_name(trimmed(name@)) {
                    outcome is DuplicateName && *final(vault) == *old(vault)
                } else {
                    &&& outcome is Added
                    &&& final(vault).passwords@.len() == old(vault).passwords@.len() + 1
                    &&& final(vault).passwords@.last().name@ == trimmed(name@)
                    &&& final(vault).passwords@.last().password@ == trimmed(password@)
                    &&& final(vault).passwords@.drop_last() == old(vault).passwords@
                }
            },
            Commands::Get { name } => {
                &&& *final(vault) == *old(vault)
                &&& match outcome {
                    CommandOutcome::Found { password } => exists|i: int|
                        #[trigger] old(vault).is_first_match(name@, i) && password@ == old(
                            vault,
                        ).passwords@[i].password@,
                    CommandOutcome::NotFound => !old(vault).has_name(name@),
                    _ => false,
                }
            },
            Commands::List => outcome is Listed && *final(vault) == *old(vault),
            Commands::Update { name, password } => {
                if old(vault).has_name(name@) {
                    &&& outcome is Updated
                    &&& final(vault).passwords@.len() == old(vault).passwords@.len()
                    &&& exists|i: int|
                        {
                            &&& #[trigger] old(vault).is_first_match(name@, i)
                            &&& final(vault).passwords@[i].name@ == old(vault).passwords@[i].name@
                            &&& final(vault).passwords@[i].password@ == password@
                            &&& forall|j: int|
                                0 <= j < old(vault).passwords@.len() && j != i
                                    ==> final(vault).passwords@[j] == old(vault).passwords@[j]
                        }
                } else {
                    outcome is NotFound && *final(vault) == *old(vault)
                }
            },
            Commands::Remove { name } => {
                if old(vault).has_name(name@) {
                    &&& outcome is Removed
                    &&& exists|i: int|
                        #[trigger] old(vault).is_first_match(name@, i) && final(vault).passwords@
                            == old(vault).passwords@.remove(i)
                } else {
                    outcome is NotFound && *final(vault) == *old(vault)
                }
            },
        },
        old(vault).names_unique() ==> final(vault).names_unique(),
{
    match command {
        Commands::Add { name, password } => {
            let entry = PasswordEntry { name: trim_string(&name), password: trim_string(&password) };
            if vault.add_password(entry) {
                CommandOutcome::Added
            } else {
                CommandOutcome::DuplicateName
            }
        },
        Commands::Get { name } => {
            match vault.get_password_by_name(&name) {
                Some(password) => CommandOutcome::Found { password: password.clone() },
                None => CommandOutcome::NotFound,
            }
        },
        Commands::List => CommandOutcome::Listed,
        Commands::Update { name, password } => {
            if vault.update_password_by_name(&name, password) {
                CommandOutcome::Updated
            } else {
                CommandOutcome::NotFound
            }
        },
        Commands::Remove { name } => {
            if vault.remove_password_by_name(&name) {
                CommandOutcome::Removed
            } else {
                CommandOutcome::NotFound
            }
        },
    }
}

} // verus!
