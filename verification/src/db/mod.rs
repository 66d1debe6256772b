//! The storage side of the library: how rows are read and written, and repository errors.
pub mod rows;

use vstd::prelude::*;
use crate::domain::persona::{Role, role_from_text, role_text};
use crate::domain::settings::AppSettings;

verus! {

/// Why a repository write failed.
#[derive(Debug)]
pub enum RepoError {
    /// A persona with this name already exists.
    Duplicate,
    /// Any other database failure; holds the database's message.
    Db(String),
}

/// The stored text of a role.
pub fn role_to_str(role: &Role) -> (r: &'static str)
    ensures
        r@ == role_text(*role),
{
    match role {
        Role::User => "user",
        Role::Assistant => "assistant",
        Role::System => "system",
    }
}

/// The role a stored text names; any other text gives `unknown role: ` and the text.
pub fn str_to_role(s: &str) -> (r: Result<Role, String>)
    ensures
        match r {
            Ok(v) => role_from_text(s@) == Some(v),
            Err(e) => role_from_text(s@) is None && e@ == "unknown role: "@ + s@,
        },
{
    if crate::text::str_eq(s, "user") {
        Ok(Role::User)
    } else if crate::text::str_eq(s, "assistant") {
        Ok(Role::Assistant)
    } else if crate::text::str_eq(s, "system") {
        Ok(Role::System)
    } else {
        Err(crate::text::concat2("unknown role: ", s))
    }
}

/// The user name of settings that were never stored.
pub open spec fn default_user_name() -> Seq<char> {
    "User"@
}

/// The settings that a read of the settings row gives: the stored row, or, where none
/// is stored yet, the user name `User` and an empty default model.
pub fn settings_or_defaults(row: Option<AppSettings>) -> (r: AppSettings)
    ensures
        match row {
            Some(s) => r == s,
            None => r.user_name@ == default_user_name() && r.default_model@.len() == 0,
        },
{
    match row {
        Some(s) => s,
        None => AppSettings { user_name: "User".to_owned(), default_model: String::new() },
    }
}

} // verus!
