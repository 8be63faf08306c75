//! The data the storage layer owns, as the engine sees it: user accounts,
//! notes, the process-wide configuration, and the storage error taxonomy.

use vstd::prelude::*;

verus! {

/// How user accounts are handled, fixed when the configuration is loaded.
#[derive(Clone, Copy, Debug, PartialEq, Eq, Structural)]
pub enum UserMode {
    /// Exactly one account is expected; the engine logs it in by itself.
    SingleUserAutoLogin,
    /// One account, but the user still types the password.
    SingleUserManualLogin,
    /// Several accounts, each behind the login screen.
    MultiUser,
}

/// Process-wide configuration, loaded once when the storage backend connects
/// and read thereafter as an immutable snapshot.
#[derive(Clone, Debug, PartialEq, Eq)]
pub struct SystemConfig {
    pub user_mode: UserMode,
    /// Path of the external editor used for note bodies, if one is configured.
    pub terminal_editor: Option<String>,
}

/// A user account as the storage layer hands it out after authentication.
#[derive(Clone, Debug, PartialEq, Eq)]
pub struct User {
    pub id: i64,
    pub name: String,
    /// The bcrypt hash of the account's password, never the password itself.
    pub password: String,
    /// Id of the note the user last navigated to, if any.
    pub last_visited_zettel: Option<i64>,
}

/// A note.  `id` is `None` until the note has been persisted; `path` is the
/// unique-per-user url under which the note is reachable.
#[derive(Clone, Debug, PartialEq, Eq)]
pub struct Zettel {
    pub id: Option<i64>,
    pub path: String,
    pub body: String,
}

/// What the storage layer can fail with.  Absence of a record is never an
/// error: operations that can come up empty return an `Option` instead.
#[derive(Clone, Debug, PartialEq, Eq)]
pub enum Error {
    /// Single-user login found no account to log in.
    SingleUserNotFound,
    /// The backend itself failed; the message names the failing operation.
    Database { message: String },
    /// A stored password hash could not be checked against a password.
    PasswordHash { message: String },
}

} // verus!
