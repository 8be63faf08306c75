//! The four screen states and the transition each of them can request.
//! A screen owns only what it needs to render itself and to carry context
//! into its successor; the engine in [`crate::view`] resolves the requests.

use vstd::prelude::*;

use crate::storage;

verus! {

/// The login screen.  `error` carries a failure to show, e.g. from a failed
/// automatic single-user login.
#[derive(Debug, Clone, PartialEq, Eq)]
pub struct Login {
    pub error: Option<storage::Error>,
}

impl Default for Login {
    /// A fresh login screen shows no error.
    fn default() -> (r: Login)
        ensures
            r.error is None,
    {
        Login { error: None }
    }
}

/// The account-registration screen.  Its form state lives in the rendering
/// layer; the engine only needs to know that the screen is up.
#[derive(Debug, Clone, PartialEq, Eq)]
pub struct Register {}

impl Default for Register {
    fn default() -> (r: Register)
        ensures
            r == (Register {  }),
    {
        Register {  }
    }
}

/// The note screen: the logged-in user and at most one note, the one
/// currently displayed or being edited.
#[derive(Debug, Clone, PartialEq, Eq)]
pub struct Zettel {
    pub user: storage::User,
    pub zettel: Option<storage::Zettel>,
}

impl Zettel {
    /// The screen a user sees right after logging in: no note loaded yet.
    pub fn for_user(user: storage::User) -> (r: Zettel)
        ensures
            r.user == user,
            r.zettel is None,
    {
        Zettel { user, zettel: None }
    }
}

/// The config screen.  `parent_page` is the screen to return to when the
/// config screen is popped; it is captured when the screen is opened and
/// consumed exactly once.
#[derive(Debug, PartialEq, Eq)]
pub struct Config {
    pub parent_page: Option<Box<crate::view::View>>,
}

/// What the note screen asks of the engine after one frame.
#[derive(Debug, Clone, PartialEq, Eq)]
pub enum ZettelTransition {
    /// Stop the whole engine.
    Exit,
    /// Show the note stored under `path`, or a system page for a `sys:` path.
    NavigateTo { path: String },
    /// Back to a fresh login screen.
    Logout,
    /// Open the config screen, returning here when it is popped.
    OpenConfig,
    /// Run the external editor on the displayed note's body.
    Edit,
}

/// What the login screen asks of the engine after one frame.
#[derive(Debug, Clone, PartialEq, Eq)]
pub enum LoginTransition {
    Exit,
    /// Move to the registration screen.
    Register,
    /// Credentials checked out; show this user's notes.
    Login { user: storage::User },
}

/// What the registration screen asks of the engine after one frame.
#[derive(Debug, Clone, PartialEq, Eq)]
pub enum RegisterTransition {
    Exit,
    /// The account was created; show the new user's notes.
    Registered { user: storage::User },
    /// Back to the login screen.
    Login,
}

/// What the config screen asks of the engine after one frame.
#[derive(Debug, Clone, PartialEq, Eq)]
pub enum ConfigTransition {
    /// Close the config screen and restore the screen it was opened from.
    Pop,
}

} // verus!
