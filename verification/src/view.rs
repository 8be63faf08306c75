//! The view engine: a state machine over the four screens.  One call of
//! [`View::step`] resolves the transition a screen requested after one frame.
//! Work only the host can do — a storage lookup, running the external editor,
//! blocking on a modal dialog — comes back as an explicit [`Step`]; the host
//! performs it and feeds the outcome to [`apply_fetched`] or [`apply_edited`].

use vstd::prelude::*;
use vstd::view::View as _;

use crate::dialog::{Key, ViewBuilder};
use crate::screens;
use crate::screens::{ConfigTransition, LoginTransition, RegisterTransition, ZettelTransition};
use crate::storage;

verus! {

/// The currently displayed screen: exactly one is live at a time.
#[derive(Debug, PartialEq, Eq)]
pub enum View {
    Config(screens::Config),
    Login(screens::Login),
    Register(screens::Register),
    Zettel(screens::Zettel),
}

/// A transition request, tagged with the screen that may emit it.
#[derive(Debug, Clone, PartialEq, Eq)]
pub enum Transition {
    Config(ConfigTransition),
    Login(LoginTransition),
    Register(RegisterTransition),
    Zettel(ZettelTransition),
}

/// What the engine asks of its host after resolving one frame.
#[derive(Debug, PartialEq)]
pub enum Step {
    /// Keep running; `view` is the screen for the next frame.
    Continue { view: View },
    /// Stop the engine; `view` stays as the final screen.
    Exit { view: View },
    /// Look `path` up through `get_zettel_by_url` for `screen.user`, then
    /// hand the answer to [`apply_fetched`].
    FetchZettel { screen: screens::Zettel, path: String },
    /// Run the external editor `editor` on `body` (the displayed note's
    /// body), then hand the edited text to [`apply_edited`].
    RunEditor { screen: screens::Zettel, editor: String, body: String },
    /// Show the modal dialog described by `alert`, then keep `view`
    /// unchanged for the next frame.
    AlertThen { view: View, alert: ViewBuilder },
}

/// Fatal errors of the rendering loop.  Only a modal rejection is ever
/// recovered from; everything here ends the session.
#[derive(Debug, Clone, PartialEq, Eq)]
pub enum ViewError {
    /// The terminal size could not be read.
    TerminalSize { message: String },
    /// A frame could not be drawn.
    RenderFrame { message: String },
    /// The next terminal event could not be read.
    Event { message: String },
    /// A storage operation failed while a transition was being resolved.
    Database { source: storage::Error },
    /// A note id that should exist was not found.
    ZettelIdNotFound { id: i64 },
    /// A screen reached a feature that is not built yet.
    NotImplemented,
    /// Temp-file or editor-process I/O failed.
    Io { message: String },
}

/// Whether a transition request may come from the given screen.
pub open spec fn transition_fits(v: View, t: Transition) -> bool {
    match t {
        Transition::Config(_) => v is Config,
        Transition::Login(_) => v is Login,
        Transition::Register(_) => v is Register,
        Transition::Zettel(_) => v is Zettel,
    }
}

/// Whether a path selects a system page, i.e. starts with `sys:`.
pub open spec fn has_sys_prefix(path: Seq<char>) -> bool {
    path.len() >= 4 && path.subrange(0, 4) == "sys:"@
}

/// The system page a `sys:` path selects: everything after the prefix.
pub open spec fn sys_suffix(path: Seq<char>) -> Seq<char> {
    path.subrange(4, path.len() as int)
}

/// `r` opens the config screen with the note screen `z` captured as the
/// screen to return to.
pub open spec fn opens_config(z: screens::Zettel, r: Step) -> bool {
    &&& r matches Step::Continue { view }
    &&& view matches View::Config(c)
    &&& c.parent_page matches Some(parent)
    &&& *parent == View::Zettel(z)
}

/// `r` rejects an unknown system page: a modal alert names the reserved
/// prefix and the page, offers the single `continue` action, and the note
/// screen `z` stays unchanged behind it.
pub open spec fn reserved_alert(z: screens::Zettel, suffix: Seq<char>, r: Step) -> bool {
    &&& r matches Step::AlertThen { view, alert }
    &&& view == View::Zettel(z)
    &&& alert.title matches Some(t) && t@ == "Reserved sys page"@
    &&& alert.lines@.len() == 1
    &&& alert.lines@[0]@ == "`sys:` is a reserved prefix, could not navigate to `sys:"@ + suffix
        + "`"@
    &&& alert.actions@.len() == 1
    &&& alert.actions@[0].0 == Key::Char('c')
    &&& alert.actions@[0].1@ == "continue"@
}

/// `r` reports that no editor is configured: a modal alert points the user
/// at `sys:config`, carries the single acknowledgement action that dismisses
/// it, and the note screen `z` stays unchanged behind it — the note body is
/// not touched and nothing is saved.
pub open spec fn no_editor_alert(z: screens::Zettel, r: Step) -> bool {
    &&& r matches Step::AlertThen { view, alert }
    &&& view == View::Zettel(z)
    &&& alert.title matches Some(t) && t@ == "Could not edit zettel"@
    &&& alert.lines@.len() == 2
    &&& alert.lines@[0]@ == "No terminal editor configured"@
    &&& alert.lines@[1]@ == "Please set one up in sys:config"@
    &&& alert.actions@.len() == 1
    &&& alert.actions@[0].0 == Key::Char('c')
    &&& alert.actions@[0].1@ == "continue"@
}

/// What popping the config screen `c` yields: the captured parent screen,
/// consumed exactly once; or, defensively, the config screen itself when no
/// parent was captured.
pub open spec fn pop_post(c: screens::Config, r: Step) -> bool {
    match c.parent_page {
        Some(parent) => r == (Step::Continue { view: *parent }),
        None => {
            &&& r matches Step::Continue { view }
            &&& view matches View::Config(c2)
            &&& c2.parent_page is None
        },
    }
}

/// Split a path at the reserved `sys:` prefix: the system-page name when the
/// prefix is there, `None` otherwise.
pub fn strip_sys_prefix(path: &str) -> (r: Option<String>)
    ensures
        r is Some <==> has_sys_prefix(path@),
        r matches Some(s) ==> s@ == sys_suffix(path@),
{
    let len = path.unicode_len();
    proof {
        reveal_strlit("sys:");
    }
    if len < 4 {
        return None;
    }
    let c0 = path.get_char(0);
    let c1 = path.get_char(1);
    let c2 = path.get_char(2);
    let c3 = path.get_char(3);
    if c0 == 's' && c1 == 'y' && c2 == 's' && c3 == ':' {
        proof {
            assert(path@.subrange(0, 4) =~= "sys:"@);
        }
        let suffix = path.substring_char(4, len);
        Some(String::from_str(suffix))
    } else {
        proof {
            if path@.subrange(0, 4) == "sys:"@ {
                assert(path@.subrange(0, 4)[0] == path@[0]);
                assert(path@.subrange(0, 4)[1] == path@[1]);
                assert(path@.subrange(0, 4)[2] == path@[2]);
                assert(path@.subrange(0, 4)[3] == path@[3]);
            }
        }
        None
    }
}

/// Resolve a system page.  `path` is what followed the `sys:` prefix; only
/// `config` exists, and it opens the config screen with the current note
/// screen captured as the screen to return to.  Anything else is rejected
/// with a blocking alert and the note screen is kept as it is.
pub fn open_sys_page(path: &str, screen: screens::Zettel) -> (r: Step)
    ensures
        path@ == "config"@ ==> opens_config(screen, r),
        path@ != "config"@ ==> reserved_alert(screen, path@, r),
{
    let owned = String::from_str(path);
    let config_token = String::from_str("config");
    if owned == config_token {
        Step::Continue {
            view: View::Config(
                screens::Config { parent_page: Some(Box::new(View::Zettel(screen))) },
            ),
        }
    } else {
        let mut message = String::from_str(
            "`sys:` is a reserved prefix, could not navigate to `sys:",
        );
        message.append(path);
        message.append("`");
        let alert = ViewBuilder::default().title(String::from_str("Reserved sys page")).text(
            message,
        ).action(Key::Char('c'), String::from_str("continue"));
        Step::AlertThen { view: View::Zettel(screen), alert }
    }
}

impl View {
    /// The initial screen, chosen from the configured user mode.  In
    /// automatic single-user mode the host first attempts the single-user
    /// login and passes the outcome; in every other mode it passes `None`.
    /// A successful automatic login lands on that user's note screen; a
    /// failed one lands on the login screen carrying the error; the manual
    /// modes always land on a fresh login screen with no error.
    pub fn new(
        system_config: &storage::SystemConfig,
        auto_login: Option<Result<storage::User, storage::Error>>,
    ) -> (r: View)
        requires
            (system_config.user_mode is SingleUserAutoLogin) <==> (auto_login is Some),
        ensures
            auto_login matches Some(Ok(user)) ==> (r matches View::Zettel(z) && z.user == user
                && z.zettel is None),
            auto_login matches Some(Err(e)) ==> (r matches View::Login(l) && l.error == Some(e)),
            auto_login is None ==> (r matches View::Login(l) && l.error is None),
    {
        match auto_login {
            Some(Ok(user)) => View::Zettel(screens::Zettel::for_user(user)),
            Some(Err(e)) => View::Login(screens::Login { error: Some(e) }),
            None => View::Login(screens::Login::default()),
        }
    }

    /// Resolve one frame.  `transition` is what the live screen requested
    /// (`None` keeps the screen for another frame); the result says what the
    /// host must do next.  The caller hands in a request that belongs to the
    /// live screen, and an edit request only while a note is displayed.
    pub fn step(
        self,
        transition: Option<Transition>,
        system_config: &storage::SystemConfig,
    ) -> (r: Step)
        requires
            transition matches Some(t) ==> transition_fits(self, t),
            self matches View::Zettel(z) ==> transition == Some(
                Transition::Zettel(ZettelTransition::Edit),
            ) ==> z.zettel is Some,
        ensures
            transition is None ==> r == (Step::Continue { view: self }),
            self matches View::Zettel(z) ==> match transition {
                Some(Transition::Zettel(t)) => match t {
                    ZettelTransition::Exit => r == (Step::Exit { view: self }),
                    ZettelTransition::NavigateTo { path } => {
                        &&& !has_sys_prefix(path@) ==> r == (Step::FetchZettel {
                            screen: z,
                            path,
                        })
                        &&& has_sys_prefix(path@) && sys_suffix(path@) == "config"@
                            ==> opens_config(z, r)
                        &&& has_sys_prefix(path@) && sys_suffix(path@) != "config"@
                            ==> reserved_alert(z, sys_suffix(path@), r)
                    },
                    ZettelTransition::Logout => {
                        &&& r matches Step::Continue { view }
                        &&& view matches View::Login(l)
                        &&& l.error is None
                    },
                    ZettelTransition::OpenConfig => opens_config(z, r),
                    ZettelTransition::Edit => match system_config.terminal_editor {
                        None => no_editor_alert(z, r),
                        Some(ed) => {
                            &&& r matches Step::RunEditor { screen, editor, body }
                            &&& screen == z
                            &&& editor@ == ed@
                            &&& z.zettel matches Some(note) && body@ == note.body@
                        },
                    },
                },
                _ => true,
            },
            self matches View::Login(l) ==> match transition {
                Some(Transition::Login(t)) => match t {
                    LoginTransition::Exit => r == (Step::Exit { view: self }),
                    LoginTransition::Register => {
                        &&& r matches Step::Continue { view }
                        &&& view is Register
                    },
                    LoginTransition::Login { user } => {
                        &&& r matches Step::Continue { view }
                        &&& view matches View::Zettel(z)
                        &&& z.user == user
                        &&& z.zettel is None
                    },
                },
                _ => true,
            },
            self matches View::Register(reg) ==> match transition {
                Some(Transition::Register(t)) => match t {
                    RegisterTransition::Exit => r == (Step::Exit { view: self }),
                    RegisterTransition::Registered { user } => {
                        &&& r matches Step::Continue { view }
                        &&& view matches View::Zettel(z)
                        &&& z.user == user
                        &&& z.zettel is None
                    },
                    RegisterTransition::Login => {
                        &&& r matches Step::Continue { view }
                        &&& view matches View::Login(l)
                        &&& l.error is None
                    },
                },
                _ => true,
            },
            self matches View::Config(c) ==> match transition {
                Some(Transition::Config(ConfigTransition::Pop)) => pop_post(c, r),
                _ => true,
            },
    {
        match (self, transition) {
            (v, None) => Step::Continue { view: v },
            (View::Zettel(z), Some(Transition::Zettel(t))) => match t {
                ZettelTransition::Exit => Step::Exit { view: View::Zettel(z) },
                ZettelTransition::NavigateTo { path } => {
                    match strip_sys_prefix(path.as_str()) {
                        Some(sys) => open_sys_page(sys.as_str(), z),
                        None => Step::FetchZettel { screen: z, path },
                    }
                },
                ZettelTransition::Logout => Step::Continue {
                    view: View::Login(screens::Login::default()),
                },
                ZettelTransition::OpenConfig => Step::Continue {
                    view: View::Config(
                        screens::Config { parent_page: Some(Box::new(View::Zettel(z))) },
                    ),
                },
                ZettelTransition::Edit => match &system_config.terminal_editor {
                    None => {
                        let alert = ViewBuilder::default().title(
                            String::from_str("Could not edit zettel"),
                        ).text(String::from_str("No terminal editor configured")).text(
                            String::from_str("Please set one up in sys:config"),
                        ).action(Key::Char('c'), String::from_str("continue"));
                        Step::AlertThen { view: View::Zettel(z), alert }
                    },
                    Some(ed) => {
                        let body = match &z.zettel {
                            Some(note) => note.body.clone(),
                            None => String::new(),
                        };
                        Step::RunEditor { screen: z, editor: ed.clone(), body }
                    },
                },
            },
            (View::Login(l), Some(Transition::Login(t))) => match t {
                LoginTransition::Exit => Step::Exit { view: View::Login(l) },
                LoginTransition::Register => Step::Continue {
                    view: View::Register(screens::Register::default()),
                },
                LoginTransition::Login { user } => Step::Continue {
                    view: View::Zettel(screens::Zettel::for_user(user)),
                },
            },
            (View::Register(reg), Some(Transition::Register(t))) => match t {
                RegisterTransition::Exit => Step::Exit { view: View::Register(reg) },
                RegisterTransition::Registered { user } => Step::Continue {
                    view: View::Zettel(screens::Zettel::for_user(user)),
                },
                RegisterTransition::Login => Step::Continue {
                    view: View::Login(screens::Login::default()),
                },
            },
            (View::Config(c), Some(Transition::Config(ConfigTransition::Pop))) => {
                match c.parent_page {
                    Some(parent) => Step::Continue { view: *parent },
                    None => Step::Continue {
                        view: View::Config(screens::Config { parent_page: None }),
                    },
                }
            },
            (v, _) => Step::Continue { view: v },
        }
    }
}

/// Continue a non-`sys:` navigation once storage has answered the url
/// lookup.  An existing note becomes the displayed note and its id is
/// returned so the host persists it as the user's last-visited note — the
/// one storage mutation of a successful navigation.  A missing note opens a
/// new, unsaved note under the requested path with an empty body, and
/// nothing is persisted.
pub fn apply_fetched(
    screen: screens::Zettel,
    path: String,
    fetched: Option<storage::Zettel>,
) -> (r: (View, Option<i64>))
    ensures
        r.0 matches View::Zettel(z) && z.user == screen.user,
        fetched matches Some(note) ==> (r.0 matches View::Zettel(z) && z.zettel == Some(note))
            && r.1 == note.id,
        fetched is None ==> (r.0 matches View::Zettel(z) && z.zettel matches Some(fresh)
            && fresh.id is None && fresh.path@ == path@ && fresh.body@ == Seq::<char>::empty())
            && r.1 is None,
{
    match fetched {
        Some(note) => {
            let persist = note.id;
            (View::Zettel(screens::Zettel { user: screen.user, zettel: Some(note) }), persist)
        },
        None => {
            let fresh = storage::Zettel { id: None, path, body: String::new() };
            (View::Zettel(screens::Zettel { user: screen.user, zettel: Some(fresh) }), None)
        },
    }
}

/// Continue an edit once the external editor has produced the new body.
/// The displayed note keeps its identity and path but carries exactly the
/// re-read body, and that same note is returned as the value the host must
/// pass to `update_zettel`.
pub fn apply_edited(screen: screens::Zettel, new_body: String) -> (r: (View, storage::Zettel))
    requires
        screen.zettel is Some,
    ensures
        r.0 matches View::Zettel(z) && z.user == screen.user && z.zettel == Some(r.1),
        screen.zettel matches Some(note) ==> r.1.id == note.id && r.1.path == note.path
            && r.1.body == new_body,
{
    match screen.zettel {
        Some(note) => {
            let shown = storage::Zettel {
                id: note.id,
                path: note.path.clone(),
                body: new_body.clone(),
            };
            let updated = storage::Zettel { id: note.id, path: note.path, body: new_body };
            (View::Zettel(screens::Zettel { user: screen.user, zettel: Some(shown) }), updated)
        },
        None => {
            let shown = storage::Zettel { id: None, path: String::new(), body: new_body.clone() };
            let fresh = storage::Zettel { id: None, path: String::new(), body: new_body };
            (View::Zettel(screens::Zettel { user: screen.user, zettel: Some(shown) }), fresh)
        },
    }
}

/// Opening the config screen over a note screen captures that screen, and
/// popping the opened config screen restores exactly the captured screen:
/// the open-then-pop round trip leaves the screen identical.
pub proof fn lemma_config_open_pop_round_trip(
    z: screens::Zettel,
    c: screens::Config,
    opened: Step,
    popped: Step,
)
    requires
        opens_config(z, opened),
        ({
            &&& opened matches Step::Continue { view }
            &&& view matches View::Config(cc)
            &&& cc == c
        }),
        pop_post(c, popped),
    ensures
        popped == (Step::Continue { view: View::Zettel(z) }),
{
}

} // verus!
