use zettel_view::screens::{Config, ConfigTransition, Login, LoginTransition, Register,
    RegisterTransition, Zettel, ZettelTransition};
use zettel_view::storage::{Error, SystemConfig, User, UserMode, Zettel as Note};
use zettel_view::view::{apply_edited, apply_fetched, open_sys_page, strip_sys_prefix, Step,
    Transition, View};
use zettel_view::dialog::Key;

fn mk_user() -> User {
    User {
        id: 7,
        name: "ada".to_string(),
        password: "$2b$04$notachancethisgetsused".to_string(),
        last_visited_zettel: None,
    }
}

fn mk_note() -> Note {
    Note { id: Some(41), path: "notes/today".to_string(), body: "hello".to_string() }
}

fn manual_config() -> SystemConfig {
    SystemConfig { user_mode: UserMode::MultiUser, terminal_editor: None }
}

#[test]
fn initial_auto_login_success() {
    let cfg = SystemConfig { user_mode: UserMode::SingleUserAutoLogin, terminal_editor: None };
    let v = View::new(&cfg, Some(Ok(mk_user())));
    assert_eq!(v, View::Zettel(Zettel { user: mk_user(), zettel: None }));
}

#[test]
fn initial_auto_login_failure_shows_error() {
    let cfg = SystemConfig { user_mode: UserMode::SingleUserAutoLogin, terminal_editor: None };
    let v = View::new(&cfg, Some(Err(Error::SingleUserNotFound)));
    assert_eq!(v, View::Login(Login { error: Some(Error::SingleUserNotFound) }));
}

#[test]
fn initial_manual_modes_start_at_login_without_error() {
    let multi = SystemConfig { user_mode: UserMode::MultiUser, terminal_editor: None };
    assert_eq!(View::new(&multi, None), View::Login(Login { error: None }));
    let single = SystemConfig {
        user_mode: UserMode::SingleUserManualLogin,
        terminal_editor: Some("vi".to_string()),
    };
    assert_eq!(View::new(&single, None), View::Login(Login { error: None }));
}

#[test]
fn navigate_to_existing_note_sets_last_visited() {
    let screen = Zettel { user: mk_user(), zettel: None };
    let step = View::Zettel(screen).step(
        Some(Transition::Zettel(ZettelTransition::NavigateTo { path: "notes/today".to_string() })),
        &manual_config(),
    );
    let (screen, path) = match step {
        Step::FetchZettel { screen, path } => (screen, path),
        other => panic!("expected a fetch step, got {other:?}"),
    };
    assert_eq!(path, "notes/today");
    let (view, persist) = apply_fetched(screen, path, Some(mk_note()));
    assert_eq!(view, View::Zettel(Zettel { user: mk_user(), zettel: Some(mk_note()) }));
    assert_eq!(persist, Some(41));
}

#[test]
fn navigate_to_missing_note_opens_unsaved_note() {
    let screen = Zettel { user: mk_user(), zettel: Some(mk_note()) };
    let (view, persist) = apply_fetched(screen, "drafts/new".to_string(), None);
    assert_eq!(
        view,
        View::Zettel(Zettel {
            user: mk_user(),
            zettel: Some(Note { id: None, path: "drafts/new".to_string(), body: String::new() }),
        })
    );
    assert_eq!(persist, None);
}

#[test]
fn sys_config_round_trip_restores_screen() {
    let step = View::Zettel(Zettel { user: mk_user(), zettel: Some(mk_note()) }).step(
        Some(Transition::Zettel(ZettelTransition::NavigateTo { path: "sys:config".to_string() })),
        &manual_config(),
    );
    let config_view = match step {
        Step::Continue { view } => view,
        other => panic!("expected to continue into config, got {other:?}"),
    };
    assert_eq!(
        config_view,
        View::Config(Config {
            parent_page: Some(Box::new(View::Zettel(Zettel {
                user: mk_user(),
                zettel: Some(mk_note()),
            }))),
        })
    );
    let popped = config_view.step(
        Some(Transition::Config(ConfigTransition::Pop)),
        &manual_config(),
    );
    match popped {
        Step::Continue { view } => {
            assert_eq!(view, View::Zettel(Zettel { user: mk_user(), zettel: Some(mk_note()) }));
        },
        other => panic!("expected to continue after pop, got {other:?}"),
    }
}

#[test]
fn open_config_transition_captures_screen() {
    let step = View::Zettel(Zettel { user: mk_user(), zettel: None }).step(
        Some(Transition::Zettel(ZettelTransition::OpenConfig)),
        &manual_config(),
    );
    match step {
        Step::Continue { view: View::Config(c) } => {
            assert_eq!(
                c.parent_page,
                Some(Box::new(View::Zettel(Zettel { user: mk_user(), zettel: None })))
            );
        },
        other => panic!("expected the config screen, got {other:?}"),
    }
}

#[test]
fn sys_unknown_alerts_and_keeps_screen() {
    let step = View::Zettel(Zettel { user: mk_user(), zettel: Some(mk_note()) }).step(
        Some(Transition::Zettel(ZettelTransition::NavigateTo { path: "sys:unknown".to_string() })),
        &manual_config(),
    );
    match step {
        Step::AlertThen { view, alert } => {
            assert_eq!(view, View::Zettel(Zettel { user: mk_user(), zettel: Some(mk_note()) }));
            assert_eq!(alert.title, Some("Reserved sys page".to_string()));
            assert_eq!(
                alert.lines,
                vec!["`sys:` is a reserved prefix, could not navigate to `sys:unknown`"
                    .to_string()]
            );
            assert_eq!(alert.actions, vec![(Key::Char('c'), "continue".to_string())]);
        },
        other => panic!("expected an alert, got {other:?}"),
    }
}

#[test]
fn sys_empty_suffix_is_still_reserved() {
    let screen = Zettel { user: mk_user(), zettel: None };
    let step = open_sys_page("", screen);
    match step {
        Step::AlertThen { alert, .. } => {
            assert_eq!(
                alert.lines,
                vec!["`sys:` is a reserved prefix, could not navigate to `sys:`".to_string()]
            );
        },
        other => panic!("expected an alert, got {other:?}"),
    }
}

#[test]
fn short_and_unprefixed_paths_are_plain_navigation() {
    assert_eq!(strip_sys_prefix("sys"), None);
    assert_eq!(strip_sys_prefix("sYs:x"), None);
    assert_eq!(strip_sys_prefix("sys:"), Some(String::new()));
    assert_eq!(strip_sys_prefix("sys:config"), Some("config".to_string()));
    let step = View::Zettel(Zettel { user: mk_user(), zettel: None }).step(
        Some(Transition::Zettel(ZettelTransition::NavigateTo { path: "sys".to_string() })),
        &manual_config(),
    );
    assert!(matches!(step, Step::FetchZettel { .. }));
}

#[test]
fn edit_without_editor_keeps_note_untouched() {
    let cfg = SystemConfig { user_mode: UserMode::MultiUser, terminal_editor: None };
    let step = View::Zettel(Zettel { user: mk_user(), zettel: Some(mk_note()) }).step(
        Some(Transition::Zettel(ZettelTransition::Edit)),
        &cfg,
    );
    match step {
        Step::AlertThen { view, alert } => {
            assert_eq!(view, View::Zettel(Zettel { user: mk_user(), zettel: Some(mk_note()) }));
            assert_eq!(alert.title, Some("Could not edit zettel".to_string()));
            assert_eq!(
                alert.lines,
                vec![
                    "No terminal editor configured".to_string(),
                    "Please set one up in sys:config".to_string(),
                ]
            );
            assert_eq!(alert.actions, vec![(Key::Char('c'), "continue".to_string())]);
        },
        other => panic!("expected an alert, got {other:?}"),
    }
}

#[test]
fn edit_with_editor_saves_reread_body() {
    let cfg = SystemConfig {
        user_mode: UserMode::MultiUser,
        terminal_editor: Some("vi".to_string()),
    };
    let step = View::Zettel(Zettel { user: mk_user(), zettel: Some(mk_note()) }).step(
        Some(Transition::Zettel(ZettelTransition::Edit)),
        &cfg,
    );
    let screen = match step {
        Step::RunEditor { screen, editor, body } => {
            assert_eq!(editor, "vi");
            assert_eq!(body, "hello");
            screen
        },
        other => panic!("expected an editor step, got {other:?}"),
    };
    let (view, saved) = apply_edited(screen, "hello, edited".to_string());
    let expected = Note { id: Some(41), path: "notes/today".to_string(), body: "hello, edited".to_string() };
    assert_eq!(saved, expected);
    assert_eq!(view, View::Zettel(Zettel { user: mk_user(), zettel: Some(expected) }));
}

#[test]
fn logout_returns_to_fresh_login() {
    let step = View::Zettel(Zettel { user: mk_user(), zettel: Some(mk_note()) }).step(
        Some(Transition::Zettel(ZettelTransition::Logout)),
        &manual_config(),
    );
    match step {
        Step::Continue { view } => assert_eq!(view, View::Login(Login { error: None })),
        other => panic!("expected to continue, got {other:?}"),
    }
}

#[test]
fn exit_stops_the_engine_from_each_screen() {
    let step = View::Zettel(Zettel { user: mk_user(), zettel: None }).step(
        Some(Transition::Zettel(ZettelTransition::Exit)),
        &manual_config(),
    );
    assert!(matches!(step, Step::Exit { .. }));
    let step = View::Login(Login { error: None }).step(
        Some(Transition::Login(LoginTransition::Exit)),
        &manual_config(),
    );
    assert!(matches!(step, Step::Exit { .. }));
    let step = View::Register(Register {}).step(
        Some(Transition::Register(RegisterTransition::Exit)),
        &manual_config(),
    );
    assert!(matches!(step, Step::Exit { .. }));
}

#[test]
fn login_screen_transitions() {
    let step = View::Login(Login { error: None }).step(
        Some(Transition::Login(LoginTransition::Register)),
        &manual_config(),
    );
    match step {
        Step::Continue { view } => assert!(matches!(view, View::Register(_))),
        other => panic!("expected to continue, got {other:?}"),
    }
    let step = View::Login(Login { error: None }).step(
        Some(Transition::Login(LoginTransition::Login { user: mk_user() })),
        &manual_config(),
    );
    match step {
        Step::Continue { view } => {
            assert_eq!(view, View::Zettel(Zettel { user: mk_user(), zettel: None }));
        },
        other => panic!("expected to continue, got {other:?}"),
    }
}

#[test]
fn register_screen_transitions() {
    let step = View::Register(Register {}).step(
        Some(Transition::Register(RegisterTransition::Registered { user: mk_user() })),
        &manual_config(),
    );
    match step {
        Step::Continue { view } => {
            assert_eq!(view, View::Zettel(Zettel { user: mk_user(), zettel: None }));
        },
        other => panic!("expected to continue, got {other:?}"),
    }
    let step = View::Register(Register {}).step(
        Some(Transition::Register(RegisterTransition::Login)),
        &manual_config(),
    );
    match step {
        Step::Continue { view } => assert_eq!(view, View::Login(Login { error: None })),
        other => panic!("expected to continue, got {other:?}"),
    }
}

#[test]
fn pop_without_parent_stays_on_config() {
    let step = View::Config(Config { parent_page: None }).step(
        Some(Transition::Config(ConfigTransition::Pop)),
        &manual_config(),
    );
    match step {
        Step::Continue { view } => assert_eq!(view, View::Config(Config { parent_page: None })),
        other => panic!("expected to continue, got {other:?}"),
    }
}

#[test]
fn no_transition_keeps_current_screen() {
    let step = View::Login(Login { error: None }).step(None, &manual_config());
    match step {
        Step::Continue { view } => assert_eq!(view, View::Login(Login { error: None })),
        other => panic!("expected to continue, got {other:?}"),
    }
}
