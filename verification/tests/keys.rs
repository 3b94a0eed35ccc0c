use iclass_tui::actions::Action;
use iclass_tui::models::{Session, User};
use iclass_tui::keys::{command_for_key, Command, Key, KeyPress};
use iclass_tui::reducer::{reducer, users_loaded, Effect};
use iclass_tui::state::{AppState, Focus, Modal, Route};

fn press(key: Key) -> KeyPress {
    KeyPress { key, control: false }
}

fn signed_in(role: &str) -> AppState {
    let mut state = AppState::default();
    reducer(
        &mut state,
        Action::LoginSuccess(Session {
            access_token: String::new(),
            refresh_token: String::new(),
            role: role.to_string(),
            email: String::new(),
        }),
    );
    state
}

fn dispatch(state: &mut AppState, key: Key) -> Effect {
    match command_for_key(state, press(key)) {
        Command::Dispatch(action) => reducer(state, action),
        _ => Effect::Nothing,
    }
}

#[test]
fn login_screen_keys_edit_the_form() {
    let mut state = AppState::default();
    assert!(matches!(command_for_key(&state, press(Key::Char('q'))), Command::Dispatch(Action::InputChar('q'))));
    assert!(matches!(command_for_key(&state, press(Key::Tab)), Command::Dispatch(Action::InputToggleField)));
    assert!(matches!(command_for_key(&state, press(Key::Backspace)), Command::Dispatch(Action::InputBackspace)));
    assert!(matches!(command_for_key(&state, press(Key::Up)), Command::Ignore));
    assert!(matches!(
        command_for_key(&state, KeyPress { key: Key::Char('x'), control: true }),
        Command::Dispatch(Action::InputChar('x'))
    ));
    reducer(&mut state, Action::InputChar('a'));
    reducer(&mut state, Action::InputToggleField);
    reducer(&mut state, Action::InputChar('b'));
    match command_for_key(&state, press(Key::Enter)) {
        Command::Dispatch(Action::Login { email, password }) => {
            assert_eq!(email, "a");
            assert_eq!(password, "b");
        }
        _ => panic!("expected a login"),
    }
}

#[test]
fn control_c_quits_the_login_screen() {
    let state = AppState::default();
    assert!(matches!(
        command_for_key(&state, KeyPress { key: Key::Char('c'), control: true }),
        Command::Quit
    ));
}

#[test]
fn other_screens_keys_navigate() {
    let state = signed_in("student");
    assert!(matches!(command_for_key(&state, press(Key::Char('q'))), Command::Quit));
    assert!(matches!(command_for_key(&state, press(Key::Char('l'))), Command::Dispatch(Action::Logout)));
    assert!(matches!(command_for_key(&state, press(Key::Down)), Command::Dispatch(Action::NavigateDown)));
    assert!(matches!(command_for_key(&state, press(Key::Up)), Command::Dispatch(Action::NavigateUp)));
    assert!(matches!(command_for_key(&state, press(Key::Enter)), Command::Ignore));
    assert!(matches!(
        command_for_key(&state, KeyPress { key: Key::Char('c'), control: true }),
        Command::Ignore
    ));
}

#[test]
fn side_arrows_switch_the_focus() {
    let mut state = signed_in("admin");
    dispatch(&mut state, Key::Right);
    assert_eq!(state.focus, Focus::Content);
    dispatch(&mut state, Key::Left);
    assert_eq!(state.focus, Focus::Sidebar);
}

#[test]
fn arrows_in_the_content_move_the_selection() {
    let mut state = signed_in("admin");
    dispatch(&mut state, Key::Down);
    assert_eq!(state.route, Route::Users);
    users_loaded(&mut state, Ok(vec![
        User { id: 1, name: "a".to_string(), email: String::new() },
        User { id: 2, name: "b".to_string(), email: String::new() },
    ]));
    dispatch(&mut state, Key::Right);
    dispatch(&mut state, Key::Down);
    assert_eq!(state.selected_user_index, 1);
    assert!(matches!(command_for_key(&state, press(Key::Down)), Command::Ignore));
    dispatch(&mut state, Key::Up);
    assert_eq!(state.selected_user_index, 0);
    assert!(matches!(command_for_key(&state, press(Key::Up)), Command::Ignore));
    assert_eq!(state.route, Route::Users);
}

#[test]
fn shortcuts_follow_the_role() {
    let mut admin = signed_in("admin");
    dispatch(&mut admin, Key::Down);
    assert!(matches!(command_for_key(&admin, press(Key::Char('a'))), Command::Dispatch(Action::OpenAddUserModal)));
    assert!(matches!(command_for_key(&admin, press(Key::Char('e'))), Command::Dispatch(Action::OpenEditUserModal)));
    assert!(matches!(command_for_key(&admin, press(Key::Char('d'))), Command::Dispatch(Action::OpenConfirmDeleteModal)));
    assert!(matches!(command_for_key(&admin, press(Key::Char('s'))), Command::Ignore));

    let mut teacher = signed_in("teacher");
    dispatch(&mut teacher, Key::Down);
    assert_eq!(teacher.route, Route::Classes);
    assert!(matches!(command_for_key(&teacher, press(Key::Char('a'))), Command::Ignore));
    dispatch(&mut teacher, Key::Down);
    assert_eq!(teacher.route, Route::Tasks);
    assert!(matches!(command_for_key(&teacher, press(Key::Char('a'))), Command::Dispatch(Action::OpenAddTaskModal)));
    assert!(matches!(command_for_key(&teacher, press(Key::Char('s'))), Command::Dispatch(Action::OpenSubmissionsModal)));
    assert!(matches!(command_for_key(&teacher, press(Key::Char('o'))), Command::Dispatch(Action::OpenTaskFile)));

    let mut student = signed_in("student");
    dispatch(&mut student, Key::Down);
    dispatch(&mut student, Key::Down);
    assert_eq!(student.route, Route::Tasks);
    assert!(matches!(command_for_key(&student, press(Key::Char('d'))), Command::Ignore));
    assert!(matches!(command_for_key(&student, press(Key::Char('s'))), Command::Dispatch(Action::OpenSubmitModal)));
}

#[test]
fn keys_inside_a_box() {
    let mut teacher = signed_in("teacher");
    dispatch(&mut teacher, Key::Down);
    dispatch(&mut teacher, Key::Down);
    dispatch(&mut teacher, Key::Char('s'));
    assert_eq!(teacher.modal, Modal::Submissions);
    assert!(matches!(command_for_key(&teacher, press(Key::Char('q'))), Command::Ignore));
    dispatch(&mut teacher, Key::Char('g'));
    assert_eq!(teacher.modal, Modal::Grade);
    dispatch(&mut teacher, Key::Esc);
    assert_eq!(teacher.modal, Modal::Closed);
    dispatch(&mut teacher, Key::Char('d'));
    assert_eq!(teacher.modal, Modal::ConfirmDeleteTask);
    assert!(matches!(command_for_key(&teacher, press(Key::Char('y'))), Command::Dispatch(Action::ConfirmDeleteTask)));
    assert!(matches!(command_for_key(&teacher, press(Key::Enter)), Command::Dispatch(Action::ConfirmDeleteTask)));
    dispatch(&mut teacher, Key::Char('n'));
    assert_eq!(teacher.modal, Modal::Closed);
}

#[test]
fn enter_signs_in_with_the_typed_credentials() {
    let mut state = AppState::default();
    for c in "ana@x".chars() {
        reducer(&mut state, Action::InputChar(c));
    }
    reducer(&mut state, Action::InputToggleField);
    for c in "s3nha".chars() {
        reducer(&mut state, Action::InputChar(c));
    }
    let action = match command_for_key(&state, press(Key::Enter)) {
        Command::Dispatch(action) => action,
        _ => panic!("expected an action"),
    };
    match reducer(&mut state, action) {
        Effect::Authenticate { email, password } => {
            assert_eq!(email, "ana@x");
            assert_eq!(password, "s3nha");
        }
        _ => panic!("expected an authentication request"),
    }
    assert!(state.loading);
}
