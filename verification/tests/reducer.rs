use iclass_tui::actions::Action;
use iclass_tui::config::Config;
use iclass_tui::models::{ClassRoom, Session, Task, User, ClassRef};
use iclass_tui::reducer::{
    classes_loaded, login_finished, logout_finished, reducer, removal_finished, reports_loaded,
    route_for_sidebar, tasks_loaded, users_loaded, Effect, ListKind,
};
use iclass_tui::state::{AppState, Focus, LoginField, Modal, Resource, Route};

fn session(role: &str) -> Session {
    Session {
        access_token: "a.b.c".to_string(),
        refresh_token: "r".to_string(),
        role: role.to_string(),
        email: "ana@escola.br".to_string(),
    }
}

fn signed_in(role: &str) -> AppState {
    let mut state = AppState::default();
    reducer(&mut state, Action::LoginSuccess(session(role)));
    state
}

fn user(id: i64, name: &str) -> User {
    User { id, name: name.to_string(), email: format!("{}@x", name) }
}

fn task(id: &str, file: Option<&str>) -> Task {
    Task {
        id: id.to_string(),
        class_id: "c".to_string(),
        title: "t".to_string(),
        description: None,
        file_url: file.map(|f| f.to_string()),
        score: 3,
        expires_at: None,
        created_at: String::new(),
        updated_at: String::new(),
        class: ClassRef { id: "c".to_string(), code: "3A".to_string(), period: "2026/1".to_string(), grade: "3A".to_string() },
        created_by: user(1, "prof"),
    }
}

fn type_text(state: &mut AppState, text: &str) {
    for c in text.chars() {
        assert!(matches!(reducer(state, Action::InputChar(c)), Effect::Nothing));
    }
}

#[test]
fn config_load_gives_the_documented_addresses() {
    let config = Config::load();
    assert_eq!(config.api_url, "http://localhost:3000");
    assert_eq!(config.database_url, "sqlite://cache.db");
}

#[test]
fn sidebar_positions_open_their_screens() {
    assert_eq!(route_for_sidebar(0), Route::Dashboard);
    assert_eq!(route_for_sidebar(1), Route::Users);
    assert_eq!(route_for_sidebar(2), Route::Classes);
    assert_eq!(route_for_sidebar(3), Route::Tasks);
    assert_eq!(route_for_sidebar(4), Route::Reports);
    assert_eq!(route_for_sidebar(5), Route::Dashboard);
    assert_eq!(route_for_sidebar(usize::MAX), Route::Dashboard);
}

#[test]
fn default_state_shows_empty_login() {
    let state = AppState::default();
    assert_eq!(state.route, Route::Login);
    assert_eq!(state.focus, Focus::Sidebar);
    assert!(state.session.is_none());
    assert_eq!(state.login_form.email, "");
    assert_eq!(state.login_form.password, "");
    assert_eq!(state.login_form.active_field, LoginField::Email);
    assert!(matches!(state.users, Resource::Idle));
    assert!(matches!(state.classes, Resource::Idle));
    assert!(matches!(state.tasks, Resource::Idle));
    assert!(matches!(state.reports, Resource::Idle));
    assert_eq!(state.sidebar_index, 0);
    assert_eq!(state.selected_user_index, 0);
    assert_eq!(state.modal, Modal::Closed);
    assert!(!state.loading);
    assert!(state.error.is_none());
}

#[test]
fn admin_navigation_visits_users_and_stops_at_tasks() {
    let mut state = signed_in("admin");
    assert!(matches!(reducer(&mut state, Action::NavigateDown), Effect::Load(ListKind::Users)));
    assert_eq!(state.route, Route::Users);
    assert!(matches!(state.users, Resource::Loading));
    assert!(matches!(reducer(&mut state, Action::NavigateDown), Effect::Load(ListKind::Classes)));
    assert!(matches!(reducer(&mut state, Action::NavigateDown), Effect::Load(ListKind::Tasks)));
    assert_eq!(state.sidebar_index, 3);
    assert!(matches!(reducer(&mut state, Action::NavigateDown), Effect::Nothing));
    assert_eq!(state.sidebar_index, 3);
    assert_eq!(state.route, Route::Tasks);
}

#[test]
fn teacher_navigation_reaches_the_reports() {
    let mut state = signed_in("teacher");
    reducer(&mut state, Action::NavigateDown);
    assert_eq!(state.route, Route::Classes);
    reducer(&mut state, Action::NavigateDown);
    assert_eq!(state.route, Route::Tasks);
    assert!(matches!(reducer(&mut state, Action::NavigateDown), Effect::Load(ListKind::Reports)));
    assert_eq!(state.route, Route::Reports);
    assert_eq!(state.sidebar_index, 4);
    assert!(matches!(state.reports, Resource::Loading));
    reducer(&mut state, Action::NavigateUp);
    reducer(&mut state, Action::NavigateUp);
    assert_eq!(state.route, Route::Classes);
    reducer(&mut state, Action::NavigateUp);
    assert_eq!(state.route, Route::Dashboard);
    assert!(matches!(reducer(&mut state, Action::NavigateUp), Effect::Nothing));
    assert_eq!(state.sidebar_index, 0);
}

#[test]
fn student_navigation_skips_users_and_reports() {
    let mut state = signed_in("student");
    reducer(&mut state, Action::NavigateDown);
    assert_eq!(state.route, Route::Classes);
    reducer(&mut state, Action::NavigateDown);
    reducer(&mut state, Action::NavigateDown);
    assert_eq!(state.route, Route::Tasks);
    assert_eq!(state.sidebar_index, 3);
}

#[test]
fn down_then_up_returns_to_the_same_entry() {
    let mut state = signed_in("admin");
    reducer(&mut state, Action::NavigateDown);
    reducer(&mut state, Action::NavigateDown);
    assert_eq!(state.route, Route::Classes);
    reducer(&mut state, Action::NavigateDown);
    reducer(&mut state, Action::NavigateUp);
    assert_eq!(state.sidebar_index, 2);
    assert_eq!(state.route, Route::Classes);
}

#[test]
fn typing_fills_the_active_field() {
    let mut state = AppState::default();
    type_text(&mut state, "ana@x");
    assert_eq!(state.login_form.email, "ana@x");
    reducer(&mut state, Action::InputToggleField);
    assert_eq!(state.login_form.active_field, LoginField::Password);
    type_text(&mut state, "sé");
    assert_eq!(state.login_form.password, "sé");
    assert_eq!(state.login_form.email, "ana@x");
}

#[test]
fn backspace_takes_back_the_last_char() {
    let mut state = AppState::default();
    type_text(&mut state, "ab");
    reducer(&mut state, Action::InputChar('ç'));
    reducer(&mut state, Action::InputBackspace);
    assert_eq!(state.login_form.email, "ab");
    reducer(&mut state, Action::InputBackspace);
    reducer(&mut state, Action::InputBackspace);
    reducer(&mut state, Action::InputBackspace);
    assert_eq!(state.login_form.email, "");
}

#[test]
fn toggling_twice_returns_to_email() {
    let mut state = AppState::default();
    reducer(&mut state, Action::InputToggleField);
    reducer(&mut state, Action::InputToggleField);
    assert_eq!(state.login_form.active_field, LoginField::Email);
}

#[test]
fn login_starts_loading_and_asks_to_authenticate() {
    let mut state = AppState::default();
    reducer(&mut state, Action::SetError(Some("antes".to_string())));
    let effect = reducer(
        &mut state,
        Action::Login { email: "ana@x".to_string(), password: "pw".to_string() },
    );
    match effect {
        Effect::Authenticate { email, password } => {
            assert_eq!(email, "ana@x");
            assert_eq!(password, "pw");
        }
        _ => panic!("expected an authentication request"),
    }
    assert!(state.loading);
    assert!(state.error.is_none());
    assert_eq!(state.route, Route::Login);
}

#[test]
fn successful_login_opens_the_dashboard() {
    let mut state = AppState::default();
    reducer(&mut state, Action::Login { email: "a".to_string(), password: "b".to_string() });
    login_finished(&mut state, Ok(session("teacher")));
    assert!(!state.loading);
    assert_eq!(state.route, Route::Dashboard);
    assert_eq!(state.session.as_ref().unwrap().role, "teacher");
    assert!(state.error.is_none());
}

#[test]
fn failed_login_shows_the_error() {
    let mut state = AppState::default();
    reducer(&mut state, Action::Login { email: "a".to_string(), password: "b".to_string() });
    login_finished(&mut state, Err("401 Unauthorized".to_string()));
    assert!(!state.loading);
    assert_eq!(state.route, Route::Login);
    assert!(state.session.is_none());
    assert_eq!(state.error.as_deref(), Some("401 Unauthorized"));
}

#[test]
fn login_success_action_sets_session_and_dashboard() {
    let mut state = AppState::default();
    assert!(matches!(reducer(&mut state, Action::LoginSuccess(session("admin"))), Effect::Nothing));
    assert_eq!(state.route, Route::Dashboard);
    assert_eq!(state.session.as_ref().unwrap().email, "ana@escola.br");
}

#[test]
fn signing_in_again_keeps_the_sidebar_position() {
    let mut state = signed_in("admin");
    reducer(&mut state, Action::NavigateDown);
    reducer(&mut state, Action::NavigateDown);
    reducer(&mut state, Action::NavigateDown);
    assert_eq!(state.sidebar_index, 3);
    reducer(&mut state, Action::Logout);
    logout_finished(&mut state);
    reducer(&mut state, Action::Login { email: "a".to_string(), password: "b".to_string() });
    login_finished(&mut state, Ok(session("admin")));
    assert_eq!(state.route, Route::Dashboard);
    assert_eq!(state.sidebar_index, 3);
    reducer(&mut state, Action::LoginSuccess(session("admin")));
    assert_eq!(state.sidebar_index, 3);
}

#[test]
fn logout_asks_to_delete_then_resets() {
    let mut state = AppState::default();
    type_text(&mut state, "ana");
    reducer(&mut state, Action::LoginSuccess(session("admin")));
    reducer(&mut state, Action::NavigateDown);
    reducer(&mut state, Action::SetError(Some("x".to_string())));
    assert!(matches!(reducer(&mut state, Action::Logout), Effect::DeleteSession));
    assert!(state.session.is_some());
    logout_finished(&mut state);
    assert!(state.session.is_none());
    assert_eq!(state.route, Route::Login);
    assert!(state.error.is_none());
    assert_eq!(state.login_form.email, "");
    assert_eq!(state.login_form.active_field, LoginField::Email);
    assert_eq!(state.modal, Modal::Closed);
    assert_eq!(state.sidebar_index, 1);
}

#[test]
fn change_route_set_error_and_focus() {
    let mut state = AppState::default();
    reducer(&mut state, Action::ChangeRoute(Route::Reports));
    assert_eq!(state.route, Route::Reports);
    reducer(&mut state, Action::SetError(Some("falhou".to_string())));
    assert_eq!(state.error.as_deref(), Some("falhou"));
    reducer(&mut state, Action::SetError(None));
    assert!(state.error.is_none());
    reducer(&mut state, Action::SetFocus(Focus::Content));
    assert_eq!(state.focus, Focus::Content);
    reducer(&mut state, Action::SetFocus(Focus::Sidebar));
    assert_eq!(state.focus, Focus::Sidebar);
}

#[test]
fn selections_are_recorded() {
    let mut state = AppState::default();
    reducer(&mut state, Action::SelectUser(2));
    reducer(&mut state, Action::SelectClass(3));
    reducer(&mut state, Action::SelectTask(4));
    assert_eq!(state.selected_user_index, 2);
    assert_eq!(state.selected_class_index, 3);
    assert_eq!(state.selected_task_index, 4);
}

#[test]
fn loaded_lists_replace_the_stage() {
    let mut state = AppState::default();
    reducer(&mut state, Action::SelectUser(5));
    assert!(matches!(reducer(&mut state, Action::LoadUsers), Effect::Load(ListKind::Users)));
    users_loaded(&mut state, Ok(vec![user(1, "ana"), user(2, "bia")]));
    assert!(matches!(&state.users, Resource::Success(list) if list.len() == 2));
    assert_eq!(state.selected_user_index, 0);
    classes_loaded(&mut state, Err("500".to_string()));
    assert!(matches!(&state.classes, Resource::Error(m) if m == "500"));
    tasks_loaded(&mut state, Ok(vec![]));
    assert!(matches!(&state.tasks, Resource::Success(list) if list.is_empty()));
    reports_loaded(&mut state, Ok(vec![]));
    assert!(matches!(&state.reports, Resource::Success(_)));
}

#[test]
fn boxes_open_only_for_allowed_roles() {
    let mut state = signed_in("teacher");
    reducer(&mut state, Action::OpenAddUserModal);
    assert_eq!(state.modal, Modal::Closed);
    reducer(&mut state, Action::OpenSubmitModal);
    assert_eq!(state.modal, Modal::Closed);
    reducer(&mut state, Action::OpenAddTaskModal);
    assert_eq!(state.modal, Modal::AddTask);
    reducer(&mut state, Action::CloseUserModal);
    assert_eq!(state.modal, Modal::AddTask);
    reducer(&mut state, Action::CloseTaskModal);
    assert_eq!(state.modal, Modal::Closed);

    let mut student = signed_in("student");
    reducer(&mut student, Action::OpenEditTaskModal);
    assert_eq!(student.modal, Modal::Closed);
    reducer(&mut student, Action::OpenSubmitModal);
    assert_eq!(student.modal, Modal::Submit);
    reducer(&mut student, Action::CloseSubmissionModal);
    assert_eq!(student.modal, Modal::Closed);
}

#[test]
fn confirmed_removal_targets_the_selected_row() {
    let mut state = signed_in("admin");
    users_loaded(&mut state, Ok(vec![user(10, "ana"), user(20, "bia")]));
    reducer(&mut state, Action::SelectUser(1));
    assert!(matches!(reducer(&mut state, Action::ConfirmDeleteUser), Effect::Nothing));
    reducer(&mut state, Action::OpenConfirmDeleteModal);
    assert_eq!(state.modal, Modal::ConfirmDeleteUser);
    assert!(matches!(reducer(&mut state, Action::ConfirmDeleteUser), Effect::DeleteUser(20)));
    assert_eq!(state.modal, Modal::Closed);
    assert!(matches!(
        removal_finished(&mut state, ListKind::Users, Ok(())),
        Effect::Load(ListKind::Users)
    ));
    assert!(matches!(state.users, Resource::Loading));
    assert!(matches!(
        removal_finished(&mut state, ListKind::Users, Err("403".to_string())),
        Effect::Nothing
    ));
    assert_eq!(state.error.as_deref(), Some("403"));

    classes_loaded(&mut state, Ok(vec![ClassRoom { id: 7, title: "3A".to_string() }]));
    reducer(&mut state, Action::OpenConfirmDeleteClassModal);
    assert!(matches!(reducer(&mut state, Action::ConfirmDeleteClass), Effect::DeleteClass(7)));

    tasks_loaded(&mut state, Ok(vec![task("t1", None)]));
    reducer(&mut state, Action::OpenConfirmDeleteTaskModal);
    match reducer(&mut state, Action::ConfirmDeleteTask) {
        Effect::DeleteTask(id) => assert_eq!(id, "t1"),
        _ => panic!("expected a task removal"),
    }
}

#[test]
fn task_file_opens_when_attached() {
    let mut state = signed_in("student");
    assert!(matches!(reducer(&mut state, Action::OpenTaskFile), Effect::Nothing));
    tasks_loaded(&mut state, Ok(vec![task("t1", None), task("t2", Some("http://f/x.pdf"))]));
    assert!(matches!(reducer(&mut state, Action::OpenTaskFile), Effect::Nothing));
    reducer(&mut state, Action::SelectTask(1));
    match reducer(&mut state, Action::OpenTaskFile) {
        Effect::OpenFile(url) => assert_eq!(url, "http://f/x.pdf"),
        _ => panic!("expected a file to open"),
    }
}

#[test]
fn actions_without_work_leave_the_state() {
    let mut state = AppState::default();
    type_text(&mut state, "x");
    for action in [
        Action::Quit,
        Action::LoadDashboard,
        Action::UserFormChar('z'),
        Action::TaskFormCycleScore,
        Action::SubmitGrade,
        Action::OpenSubmissionFile,
    ] {
        assert!(matches!(reducer(&mut state, action), Effect::Nothing));
    }
    assert_eq!(state.focus, Focus::Sidebar);
    assert_eq!(state.route, Route::Login);
    assert_eq!(state.login_form.email, "x");
    assert_eq!(state.modal, Modal::Closed);
}
