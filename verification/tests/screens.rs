use iclass_tui::access::{is_admin, role_from_name, route_title, sidebar_entries, sidebar_row, Role};
use iclass_tui::actions::Action;
use iclass_tui::models::{ClassRoom, ReportTask, Session, User};
use iclass_tui::reducer::{classes_loaded, reducer, users_loaded};
use iclass_tui::screens::{
    content_panel, count_label, login_status, scroll_indicator, selected_class_title, selected_user_name,
    short_name,
    total_possible, visible_window, white_space, Panel, StatusLine,
};
use iclass_tui::state::{AppState, Resource, Route};

fn user(name: &str) -> User {
    User { id: 1, name: name.to_string(), email: "u@x".to_string() }
}

#[test]
fn role_names() {
    assert_eq!(role_from_name("admin"), Role::Admin);
    assert_eq!(role_from_name("teacher"), Role::Teacher);
    assert_eq!(role_from_name("student"), Role::Student);
    assert_eq!(role_from_name("Admin"), Role::Student);
    assert_eq!(role_from_name(""), Role::Student);
}

#[test]
fn admin_gate() {
    let mut session = Session {
        access_token: String::new(),
        refresh_token: String::new(),
        role: "admin".to_string(),
        email: String::new(),
    };
    assert!(is_admin(&Some(session.clone())));
    session.role = "teacher".to_string();
    assert!(!is_admin(&Some(session)));
    assert!(!is_admin(&None));
}

#[test]
fn sidebar_lists_users_only_for_admins() {
    assert_eq!(
        sidebar_entries("admin"),
        vec![Route::Dashboard, Route::Users, Route::Classes, Route::Tasks]
    );
    assert_eq!(
        sidebar_entries("teacher"),
        vec![Route::Dashboard, Route::Classes, Route::Tasks, Route::Reports]
    );
    assert_eq!(sidebar_entries("student"), vec![Route::Dashboard, Route::Classes, Route::Tasks]);
    let entries = sidebar_entries("teacher");
    assert_eq!(sidebar_row(&entries, Route::Reports), Some(3));
    assert_eq!(sidebar_row(&entries, Route::Users), None);
    assert_eq!(route_title(Route::Reports), "Relatórios");
    assert_eq!(route_title(Route::Users), "Usuários");
    assert_eq!(route_title(Route::Classes), "Turmas");
    assert_eq!(route_title(Route::Tasks), "Tarefas");
}

#[test]
fn scroll_indicator_cases() {
    assert_eq!(scroll_indicator(0, 3, 5), "");
    assert_eq!(scroll_indicator(0, 13, 5), "  ↓8 mais");
    assert_eq!(scroll_indicator(2, 7, 5), "  ↑2 acima");
    assert_eq!(scroll_indicator(2, 12, 5), "  ↑2 acima  ↓5 mais");
    assert_eq!(scroll_indicator(10, 3, 5), "  ↑10 acima");
}

#[test]
fn visible_window_cases() {
    assert_eq!(visible_window(0, 13, 5), (0, 5));
    assert_eq!(visible_window(10, 13, 5), (10, 13));
    assert_eq!(visible_window(20, 13, 5), (13, 13));
    assert_eq!(visible_window(usize::MAX, usize::MAX, usize::MAX), (usize::MAX, usize::MAX));
}

#[test]
fn count_labels_use_the_plural() {
    assert_eq!(count_label(1, "aluno"), "1 aluno");
    assert_eq!(count_label(0, "aluno"), "0 alunos");
    assert_eq!(count_label(12, "selecionado"), "12 selecionados");
}

#[test]
fn total_possible_sums_scores() {
    let tasks = vec![
        ReportTask { id: "1".to_string(), title: "a".to_string(), score: 3 },
        ReportTask { id: "2".to_string(), title: "b".to_string(), score: 8 },
        ReportTask { id: "3".to_string(), title: "c".to_string(), score: 13 },
    ];
    assert_eq!(total_possible(&tasks), 24);
    assert_eq!(total_possible(&Vec::new()), 0);
}

#[test]
fn short_name_is_the_first_word() {
    assert_eq!(short_name("Ana Maria Souza"), "Ana");
    assert_eq!(short_name("  Bruno\tLima"), "Bruno");
    assert_eq!(short_name("Carla"), "Carla");
    assert_eq!(short_name("   "), "   ");
    assert_eq!(short_name(""), "");
    assert_eq!(short_name("\u{3000}Dai\u{2003}Li"), "Dai");
    assert!(white_space('\u{85}'));
    assert!(!white_space('x'));
}

#[test]
fn selected_user_name_cases() {
    let users = Resource::Success(vec![user("Ana"), user("Bia")]);
    assert_eq!(selected_user_name(&users, 1), "Bia");
    assert_eq!(selected_user_name(&users, 2), "");
    assert_eq!(selected_user_name(&Resource::Loading, 0), "");
}

#[test]
fn login_status_cases() {
    assert!(matches!(login_status(true, &Some("e".to_string())), StatusLine::Authenticating));
    match login_status(false, &Some("e".to_string())) {
        StatusLine::Failure(m) => assert_eq!(m, "e"),
        _ => panic!("expected the error"),
    }
    assert!(matches!(login_status(false, &None), StatusLine::Blank));
}

fn session(role: &str) -> Session {
    Session {
        access_token: String::new(),
        refresh_token: String::new(),
        role: role.to_string(),
        email: String::new(),
    }
}

#[test]
fn content_panel_follows_role_and_stage() {
    let mut state = AppState::default();
    assert!(matches!(content_panel(&state), Panel::Overview));
    reducer(&mut state, Action::LoginSuccess(session("teacher")));
    reducer(&mut state, Action::ChangeRoute(Route::Users));
    assert!(matches!(content_panel(&state), Panel::Restricted));
    reducer(&mut state, Action::ChangeRoute(Route::Reports));
    assert!(matches!(content_panel(&state), Panel::Loading));
    reducer(&mut state, Action::ChangeRoute(Route::Classes));
    assert!(matches!(content_panel(&state), Panel::NotLoaded));
    reducer(&mut state, Action::ChangeRoute(Route::Reports));
    reducer(&mut state, Action::LoadReports);
    assert!(matches!(content_panel(&state), Panel::Loading));

    let mut admin = AppState::default();
    reducer(&mut admin, Action::LoginSuccess(session("admin")));
    reducer(&mut admin, Action::ChangeRoute(Route::Reports));
    assert!(matches!(content_panel(&admin), Panel::Restricted));
    reducer(&mut admin, Action::ChangeRoute(Route::Users));
    users_loaded(&mut admin, Err("boom".to_string()));
    assert!(matches!(content_panel(&admin), Panel::Failed(m) if m == "boom"));
    users_loaded(&mut admin, Ok(vec![]));
    assert!(matches!(content_panel(&admin), Panel::Rows { count: 0, selected: 0 }));
    reducer(&mut admin, Action::ChangeRoute(Route::Classes));
    classes_loaded(&mut admin, Ok(vec![]));
    assert!(matches!(content_panel(&admin), Panel::Empty));
    reducer(&mut admin, Action::ChangeRoute(Route::Users));
    users_loaded(&mut admin, Ok(vec![user("a"), user("b")]));
    reducer(&mut admin, Action::SelectUser(1));
    assert!(matches!(content_panel(&admin), Panel::Rows { count: 2, selected: 1 }));
}

#[test]
fn removal_boxes_name_the_selected_class() {
    let classes = Resource::Success(vec![
        ClassRoom { id: 1, title: "3A".to_string() },
        ClassRoom { id: 2, title: "2B".to_string() },
    ]);
    assert_eq!(selected_class_title(&classes, 1), "2B");
    assert_eq!(selected_class_title(&classes, 2), "");
    assert_eq!(selected_class_title(&Resource::Loading, 0), "");
}
