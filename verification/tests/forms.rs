use iclass_tui::actions::Action;
use iclass_tui::endpoints::{endpoint_path, Endpoint};
use iclass_tui::form_views::{class_form_view, student_picker, teacher_picker, user_form_view};
use iclass_tui::keys::{command_for_key, Command, Key, KeyPress};
use iclass_tui::models::{ClassRoom, Session, User};
use iclass_tui::reducer::{
    classes_loaded, people_loaded, reducer, save_finished, shown_modal, users_loaded, Effect, ListKind,
};
use iclass_tui::state::{AppState, ClassForm, ClassFormField, Modal, Resource, UserForm, UserFormField};

fn session(role: &str) -> Session {
    Session {
        access_token: String::new(),
        refresh_token: String::new(),
        role: role.to_string(),
        email: "ana@escola.br".to_string(),
    }
}

fn signed_in(role: &str) -> AppState {
    let mut state = AppState::default();
    reducer(&mut state, Action::LoginSuccess(session(role)));
    state
}

fn person(id: i64, name: &str) -> User {
    User { id, name: name.to_string(), email: format!("{}@x", name) }
}

fn people(n: i64) -> Vec<User> {
    (0..n).map(|i| person(100 + i, &format!("p{}", i))).collect()
}

fn key(state: &mut AppState, key: Key) -> Effect {
    match command_for_key(state, KeyPress { key, control: false }) {
        Command::Dispatch(action) => reducer(state, action),
        _ => Effect::Nothing,
    }
}

#[test]
fn opening_a_class_form_fetches_the_people() {
    let mut state = signed_in("admin");
    state.class_form.period = "old".to_string();
    assert!(matches!(reducer(&mut state, Action::OpenAddClassModal), Effect::Load(ListKind::People)));
    assert_eq!(state.modal, Modal::AddClass);
    assert_eq!(state.class_form.period, "");
    assert!(matches!(state.available_teachers, Resource::Loading));
    assert!(matches!(state.available_students, Resource::Loading));

    let mut teacher = signed_in("teacher");
    assert!(matches!(reducer(&mut teacher, Action::OpenAddClassModal), Effect::Nothing));
    assert_eq!(teacher.modal, Modal::Closed);
}

#[test]
fn class_form_keys_fill_the_form_and_save() {
    let mut state = signed_in("admin");
    reducer(&mut state, Action::OpenAddClassModal);
    people_loaded(&mut state, Ok(vec![person(7, "prof")]), Ok(people(3)));
    for c in "2026/1".chars() {
        key(&mut state, Key::Char(c));
    }
    key(&mut state, Key::Tab);
    for c in "3A".chars() {
        key(&mut state, Key::Char(c));
    }
    key(&mut state, Key::Backspace);
    key(&mut state, Key::Char('B'));
    key(&mut state, Key::Tab);
    assert_eq!(state.class_form.active_field, ClassFormField::TeacherPicker);
    key(&mut state, Key::Char(' '));
    assert_eq!(state.class_form.selected_teacher, Some(0));
    key(&mut state, Key::Tab);
    key(&mut state, Key::Down);
    key(&mut state, Key::Down);
    key(&mut state, Key::Char(' '));
    key(&mut state, Key::Up);
    key(&mut state, Key::Char(' '));
    key(&mut state, Key::Char(' '));
    key(&mut state, Key::Char(' '));
    assert_eq!(state.class_form.selected_students, vec![2, 1]);
    match key(&mut state, Key::Enter) {
        Effect::CreateClass { period, grade, teacher, students } => {
            assert_eq!(period, "2026/1");
            assert_eq!(grade, "3B");
            assert_eq!(teacher, Some(7));
            assert_eq!(students, vec![102, 101]);
        }
        _ => panic!("expected a new class"),
    }
    assert!(matches!(save_finished(&mut state, ListKind::Classes, Ok(())), Effect::Load(ListKind::Classes)));
    assert_eq!(state.modal, Modal::Closed);
    assert!(matches!(state.classes, Resource::Loading));
}

#[test]
fn editing_a_class_targets_the_selected_one() {
    let mut state = signed_in("admin");
    classes_loaded(&mut state, Ok(vec![ClassRoom { id: 4, title: "1A".to_string() }]));
    reducer(&mut state, Action::OpenEditClassModal);
    people_loaded(&mut state, Err("x".to_string()), Ok(vec![]));
    match reducer(&mut state, Action::SubmitClassForm) {
        Effect::UpdateClass { id, teacher, students, .. } => {
            assert_eq!(id, 4);
            assert_eq!(teacher, None);
            assert!(students.is_empty());
        }
        _ => panic!("expected a class change"),
    }
    assert!(matches!(save_finished(&mut state, ListKind::Classes, Err("409".to_string())), Effect::Nothing));
    assert_eq!(state.modal, Modal::EditClass);
    assert_eq!(state.error.as_deref(), Some("409"));
}

#[test]
fn user_form_keys_fill_the_form_and_save() {
    let mut state = signed_in("admin");
    reducer(&mut state, Action::OpenAddUserModal);
    for c in "Ana Lima".chars() {
        key(&mut state, Key::Char(c));
    }
    key(&mut state, Key::Tab);
    for c in "a@x".chars() {
        key(&mut state, Key::Char(c));
    }
    key(&mut state, Key::Tab);
    for c in "pw".chars() {
        key(&mut state, Key::Char(c));
    }
    key(&mut state, Key::Tab);
    assert_eq!(state.user_form.active_field, UserFormField::Role);
    key(&mut state, Key::Char(' '));
    assert_eq!(state.user_form.role, "teacher");
    key(&mut state, Key::Char(' '));
    assert_eq!(state.user_form.role, "admin");
    key(&mut state, Key::Char(' '));
    assert_eq!(state.user_form.role, "student");
    key(&mut state, Key::Char(' '));
    match key(&mut state, Key::Enter) {
        Effect::CreateUser { name, email, password, role } => {
            assert_eq!(name, "Ana Lima");
            assert_eq!(email, "a@x");
            assert_eq!(password, "pw");
            assert_eq!(role, "teacher");
        }
        _ => panic!("expected a new user"),
    }
    key(&mut state, Key::Esc);
    assert_eq!(state.modal, Modal::Closed);
}

#[test]
fn the_edit_form_starts_with_the_selected_user() {
    let mut state = signed_in("admin");
    users_loaded(&mut state, Ok(vec![person(1, "ana"), person(2, "bia")]));
    reducer(&mut state, Action::SelectUser(1));
    reducer(&mut state, Action::OpenEditUserModal);
    assert_eq!(state.user_form.name, "bia");
    assert_eq!(state.user_form.email, "bia@x");
    assert_eq!(state.user_form.password, "");
    match reducer(&mut state, Action::SubmitUserForm) {
        Effect::UpdateUser { id, name, password, role, .. } => {
            assert_eq!(id, 2);
            assert_eq!(name, "bia");
            assert_eq!(password, None);
            assert_eq!(role, "student");
        }
        _ => panic!("expected a user change"),
    }
    reducer(&mut state, Action::UserFormNextField);
    reducer(&mut state, Action::UserFormNextField);
    reducer(&mut state, Action::UserFormChar('k'));
    match reducer(&mut state, Action::SubmitUserForm) {
        Effect::UpdateUser { password, .. } => assert_eq!(password.as_deref(), Some("k")),
        _ => panic!("expected a user change"),
    }
}

#[test]
fn form_keys_do_nothing_without_their_box() {
    let mut state = signed_in("admin");
    reducer(&mut state, Action::UserFormChar('z'));
    reducer(&mut state, Action::ClassFormChar('z'));
    assert_eq!(state.user_form.name, "");
    assert_eq!(state.class_form.period, "");
    assert!(matches!(reducer(&mut state, Action::SubmitUserForm), Effect::Nothing));
    assert!(matches!(reducer(&mut state, Action::SubmitClassForm), Effect::Nothing));
}

#[test]
fn the_teacher_picker_shows_its_window() {
    let teachers = people(8);
    let view = teacher_picker(&teachers, Some(6), 6, 3, true, 5);
    assert_eq!(view.title, "Professor  ● p6  ↑3 acima");
    assert_eq!(view.rows.len(), 5);
    assert_eq!(view.rows[0].index, 3);
    assert_eq!(view.rows[0].name, format!("{:<28}", "p3"));
    assert_eq!(view.rows[0].email, "p3@x");
    assert!(!view.rows[0].marked);
    assert!(view.rows[3].marked);
    assert_eq!(view.highlighted, Some(3));

    let view = teacher_picker(&teachers, None, 0, 0, false, 5);
    assert_eq!(view.title, "Professor  (nenhum selecionado)  ↓3 mais");
    assert_eq!(view.highlighted, None);
    let view = teacher_picker(&teachers, Some(9), 0, 1, true, 5);
    assert_eq!(view.title, "Professor  (nenhum selecionado)  ↑1 acima  ↓2 mais");
}

#[test]
fn the_student_picker_counts_the_chosen() {
    let students = people(3);
    let view = student_picker(&students, &vec![2], 1, 0, true, 5);
    assert_eq!(view.title, "Alunos  (1 selecionado)");
    assert_eq!(view.rows.len(), 3);
    assert!(view.rows[2].marked && !view.rows[0].marked && !view.rows[1].marked);
    assert_eq!(view.highlighted, Some(1));
    let view = student_picker(&students, &vec![0, 1], 0, 0, false, 2);
    assert_eq!(view.title, "Alunos  (2 selecionados)  ↓1 mais");
    assert_eq!(view.rows.len(), 2);
}

#[test]
fn form_boxes_show_their_fields() {
    let mut form = ClassForm::default();
    form.period = "2026/1".to_string();
    form.active_field = ClassFormField::Grade;
    let view = class_form_view(Modal::AddClass, &form, &Some("falhou".to_string()));
    assert_eq!(view.title, "Adicionar Turma");
    assert_eq!(view.fields.len(), 2);
    assert_eq!(view.fields[0].label, "Período  (ex: 2026/1)");
    assert_eq!(view.fields[0].value, "2026/1");
    assert!(!view.fields[0].active && view.fields[1].active);
    assert_eq!(view.error.as_deref(), Some("falhou"));
    assert_eq!(class_form_view(Modal::EditClass, &form, &None).title, "Editar Turma");

    let mut user = UserForm::default();
    user.password = "segredo".to_string();
    let view = user_form_view(Modal::EditUser, &user);
    assert_eq!(view.title, "Editar Usuário");
    assert_eq!(view.fields[2].label, "Senha (vazio = sem alterar)");
    assert_eq!(view.fields[2].value, "*******");
    assert_eq!(view.fields[3].value, "< student >");
    assert!(view.fields[0].active);
    let view = user_form_view(Modal::AddUser, &user);
    assert_eq!(view.title, "Adicionar Usuário");
    assert_eq!(view.fields[2].label, "Senha");
}

#[test]
fn only_allowed_boxes_are_drawn() {
    let mut state = signed_in("admin");
    reducer(&mut state, Action::OpenAddUserModal);
    assert_eq!(shown_modal(&state), Modal::AddUser);
    state.session = Some(session("student"));
    assert_eq!(shown_modal(&state), Modal::Closed);
}

#[test]
fn people_are_fetched_by_role() {
    assert_eq!(endpoint_path(&Endpoint::UsersWithRole("teacher".to_string())), "/users?role=teacher");
}

#[test]
fn the_picker_window_follows_the_cursor() {
    let mut state = signed_in("admin");
    reducer(&mut state, Action::OpenAddClassModal);
    people_loaded(&mut state, Ok(people(2)), Ok(people(8)));
    for _ in 0..3 {
        key(&mut state, Key::Tab);
    }
    assert_eq!(state.class_form.active_field, ClassFormField::StudentPicker);
    for _ in 0..6 {
        key(&mut state, Key::Down);
    }
    assert_eq!((state.class_form.student_cursor, state.class_form.student_scroll), (6, 2));
    for _ in 0..5 {
        key(&mut state, Key::Up);
    }
    assert_eq!((state.class_form.student_cursor, state.class_form.student_scroll), (1, 1));
    for _ in 0..20 {
        key(&mut state, Key::Down);
    }
    assert_eq!((state.class_form.student_cursor, state.class_form.student_scroll), (7, 3));
    assert_eq!((state.class_form.teacher_cursor, state.class_form.teacher_scroll), (0, 0));
}
