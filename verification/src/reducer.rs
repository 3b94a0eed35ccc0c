//! How each action changes the state, and which outside work it asks for.
//!
//! The reducer decides; the caller performs the outside work that the returned
//! [`Effect`] names and hands the outcome back through the `*_finished` and
//! `*_loaded` functions of this module.
use vstd::prelude::*;
use crate::access::{modal_allowed, modal_permitted, role_of, screen_allowed, screen_permitted, session_role, Role};
use crate::actions::Action;
use crate::models::{ClassReport, ClassRoom, Session, Task, User};
use crate::forms::{
    chosen_ids_of, chosen_teacher, chosen_teacher_id, chosen_people_ids, edit_class, edit_class_form,
    edit_user, edit_user_form,
};
use crate::state::{
    empty_class_form, empty_login_form, filled_user_form, text_of, user_form_with, AppState, AppView,
    ClassForm, Focus, LoginField, LoginForm, LoginFormView, Modal, Resource, Route, UserForm,
};
use crate::text::{pop_char, push_char};

verus! {

/// Highest position of the sidebar cursor.
pub const SIDEBAR_MAX: usize = 4;

/// The screen at each sidebar position, in menu order.
pub open spec fn sidebar_route(index: nat) -> Route {
    if index == 1 {
        Route::Users
    } else if index == 2 {
        Route::Classes
    } else if index == 3 {
        Route::Tasks
    } else if index == 4 {
        Route::Reports
    } else {
        Route::Dashboard
    }
}

/// The screen at the sidebar position `index`.
pub fn route_for_sidebar(index: usize) -> (route: Route)
    ensures
        route == sidebar_route(index as nat),
{
    match index {
        1 => Route::Users,
        2 => Route::Classes,
        3 => Route::Tasks,
        4 => Route::Reports,
        _ => Route::Dashboard,
    }
}

/// The nearest position after `from` whose screen `role` may open.
pub open spec fn next_entry(role: Role, from: nat) -> Option<nat>
    decreases SIDEBAR_MAX - from,
{
    if from >= SIDEBAR_MAX {
        None
    } else if screen_allowed(role, sidebar_route(from + 1)) {
        Some(from + 1)
    } else {
        next_entry(role, from + 1)
    }
}

/// The nearest position before `from` whose screen `role` may open.
pub open spec fn prev_entry(role: Role, from: nat) -> Option<nat>
    decreases from,
{
    if from == 0 {
        None
    } else if screen_allowed(role, sidebar_route((from - 1) as nat)) {
        Some((from - 1) as nat)
    } else {
        prev_entry(role, (from - 1) as nat)
    }
}

/// The sidebar position the cursor moves down to, if any.
pub fn next_position(role: Role, from: usize) -> (next: Option<usize>)
    ensures
        match next {
            Some(j) => next_entry(role, from as nat) == Some(j as nat),
            None => next_entry(role, from as nat) is None,
        },
    decreases SIDEBAR_MAX - from,
{
    if from >= SIDEBAR_MAX {
        None
    } else if screen_permitted(role, route_for_sidebar(from + 1)) {
        Some(from + 1)
    } else {
        next_position(role, from + 1)
    }
}

/// The sidebar position the cursor moves up to, if any.
pub fn prev_position(role: Role, from: usize) -> (prev: Option<usize>)
    ensures
        match prev {
            Some(j) => prev_entry(role, from as nat) == Some(j as nat),
            None => prev_entry(role, from as nat) is None,
        },
    decreases from,
{
    if from == 0 {
        None
    } else if screen_permitted(role, route_for_sidebar(from - 1)) {
        Some(from - 1)
    } else {
        prev_position(role, from - 1)
    }
}

/// The lists fetched from the service.
#[derive(Debug, Clone, Copy, PartialEq, Eq, Structural)]
pub enum ListKind {
    Users,
    Classes,
    Tasks,
    Reports,
    /// The teachers and the students the class form's pickers offer.
    People,
}

/// The list a screen shows, if it shows one.
pub open spec fn list_of(route: Route) -> Option<ListKind> {
    match route {
        Route::Users => Some(ListKind::Users),
        Route::Classes => Some(ListKind::Classes),
        Route::Tasks => Some(ListKind::Tasks),
        Route::Reports => Some(ListKind::Reports),
        _ => None,
    }
}

/// Outside work that an action asks for.
pub enum Effect {
    /// Nothing to do.
    Nothing,
    /// Sign in at the service with these credentials and store the session.
    Authenticate { email: String, password: String },
    /// Remove the stored session.
    DeleteSession,
    /// Fetch this list.
    Load(ListKind),
    /// Remove the user with this id.
    DeleteUser(i64),
    /// Remove the class with this id.
    DeleteClass(i64),
    /// Remove the task with this id.
    DeleteTask(String),
    /// Open this address in the system browser.
    OpenFile(String),
    /// Create this user.
    CreateUser { name: String, email: String, password: String, role: String },
    /// Change the user with this id; no password means keep the old one.
    UpdateUser { id: i64, name: String, email: String, password: Option<String>, role: String },
    /// Create this class.
    CreateClass { period: String, grade: String, teacher: Option<i64>, students: Vec<i64> },
    /// Change the class with this id.
    UpdateClass { id: i64, period: String, grade: String, teacher: Option<i64>, students: Vec<i64> },
}

/// An [`Effect`] with its texts taken as sequences of chars.
pub enum EffectView {
    Nothing,
    Authenticate { email: Seq<char>, password: Seq<char> },
    DeleteSession,
    Load(ListKind),
    DeleteUser(i64),
    DeleteClass(i64),
    DeleteTask(Seq<char>),
    OpenFile(Seq<char>),
    CreateUser { name: Seq<char>, email: Seq<char>, password: Seq<char>, role: Seq<char> },
    UpdateUser { id: i64, name: Seq<char>, email: Seq<char>, password: Option<Seq<char>>, role: Seq<char> },
    CreateClass { period: Seq<char>, grade: Seq<char>, teacher: Option<i64>, students: Seq<i64> },
    UpdateClass { id: i64, period: Seq<char>, grade: Seq<char>, teacher: Option<i64>, students: Seq<i64> },
}

impl View for Effect {
    type V = EffectView;

    open spec fn view(&self) -> EffectView {
        match self {
            Effect::Nothing => EffectView::Nothing,
            Effect::Authenticate { email, password } => EffectView::Authenticate {
                email: email@,
                password: password@,
            },
            Effect::DeleteSession => EffectView::DeleteSession,
            Effect::Load(kind) => EffectView::Load(*kind),
            Effect::DeleteUser(id) => EffectView::DeleteUser(*id),
            Effect::DeleteClass(id) => EffectView::DeleteClass(*id),
            Effect::DeleteTask(id) => EffectView::DeleteTask(id@),
            Effect::OpenFile(url) => EffectView::OpenFile(url@),
            Effect::CreateUser { name, email, password, role } => EffectView::CreateUser {
                name: name@,
                email: email@,
                password: password@,
                role: role@,
            },
            Effect::UpdateUser { id, name, email, password, role } => EffectView::UpdateUser {
                id: *id,
                name: name@,
                email: email@,
                password: text_of(*password),
                role: role@,
            },
            Effect::CreateClass { period, grade, teacher, students } => EffectView::CreateClass {
                period: period@,
                grade: grade@,
                teacher: *teacher,
                students: students@,
            },
            Effect::UpdateClass { id, period, grade, teacher, students } => EffectView::UpdateClass {
                id: *id,
                period: period@,
                grade: grade@,
                teacher: *teacher,
                students: students@,
            },
        }
    }
}

/// The login form after typing `c` into its active field.
pub open spec fn typed(form: LoginFormView, c: char) -> LoginFormView {
    match form.active_field {
        LoginField::Email => LoginFormView { email: form.email.push(c), ..form },
        LoginField::Password => LoginFormView { password: form.password.push(c), ..form },
    }
}

/// A text without its last char; an empty text stays empty.
pub open spec fn erased(text: Seq<char>) -> Seq<char> {
    if text.len() > 0 {
        text.drop_last()
    } else {
        text
    }
}

/// The login form after a backspace in its active field.
pub open spec fn backspaced(form: LoginFormView) -> LoginFormView {
    match form.active_field {
        LoginField::Email => LoginFormView { email: erased(form.email), ..form },
        LoginField::Password => LoginFormView { password: erased(form.password), ..form },
    }
}

/// The other field of the login form.
pub open spec fn other_field(field: LoginField) -> LoginField {
    match field {
        LoginField::Email => LoginField::Password,
        LoginField::Password => LoginField::Email,
    }
}

/// `s` with list `kind` marked as on its way.
pub open spec fn loading(s: AppView, kind: ListKind) -> AppView {
    match kind {
        ListKind::Users => AppView { users: Resource::Loading, ..s },
        ListKind::Classes => AppView { classes: Resource::Loading, ..s },
        ListKind::Tasks => AppView { tasks: Resource::Loading, ..s },
        ListKind::Reports => AppView { reports: Resource::Loading, ..s },
        ListKind::People => AppView {
            available_teachers: Resource::Loading,
            available_students: Resource::Loading,
            ..s
        },
    }
}

/// The state and the outside work after the sidebar cursor moves to `index`:
/// its screen opens, and the list it shows is fetched.
pub open spec fn moved_to(s: AppView, index: nat) -> (AppView, EffectView) {
    let moved = AppView { sidebar_index: index, route: sidebar_route(index), ..s };
    match list_of(sidebar_route(index)) {
        Some(kind) => (loading(moved, kind), EffectView::Load(kind)),
        None => (moved, EffectView::Nothing),
    }
}

/// The state and the outside work after asking for `modal`: nothing happens
/// unless the signed-in role may open it. A class form starts empty and fetches
/// the teachers and students its pickers offer; a new-user form starts empty; an
/// edit-user form starts with the selected user's name and email.
pub open spec fn opened(s: AppView, modal: Modal) -> (AppView, EffectView) {
    if !modal_allowed(session_role(s.session), modal) {
        (s, EffectView::Nothing)
    } else if modal == Modal::AddClass || modal == Modal::EditClass {
        (
            AppView { modal: modal, class_form: empty_class_form(), ..loading(s, ListKind::People) },
            EffectView::Load(ListKind::People),
        )
    } else if modal == Modal::AddUser {
        (
            AppView { modal: modal, user_form: user_form_with(Seq::empty(), Seq::empty()), ..s },
            EffectView::Nothing,
        )
    } else if modal == Modal::EditUser {
        let form = match selected_row(s.users, s.selected_user_index) {
            Some(u) => user_form_with(u.name@, u.email@),
            None => user_form_with(Seq::empty(), Seq::empty()),
        };
        (AppView { modal: modal, user_form: form, ..s }, EffectView::Nothing)
    } else {
        (AppView { modal: modal, ..s }, EffectView::Nothing)
    }
}

/// Whether a class form is open.
pub open spec fn class_form_open(modal: Modal) -> bool {
    modal == Modal::AddClass || modal == Modal::EditClass
}

/// Whether a user form is open.
pub open spec fn user_form_open(modal: Modal) -> bool {
    modal == Modal::AddUser || modal == Modal::EditUser
}

/// What saving the open user form asks for: create the user, or change the
/// selected one (an empty password keeps the old one).
pub open spec fn saved_user(s: AppView) -> EffectView {
    let f = s.user_form;
    if s.modal == Modal::AddUser {
        EffectView::CreateUser { name: f.name, email: f.email, password: f.password, role: f.role }
    } else if s.modal == Modal::EditUser {
        match selected_row(s.users, s.selected_user_index) {
            Some(u) => EffectView::UpdateUser {
                id: u.id,
                name: f.name,
                email: f.email,
                password: if f.password.len() == 0 { None } else { Some(f.password) },
                role: f.role,
            },
            None => EffectView::Nothing,
        }
    } else {
        EffectView::Nothing
    }
}

/// What saving the open class form asks for: create the class, or change the
/// selected one, with the chosen teacher's and students' ids.
pub open spec fn saved_class(s: AppView) -> EffectView {
    let f = s.class_form;
    let teacher = chosen_teacher(s.available_teachers, f.selected_teacher);
    let students = chosen_ids_of(s.available_students, f.selected_students);
    if s.modal == Modal::AddClass {
        EffectView::CreateClass { period: f.period, grade: f.grade, teacher: teacher, students: students }
    } else if s.modal == Modal::EditClass {
        match selected_row(s.classes, s.selected_class_index) {
            Some(c) => EffectView::UpdateClass {
                id: c.id,
                period: f.period,
                grade: f.grade,
                teacher: teacher,
                students: students,
            },
            None => EffectView::Nothing,
        }
    } else {
        EffectView::Nothing
    }
}

/// The item a confirmed removal targets: the selected row of a loaded list.
pub open spec fn selected_row<T>(list: Resource<Vec<T>>, index: nat) -> Option<T> {
    match list {
        Resource::Success(items) => if index < items@.len() {
            Some(items@[index as int])
        } else {
            None
        },
        _ => None,
    }
}

/// The state and outside work after a removal is confirmed in `modal`: the box
/// closes and the selected item, if any, is removed.
pub open spec fn confirmed(s: AppView, modal: Modal) -> (AppView, EffectView) {
    if s.modal != modal {
        (s, EffectView::Nothing)
    } else {
        let closed = AppView { modal: Modal::Closed, ..s };
        let effect = match modal {
            Modal::ConfirmDeleteUser => match selected_row(s.users, s.selected_user_index) {
                Some(u) => EffectView::DeleteUser(u.id),
                None => EffectView::Nothing,
            },
            Modal::ConfirmDeleteClass => match selected_row(s.classes, s.selected_class_index) {
                Some(c) => EffectView::DeleteClass(c.id),
                None => EffectView::Nothing,
            },
            _ => match selected_row(s.tasks, s.selected_task_index) {
                Some(t) => EffectView::DeleteTask(t.id@),
                None => EffectView::Nothing,
            },
        };
        (closed, effect)
    }
}

/// The file attached to the selected task, if there is one.
pub open spec fn selected_task_file(s: AppView) -> EffectView {
    match selected_row(s.tasks, s.selected_task_index) {
        Some(t) => match t.file_url {
            Some(url) => EffectView::OpenFile(url@),
            None => EffectView::Nothing,
        },
        None => EffectView::Nothing,
    }
}

/// `s` with the box closed if it is one of `family`.
pub open spec fn closed_if(s: AppView, family: bool) -> AppView {
    if family {
        AppView { modal: Modal::Closed, ..s }
    } else {
        s
    }
}

/// Whether `modal` is one of the user boxes.
pub open spec fn is_user_modal(modal: Modal) -> bool {
    modal == Modal::AddUser || modal == Modal::EditUser || modal == Modal::ConfirmDeleteUser
}

/// Whether `modal` is one of the class boxes.
pub open spec fn is_class_modal(modal: Modal) -> bool {
    modal == Modal::AddClass || modal == Modal::EditClass || modal == Modal::ConfirmDeleteClass
}

/// Whether `modal` is one of the task boxes.
pub open spec fn is_task_modal(modal: Modal) -> bool {
    modal == Modal::AddTask || modal == Modal::EditTask || modal == Modal::ConfirmDeleteTask
}

/// Whether `modal` is one of the submission boxes.
pub open spec fn is_submission_modal(modal: Modal) -> bool {
    modal == Modal::Submit || modal == Modal::Submissions || modal == Modal::Grade
}

/// The state and the outside work that follow `action` in state `s`.
pub open spec fn step(s: AppView, action: Action) -> (AppView, EffectView) {
    match action {
        Action::NavigateDown => match next_entry(session_role(s.session), s.sidebar_index) {
            Some(j) => moved_to(s, j),
            None => (s, EffectView::Nothing),
        },
        Action::NavigateUp => match prev_entry(session_role(s.session), s.sidebar_index) {
            Some(j) => moved_to(s, j),
            None => (s, EffectView::Nothing),
        },
        Action::ChangeRoute(route) => (AppView { route: route, ..s }, EffectView::Nothing),
        Action::SetFocus(focus) => (AppView { focus: focus, ..s }, EffectView::Nothing),
        Action::InputChar(c) => (
            AppView { login_form: typed(s.login_form, c), ..s },
            EffectView::Nothing,
        ),
        Action::InputBackspace => (
            AppView { login_form: backspaced(s.login_form), ..s },
            EffectView::Nothing,
        ),
        Action::InputToggleField => (
            AppView {
                login_form: LoginFormView {
                    active_field: other_field(s.login_form.active_field),
                    ..s.login_form
                },
                ..s
            },
            EffectView::Nothing,
        ),
        Action::Login { email, password } => (
            AppView { loading: true, error: None, ..s },
            EffectView::Authenticate { email: email@, password: password@ },
        ),
        Action::LoginSuccess(session) => (
            AppView { session: Some(session), route: Route::Dashboard, ..s },
            EffectView::Nothing,
        ),
        Action::Logout => (s, EffectView::DeleteSession),
        Action::SetError(message) => (
            AppView { error: text_of(message), ..s },
            EffectView::Nothing,
        ),
        Action::LoadUsers => (loading(s, ListKind::Users), EffectView::Load(ListKind::Users)),
        Action::LoadClasses => (loading(s, ListKind::Classes), EffectView::Load(ListKind::Classes)),
        Action::LoadTasks => (loading(s, ListKind::Tasks), EffectView::Load(ListKind::Tasks)),
        Action::LoadReports => (loading(s, ListKind::Reports), EffectView::Load(ListKind::Reports)),
        Action::SelectUser(i) => (AppView { selected_user_index: i as nat, ..s }, EffectView::Nothing),
        Action::SelectClass(i) => (AppView { selected_class_index: i as nat, ..s }, EffectView::Nothing),
        Action::SelectTask(i) => (AppView { selected_task_index: i as nat, ..s }, EffectView::Nothing),
        Action::OpenAddUserModal => opened(s, Modal::AddUser),
        Action::OpenEditUserModal => opened(s, Modal::EditUser),
        Action::OpenConfirmDeleteModal => opened(s, Modal::ConfirmDeleteUser),
        Action::OpenAddClassModal => opened(s, Modal::AddClass),
        Action::OpenEditClassModal => opened(s, Modal::EditClass),
        Action::OpenConfirmDeleteClassModal => opened(s, Modal::ConfirmDeleteClass),
        Action::OpenAddTaskModal => opened(s, Modal::AddTask),
        Action::OpenEditTaskModal => opened(s, Modal::EditTask),
        Action::OpenConfirmDeleteTaskModal => opened(s, Modal::ConfirmDeleteTask),
        Action::OpenSubmitModal => opened(s, Modal::Submit),
        Action::OpenSubmissionsModal => opened(s, Modal::Submissions),
        Action::OpenGradeModal => opened(s, Modal::Grade),
        Action::ClassFormChar(_) | Action::ClassFormBackspace | Action::ClassFormNextField
        | Action::ClassPickerUp | Action::ClassPickerDown | Action::ClassPickerSelect => (
            if class_form_open(s.modal) {
                AppView {
                    class_form: edit_class(s.class_form, s.available_teachers, s.available_students, action),
                    ..s
                }
            } else {
                s
            },
            EffectView::Nothing,
        ),
        Action::UserFormChar(_) | Action::UserFormBackspace | Action::UserFormNextField
        | Action::UserFormCycleRole => (
            if user_form_open(s.modal) {
                AppView { user_form: edit_user(s.user_form, action), ..s }
            } else {
                s
            },
            EffectView::Nothing,
        ),
        Action::SubmitUserForm => (s, saved_user(s)),
        Action::SubmitClassForm => (s, saved_class(s)),
        Action::CloseUserModal => (closed_if(s, is_user_modal(s.modal)), EffectView::Nothing),
        Action::CloseClassModal => (closed_if(s, is_class_modal(s.modal)), EffectView::Nothing),
        Action::CloseTaskModal => (closed_if(s, is_task_modal(s.modal)), EffectView::Nothing),
        Action::CloseSubmissionModal => (closed_if(s, is_submission_modal(s.modal)), EffectView::Nothing),
        Action::ConfirmDeleteUser => confirmed(s, Modal::ConfirmDeleteUser),
        Action::ConfirmDeleteClass => confirmed(s, Modal::ConfirmDeleteClass),
        Action::ConfirmDeleteTask => confirmed(s, Modal::ConfirmDeleteTask),
        Action::OpenTaskFile => (s, selected_task_file(s)),
        _ => (s, EffectView::Nothing),
    }
}

/// Moves the sidebar cursor to `index`, opens its screen and asks for its list.
fn move_to(state: &mut AppState, index: usize) -> (effect: Effect)
    ensures
        (final(state)@, effect@) == moved_to(old(state)@, index as nat),
{
    state.sidebar_index = index;
    state.route = route_for_sidebar(index);
    match state.route {
        Route::Users => {
            state.users = Resource::Loading;
            Effect::Load(ListKind::Users)
        },
        Route::Classes => {
            state.classes = Resource::Loading;
            Effect::Load(ListKind::Classes)
        },
        Route::Tasks => {
            state.tasks = Resource::Loading;
            Effect::Load(ListKind::Tasks)
        },
        Route::Reports => {
            state.reports = Resource::Loading;
            Effect::Load(ListKind::Reports)
        },
        _ => Effect::Nothing,
    }
}

/// Marks list `kind` as on its way and asks for it.
fn start_loading(state: &mut AppState, kind: ListKind) -> (effect: Effect)
    ensures
        final(state)@ == loading(old(state)@, kind),
        effect@ == EffectView::Load(kind),
{
    match kind {
        ListKind::Users => state.users = Resource::Loading,
        ListKind::Classes => state.classes = Resource::Loading,
        ListKind::Tasks => state.tasks = Resource::Loading,
        ListKind::Reports => state.reports = Resource::Loading,
        ListKind::People => {
            state.available_teachers = Resource::Loading;
            state.available_students = Resource::Loading;
        },
    }
    Effect::Load(kind)
}

/// Opens `modal` if the signed-in role may open it, with its form made ready.
fn open_modal(state: &mut AppState, modal: Modal) -> (effect: Effect)
    ensures
        (final(state)@, effect@) == opened(old(state)@, modal),
{
    if !modal_permitted(role_of(&state.session), modal) {
        return Effect::Nothing;
    }
    if modal == Modal::AddClass || modal == Modal::EditClass {
        let effect = start_loading(state, ListKind::People);
        state.modal = modal;
        state.class_form = ClassForm::default();
        effect
    } else if modal == Modal::AddUser {
        state.modal = modal;
        state.user_form = UserForm::default();
        Effect::Nothing
    } else if modal == Modal::EditUser {
        let form = match &state.users {
            Resource::Success(list) => if state.selected_user_index < list.len() {
                let u = &list[state.selected_user_index];
                filled_user_form(u.name.clone(), u.email.clone())
            } else {
                UserForm::default()
            },
            _ => UserForm::default(),
        };
        state.modal = modal;
        state.user_form = form;
        Effect::Nothing
    } else {
        state.modal = modal;
        Effect::Nothing
    }
}

/// What saving the open user form asks for.
fn save_user(state: &AppState) -> (effect: Effect)
    ensures
        effect@ == saved_user(state@),
{
    let f = &state.user_form;
    if state.modal == Modal::AddUser {
        Effect::CreateUser {
            name: f.name.clone(),
            email: f.email.clone(),
            password: f.password.clone(),
            role: f.role.clone(),
        }
    } else if state.modal == Modal::EditUser {
        match &state.users {
            Resource::Success(list) => if state.selected_user_index < list.len() {
                let password = if f.password.as_str().is_empty() {
                    None
                } else {
                    Some(f.password.clone())
                };
                Effect::UpdateUser {
                    id: list[state.selected_user_index].id,
                    name: f.name.clone(),
                    email: f.email.clone(),
                    password: password,
                    role: f.role.clone(),
                }
            } else {
                Effect::Nothing
            },
            _ => Effect::Nothing,
        }
    } else {
        Effect::Nothing
    }
}

/// What saving the open class form asks for.
fn save_class(state: &AppState) -> (effect: Effect)
    ensures
        effect@ == saved_class(state@),
{
    let f = &state.class_form;
    let teacher = chosen_teacher_id(&state.available_teachers, f.selected_teacher);
    let students = chosen_people_ids(&state.available_students, &f.selected_students);
    if state.modal == Modal::AddClass {
        Effect::CreateClass { period: f.period.clone(), grade: f.grade.clone(), teacher: teacher, students: students }
    } else if state.modal == Modal::EditClass {
        match &state.classes {
            Resource::Success(list) => if state.selected_class_index < list.len() {
                Effect::UpdateClass {
                    id: list[state.selected_class_index].id,
                    period: f.period.clone(),
                    grade: f.grade.clone(),
                    teacher: teacher,
                    students: students,
                }
            } else {
                Effect::Nothing
            },
            _ => Effect::Nothing,
        }
    } else {
        Effect::Nothing
    }
}

/// Closes the box if it is one of `family`.
fn close_modal_if(state: &mut AppState, family: bool)
    ensures
        final(state)@ == closed_if(old(state)@, family),
{
    if family {
        state.modal = Modal::Closed;
    }
}

/// Carries out a confirmed removal.
fn confirm(state: &mut AppState, modal: Modal) -> (effect: Effect)
    requires
        modal == Modal::ConfirmDeleteUser || modal == Modal::ConfirmDeleteClass
            || modal == Modal::ConfirmDeleteTask,
    ensures
        (final(state)@, effect@) == confirmed(old(state)@, modal),
{
    if state.modal != modal {
        return Effect::Nothing;
    }
    state.modal = Modal::Closed;
    match modal {
        Modal::ConfirmDeleteUser => match &state.users {
            Resource::Success(list) => if state.selected_user_index < list.len() {
                Effect::DeleteUser(list[state.selected_user_index].id)
            } else {
                Effect::Nothing
            },
            _ => Effect::Nothing,
        },
        Modal::ConfirmDeleteClass => match &state.classes {
            Resource::Success(list) => if state.selected_class_index < list.len() {
                Effect::DeleteClass(list[state.selected_class_index].id)
            } else {
                Effect::Nothing
            },
            _ => Effect::Nothing,
        },
        _ => match &state.tasks {
            Resource::Success(list) => if state.selected_task_index < list.len() {
                Effect::DeleteTask(list[state.selected_task_index].id.clone())
            } else {
                Effect::Nothing
            },
            _ => Effect::Nothing,
        },
    }
}

/// The file of the selected task, to be opened.
fn task_file(state: &AppState) -> (effect: Effect)
    ensures
        effect@ == selected_task_file(state@),
{
    match &state.tasks {
        Resource::Success(list) => if state.selected_task_index < list.len() {
            match &list[state.selected_task_index].file_url {
                Some(url) => Effect::OpenFile(url.clone()),
                None => Effect::Nothing,
            }
        } else {
            Effect::Nothing
        },
        _ => Effect::Nothing,
    }
}

/// Applies `action` to `state` and returns the outside work it asks for.
#[verifier::spinoff_prover]
#[verifier::rlimit(80)]
pub fn reducer(state: &mut AppState, action: Action) -> (effect: Effect)
    ensures
        (final(state)@, effect@) == step(old(state)@, action),
{
    match action {
        Action::NavigateDown => match next_position(role_of(&state.session), state.sidebar_index) {
            Some(j) => move_to(state, j),
            None => Effect::Nothing,
        },
        Action::NavigateUp => match prev_position(role_of(&state.session), state.sidebar_index) {
            Some(j) => move_to(state, j),
            None => Effect::Nothing,
        },
        Action::ChangeRoute(route) => {
            state.route = route;
            Effect::Nothing
        },
        Action::SetFocus(focus) => {
            state.focus = focus;
            Effect::Nothing
        },
        Action::InputChar(c) => {
            match state.login_form.active_field {
                LoginField::Email => push_char(&mut state.login_form.email, c),
                LoginField::Password => push_char(&mut state.login_form.password, c),
            }
            Effect::Nothing
        },
        Action::InputBackspace => {
            match state.login_form.active_field {
                LoginField::Email => {
                    let _ = pop_char(&mut state.login_form.email);
                },
                LoginField::Password => {
                    let _ = pop_char(&mut state.login_form.password);
                },
            }
            Effect::Nothing
        },
        Action::InputToggleField => {
            state.login_form.active_field = match state.login_form.active_field {
                LoginField::Email => LoginField::Password,
                LoginField::Password => LoginField::Email,
            };
            Effect::Nothing
        },
        Action::Login { email, password } => {
            state.loading = true;
            state.error = None;
            Effect::Authenticate { email, password }
        },
        Action::LoginSuccess(session) => {
            state.session = Some(session);
            state.route = Route::Dashboard;
            Effect::Nothing
        },
        Action::Logout => Effect::DeleteSession,
        Action::SetError(message) => {
            state.error = message;
            Effect::Nothing
        },
        Action::LoadUsers => start_loading(state, ListKind::Users),
        Action::LoadClasses => start_loading(state, ListKind::Classes),
        Action::LoadTasks => start_loading(state, ListKind::Tasks),
        Action::LoadReports => start_loading(state, ListKind::Reports),
        Action::SelectUser(i) => {
            state.selected_user_index = i;
            Effect::Nothing
        },
        Action::SelectClass(i) => {
            state.selected_class_index = i;
            Effect::Nothing
        },
        Action::SelectTask(i) => {
            state.selected_task_index = i;
            Effect::Nothing
        },
        Action::OpenAddUserModal => open_modal(state, Modal::AddUser),
        Action::OpenEditUserModal => open_modal(state, Modal::EditUser),
        Action::OpenConfirmDeleteModal => open_modal(state, Modal::ConfirmDeleteUser),
        Action::OpenAddClassModal => open_modal(state, Modal::AddClass),
        Action::OpenEditClassModal => open_modal(state, Modal::EditClass),
        Action::OpenConfirmDeleteClassModal => open_modal(state, Modal::ConfirmDeleteClass),
        Action::OpenAddTaskModal => open_modal(state, Modal::AddTask),
        Action::OpenEditTaskModal => open_modal(state, Modal::EditTask),
        Action::OpenConfirmDeleteTaskModal => open_modal(state, Modal::ConfirmDeleteTask),
        Action::OpenSubmitModal => open_modal(state, Modal::Submit),
        Action::OpenSubmissionsModal => open_modal(state, Modal::Submissions),
        Action::OpenGradeModal => open_modal(state, Modal::Grade),
        Action::ClassFormChar(_) | Action::ClassFormBackspace | Action::ClassFormNextField
        | Action::ClassPickerUp | Action::ClassPickerDown | Action::ClassPickerSelect => {
            if state.modal == Modal::AddClass || state.modal == Modal::EditClass {
                edit_class_form(&mut state.class_form, &state.available_teachers, &state.available_students, action);
            }
            Effect::Nothing
        },
        Action::UserFormChar(_) | Action::UserFormBackspace | Action::UserFormNextField
        | Action::UserFormCycleRole => {
            if state.modal == Modal::AddUser || state.modal == Modal::EditUser {
                edit_user_form(&mut state.user_form, action);
            }
            Effect::Nothing
        },
        Action::SubmitUserForm => save_user(state),
        Action::SubmitClassForm => save_class(state),
        Action::CloseUserModal => {
            let family = state.modal == Modal::AddUser || state.modal == Modal::EditUser
                || state.modal == Modal::ConfirmDeleteUser;
            close_modal_if(state, family);
            Effect::Nothing
        },
        Action::CloseClassModal => {
            let family = state.modal == Modal::AddClass || state.modal == Modal::EditClass
                || state.modal == Modal::ConfirmDeleteClass;
            close_modal_if(state, family);
            Effect::Nothing
        },
        Action::CloseTaskModal => {
            let family = state.modal == Modal::AddTask || state.modal == Modal::EditTask
                || state.modal == Modal::ConfirmDeleteTask;
            close_modal_if(state, family);
            Effect::Nothing
        },
        Action::CloseSubmissionModal => {
            let family = state.modal == Modal::Submit || state.modal == Modal::Submissions
                || state.modal == Modal::Grade;
            close_modal_if(state, family);
            Effect::Nothing
        },
        Action::ConfirmDeleteUser => confirm(state, Modal::ConfirmDeleteUser),
        Action::ConfirmDeleteClass => confirm(state, Modal::ConfirmDeleteClass),
        Action::ConfirmDeleteTask => confirm(state, Modal::ConfirmDeleteTask),
        Action::OpenTaskFile => task_file(state),
        _ => Effect::Nothing,
    }
}

/// The state once a sign-in attempt has ended: on the dashboard with the
/// session on success; with the message of the failure
/// otherwise.
pub open spec fn after_login(s: AppView, outcome: Result<Session, String>) -> AppView {
    match outcome {
        Ok(session) => AppView {
            session: Some(session),
            route: Route::Dashboard,
            loading: false,
            ..s
        },
        Err(message) => AppView { error: Some(message@), loading: false, ..s },
    }
}

/// Records the end of a sign-in attempt.
pub fn login_finished(state: &mut AppState, outcome: Result<Session, String>)
    ensures
        final(state)@ == after_login(old(state)@, outcome),
{
    match outcome {
        Ok(session) => {
            state.session = Some(session);
            state.route = Route::Dashboard;
            state.loading = false;
        },
        Err(message) => {
            state.error = Some(message);
            state.loading = false;
        },
    }
}

/// The state once the stored session is gone: back on an empty login screen.
pub open spec fn after_logout(s: AppView) -> AppView {
    AppView {
        session: None,
        route: Route::Login,
        error: None,
        login_form: empty_login_form(),
        modal: Modal::Closed,
        ..s
    }
}

/// Records that the stored session has been removed.
pub fn logout_finished(state: &mut AppState)
    ensures
        final(state)@ == after_logout(old(state)@),
{
    state.session = None;
    state.route = Route::Login;
    state.error = None;
    state.login_form = LoginForm::default();
    state.modal = Modal::Closed;
}

/// A fetched list in its final stage: the items, or the message of the failure.
pub open spec fn outcome_stage<T>(outcome: Result<Vec<T>, String>) -> Resource<Vec<T>> {
    match outcome {
        Ok(items) => Resource::Success(items),
        Err(message) => Resource::Error(message),
    }
}

/// Records the fetched user list; the selection returns to the first row.
pub fn users_loaded(state: &mut AppState, outcome: Result<Vec<User>, String>)
    ensures
        final(state)@ == (AppView {
            users: outcome_stage(outcome),
            selected_user_index: 0,
            ..old(state)@
        }),
{
    state.users = match outcome {
        Ok(items) => Resource::Success(items),
        Err(message) => Resource::Error(message),
    };
    state.selected_user_index = 0;
}

/// Records the fetched class list; the selection returns to the first row.
pub fn classes_loaded(state: &mut AppState, outcome: Result<Vec<ClassRoom>, String>)
    ensures
        final(state)@ == (AppView {
            classes: outcome_stage(outcome),
            selected_class_index: 0,
            ..old(state)@
        }),
{
    state.classes = match outcome {
        Ok(items) => Resource::Success(items),
        Err(message) => Resource::Error(message),
    };
    state.selected_class_index = 0;
}

/// Records the fetched task list; the selection returns to the first row.
pub fn tasks_loaded(state: &mut AppState, outcome: Result<Vec<Task>, String>)
    ensures
        final(state)@ == (AppView {
            tasks: outcome_stage(outcome),
            selected_task_index: 0,
            ..old(state)@
        }),
{
    state.tasks = match outcome {
        Ok(items) => Resource::Success(items),
        Err(message) => Resource::Error(message),
    };
    state.selected_task_index = 0;
}

/// Records the fetched class reports.
pub fn reports_loaded(state: &mut AppState, outcome: Result<Vec<ClassReport>, String>)
    ensures
        final(state)@ == (AppView { reports: outcome_stage(outcome), ..old(state)@ }),
{
    state.reports = match outcome {
        Ok(items) => Resource::Success(items),
        Err(message) => Resource::Error(message),
    };
}

/// The state and the outside work once a removal from list `kind` has ended:
/// the list is fetched again after a success, the failure is shown otherwise.
pub open spec fn after_removal(s: AppView, kind: ListKind, outcome: Result<(), String>) -> (AppView, EffectView) {
    match outcome {
        Ok(_) => (loading(s, kind), EffectView::Load(kind)),
        Err(message) => (AppView { error: Some(message@), ..s }, EffectView::Nothing),
    }
}

/// Records the end of a removal from list `kind`.
pub fn removal_finished(state: &mut AppState, kind: ListKind, outcome: Result<(), String>) -> (effect: Effect)
    ensures
        (final(state)@, effect@) == after_removal(old(state)@, kind, outcome),
{
    match outcome {
        Ok(_) => start_loading(state, kind),
        Err(message) => {
            state.error = Some(message);
            Effect::Nothing
        },
    }
}

/// Records the fetched teachers and students that the class form's pickers offer.
pub fn people_loaded(
    state: &mut AppState,
    teachers: Result<Vec<User>, String>,
    students: Result<Vec<User>, String>,
)
    ensures
        final(state)@ == (AppView {
            available_teachers: outcome_stage(teachers),
            available_students: outcome_stage(students),
            ..old(state)@
        }),
{
    state.available_teachers = match teachers {
        Ok(items) => Resource::Success(items),
        Err(message) => Resource::Error(message),
    };
    state.available_students = match students {
        Ok(items) => Resource::Success(items),
        Err(message) => Resource::Error(message),
    };
}

/// The state and the outside work once a form of list `kind` has been saved:
/// after a success the box closes and the list is fetched again; after a
/// failure the box stays open and shows the message.
pub open spec fn after_save(s: AppView, kind: ListKind, outcome: Result<(), String>) -> (AppView, EffectView) {
    match outcome {
        Ok(_) => (loading(AppView { modal: Modal::Closed, ..s }, kind), EffectView::Load(kind)),
        Err(message) => (AppView { error: Some(message@), ..s }, EffectView::Nothing),
    }
}

/// Records the end of saving a form of list `kind`.
pub fn save_finished(state: &mut AppState, kind: ListKind, outcome: Result<(), String>) -> (effect: Effect)
    ensures
        (final(state)@, effect@) == after_save(old(state)@, kind, outcome),
{
    match outcome {
        Ok(_) => {
            state.modal = Modal::Closed;
            start_loading(state, kind)
        },
        Err(message) => {
            state.error = Some(message);
            Effect::Nothing
        },
    }
}

/// The box to draw: the open one if the signed-in role may open it, none
/// otherwise.
pub open spec fn shown(s: AppView) -> Modal {
    if modal_allowed(session_role(s.session), s.modal) {
        s.modal
    } else {
        Modal::Closed
    }
}

/// The box to draw over the current screen.
pub fn shown_modal(state: &AppState) -> (modal: Modal)
    ensures
        modal == shown(state@),
{
    if modal_permitted(role_of(&state.session), state.modal) {
        state.modal
    } else {
        Modal::Closed
    }
}

} // verus!
