//! The state of the client between two key presses.
use vstd::prelude::*;
use crate::models::{ClassReport, ClassRoom, Session, Task, User};

verus! {

/// The screen on display.
#[derive(Debug, Clone, Copy, PartialEq, Eq, Structural)]
pub enum Route {
    Login,
    Dashboard,
    Users,
    Classes,
    Tasks,
    Reports,
}

/// Which pane receives the arrow keys.
#[derive(Debug, Clone, Copy, PartialEq, Eq, Structural)]
pub enum Focus {
    Sidebar,
    Content,
}

/// The field of the login form that receives typed chars.
#[derive(Debug, Clone, Copy, PartialEq, Eq, Structural)]
pub enum LoginField {
    Email,
    Password,
}

/// What the user typed on the login screen.
#[derive(Debug, Clone)]
pub struct LoginForm {
    pub email: String,
    pub password: String,
    pub active_field: LoginField,
}

/// The box drawn over the current screen, if any.
#[derive(Debug, Clone, Copy, PartialEq, Eq, Structural)]
pub enum Modal {
    Closed,
    AddUser,
    EditUser,
    ConfirmDeleteUser,
    AddClass,
    EditClass,
    ConfirmDeleteClass,
    AddTask,
    EditTask,
    ConfirmDeleteTask,
    Submit,
    Submissions,
    Grade,
}

/// Rows a picker shows at once.
pub const PICKER_VISIBLE_ROWS: usize = 5;

/// The field of the class form that receives keys.
#[derive(Debug, Clone, Copy, PartialEq, Eq, Structural)]
pub enum ClassFormField {
    Period,
    Grade,
    TeacherPicker,
    StudentPicker,
}

/// What the class form holds: two texts, one chosen teacher and any number of
/// chosen students, each picker with its cursor and its first visible row.
#[derive(Debug, Clone)]
pub struct ClassForm {
    pub period: String,
    pub grade: String,
    pub active_field: ClassFormField,
    pub selected_teacher: Option<usize>,
    pub teacher_cursor: usize,
    pub teacher_scroll: usize,
    pub selected_students: Vec<usize>,
    pub student_cursor: usize,
    pub student_scroll: usize,
}

/// The field of the user form that receives keys.
#[derive(Debug, Clone, Copy, PartialEq, Eq, Structural)]
pub enum UserFormField {
    Name,
    Email,
    Password,
    Role,
}

/// What the user form holds.
#[derive(Debug, Clone)]
pub struct UserForm {
    pub name: String,
    pub email: String,
    pub password: String,
    pub role: String,
    pub active_field: UserFormField,
}

/// A list fetched from the service, in one of its four stages.
#[derive(Debug, Clone)]
pub enum Resource<T> {
    Idle,
    Loading,
    Success(T),
    Error(String),
}

/// Everything the screens show.
pub struct AppState {
    pub route: Route,
    pub focus: Focus,
    pub session: Option<Session>,
    pub login_form: LoginForm,
    pub users: Resource<Vec<User>>,
    pub classes: Resource<Vec<ClassRoom>>,
    pub tasks: Resource<Vec<Task>>,
    pub reports: Resource<Vec<ClassReport>>,
    pub sidebar_index: usize,
    pub selected_user_index: usize,
    pub selected_class_index: usize,
    pub selected_task_index: usize,
    pub modal: Modal,
    pub class_form: ClassForm,
    pub user_form: UserForm,
    pub available_teachers: Resource<Vec<User>>,
    pub available_students: Resource<Vec<User>>,
    pub loading: bool,
    pub error: Option<String>,
}

/// The login form with its texts taken as sequences of chars.
pub struct LoginFormView {
    pub email: Seq<char>,
    pub password: Seq<char>,
    pub active_field: LoginField,
}

/// The class form with its texts taken as sequences of chars.
pub struct ClassFormView {
    pub period: Seq<char>,
    pub grade: Seq<char>,
    pub active_field: ClassFormField,
    pub selected_teacher: Option<usize>,
    pub teacher_cursor: nat,
    pub teacher_scroll: nat,
    pub selected_students: Seq<usize>,
    pub student_cursor: nat,
    pub student_scroll: nat,
}

/// The user form with its texts taken as sequences of chars.
pub struct UserFormView {
    pub name: Seq<char>,
    pub email: Seq<char>,
    pub password: Seq<char>,
    pub role: Seq<char>,
    pub active_field: UserFormField,
}

/// The state with its texts taken as sequences of chars.
pub struct AppView {
    pub route: Route,
    pub focus: Focus,
    pub session: Option<Session>,
    pub login_form: LoginFormView,
    pub users: Resource<Vec<User>>,
    pub classes: Resource<Vec<ClassRoom>>,
    pub tasks: Resource<Vec<Task>>,
    pub reports: Resource<Vec<ClassReport>>,
    pub sidebar_index: nat,
    pub selected_user_index: nat,
    pub selected_class_index: nat,
    pub selected_task_index: nat,
    pub modal: Modal,
    pub class_form: ClassFormView,
    pub user_form: UserFormView,
    pub available_teachers: Resource<Vec<User>>,
    pub available_students: Resource<Vec<User>>,
    pub loading: bool,
    pub error: Option<Seq<char>>,
}

/// The number of items of a loaded list.
pub open spec fn loaded_len<T>(list: Resource<Vec<T>>) -> Option<nat> {
    match list {
        Resource::Success(items) => Some(items@.len()),
        _ => None,
    }
}

/// The number of items of a loaded list.
pub fn loaded_count<T>(list: &Resource<Vec<T>>) -> (len: Option<usize>)
    ensures
        match len {
            Some(n) => loaded_len(*list) == Some(n as nat),
            None => loaded_len(*list) is None,
        },
{
    match list {
        Resource::Success(items) => Some(items.len()),
        _ => None,
    }
}

/// The chars of an optional text.
pub open spec fn text_of(message: Option<String>) -> Option<Seq<char>> {
    match message {
        Some(m) => Some(m@),
        None => None,
    }
}

impl View for LoginForm {
    type V = LoginFormView;

    open spec fn view(&self) -> LoginFormView {
        LoginFormView {
            email: self.email@,
            password: self.password@,
            active_field: self.active_field,
        }
    }
}

impl View for ClassForm {
    type V = ClassFormView;

    open spec fn view(&self) -> ClassFormView {
        ClassFormView {
            period: self.period@,
            grade: self.grade@,
            active_field: self.active_field,
            selected_teacher: self.selected_teacher,
            teacher_cursor: self.teacher_cursor as nat,
            teacher_scroll: self.teacher_scroll as nat,
            selected_students: self.selected_students@,
            student_cursor: self.student_cursor as nat,
            student_scroll: self.student_scroll as nat,
        }
    }
}

impl View for UserForm {
    type V = UserFormView;

    open spec fn view(&self) -> UserFormView {
        UserFormView {
            name: self.name@,
            email: self.email@,
            password: self.password@,
            role: self.role@,
            active_field: self.active_field,
        }
    }
}

impl View for AppState {
    type V = AppView;

    open spec fn view(&self) -> AppView {
        AppView {
            route: self.route,
            focus: self.focus,
            session: self.session,
            login_form: self.login_form@,
            users: self.users,
            classes: self.classes,
            tasks: self.tasks,
            reports: self.reports,
            sidebar_index: self.sidebar_index as nat,
            selected_user_index: self.selected_user_index as nat,
            selected_class_index: self.selected_class_index as nat,
            selected_task_index: self.selected_task_index as nat,
            modal: self.modal,
            class_form: self.class_form@,
            user_form: self.user_form@,
            available_teachers: self.available_teachers,
            available_students: self.available_students,
            loading: self.loading,
            error: text_of(self.error),
        }
    }
}

/// The empty login form, with the email field active.
pub open spec fn empty_login_form() -> LoginFormView {
    LoginFormView { email: Seq::empty(), password: Seq::empty(), active_field: LoginField::Email }
}

/// The empty class form, with the period field active.
pub open spec fn empty_class_form() -> ClassFormView {
    ClassFormView {
        period: Seq::empty(),
        grade: Seq::empty(),
        active_field: ClassFormField::Period,
        selected_teacher: None,
        teacher_cursor: 0,
        teacher_scroll: 0,
        selected_students: Seq::empty(),
        student_cursor: 0,
        student_scroll: 0,
    }
}

/// A user form holding `name` and `email`, no password, the student role, and
/// the name field active.
pub open spec fn user_form_with(name: Seq<char>, email: Seq<char>) -> UserFormView {
    UserFormView {
        name: name,
        email: email,
        password: Seq::empty(),
        role: "student"@,
        active_field: UserFormField::Name,
    }
}

/// The state the client starts in: the login screen, nothing loaded.
pub open spec fn initial_view() -> AppView {
    AppView {
        route: Route::Login,
        focus: Focus::Sidebar,
        session: None,
        login_form: empty_login_form(),
        users: Resource::Idle,
        classes: Resource::Idle,
        tasks: Resource::Idle,
        reports: Resource::Idle,
        sidebar_index: 0,
        selected_user_index: 0,
        selected_class_index: 0,
        selected_task_index: 0,
        modal: Modal::Closed,
        class_form: empty_class_form(),
        user_form: user_form_with(Seq::empty(), Seq::empty()),
        available_teachers: Resource::Idle,
        available_students: Resource::Idle,
        loading: false,
        error: None,
    }
}

impl Default for LoginForm {
    fn default() -> (form: LoginForm)
        ensures
            form@ == empty_login_form(),
    {
        LoginForm { email: String::new(), password: String::new(), active_field: LoginField::Email }
    }
}

impl Default for ClassForm {
    fn default() -> (form: ClassForm)
        ensures
            form@ == empty_class_form(),
    {
        ClassForm {
            period: String::new(),
            grade: String::new(),
            active_field: ClassFormField::Period,
            selected_teacher: None,
            teacher_cursor: 0,
            teacher_scroll: 0,
            selected_students: Vec::new(),
            student_cursor: 0,
            student_scroll: 0,
        }
    }
}

impl Default for UserForm {
    fn default() -> (form: UserForm)
        ensures
            form@ == user_form_with(Seq::empty(), Seq::empty()),
    {
        filled_user_form(String::new(), String::new())
    }
}

/// A user form holding `name` and `email`, as the edit form starts.
pub fn filled_user_form(name: String, email: String) -> (form: UserForm)
    ensures
        form@ == user_form_with(name@, email@),
{
    UserForm {
        name: name,
        email: email,
        password: String::new(),
        role: "student".to_owned(),
        active_field: UserFormField::Name,
    }
}

impl Default for AppState {
    fn default() -> (state: AppState)
        ensures
            state@ == initial_view(),
    {
        AppState {
            route: Route::Login,
            focus: Focus::Sidebar,
            session: None,
            login_form: LoginForm::default(),
            users: Resource::Idle,
            classes: Resource::Idle,
            tasks: Resource::Idle,
            reports: Resource::Idle,
            sidebar_index: 0,
            selected_user_index: 0,
            selected_class_index: 0,
            selected_task_index: 0,
            modal: Modal::Closed,
            class_form: ClassForm::default(),
            user_form: UserForm::default(),
            available_teachers: Resource::Idle,
            available_students: Resource::Idle,
            loading: false,
            error: None,
        }
    }
}

} // verus!
