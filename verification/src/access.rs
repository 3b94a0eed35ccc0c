//! Who may see which screen and open which box: the role-based access rules.
use vstd::prelude::*;
use crate::models::Session;
use crate::state::{Modal, Route};
use crate::text::same_text;

verus! {

/// The three kinds of account.
#[derive(Debug, Clone, Copy, PartialEq, Eq, Structural)]
pub enum Role {
    Admin,
    Teacher,
    Student,
}

/// The kind of account a role name stands for; any name other than `admin` and
/// `teacher` is a student.
pub open spec fn role_named(name: Seq<char>) -> Role {
    if name == "admin"@ {
        Role::Admin
    } else if name == "teacher"@ {
        Role::Teacher
    } else {
        Role::Student
    }
}

/// The kind of account the role name `name` stands for.
pub fn role_from_name(name: &str) -> (role: Role)
    ensures
        role == role_named(name@),
{
    if same_text(name, "admin") {
        Role::Admin
    } else if same_text(name, "teacher") {
        Role::Teacher
    } else {
        Role::Student
    }
}

/// The rights in force: those of the signed-in user's role, and a student's
/// when nobody is signed in.
pub open spec fn session_role(session: Option<Session>) -> Role {
    match session {
        Some(s) => role_named(s.role@),
        None => Role::Student,
    }
}

/// The rights of the signed-in user.
pub fn role_of(session: &Option<Session>) -> (role: Role)
    ensures
        role == session_role(*session),
{
    match session {
        Some(s) => role_from_name(s.role.as_str()),
        None => Role::Student,
    }
}

/// Whether someone is signed in with the administrator role.
pub open spec fn signed_in_as_admin(session: Option<Session>) -> bool {
    session_role(session) == Role::Admin
}

/// Whether the signed-in user, if any, is an administrator.
pub fn is_admin(session: &Option<Session>) -> (admin: bool)
    ensures
        admin == signed_in_as_admin(*session),
{
    role_of(session) == Role::Admin
}

/// Which screens a role may open: the user list is for administrators, the
/// reports for teachers, the others for everyone.
pub open spec fn screen_allowed(role: Role, route: Route) -> bool {
    match route {
        Route::Users => role == Role::Admin,
        Route::Reports => role == Role::Teacher,
        _ => true,
    }
}

/// Whether `role` may open `route`.
pub fn screen_permitted(role: Role, route: Route) -> (allowed: bool)
    ensures
        allowed == screen_allowed(role, route),
{
    match route {
        Route::Users => role == Role::Admin,
        Route::Reports => role == Role::Teacher,
        _ => true,
    }
}

/// Which boxes a role may open: users and classes are managed by
/// administrators, tasks by administrators and teachers; students send answers,
/// and administrators and teachers list and grade them.
pub open spec fn modal_allowed(role: Role, modal: Modal) -> bool {
    match modal {
        Modal::Closed => true,
        Modal::AddUser | Modal::EditUser | Modal::ConfirmDeleteUser | Modal::AddClass
        | Modal::EditClass | Modal::ConfirmDeleteClass => role == Role::Admin,
        Modal::AddTask | Modal::EditTask | Modal::ConfirmDeleteTask | Modal::Submissions
        | Modal::Grade => role == Role::Admin || role == Role::Teacher,
        Modal::Submit => role == Role::Student,
    }
}

/// Whether `role` may open `modal`.
pub fn modal_permitted(role: Role, modal: Modal) -> (allowed: bool)
    ensures
        allowed == modal_allowed(role, modal),
{
    match modal {
        Modal::Closed => true,
        Modal::AddUser | Modal::EditUser | Modal::ConfirmDeleteUser | Modal::AddClass
        | Modal::EditClass | Modal::ConfirmDeleteClass => role == Role::Admin,
        Modal::AddTask | Modal::EditTask | Modal::ConfirmDeleteTask | Modal::Submissions
        | Modal::Grade => role == Role::Admin || role == Role::Teacher,
        Modal::Submit => role == Role::Student,
    }
}

/// The screens listed in the sidebar of each role, in menu order.
pub open spec fn menu(role: Role) -> Seq<Route> {
    match role {
        Role::Admin => seq![Route::Dashboard, Route::Users, Route::Classes, Route::Tasks],
        Role::Teacher => seq![Route::Dashboard, Route::Classes, Route::Tasks, Route::Reports],
        Role::Student => seq![Route::Dashboard, Route::Classes, Route::Tasks],
    }
}

/// The screens listed in the sidebar for a user whose role name is `role`.
pub fn sidebar_entries(role: &str) -> (entries: Vec<Route>)
    ensures
        entries@ == menu(role_named(role@)),
{
    let kind = role_from_name(role);
    let mut entries: Vec<Route> = Vec::new();
    entries.push(Route::Dashboard);
    if kind == Role::Admin {
        entries.push(Route::Users);
    }
    entries.push(Route::Classes);
    entries.push(Route::Tasks);
    if kind == Role::Teacher {
        entries.push(Route::Reports);
    }
    assert(entries@ =~= menu(kind));
    entries
}

/// The row of the sidebar that shows `route`, if it is listed.
pub fn sidebar_row(entries: &Vec<Route>, route: Route) -> (row: Option<usize>)
    ensures
        match row {
            Some(i) => i < entries@.len() && entries@[i as int] == route
                && forall|k: int| 0 <= k < i ==> entries@[k] != route,
            None => !entries@.contains(route),
        },
{
    let mut i: usize = 0;
    while i < entries.len()
        invariant
            i <= entries@.len(),
            forall|k: int| 0 <= k < i ==> entries@[k] != route,
        decreases entries@.len() - i,
    {
        if entries[i] == route {
            return Some(i);
        }
        i = i + 1;
    }
    None
}

/// The title a screen has in the sidebar.
pub open spec fn title_of(route: Route) -> Seq<char> {
    match route {
        Route::Login => "Login"@,
        Route::Dashboard => "Dashboard"@,
        Route::Users => "Usuários"@,
        Route::Classes => "Turmas"@,
        Route::Tasks => "Tarefas"@,
        Route::Reports => "Relatórios"@,
    }
}

/// The title of `route` in the sidebar.
pub fn route_title(route: Route) -> (title: &'static str)
    ensures
        title@ == title_of(route),
{
    match route {
        Route::Login => "Login",
        Route::Dashboard => "Dashboard",
        Route::Users => "Usuários",
        Route::Classes => "Turmas",
        Route::Tasks => "Tarefas",
        Route::Reports => "Relatórios",
    }
}

} // verus!
