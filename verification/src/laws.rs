//! Properties of the state machine and of the access rules that span several
//! actions or functions.
use vstd::prelude::*;
use crate::access::{menu, modal_allowed, screen_allowed, session_role, Role};
use crate::actions::Action;
use crate::keys::{key_meaning, Key, KeyPress, Meaning};
use crate::models::{ClassRoom, Session, Task, User};
use crate::reducer::{
    after_login, after_logout, after_removal, next_entry, prev_entry, shown, sidebar_route, step,
    EffectView, ListKind, SIDEBAR_MAX,
};
use crate::screens::{
    bounds_first_word, class_title_at, first_word, first_word_bounds_are_unique, is_white_space, name_at,
    panel_for, task_title_at, PanelView,
};
use crate::state::{
    empty_class_form, loaded_len, AppView, ClassFormField, ClassFormView, LoginField, UserFormField, LoginFormView, Modal, Resource, Route,
    PICKER_VISIBLE_ROWS,
};
use crate::forms::{
    chosen_ids_of, chosen_teacher, edit_class, first_position, ids_of, next_role, picker_down, picker_up,
    toggled,
};
use crate::token::{bounds_second_part, role_claim, role_or_student, second_part};

verus! {

/// Moving down from `from` lands on the nearest later position `role` may open,
/// skipping only positions it may not.
pub proof fn next_entry_is_nearest_allowed(role: Role, from: nat)
    ensures
        match next_entry(role, from) {
            Some(j) => from < j <= SIDEBAR_MAX && screen_allowed(role, sidebar_route(j))
                && forall|k: nat| from < k < j ==> !screen_allowed(role, #[trigger] sidebar_route(k)),
            None => forall|k: nat| from < k <= SIDEBAR_MAX ==> !screen_allowed(role, #[trigger] sidebar_route(k)),
        },
    decreases SIDEBAR_MAX - from,
{
    if from < SIDEBAR_MAX && !screen_allowed(role, sidebar_route(from + 1)) {
        next_entry_is_nearest_allowed(role, from + 1);
    }
}

/// Moving up from `from` lands on the nearest earlier position `role` may open,
/// skipping only positions it may not.
pub proof fn prev_entry_is_nearest_allowed(role: Role, from: nat)
    ensures
        match prev_entry(role, from) {
            Some(j) => j < from && screen_allowed(role, sidebar_route(j))
                && forall|k: nat| j < k < from ==> !screen_allowed(role, #[trigger] sidebar_route(k)),
            None => forall|k: nat| k < from ==> !screen_allowed(role, #[trigger] sidebar_route(k)),
        },
    decreases from,
{
    if from > 0 && !screen_allowed(role, sidebar_route((from - 1) as nat)) {
        prev_entry_is_nearest_allowed(role, (from - 1) as nat);
    }
}

/// No action and no finished request moves the sidebar cursor past its last entry.
pub proof fn sidebar_cursor_stays_in_range(
    s: AppView,
    action: Action,
    outcome: Result<Session, String>,
    kind: ListKind,
    removal: Result<(), String>,
)
    requires
        s.sidebar_index <= SIDEBAR_MAX,
    ensures
        step(s, action).0.sidebar_index <= SIDEBAR_MAX,
        after_login(s, outcome).sidebar_index <= SIDEBAR_MAX,
        after_logout(s).sidebar_index <= SIDEBAR_MAX,
        after_removal(s, kind, removal).0.sidebar_index <= SIDEBAR_MAX,
{
    next_entry_is_nearest_allowed(session_role(s.session), s.sidebar_index);
    prev_entry_is_nearest_allowed(session_role(s.session), s.sidebar_index);
}

/// Whenever an action moves the sidebar cursor, the screen becomes the one of the
/// new position, a screen the signed-in role may open, and never the login screen.
pub proof fn moving_the_cursor_opens_an_allowed_screen(s: AppView, action: Action)
    ensures
        step(s, action).0.sidebar_index != s.sidebar_index ==> {
            &&& step(s, action).0.route == sidebar_route(step(s, action).0.sidebar_index)
            &&& screen_allowed(session_role(s.session), step(s, action).0.route)
            &&& step(s, action).0.route != Route::Login
        },
{
    next_entry_is_nearest_allowed(session_role(s.session), s.sidebar_index);
    prev_entry_is_nearest_allowed(session_role(s.session), s.sidebar_index);
}

/// The state after `n` presses of the down arrow in the sidebar.
pub open spec fn after_downs(s: AppView, n: nat) -> AppView
    decreases n,
{
    if n == 0 {
        s
    } else {
        after_downs(step(s, Action::NavigateDown).0, (n - 1) as nat)
    }
}

/// Every position below the cursor whose screen the signed-in role may open is
/// reached by pressing the down arrow some number of times; this is how a
/// teacher gets to the reports and an administrator to the user list.
pub proof fn allowed_screens_are_reachable(s: AppView, j: nat) -> (presses: nat)
    requires
        s.sidebar_index <= j <= SIDEBAR_MAX,
        screen_allowed(session_role(s.session), sidebar_route(j)),
    ensures
        after_downs(s, presses).sidebar_index == j,
        j > s.sidebar_index ==> after_downs(s, presses).route == sidebar_route(j),
    decreases j - s.sidebar_index,
{
    if s.sidebar_index == j {
        0
    } else {
        let role = session_role(s.session);
        next_entry_is_nearest_allowed(role, s.sidebar_index);
        let next = step(s, Action::NavigateDown).0;
        assert(next.session == s.session);
        assert(next.route == sidebar_route(next.sidebar_index));
        if next.sidebar_index == j {
            assert(after_downs(s, 1) == after_downs(next, 0));
            1
        } else {
            let rest = allowed_screens_are_reachable(next, j);
            assert(after_downs(s, rest + 1) == after_downs(next, rest));
            rest + 1
        }
    }
}

/// A signed-in teacher reaches the reports from any sidebar position above them.
pub proof fn teachers_reach_the_reports(s: AppView) -> (presses: nat)
    requires
        session_role(s.session) == Role::Teacher,
        s.sidebar_index < SIDEBAR_MAX,
    ensures
        after_downs(s, presses).route == Route::Reports,
{
    allowed_screens_are_reachable(s, SIDEBAR_MAX as nat)
}

/// When the down arrow moves the cursor from a screen the role may open, the up
/// arrow brings it back to that screen.
pub proof fn down_then_up_returns(s: AppView)
    requires
        s.sidebar_index <= SIDEBAR_MAX,
        screen_allowed(session_role(s.session), sidebar_route(s.sidebar_index)),
        next_entry(session_role(s.session), s.sidebar_index) is Some,
    ensures
        step(step(s, Action::NavigateDown).0, Action::NavigateUp).0.sidebar_index == s.sidebar_index,
        step(step(s, Action::NavigateDown).0, Action::NavigateUp).0.route
            == sidebar_route(s.sidebar_index),
{
    let role = session_role(s.session);
    let i = s.sidebar_index;
    next_entry_is_nearest_allowed(role, i);
    let j = next_entry(role, i)->0;
    prev_entry_is_nearest_allowed(role, j);
    let down = step(s, Action::NavigateDown).0;
    assert(down.sidebar_index == j);
    assert(down.session == s.session);
    match prev_entry(role, j) {
        Some(p) => {
            if p < i {
                assert(!screen_allowed(role, sidebar_route(i)));
            }
            if p > i {
                assert(!screen_allowed(role, sidebar_route(p)));
            }
        },
        None => {
            assert(!screen_allowed(role, sidebar_route(i)));
        },
    }
}

/// Switching the login field twice changes nothing.
pub proof fn toggling_twice_changes_nothing(s: AppView)
    ensures
        step(step(s, Action::InputToggleField).0, Action::InputToggleField).0 == s,
{
}

/// A backspace takes back the char just typed.
pub proof fn backspace_undoes_typing(s: AppView, c: char)
    ensures
        step(step(s, Action::InputChar(c)).0, Action::InputBackspace).0 == s,
{
    let typed = step(s, Action::InputChar(c)).0;
    assert(typed.login_form.email.drop_last() =~= s.login_form.email
        || typed.login_form.password.drop_last() =~= s.login_form.password);
    assert(step(typed, Action::InputBackspace).0.login_form =~= s.login_form);
}

/// A successful sign-in ends on the dashboard, with the sidebar cursor where it
/// was, the new session, no error and nothing loading; a failed one keeps the screen and
/// the session and shows why.
pub proof fn sign_in_outcome(s: AppView, email: String, password: String, outcome: Result<Session, String>)
    ensures
        ({
            let asked = step(s, Action::Login { email, password });
            let done = after_login(asked.0, outcome);
            &&& asked.1 == EffectView::Authenticate { email: email@, password: password@ }
            &&& asked.0.loading
            &&& !done.loading
            &&& done.login_form == s.login_form
            &&& match outcome {
                Ok(session) => done.session == Some(session) && done.route == Route::Dashboard
                    && done.sidebar_index == s.sidebar_index && done.error is None,
                Err(message) => done.session == s.session && done.route == s.route
                    && done.error == Some(message@),
            }
        }),
{
}

/// Logging out first asks for the stored session to be removed and changes
/// nothing yet; once it is removed the client is on an empty login screen with
/// no box open, whatever it showed before.
pub proof fn logout_returns_to_login(s: AppView)
    ensures
        step(s, Action::Logout) == (s, EffectView::DeleteSession),
        after_logout(s).route == Route::Login,
        after_logout(s).session is None,
        after_logout(s).error is None,
        after_logout(s).modal == Modal::Closed,
        after_logout(s).login_form == (LoginFormView {
            email: Seq::empty(),
            password: Seq::empty(),
            active_field: LoginField::Email,
        }),
        after_logout(after_logout(s)) == after_logout(s),
{
}

/// Whether `action` fetches a list: the arrows in the sidebar and the load actions.
pub open spec fn fetches(action: Action) -> bool {
    action is NavigateDown || action is NavigateUp || action is LoadUsers || action is LoadClasses
        || action is LoadTasks || action is LoadReports
}

/// Only fetching actions change the lists, and then only to mark them as on
/// their way; only `SetFocus` moves the focus; the cursor moves only by navigation;
/// finished requests leave the focus alone.
pub proof fn what_actions_leave_alone(s: AppView, action: Action, outcome: Result<Session, String>)
    ensures
        !fetches(action) ==> {
            &&& step(s, action).0.users == s.users
            &&& step(s, action).0.classes == s.classes
            &&& step(s, action).0.tasks == s.tasks
            &&& step(s, action).0.reports == s.reports
        },
        fetches(action) ==> {
            &&& (step(s, action).0.users == s.users || step(s, action).0.users is Loading)
            &&& (step(s, action).0.classes == s.classes || step(s, action).0.classes is Loading)
            &&& (step(s, action).0.tasks == s.tasks || step(s, action).0.tasks is Loading)
            &&& (step(s, action).0.reports == s.reports || step(s, action).0.reports is Loading)
        },
        !(action is SetFocus) ==> step(s, action).0.focus == s.focus,
        !(action is NavigateDown || action is NavigateUp)
            ==> step(s, action).0.sidebar_index == s.sidebar_index,
        after_login(s, outcome).focus == s.focus,
        after_logout(s).focus == s.focus,
{
}

/// Every box an action opens is one the signed-in role may open.
#[verifier::rlimit(40)]
pub proof fn boxes_respect_roles(s: AppView, action: Action)
    ensures
        step(s, action).0.modal != s.modal && step(s, action).0.modal != Modal::Closed
            ==> modal_allowed(session_role(s.session), step(s, action).0.modal),
{
    boxes_stay_allowed_by(s, action);
}

/// Once the role may open the box on display, it may open every box that
/// follows, whatever the action, as long as the session stays: only a new
/// session changes the role.
#[verifier::rlimit(40)]
pub proof fn boxes_stay_allowed(s: AppView, action: Action)
    requires
        modal_allowed(session_role(s.session), s.modal),
        !(action is LoginSuccess),
    ensures
        modal_allowed(session_role(step(s, action).0.session), step(s, action).0.modal),
{
    boxes_stay_allowed_by(s, action);
}

/// The session stays unless a sign-in succeeds, and the box changes only to
/// one the role may open or to none.
#[verifier::rlimit(40)]
proof fn boxes_stay_allowed_by(s: AppView, action: Action)
    ensures
        !(action is LoginSuccess) ==> step(s, action).0.session == s.session,
        step(s, action).0.modal == s.modal || step(s, action).0.modal == Modal::Closed
            || modal_allowed(session_role(s.session), step(s, action).0.modal),
{
    match action {
        Action::OpenAddUserModal | Action::OpenEditUserModal | Action::OpenConfirmDeleteModal => {},
        Action::OpenAddClassModal | Action::OpenEditClassModal | Action::OpenConfirmDeleteClassModal => {},
        Action::OpenAddTaskModal | Action::OpenEditTaskModal | Action::OpenConfirmDeleteTaskModal => {},
        Action::OpenSubmitModal | Action::OpenSubmissionsModal | Action::OpenGradeModal => {},
        Action::NavigateDown | Action::NavigateUp => {},
        Action::ClassFormChar(_) | Action::ClassFormBackspace | Action::ClassFormNextField
        | Action::ClassPickerUp | Action::ClassPickerDown | Action::ClassPickerSelect => {},
        Action::UserFormChar(_) | Action::UserFormBackspace | Action::UserFormNextField
        | Action::UserFormCycleRole | Action::SubmitUserForm | Action::SubmitClassForm => {},
        Action::CloseUserModal | Action::CloseClassModal | Action::CloseTaskModal
        | Action::CloseSubmissionModal => {},
        Action::ConfirmDeleteUser | Action::ConfirmDeleteClass | Action::ConfirmDeleteTask => {},
        _ => {},
    }
}

/// The box drawn is always one the signed-in role may open, so no one but an
/// administrator ever sees a user or class box, and a student never sees a
/// task, submission list or grading box.
pub proof fn drawn_boxes_respect_roles(s: AppView)
    ensures
        modal_allowed(session_role(s.session), shown(s)),
        session_role(s.session) != Role::Admin ==> {
            &&& shown(s) != Modal::AddUser
            &&& shown(s) != Modal::EditUser
            &&& shown(s) != Modal::ConfirmDeleteUser
            &&& shown(s) != Modal::AddClass
            &&& shown(s) != Modal::EditClass
            &&& shown(s) != Modal::ConfirmDeleteClass
        },
{
}

/// The content pane shows the user list only to administrators and the reports
/// only to teachers; everyone else sees that access is restricted.
pub proof fn panels_respect_roles(s: AppView)
    ensures
        s.route == Route::Users && session_role(s.session) != Role::Admin
            ==> panel_for(s) == PanelView::Restricted,
        s.route == Route::Reports && session_role(s.session) != Role::Teacher
            ==> panel_for(s) == PanelView::Restricted,
{
}

/// The sidebar lists exactly the screens a role may open, other than the login screen.
pub proof fn the_menu_lists_the_allowed_screens(role: Role, route: Route)
    requires
        route != Route::Login,
    ensures
        menu(role).contains(route) <==> screen_allowed(role, route),
{
    let m = menu(role);
    if screen_allowed(role, route) {
        let k: int = match (role, route) {
            (_, Route::Dashboard) => 0,
            (Role::Admin, Route::Users) => 1,
            (Role::Admin, Route::Classes) => 2,
            (Role::Admin, _) => 3,
            (_, Route::Classes) => 1,
            (_, Route::Tasks) => 2,
            _ => 3,
        };
        assert(m[k] == route);
    } else {
        assert forall|k: int| 0 <= k < m.len() implies m[k] != route by {}
    }
}

/// A token with no `.` carries no payload, so its holder is a student.
pub proof fn token_without_payload_means_student(token: Seq<char>)
    requires
        !token.contains('.'),
    ensures
        role_or_student(role_claim(token)) == "student"@,
{
    assert(second_part(token) is None) by {
        if exists|i: int, j: int| bounds_second_part(token, i, j) {
            let (i, j) = choose|i: int, j: int| bounds_second_part(token, i, j);
            assert(token[i] == '.');
            assert(token.contains('.'));
        }
    }
}

/// The position, at or before `k`, where the first word starts.
proof fn word_start(s: Seq<char>, k: int) -> (i: int)
    requires
        0 <= k < s.len(),
        !is_white_space(s[k]),
    ensures
        0 <= i <= k,
        !is_white_space(s[i]),
        forall|m: int| 0 <= m < i ==> is_white_space(#[trigger] s[m]),
    decreases k,
{
    if exists|m: int| 0 <= m < k && !is_white_space(s[m]) {
        let m = choose|m: int| 0 <= m < k && !is_white_space(s[m]);
        word_start(s, m)
    } else {
        k
    }
}

/// The position where a word that runs from `i` past `j` ends.
proof fn word_end(s: Seq<char>, i: int, j: int) -> (e: int)
    requires
        0 <= i < j <= s.len(),
        forall|m: int| i <= m < j ==> !is_white_space(#[trigger] s[m]),
    ensures
        j <= e <= s.len(),
        forall|m: int| i <= m < e ==> !is_white_space(#[trigger] s[m]),
        e == s.len() || is_white_space(s[e]),
    decreases s.len() - j,
{
    if j < s.len() && !is_white_space(s[j]) {
        word_end(s, i, j + 1)
    } else {
        j
    }
}

/// The short name of a name with a word is a non-empty run of chars without spaces.
pub proof fn short_names_have_no_spaces(name: Seq<char>)
    requires
        exists|k: int| 0 <= k < name.len() && !is_white_space(name[k]),
    ensures
        first_word(name).len() > 0,
        forall|k: int| 0 <= k < first_word(name).len() ==> !is_white_space(first_word(name)[k]),
{
    let k = choose|k: int| 0 <= k < name.len() && !is_white_space(name[k]);
    let i = word_start(name, k);
    let j = word_end(name, i, i + 1);
    assert(bounds_first_word(name, i, j));
    let (a, b) = choose|a: int, b: int| bounds_first_word(name, a, b);
    first_word_bounds_are_unique(name, i, j, a, b);
}

/// A picker's cursor stays inside its window of visible rows whatever the
/// arrows do, and stays on a row of the list once it is on one.
pub proof fn the_picker_cursor_stays_in_view(cursor: nat, scroll: nat, len: Option<nat>)
    requires
        scroll <= cursor < scroll + PICKER_VISIBLE_ROWS,
    ensures
        ({
            let (c, top) = picker_down(cursor, scroll, len);
            top <= c < top + PICKER_VISIBLE_ROWS
        }),
        ({
            let (c, top) = picker_up(cursor, scroll);
            top <= c < top + PICKER_VISIBLE_ROWS
        }),
        forall|n: nat| len == Some(n) && cursor < n ==> #[trigger] picker_down(cursor, scroll, len).0 < n
            && picker_up(cursor, scroll).0 < n,
{
}

/// Choosing a student row that is already chosen takes it out, and choosing
/// one that is not adds it; no other row changes, no row is ever chosen
/// twice, and choosing a new row twice leaves the choice as it was.
pub proof fn choosing_a_row_flips_it(chosen: Seq<usize>, c: usize)
    requires
        chosen.no_duplicates(),
    ensures
        toggled(chosen, c).no_duplicates(),
        toggled(chosen, c).contains(c) == !chosen.contains(c),
        forall|x: usize| x != c ==> toggled(chosen, c).contains(x) == chosen.contains(x),
        !chosen.contains(c) ==> toggled(toggled(chosen, c), c) == chosen,
{
    if chosen.contains(c) {
        let k = choose|k: int| 0 <= k < chosen.len() && chosen[k] == c;
        assert(first_position(chosen, c, k));
        let i = choose|i: int| first_position(chosen, c, i);
        assert(i == k);
        let rest = chosen.remove(i);
        assert forall|j: int| 0 <= j < rest.len() implies rest[j] != c by {
            if j < i {
                assert(rest[j] == chosen[j]);
            } else {
                assert(rest[j] == chosen[j + 1]);
            }
        }
        assert forall|x: usize| x != c implies rest.contains(x) == chosen.contains(x) by {
            if chosen.contains(x) {
                let m = choose|m: int| 0 <= m < chosen.len() && chosen[m] == x;
                if m < i {
                    assert(rest[m] == x);
                } else {
                    assert(m != i);
                    assert(rest[m - 1] == x);
                }
            }
            if rest.contains(x) {
                let m = choose|m: int| 0 <= m < rest.len() && rest[m] == x;
                if m < i {
                    assert(chosen[m] == x);
                } else {
                    assert(chosen[m + 1] == x);
                }
            }
        }
        assert forall|a: int, b: int| 0 <= a < b < rest.len() implies rest[a] != rest[b] by {
            let a0 = if a < i { a } else { a + 1 };
            let b0 = if b < i { b } else { b + 1 };
            assert(rest[a] == chosen[a0]);
            assert(rest[b] == chosen[b0]);
        }
    } else {
        let pushed = chosen.push(c);
        assert(pushed.last() == c);
        assert forall|x: usize| x != c implies pushed.contains(x) == chosen.contains(x) by {
            if pushed.contains(x) {
                let m = choose|m: int| 0 <= m < pushed.len() && pushed[m] == x;
                assert(chosen[m] == x);
            }
            if chosen.contains(x) {
                let m = choose|m: int| 0 <= m < chosen.len() && chosen[m] == x;
                assert(pushed[m] == x);
            }
        }
        assert forall|a: int, b: int| 0 <= a < b < pushed.len() implies pushed[a] != pushed[b] by {
            if b == chosen.len() {
                assert(pushed[a] == chosen[a]);
            }
        }
        let last = chosen.len() as int;
        assert(first_position(pushed, c, last));
        assert(pushed.contains(c));
        let i = choose|i: int| first_position(pushed, c, i);
        if i < last {
            assert(pushed[i] == chosen[i]);
        }
        assert(i == last);
        assert(pushed.remove(i) =~= chosen);
    }
}

/// The space bar on the role field goes round the three roles and is back
/// after three presses.
pub proof fn the_role_comes_round(role: Seq<char>)
    requires
        role == "student"@ || role == "teacher"@ || role == "admin"@,
    ensures
        next_role(next_role(next_role(role))) == role,
        next_role(role) != role,
{
    reveal_strlit("student");
    reveal_strlit("teacher");
    reveal_strlit("admin");
    assert("student"@[0] != "teacher"@[0]);
    assert("student"@[0] != "admin"@[0]);
    assert("teacher"@[0] != "admin"@[0]);
    assert("student"@ != "teacher"@);
    assert("student"@ != "admin"@);
    assert("teacher"@ != "admin"@);
}

/// The class form is sound: each picker's cursor is inside its window, and no
/// student is chosen twice.
pub open spec fn class_form_sound(form: ClassFormView) -> bool {
    &&& form.teacher_scroll <= form.teacher_cursor < form.teacher_scroll + PICKER_VISIBLE_ROWS
    &&& form.student_scroll <= form.student_cursor < form.student_scroll + PICKER_VISIBLE_ROWS
    &&& form.selected_students.no_duplicates()
}

/// A class form starts sound and every key that edits it keeps it sound.
pub proof fn class_forms_stay_sound(
    form: ClassFormView,
    teachers: Resource<Vec<User>>,
    students: Resource<Vec<User>>,
    action: Action,
)
    requires
        class_form_sound(form),
    ensures
        class_form_sound(empty_class_form()),
        class_form_sound(edit_class(form, teachers, students, action)),
{
    the_picker_cursor_stays_in_view(form.teacher_cursor, form.teacher_scroll, loaded_len(teachers));
    the_picker_cursor_stays_in_view(form.student_cursor, form.student_scroll, loaded_len(students));
    choosing_a_row_flips_it(form.selected_students, form.student_cursor as usize);
    assert(Seq::<usize>::empty().no_duplicates());
}

/// On a list screen with no box open, a role that may manage the list gets
/// from `a` the list's add box, from `e` the edit box of the selected item and
/// from `d` the removal box of the selected item: three different boxes.
pub proof fn shortcuts_open_the_boxes_of_their_list(s: AppView, c: char, control: bool)
    requires
        s.route != Route::Login,
        s.modal == Modal::Closed,
    ensures
        ({
            let m = key_meaning(s, KeyPress { key: Key::Char(c), control: control });
            let role = session_role(s.session);
            &&& s.route == Route::Users && role == Role::Admin ==> {
                &&& c == 'a' ==> m == Meaning::Do(Action::OpenAddUserModal)
                &&& c == 'e' ==> m == Meaning::Do(Action::OpenEditUserModal)
                &&& c == 'd' ==> m == Meaning::Do(Action::OpenConfirmDeleteModal)
            }
            &&& s.route == Route::Classes && role == Role::Admin ==> {
                &&& c == 'a' ==> m == Meaning::Do(Action::OpenAddClassModal)
                &&& c == 'e' ==> m == Meaning::Do(Action::OpenEditClassModal)
                &&& c == 'd' ==> m == Meaning::Do(Action::OpenConfirmDeleteClassModal)
            }
            &&& s.route == Route::Tasks && (role == Role::Admin || role == Role::Teacher) ==> {
                &&& c == 'a' ==> m == Meaning::Do(Action::OpenAddTaskModal)
                &&& c == 'e' ==> m == Meaning::Do(Action::OpenEditTaskModal)
                &&& c == 'd' ==> m == Meaning::Do(Action::OpenConfirmDeleteTaskModal)
            }
        }),
{
}

/// The space bar on the teacher picker chooses the row under the cursor, and
/// on the student picker takes the row under the cursor in or out of the
/// choice; nothing else in the form changes.
pub proof fn choosing_takes_the_row_under_the_cursor(
    form: ClassFormView,
    teachers: Resource<Vec<User>>,
    students: Resource<Vec<User>>,
)
    requires
        form.selected_students.no_duplicates(),
    ensures
        ({
            let after = edit_class(form, teachers, students, Action::ClassPickerSelect);
            &&& form.active_field == ClassFormField::TeacherPicker && loaded_len(teachers) is Some
                && form.teacher_cursor < loaded_len(teachers)->0 ==> {
                &&& after.selected_teacher == Some(form.teacher_cursor as usize)
                &&& after.selected_students == form.selected_students
                &&& after.teacher_cursor == form.teacher_cursor
                &&& after.period == form.period && after.grade == form.grade
            }
            &&& form.active_field == ClassFormField::StudentPicker && loaded_len(students) is Some
                && form.student_cursor < loaded_len(students)->0 ==> {
                &&& after.selected_teacher == form.selected_teacher
                &&& after.selected_students.contains(form.student_cursor as usize)
                    == !form.selected_students.contains(form.student_cursor as usize)
                &&& forall|x: usize| x != form.student_cursor as usize
                    ==> after.selected_students.contains(x) == form.selected_students.contains(x)
            }
        }),
{
    choosing_a_row_flips_it(form.selected_students, form.student_cursor as usize);
}

/// Saving a user box sends what the form holds: a new user with the form's
/// name, email, password and role, or, for the selected user, a change to the
/// form's name, email and role, with the password only when one was typed.
/// The state itself does not change.
pub proof fn saving_a_user_sends_the_form(s: AppView)
    ensures
        step(s, Action::SubmitUserForm).0 == s,
        s.modal == Modal::AddUser ==> step(s, Action::SubmitUserForm).1 == (EffectView::CreateUser {
            name: s.user_form.name,
            email: s.user_form.email,
            password: s.user_form.password,
            role: s.user_form.role,
        }),
        forall|list: Vec<User>| s.modal == Modal::EditUser && s.users == Resource::Success(list)
            && s.selected_user_index < list@.len() ==> #[trigger] step(s, Action::SubmitUserForm).1
            == (EffectView::UpdateUser {
                id: list@[s.selected_user_index as int].id,
                name: s.user_form.name,
                email: s.user_form.email,
                password: if s.user_form.password.len() == 0 { None } else { Some(s.user_form.password) },
                role: s.user_form.role,
            }),
{
}

/// Confirming a removal removes the selected row of the loaded list, the one
/// the removal box names, and closes the box.
pub proof fn confirming_removes_the_named_row(s: AppView)
    ensures
        forall|list: Vec<User>| s.modal == Modal::ConfirmDeleteUser && s.users == Resource::Success(list)
            && s.selected_user_index < list@.len() ==> {
            &&& #[trigger] step(s, Action::ConfirmDeleteUser).1
                == EffectView::DeleteUser(list@[s.selected_user_index as int].id)
            &&& name_at(s.users, s.selected_user_index as int) == list@[s.selected_user_index as int].name@
        },
        forall|list: Vec<ClassRoom>| s.modal == Modal::ConfirmDeleteClass && s.classes == Resource::Success(list)
            && s.selected_class_index < list@.len() ==> {
            &&& #[trigger] step(s, Action::ConfirmDeleteClass).1
                == EffectView::DeleteClass(list@[s.selected_class_index as int].id)
            &&& class_title_at(s.classes, s.selected_class_index as int)
                == list@[s.selected_class_index as int].title@
        },
        forall|list: Vec<Task>| s.modal == Modal::ConfirmDeleteTask && s.tasks == Resource::Success(list)
            && s.selected_task_index < list@.len() ==> {
            &&& #[trigger] step(s, Action::ConfirmDeleteTask).1
                == EffectView::DeleteTask(list@[s.selected_task_index as int].id@)
            &&& task_title_at(s.tasks, s.selected_task_index as int)
                == list@[s.selected_task_index as int].title@
        },
        s.modal == Modal::ConfirmDeleteUser ==> step(s, Action::ConfirmDeleteUser).0.modal == Modal::Closed,
        s.modal == Modal::ConfirmDeleteClass ==> step(s, Action::ConfirmDeleteClass).0.modal == Modal::Closed,
        s.modal == Modal::ConfirmDeleteTask ==> step(s, Action::ConfirmDeleteTask).0.modal == Modal::Closed,
{
}

/// Who may open which box: the user and class boxes only administrators, the
/// task boxes, the submission list and the grading box administrators and
/// teachers, the answer box only students.
pub proof fn who_opens_which_box(role: Role)
    ensures
        modal_allowed(role, Modal::AddUser) == (role == Role::Admin),
        modal_allowed(role, Modal::EditUser) == (role == Role::Admin),
        modal_allowed(role, Modal::ConfirmDeleteUser) == (role == Role::Admin),
        modal_allowed(role, Modal::AddClass) == (role == Role::Admin),
        modal_allowed(role, Modal::EditClass) == (role == Role::Admin),
        modal_allowed(role, Modal::ConfirmDeleteClass) == (role == Role::Admin),
        modal_allowed(role, Modal::AddTask) == (role == Role::Admin || role == Role::Teacher),
        modal_allowed(role, Modal::EditTask) == (role == Role::Admin || role == Role::Teacher),
        modal_allowed(role, Modal::ConfirmDeleteTask) == (role == Role::Admin || role == Role::Teacher),
        modal_allowed(role, Modal::Submissions) == (role == Role::Admin || role == Role::Teacher),
        modal_allowed(role, Modal::Grade) == (role == Role::Admin || role == Role::Teacher),
        modal_allowed(role, Modal::Submit) == (role == Role::Student),
        modal_allowed(role, Modal::Closed),
{
}

/// Asking for a task box as an administrator or a teacher opens it.
pub proof fn staff_open_the_task_boxes(s: AppView)
    requires
        session_role(s.session) == Role::Admin || session_role(s.session) == Role::Teacher,
    ensures
        step(s, Action::OpenAddTaskModal).0.modal == Modal::AddTask,
        step(s, Action::OpenEditTaskModal).0.modal == Modal::EditTask,
        step(s, Action::OpenConfirmDeleteTaskModal).0.modal == Modal::ConfirmDeleteTask,
{
}

/// When every chosen row lies in the list, the ids sent are those of the
/// chosen rows, one per row, in the order they were chosen.
pub proof fn chosen_rows_give_their_ids(people: Seq<User>, chosen: Seq<usize>)
    requires
        forall|k: int| 0 <= k < chosen.len() ==> chosen[k] < people.len(),
    ensures
        ids_of(people, chosen).len() == chosen.len(),
        forall|k: int| 0 <= k < chosen.len() ==> #[trigger] ids_of(people, chosen)[k] == people[chosen[k] as int].id,
    decreases chosen.len(),
{
    if chosen.len() > 0 {
        let rest = chosen.drop_last();
        chosen_rows_give_their_ids(people, rest);
        assert forall|k: int| 0 <= k < chosen.len() implies #[trigger] ids_of(people, chosen)[k]
            == people[chosen[k] as int].id by {
            if k < chosen.len() - 1 {
                assert(rest[k] == chosen[k]);
            }
        }
    }
}

/// Saving a class box sends what the form holds: its period and grade, the id
/// of the teacher under the chosen row, and the ids of the chosen students in
/// the order they were chosen; an edit goes to the selected class. The state
/// itself does not change.
pub proof fn saving_a_class_sends_the_form(s: AppView)
    ensures
        step(s, Action::SubmitClassForm).0 == s,
        s.modal == Modal::AddClass ==> (step(s, Action::SubmitClassForm).1 matches EffectView::CreateClass {
            period,
            grade,
            ..
        } && period == s.class_form.period && grade == s.class_form.grade),
        forall|list: Vec<ClassRoom>| s.modal == Modal::EditClass && s.classes == Resource::Success(list)
            && s.selected_class_index < list@.len() ==> (#[trigger] step(s, Action::SubmitClassForm).1 matches EffectView::UpdateClass {
            id,
            period,
            grade,
            ..
        } && id == list@[s.selected_class_index as int].id && period == s.class_form.period
            && grade == s.class_form.grade),
        forall|teachers: Vec<User>, i: usize| (s.modal == Modal::AddClass || s.modal == Modal::EditClass)
            && s.available_teachers == Resource::Success(teachers)
            && s.class_form.selected_teacher == Some(i) && i < teachers@.len()
            ==> #[trigger] chosen_teacher(Resource::Success(teachers), Some(i)) == Some(teachers@[i as int].id),
        s.class_form.selected_teacher is None ==> chosen_teacher(s.available_teachers, s.class_form.selected_teacher) is None,
        s.modal == Modal::AddClass ==> (step(s, Action::SubmitClassForm).1 matches EffectView::CreateClass {
            teacher,
            students,
            ..
        } && teacher == chosen_teacher(s.available_teachers, s.class_form.selected_teacher)
            && students == chosen_ids_of(s.available_students, s.class_form.selected_students)),
{
}

/// The students sent with a class are the ids of the chosen rows of the
/// loaded student list, one per chosen row, in the order they were chosen.
pub proof fn chosen_students_give_their_ids(students: Vec<User>, chosen: Seq<usize>)
    requires
        forall|k: int| 0 <= k < chosen.len() ==> chosen[k] < students@.len(),
    ensures
        chosen_ids_of(Resource::Success(students), chosen).len() == chosen.len(),
        forall|k: int| 0 <= k < chosen.len() ==> #[trigger] chosen_ids_of(Resource::Success(students), chosen)[k]
            == students@[chosen[k] as int].id,
{
    chosen_rows_give_their_ids(students@, chosen);
}

/// In an open user box a typed char goes to the end of the active text field
/// and a backspace takes the last char of it; the other fields stay. Tab goes
/// from name to email to password to role and back to name. Without a user
/// box open these keys change nothing.
pub proof fn typing_in_the_user_form(s: AppView, c: char)
    ensures
        ({
            let f = s.user_form;
            let typed = step(s, Action::UserFormChar(c)).0.user_form;
            let erased = step(s, Action::UserFormBackspace).0.user_form;
            let next = step(s, Action::UserFormNextField).0.user_form.active_field;
            &&& (s.modal == Modal::AddUser || s.modal == Modal::EditUser) ==> {
                &&& f.active_field == UserFormField::Name ==> typed.name == f.name.push(c)
                    && typed.email == f.email && typed.password == f.password
                &&& f.active_field == UserFormField::Email ==> typed.email == f.email.push(c)
                    && typed.name == f.name && typed.password == f.password
                &&& f.active_field == UserFormField::Password ==> typed.password == f.password.push(c)
                    && typed.name == f.name && typed.email == f.email
                &&& f.active_field == UserFormField::Role ==> typed == f
                &&& typed.role == f.role
                &&& f.active_field == UserFormField::Email && f.email.len() > 0
                    ==> erased.email == f.email.drop_last() && erased.name == f.name
                &&& f.active_field == UserFormField::Name ==> next == UserFormField::Email
                &&& f.active_field == UserFormField::Email ==> next == UserFormField::Password
                &&& f.active_field == UserFormField::Password ==> next == UserFormField::Role
                &&& f.active_field == UserFormField::Role ==> next == UserFormField::Name
            }
            &&& !(s.modal == Modal::AddUser || s.modal == Modal::EditUser) ==> {
                &&& step(s, Action::UserFormChar(c)).0 == s
                &&& step(s, Action::UserFormBackspace).0 == s
                &&& step(s, Action::UserFormNextField).0 == s
            }
        }),
{
}

/// In an open class box a typed char goes to the end of the period or grade
/// field, whichever is active, and Tab goes from period to grade to the
/// teacher picker to the student picker and back to period.
pub proof fn typing_in_the_class_form(s: AppView, c: char)
    requires
        s.modal == Modal::AddClass || s.modal == Modal::EditClass,
    ensures
        ({
            let f = s.class_form;
            let typed = step(s, Action::ClassFormChar(c)).0.class_form;
            let next = step(s, Action::ClassFormNextField).0.class_form.active_field;
            &&& f.active_field == ClassFormField::Period ==> typed.period == f.period.push(c) && typed.grade == f.grade
            &&& f.active_field == ClassFormField::Grade ==> typed.grade == f.grade.push(c) && typed.period == f.period
            &&& f.active_field == ClassFormField::Period ==> next == ClassFormField::Grade
            &&& f.active_field == ClassFormField::Grade ==> next == ClassFormField::TeacherPicker
            &&& f.active_field == ClassFormField::TeacherPicker ==> next == ClassFormField::StudentPicker
            &&& f.active_field == ClassFormField::StudentPicker ==> next == ClassFormField::Period
        }),
{
}

/// The arrows move a picker's cursor one row, never past the ends of a loaded
/// list, and not at all while the list is not loaded.
pub proof fn picker_arrows_move_one_row(cursor: nat, scroll: nat, len: Option<nat>)
    ensures
        forall|n: nat| len == Some(n) ==> #[trigger] picker_down(cursor, scroll, len).0
            == if cursor + 1 < n { cursor + 1 } else { cursor },
        len is None ==> picker_down(cursor, scroll, len) == (cursor, scroll),
        picker_up(cursor, scroll).0 == if cursor > 0 { (cursor - 1) as nat } else { cursor },
{
}

/// The edit box of a user starts with the selected user's name and email, no
/// password and the student role, and an add box starts empty.
pub proof fn user_boxes_start_from_the_selection(s: AppView)
    requires
        session_role(s.session) == Role::Admin,
    ensures
        forall|list: Vec<User>| s.users == Resource::Success(list) && s.selected_user_index < list@.len() ==> {
            let f = (#[trigger] step(s, Action::OpenEditUserModal)).0.user_form;
            &&& f.name == list@[s.selected_user_index as int].name@
            &&& f.email == list@[s.selected_user_index as int].email@
            &&& f.password.len() == 0
        },
        step(s, Action::OpenEditUserModal).0.modal == Modal::EditUser,
        step(s, Action::OpenAddUserModal).0.modal == Modal::AddUser,
        step(s, Action::OpenAddUserModal).0.user_form.name.len() == 0,
        step(s, Action::OpenAddUserModal).0.user_form.email.len() == 0,
        step(s, Action::OpenAddUserModal).0.user_form.password.len() == 0,
{
}

} // verus!
