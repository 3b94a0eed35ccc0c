//! Which action a key press asks for on each screen.
use vstd::prelude::*;
use crate::access::{role_of, session_role, Role};
use crate::actions::Action;
use crate::state::{
    loaded_count, loaded_len, AppState, AppView, ClassFormField, Focus, Modal, Route, UserFormField,
};

verus! {

/// The keys the client reacts to.
#[derive(Debug, Clone, Copy, PartialEq, Eq, Structural)]
pub enum Key {
    Char(char),
    Tab,
    Backspace,
    Enter,
    Esc,
    Up,
    Down,
    Left,
    Right,
    Other,
}

/// A key with the state of the control modifier: `control` holds when Ctrl
/// alone is pressed with the key.
#[derive(Debug, Clone, Copy, PartialEq, Eq, Structural)]
pub struct KeyPress {
    pub key: Key,
    pub control: bool,
}

/// What the main loop does with a key press.
pub enum Command {
    /// Leave the program.
    Quit,
    /// Hand this action to the reducer.
    Dispatch(Action),
    /// Nothing.
    Ignore,
}

/// What a key press means: leave, nothing, sign in with the login form's texts,
/// or one action that carries no text.
pub enum Meaning {
    Quit,
    Ignore,
    SignIn,
    Do(Action),
}

/// The selection move of an arrow in a list of `len` items whose row `index` is
/// selected: down to the next row, up to the previous one, never past the ends.
pub open spec fn row_move(len: Option<nat>, index: nat, down: bool) -> Option<nat> {
    match len {
        Some(n) => if down {
            if index + 1 < n { Some(index + 1) } else { None }
        } else {
            if index > 0 && index <= n { Some((index - 1) as nat) } else { None }
        },
        None => None,
    }
}

/// An arrow in the content pane: it moves the selection of the screen's list.
pub open spec fn list_move(s: AppView, down: bool) -> Meaning {
    match s.route {
        Route::Users => match row_move(loaded_len(s.users), s.selected_user_index, down) {
            Some(i) => Meaning::Do(Action::SelectUser(i as usize)),
            None => Meaning::Ignore,
        },
        Route::Classes => match row_move(loaded_len(s.classes), s.selected_class_index, down) {
            Some(i) => Meaning::Do(Action::SelectClass(i as usize)),
            None => Meaning::Ignore,
        },
        Route::Tasks => match row_move(loaded_len(s.tasks), s.selected_task_index, down) {
            Some(i) => Meaning::Do(Action::SelectTask(i as usize)),
            None => Meaning::Ignore,
        },
        _ => Meaning::Ignore,
    }
}

/// The add, edit and remove shortcuts `a`, `e` and `d`, where the role may use them.
pub open spec fn edit_key(s: AppView, c: char) -> Meaning {
    let role = session_role(s.session);
    let which = if c == 'a' { 0int } else if c == 'e' { 1int } else { 2int };
    match s.route {
        Route::Users => if role == Role::Admin {
            Meaning::Do(if which == 0 { Action::OpenAddUserModal } else if which == 1 {
                Action::OpenEditUserModal
            } else {
                Action::OpenConfirmDeleteModal
            })
        } else {
            Meaning::Ignore
        },
        Route::Classes => if role == Role::Admin {
            Meaning::Do(if which == 0 { Action::OpenAddClassModal } else if which == 1 {
                Action::OpenEditClassModal
            } else {
                Action::OpenConfirmDeleteClassModal
            })
        } else {
            Meaning::Ignore
        },
        Route::Tasks => if role != Role::Student {
            Meaning::Do(if which == 0 { Action::OpenAddTaskModal } else if which == 1 {
                Action::OpenEditTaskModal
            } else {
                Action::OpenConfirmDeleteTaskModal
            })
        } else {
            Meaning::Ignore
        },
        _ => Meaning::Ignore,
    }
}

/// A key on a screen other than the login screen, with no box open.
pub open spec fn screen_key(s: AppView, press: KeyPress) -> Meaning {
    match press.key {
        Key::Char(c) => if c == 'q' {
            Meaning::Quit
        } else if c == 'l' {
            Meaning::Do(Action::Logout)
        } else if c == 'a' || c == 'e' || c == 'd' {
            edit_key(s, c)
        } else if c == 's' && s.route == Route::Tasks {
            if session_role(s.session) == Role::Student {
                Meaning::Do(Action::OpenSubmitModal)
            } else {
                Meaning::Do(Action::OpenSubmissionsModal)
            }
        } else if c == 'o' && s.route == Route::Tasks {
            Meaning::Do(Action::OpenTaskFile)
        } else {
            Meaning::Ignore
        },
        Key::Left => Meaning::Do(Action::SetFocus(Focus::Sidebar)),
        Key::Right => Meaning::Do(Action::SetFocus(Focus::Content)),
        Key::Down => if s.focus == Focus::Sidebar {
            Meaning::Do(Action::NavigateDown)
        } else {
            list_move(s, true)
        },
        Key::Up => if s.focus == Focus::Sidebar {
            Meaning::Do(Action::NavigateUp)
        } else {
            list_move(s, false)
        },
        _ => Meaning::Ignore,
    }
}

/// The action that closes `modal`.
pub open spec fn close_action(modal: Modal) -> Action {
    match modal {
        Modal::AddUser | Modal::EditUser | Modal::ConfirmDeleteUser => Action::CloseUserModal,
        Modal::AddClass | Modal::EditClass | Modal::ConfirmDeleteClass => Action::CloseClassModal,
        Modal::AddTask | Modal::EditTask | Modal::ConfirmDeleteTask => Action::CloseTaskModal,
        _ => Action::CloseSubmissionModal,
    }
}

/// A key in the user form: Tab moves to the next field, Backspace erases, Enter
/// saves, the space bar on the role field cycles the role, and any other char
/// is typed.
pub open spec fn user_form_key(field: UserFormField, key: Key) -> Meaning {
    match key {
        Key::Tab => Meaning::Do(Action::UserFormNextField),
        Key::Backspace => Meaning::Do(Action::UserFormBackspace),
        Key::Enter => Meaning::Do(Action::SubmitUserForm),
        Key::Char(c) => if c == ' ' && field == UserFormField::Role {
            Meaning::Do(Action::UserFormCycleRole)
        } else {
            Meaning::Do(Action::UserFormChar(c))
        },
        _ => Meaning::Ignore,
    }
}

/// A key in the class form: Tab moves to the next field, Backspace erases, the
/// arrows move the active picker, the space bar on a picker chooses its row,
/// Enter saves, and any other char is typed.
pub open spec fn class_form_key(field: ClassFormField, key: Key) -> Meaning {
    match key {
        Key::Tab => Meaning::Do(Action::ClassFormNextField),
        Key::Backspace => Meaning::Do(Action::ClassFormBackspace),
        Key::Enter => Meaning::Do(Action::SubmitClassForm),
        Key::Up => Meaning::Do(Action::ClassPickerUp),
        Key::Down => Meaning::Do(Action::ClassPickerDown),
        Key::Char(c) => if c == ' ' && (field == ClassFormField::TeacherPicker
            || field == ClassFormField::StudentPicker) {
            Meaning::Do(Action::ClassPickerSelect)
        } else {
            Meaning::Do(Action::ClassFormChar(c))
        },
        _ => Meaning::Ignore,
    }
}

/// A key while a box is open: Esc (or `n` in a removal box) closes it, Enter (or
/// `y`) confirms a removal, the form boxes take the keys that edit them, and `g`
/// grades from the submission list.
pub open spec fn modal_key(s: AppView, press: KeyPress) -> Meaning {
    let confirming = s.modal == Modal::ConfirmDeleteUser || s.modal == Modal::ConfirmDeleteClass
        || s.modal == Modal::ConfirmDeleteTask;
    let yes = press.key == Key::Enter || press.key == Key::Char('y');
    let no = press.key == Key::Esc || (confirming && press.key == Key::Char('n'));
    if no {
        Meaning::Do(close_action(s.modal))
    } else if confirming && yes {
        Meaning::Do(
            if s.modal == Modal::ConfirmDeleteUser {
                Action::ConfirmDeleteUser
            } else if s.modal == Modal::ConfirmDeleteClass {
                Action::ConfirmDeleteClass
            } else {
                Action::ConfirmDeleteTask
            },
        )
    } else if s.modal == Modal::AddUser || s.modal == Modal::EditUser {
        user_form_key(s.user_form.active_field, press.key)
    } else if s.modal == Modal::AddClass || s.modal == Modal::EditClass {
        class_form_key(s.class_form.active_field, press.key)
    } else if s.modal == Modal::Submissions && press.key == Key::Char('g')
        && session_role(s.session) != Role::Student {
        Meaning::Do(Action::OpenGradeModal)
    } else {
        Meaning::Ignore
    }
}

/// What `press` means while `s` is on display. On the login screen the keys edit
/// the form, Enter signs in with what it holds and Ctrl+C quits.
pub open spec fn key_meaning(s: AppView, press: KeyPress) -> Meaning {
    if s.route == Route::Login {
        match press.key {
            Key::Char(c) => if press.control && c == 'c' {
                Meaning::Quit
            } else {
                Meaning::Do(Action::InputChar(c))
            },
            Key::Tab => Meaning::Do(Action::InputToggleField),
            Key::Backspace => Meaning::Do(Action::InputBackspace),
            Key::Enter => Meaning::SignIn,
            _ => Meaning::Ignore,
        }
    } else if s.modal != Modal::Closed {
        modal_key(s, press)
    } else {
        screen_key(s, press)
    }
}

/// The selection move in a list of `len` items, if the list is loaded.
fn row_step(len: Option<usize>, index: usize, down: bool) -> (row: Option<usize>)
    ensures
        match row {
            Some(i) => row_move(match len { Some(n) => Some(n as nat), None => None }, index as nat, down)
                == Some(i as nat),
            None => row_move(match len { Some(n) => Some(n as nat), None => None }, index as nat, down)
                is None,
        },
{
    match len {
        Some(n) => if down {
            if index < n && n - index > 1 { Some(index + 1) } else { None }
        } else {
            if index > 0 && index <= n { Some(index - 1) } else { None }
        },
        None => None,
    }
}

fn arrow_in_list(state: &AppState, down: bool) -> (command: Command)
    ensures
        match list_move(state@, down) {
            Meaning::Do(a) => command == Command::Dispatch(a),
            _ => command is Ignore,
        },
{
    match state.route {
        Route::Users => match row_step(loaded_count(&state.users), state.selected_user_index, down) {
            Some(i) => Command::Dispatch(Action::SelectUser(i)),
            None => Command::Ignore,
        },
        Route::Classes => match row_step(loaded_count(&state.classes), state.selected_class_index, down) {
            Some(i) => Command::Dispatch(Action::SelectClass(i)),
            None => Command::Ignore,
        },
        Route::Tasks => match row_step(loaded_count(&state.tasks), state.selected_task_index, down) {
            Some(i) => Command::Dispatch(Action::SelectTask(i)),
            None => Command::Ignore,
        },
        _ => Command::Ignore,
    }
}

fn edit_shortcut(state: &AppState, c: char) -> (command: Command)
    requires
        c == 'a' || c == 'e' || c == 'd',
    ensures
        match edit_key(state@, c) {
            Meaning::Do(a) => command == Command::Dispatch(a),
            _ => command is Ignore,
        },
{
    let role = role_of(&state.session);
    match state.route {
        Route::Users => if role == Role::Admin {
            Command::Dispatch(if c == 'a' { Action::OpenAddUserModal } else if c == 'e' {
                Action::OpenEditUserModal
            } else {
                Action::OpenConfirmDeleteModal
            })
        } else {
            Command::Ignore
        },
        Route::Classes => if role == Role::Admin {
            Command::Dispatch(if c == 'a' { Action::OpenAddClassModal } else if c == 'e' {
                Action::OpenEditClassModal
            } else {
                Action::OpenConfirmDeleteClassModal
            })
        } else {
            Command::Ignore
        },
        Route::Tasks => if role != Role::Student {
            Command::Dispatch(if c == 'a' { Action::OpenAddTaskModal } else if c == 'e' {
                Action::OpenEditTaskModal
            } else {
                Action::OpenConfirmDeleteTaskModal
            })
        } else {
            Command::Ignore
        },
        _ => Command::Ignore,
    }
}

fn in_modal(state: &AppState, press: KeyPress) -> (command: Command)
    requires
        state.modal != Modal::Closed,
    ensures
        match modal_key(state@, press) {
            Meaning::Do(a) => command == Command::Dispatch(a),
            _ => command is Ignore,
        },
{
    let modal = state.modal;
    let confirming = modal == Modal::ConfirmDeleteUser || modal == Modal::ConfirmDeleteClass
        || modal == Modal::ConfirmDeleteTask;
    let yes = press.key == Key::Enter || press.key == Key::Char('y');
    let no = press.key == Key::Esc || (confirming && press.key == Key::Char('n'));
    if no {
        Command::Dispatch(match modal {
            Modal::AddUser | Modal::EditUser | Modal::ConfirmDeleteUser => Action::CloseUserModal,
            Modal::AddClass | Modal::EditClass | Modal::ConfirmDeleteClass => Action::CloseClassModal,
            Modal::AddTask | Modal::EditTask | Modal::ConfirmDeleteTask => Action::CloseTaskModal,
            _ => Action::CloseSubmissionModal,
        })
    } else if confirming && yes {
        Command::Dispatch(
            if modal == Modal::ConfirmDeleteUser {
                Action::ConfirmDeleteUser
            } else if modal == Modal::ConfirmDeleteClass {
                Action::ConfirmDeleteClass
            } else {
                Action::ConfirmDeleteTask
            },
        )
    } else if modal == Modal::AddUser || modal == Modal::EditUser {
        let field = state.user_form.active_field;
        match press.key {
            Key::Tab => Command::Dispatch(Action::UserFormNextField),
            Key::Backspace => Command::Dispatch(Action::UserFormBackspace),
            Key::Enter => Command::Dispatch(Action::SubmitUserForm),
            Key::Char(c) => if c == ' ' && field == UserFormField::Role {
                Command::Dispatch(Action::UserFormCycleRole)
            } else {
                Command::Dispatch(Action::UserFormChar(c))
            },
            _ => Command::Ignore,
        }
    } else if modal == Modal::AddClass || modal == Modal::EditClass {
        let field = state.class_form.active_field;
        match press.key {
            Key::Tab => Command::Dispatch(Action::ClassFormNextField),
            Key::Backspace => Command::Dispatch(Action::ClassFormBackspace),
            Key::Enter => Command::Dispatch(Action::SubmitClassForm),
            Key::Up => Command::Dispatch(Action::ClassPickerUp),
            Key::Down => Command::Dispatch(Action::ClassPickerDown),
            Key::Char(c) => if c == ' ' && (field == ClassFormField::TeacherPicker
                || field == ClassFormField::StudentPicker) {
                Command::Dispatch(Action::ClassPickerSelect)
            } else {
                Command::Dispatch(Action::ClassFormChar(c))
            },
            _ => Command::Ignore,
        }
    } else if modal == Modal::Submissions && press.key == Key::Char('g')
        && role_of(&state.session) != Role::Student {
        Command::Dispatch(Action::OpenGradeModal)
    } else {
        Command::Ignore
    }
}

fn on_screen(state: &AppState, press: KeyPress) -> (command: Command)
    ensures
        match screen_key(state@, press) {
            Meaning::Quit => command is Quit,
            Meaning::Do(a) => command == Command::Dispatch(a),
            _ => command is Ignore,
        },
{
    match press.key {
        Key::Char(c) => {
            if c == 'q' {
                Command::Quit
            } else if c == 'l' {
                Command::Dispatch(Action::Logout)
            } else if c == 'a' || c == 'e' || c == 'd' {
                edit_shortcut(state, c)
            } else if c == 's' && state.route == Route::Tasks {
                if role_of(&state.session) == Role::Student {
                    Command::Dispatch(Action::OpenSubmitModal)
                } else {
                    Command::Dispatch(Action::OpenSubmissionsModal)
                }
            } else if c == 'o' && state.route == Route::Tasks {
                Command::Dispatch(Action::OpenTaskFile)
            } else {
                Command::Ignore
            }
        },
        Key::Left => Command::Dispatch(Action::SetFocus(Focus::Sidebar)),
        Key::Right => Command::Dispatch(Action::SetFocus(Focus::Content)),
        Key::Down => if state.focus == Focus::Sidebar {
            Command::Dispatch(Action::NavigateDown)
        } else {
            arrow_in_list(state, true)
        },
        Key::Up => if state.focus == Focus::Sidebar {
            Command::Dispatch(Action::NavigateUp)
        } else {
            arrow_in_list(state, false)
        },
        _ => Command::Ignore,
    }
}

/// The command for `press` while `state` is on display.
pub fn command_for_key(state: &AppState, press: KeyPress) -> (command: Command)
    ensures
        match key_meaning(state@, press) {
            Meaning::Quit => command is Quit,
            Meaning::Ignore => command is Ignore,
            Meaning::SignIn => command matches Command::Dispatch(Action::Login { email, password })
                && email@ == state.login_form.email@ && password@ == state.login_form.password@,
            Meaning::Do(a) => command == Command::Dispatch(a),
        },
{
    if state.route == Route::Login {
        match press.key {
            Key::Char(c) => {
                if press.control && c == 'c' {
                    Command::Quit
                } else {
                    Command::Dispatch(Action::InputChar(c))
                }
            },
            Key::Tab => Command::Dispatch(Action::InputToggleField),
            Key::Backspace => Command::Dispatch(Action::InputBackspace),
            Key::Enter => Command::Dispatch(
                Action::Login {
                    email: state.login_form.email.clone(),
                    password: state.login_form.password.clone(),
                },
            ),
            _ => Command::Ignore,
        }
    } else if state.modal != Modal::Closed {
        in_modal(state, press)
    } else {
        on_screen(state, press)
    }
}

} // verus!
