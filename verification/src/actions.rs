//! Everything that can happen to the client state.
use vstd::prelude::*;
use crate::models::Session;
use crate::state::{Focus, Route};

verus! {

/// One change asked of the state, by a key press or by a finished request.
pub enum Action {

    Quit,

    Login {
        email: String,
        password: String,
    },

    LoginSuccess(Session),

    SetError(Option<String>),

    // -- login form input ----------------------------------------

    InputChar(char),
    InputBackspace,
    InputToggleField,

    // -- general navigation --------------------------------------

    LoadDashboard,
    LoadUsers,
    LoadClasses,
    LoadTasks,
    LoadReports,

    NavigateUp,
    NavigateDown,

    ChangeRoute(Route),

    Logout,

    SetFocus(Focus),

    // -- users screen --------------------------------------------

    SelectUser(usize),

    OpenAddUserModal,
    OpenEditUserModal,
    OpenConfirmDeleteModal,
    CloseUserModal,

    UserFormChar(char),
    UserFormBackspace,
    UserFormNextField,
    UserFormCycleRole,

    SubmitUserForm,
    ConfirmDeleteUser,

    // -- classes screen ------------------------------------------

    SelectClass(usize),

    OpenAddClassModal,
    OpenEditClassModal,
    OpenConfirmDeleteClassModal,
    CloseClassModal,

    ClassFormChar(char),
    ClassFormBackspace,
    ClassFormNextField,

    /// Moves the cursor of the active class-form picker one row up.
    ClassPickerUp,

    /// Moves the cursor of the active class-form picker one row down.
    ClassPickerDown,

    /// Selects the highlighted row of the active picker: the teacher picker keeps
    /// one selection, the student picker toggles the row in or out.
    ClassPickerSelect,

    SubmitClassForm,
    ConfirmDeleteClass,

    // -- tasks screen --------------------------------------------

    SelectTask(usize),

    OpenAddTaskModal,
    OpenEditTaskModal,
    OpenConfirmDeleteTaskModal,
    CloseTaskModal,

    TaskFormChar(char),
    TaskFormBackspace,
    TaskFormNextField,

    /// Moves the score field to the next Fibonacci score.
    TaskFormCycleScore,

    /// Moves the cursor of the task's class picker one row up.
    TaskPickerUp,

    /// Moves the cursor of the task's class picker one row down.
    TaskPickerDown,

    /// Selects the highlighted class of the task's class picker.
    TaskPickerSelect,

    SubmitTaskForm,
    ConfirmDeleteTask,

    // -- submissions ---------------------------------------------

    /// Student: opens the form that sends an answer.
    OpenSubmitModal,

    /// Teacher or administrator: opens the submissions of the selected task.
    OpenSubmissionsModal,

    CloseSubmissionModal,

    SubmitFormChar(char),
    SubmitFormBackspace,
    SubmitFormNextField,

    /// Student: sends the answer to `/tasks/:id/submissions`.
    SubmitSubmission,

    /// Loads the submissions of the selected task.
    LoadSubmissions,

    SelectSubmission(usize),

    /// Opens the grading form of the selected submission.
    OpenGradeModal,

    GradeFormChar(char),
    GradeFormBackspace,
    GradeFormNextField,

    /// Teacher or administrator: sends the grade to `/submissions/:id`.
    SubmitGrade,

    /// Opens the task's attached file in the system browser.
    OpenTaskFile,

    /// Opens the submission's file in the system browser.
    OpenSubmissionFile,
}

} // verus!
