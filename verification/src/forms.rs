//! The class and user forms: how keys edit them and how they are shown.
use vstd::prelude::*;
use crate::actions::Action;
use crate::models::User;
use crate::reducer::erased;
use crate::state::{
    loaded_count, loaded_len, ClassForm, ClassFormField, ClassFormView, Resource, UserForm,
    UserFormField, UserFormView, PICKER_VISIBLE_ROWS,
};
use crate::text::{pop_char, push_char, same_text};

verus! {

/// The cursor and first visible row of a picker of `len` rows after the down
/// arrow: the cursor moves one row down if there is one, and the window
/// follows it so that it stays visible.
pub open spec fn picker_down(cursor: nat, scroll: nat, len: Option<nat>) -> (nat, nat) {
    match len {
        Some(n) => if cursor + 1 < n {
            (
                cursor + 1,
                if cursor + 1 >= scroll + PICKER_VISIBLE_ROWS {
                    (cursor + 2 - PICKER_VISIBLE_ROWS) as nat
                } else {
                    scroll
                },
            )
        } else {
            (cursor, scroll)
        },
        None => (cursor, scroll),
    }
}

/// The cursor and first visible row of a picker after the up arrow: the cursor
/// moves one row up if there is one, and the window follows it.
pub open spec fn picker_up(cursor: nat, scroll: nat) -> (nat, nat) {
    if cursor > 0 {
        ((cursor - 1) as nat, if cursor - 1 < scroll { (cursor - 1) as nat } else { scroll })
    } else {
        (cursor, scroll)
    }
}

/// Moves a picker's cursor one row down.
pub fn move_picker_down(cursor: usize, scroll: usize, len: Option<usize>) -> (moved: (usize, usize))
    ensures
        (moved.0 as nat, moved.1 as nat) == picker_down(
            cursor as nat,
            scroll as nat,
            match len {
                Some(n) => Some(n as nat),
                None => None,
            },
        ),
{
    match len {
        Some(n) => {
            if cursor < n && n - cursor > 1 {
                let next = cursor + 1;
                let new_scroll = if next >= scroll && next - scroll >= PICKER_VISIBLE_ROWS {
                    next + 1 - PICKER_VISIBLE_ROWS
                } else {
                    scroll
                };
                (next, new_scroll)
            } else {
                (cursor, scroll)
            }
        },
        None => (cursor, scroll),
    }
}

/// Moves a picker's cursor one row up.
pub fn move_picker_up(cursor: usize, scroll: usize) -> (moved: (usize, usize))
    ensures
        (moved.0 as nat, moved.1 as nat) == picker_up(cursor as nat, scroll as nat),
{
    if cursor > 0 {
        let prev = cursor - 1;
        (prev, if prev < scroll { prev } else { scroll })
    } else {
        (cursor, scroll)
    }
}

/// `i` is the first position of `c` in `chosen`.
pub open spec fn first_position(chosen: Seq<usize>, c: usize, i: int) -> bool {
    &&& 0 <= i < chosen.len()
    &&& chosen[i] == c
    &&& forall|k: int| 0 <= k < i ==> chosen[k] != c
}

/// The chosen rows after choosing row `c` again: taken out if it was chosen,
/// added at the end otherwise.
pub open spec fn toggled(chosen: Seq<usize>, c: usize) -> Seq<usize> {
    if chosen.contains(c) {
        let i = choose|i: int| first_position(chosen, c, i);
        chosen.remove(i)
    } else {
        chosen.push(c)
    }
}

/// Chooses row `c`, or takes it out if it was chosen.
pub fn toggle(chosen: &mut Vec<usize>, c: usize)
    ensures
        final(chosen)@ == toggled(old(chosen)@, c),
{
    let mut i: usize = 0;
    while i < chosen.len()
        invariant
            i <= chosen@.len(),
            chosen@ == old(chosen)@,
            forall|k: int| 0 <= k < i ==> chosen@[k] != c,
        decreases chosen@.len() - i,
    {
        if chosen[i] == c {
            proof {
                assert(first_position(chosen@, c, i as int));
                assert(chosen@.contains(c));
                let j = choose|j: int| first_position(chosen@, c, j);
                if j < i {
                    assert(chosen@[j] != c);
                }
                if i < j {
                    assert(chosen@[i as int] != c);
                }
            }
            chosen.remove(i);
            return;
        }
        i = i + 1;
    }
    assert(!chosen@.contains(c));
    chosen.push(c);
}

/// The class form field after Tab.
pub open spec fn next_class_field(field: ClassFormField) -> ClassFormField {
    match field {
        ClassFormField::Period => ClassFormField::Grade,
        ClassFormField::Grade => ClassFormField::TeacherPicker,
        ClassFormField::TeacherPicker => ClassFormField::StudentPicker,
        ClassFormField::StudentPicker => ClassFormField::Period,
    }
}

/// The class form after a form action, with `teachers` and `students` the lists
/// its pickers show: text goes to the period or grade field, the arrows move the
/// active picker, and selecting chooses its row (one teacher; students toggled).
pub open spec fn edit_class(
    form: ClassFormView,
    teachers: Resource<Vec<User>>,
    students: Resource<Vec<User>>,
    action: Action,
) -> ClassFormView {
    match action {
        Action::ClassFormChar(c) => match form.active_field {
            ClassFormField::Period => ClassFormView { period: form.period.push(c), ..form },
            ClassFormField::Grade => ClassFormView { grade: form.grade.push(c), ..form },
            _ => form,
        },
        Action::ClassFormBackspace => match form.active_field {
            ClassFormField::Period => ClassFormView { period: erased(form.period), ..form },
            ClassFormField::Grade => ClassFormView { grade: erased(form.grade), ..form },
            _ => form,
        },
        Action::ClassFormNextField => ClassFormView {
            active_field: next_class_field(form.active_field),
            ..form
        },
        Action::ClassPickerDown => match form.active_field {
            ClassFormField::TeacherPicker => {
                let (c, s) = picker_down(form.teacher_cursor, form.teacher_scroll, loaded_len(teachers));
                ClassFormView { teacher_cursor: c, teacher_scroll: s, ..form }
            },
            ClassFormField::StudentPicker => {
                let (c, s) = picker_down(form.student_cursor, form.student_scroll, loaded_len(students));
                ClassFormView { student_cursor: c, student_scroll: s, ..form }
            },
            _ => form,
        },
        Action::ClassPickerUp => match form.active_field {
            ClassFormField::TeacherPicker => {
                let (c, s) = picker_up(form.teacher_cursor, form.teacher_scroll);
                ClassFormView { teacher_cursor: c, teacher_scroll: s, ..form }
            },
            ClassFormField::StudentPicker => {
                let (c, s) = picker_up(form.student_cursor, form.student_scroll);
                ClassFormView { student_cursor: c, student_scroll: s, ..form }
            },
            _ => form,
        },
        Action::ClassPickerSelect => match form.active_field {
            ClassFormField::TeacherPicker => match loaded_len(teachers) {
                Some(n) => if form.teacher_cursor < n {
                    ClassFormView { selected_teacher: Some(form.teacher_cursor as usize), ..form }
                } else {
                    form
                },
                None => form,
            },
            ClassFormField::StudentPicker => match loaded_len(students) {
                Some(n) => if form.student_cursor < n {
                    ClassFormView {
                        selected_students: toggled(form.selected_students, form.student_cursor as usize),
                        ..form
                    }
                } else {
                    form
                },
                None => form,
            },
            _ => form,
        },
        _ => form,
    }
}

/// Applies a form action to the class form.
pub fn edit_class_form(
    form: &mut ClassForm,
    teachers: &Resource<Vec<User>>,
    students: &Resource<Vec<User>>,
    action: Action,
)
    ensures
        final(form)@ == edit_class(old(form)@, *teachers, *students, action),
{
    match action {
        Action::ClassFormChar(c) => match form.active_field {
            ClassFormField::Period => push_char(&mut form.period, c),
            ClassFormField::Grade => push_char(&mut form.grade, c),
            _ => {},
        },
        Action::ClassFormBackspace => match form.active_field {
            ClassFormField::Period => {
                let _ = pop_char(&mut form.period);
            },
            ClassFormField::Grade => {
                let _ = pop_char(&mut form.grade);
            },
            _ => {},
        },
        Action::ClassFormNextField => {
            form.active_field = match form.active_field {
                ClassFormField::Period => ClassFormField::Grade,
                ClassFormField::Grade => ClassFormField::TeacherPicker,
                ClassFormField::TeacherPicker => ClassFormField::StudentPicker,
                ClassFormField::StudentPicker => ClassFormField::Period,
            };
        },
        Action::ClassPickerDown => match form.active_field {
            ClassFormField::TeacherPicker => {
                let (c, s) = move_picker_down(form.teacher_cursor, form.teacher_scroll, loaded_count(teachers));
                form.teacher_cursor = c;
                form.teacher_scroll = s;
            },
            ClassFormField::StudentPicker => {
                let (c, s) = move_picker_down(form.student_cursor, form.student_scroll, loaded_count(students));
                form.student_cursor = c;
                form.student_scroll = s;
            },
            _ => {},
        },
        Action::ClassPickerUp => match form.active_field {
            ClassFormField::TeacherPicker => {
                let (c, s) = move_picker_up(form.teacher_cursor, form.teacher_scroll);
                form.teacher_cursor = c;
                form.teacher_scroll = s;
            },
            ClassFormField::StudentPicker => {
                let (c, s) = move_picker_up(form.student_cursor, form.student_scroll);
                form.student_cursor = c;
                form.student_scroll = s;
            },
            _ => {},
        },
        Action::ClassPickerSelect => match form.active_field {
            ClassFormField::TeacherPicker => match loaded_count(teachers) {
                Some(n) => if form.teacher_cursor < n {
                    form.selected_teacher = Some(form.teacher_cursor);
                },
                None => {},
            },
            ClassFormField::StudentPicker => match loaded_count(students) {
                Some(n) => if form.student_cursor < n {
                    let c = form.student_cursor;
                    toggle(&mut form.selected_students, c);
                },
                None => {},
            },
            _ => {},
        },
        _ => {},
    }
}

/// The user form field after Tab.
pub open spec fn next_user_field(field: UserFormField) -> UserFormField {
    match field {
        UserFormField::Name => UserFormField::Email,
        UserFormField::Email => UserFormField::Password,
        UserFormField::Password => UserFormField::Role,
        UserFormField::Role => UserFormField::Name,
    }
}

/// The role after the space bar on the role field: student, teacher,
/// administrator, and round again.
pub open spec fn next_role(role: Seq<char>) -> Seq<char> {
    if role == "student"@ {
        "teacher"@
    } else if role == "teacher"@ {
        "admin"@
    } else {
        "student"@
    }
}

/// The user form after a form action: text goes to the active text field, Tab
/// moves to the next field, and the space bar on the role field cycles the role.
pub open spec fn edit_user(form: UserFormView, action: Action) -> UserFormView {
    match action {
        Action::UserFormChar(c) => match form.active_field {
            UserFormField::Name => UserFormView { name: form.name.push(c), ..form },
            UserFormField::Email => UserFormView { email: form.email.push(c), ..form },
            UserFormField::Password => UserFormView { password: form.password.push(c), ..form },
            UserFormField::Role => form,
        },
        Action::UserFormBackspace => match form.active_field {
            UserFormField::Name => UserFormView { name: erased(form.name), ..form },
            UserFormField::Email => UserFormView { email: erased(form.email), ..form },
            UserFormField::Password => UserFormView { password: erased(form.password), ..form },
            UserFormField::Role => form,
        },
        Action::UserFormNextField => UserFormView {
            active_field: next_user_field(form.active_field),
            ..form
        },
        Action::UserFormCycleRole => UserFormView { role: next_role(form.role), ..form },
        _ => form,
    }
}

/// Applies a form action to the user form.
pub fn edit_user_form(form: &mut UserForm, action: Action)
    ensures
        final(form)@ == edit_user(old(form)@, action),
{
    match action {
        Action::UserFormChar(c) => match form.active_field {
            UserFormField::Name => push_char(&mut form.name, c),
            UserFormField::Email => push_char(&mut form.email, c),
            UserFormField::Password => push_char(&mut form.password, c),
            UserFormField::Role => {},
        },
        Action::UserFormBackspace => match form.active_field {
            UserFormField::Name => {
                let _ = pop_char(&mut form.name);
            },
            UserFormField::Email => {
                let _ = pop_char(&mut form.email);
            },
            UserFormField::Password => {
                let _ = pop_char(&mut form.password);
            },
            UserFormField::Role => {},
        },
        Action::UserFormNextField => {
            form.active_field = match form.active_field {
                UserFormField::Name => UserFormField::Email,
                UserFormField::Email => UserFormField::Password,
                UserFormField::Password => UserFormField::Role,
                UserFormField::Role => UserFormField::Name,
            };
        },
        Action::UserFormCycleRole => {
            let next = if same_text(form.role.as_str(), "student") {
                "teacher"
            } else if same_text(form.role.as_str(), "teacher") {
                "admin"
            } else {
                "student"
            };
            form.role = next.to_owned();
        },
        _ => {},
    }
}

/// The id of the teacher chosen in the class form, if the chosen row is one of
/// the loaded list.
pub open spec fn chosen_teacher(teachers: Resource<Vec<User>>, selected: Option<usize>) -> Option<i64> {
    match (teachers, selected) {
        (Resource::Success(list), Some(i)) => if i < list@.len() {
            Some(list@[i as int].id)
        } else {
            None
        },
        _ => None,
    }
}

/// The ids of the rows `chosen` of `people`, in the order they were chosen;
/// rows past the end of the list are left out.
pub open spec fn ids_of(people: Seq<User>, chosen: Seq<usize>) -> Seq<i64>
    decreases chosen.len(),
{
    if chosen.len() == 0 {
        Seq::empty()
    } else {
        let rest = ids_of(people, chosen.drop_last());
        if chosen.last() < people.len() {
            rest.push(people[chosen.last() as int].id)
        } else {
            rest
        }
    }
}

/// The ids of the students chosen in the class form; none while the list is
/// not loaded.
pub open spec fn chosen_ids_of(people: Resource<Vec<User>>, chosen: Seq<usize>) -> Seq<i64> {
    match people {
        Resource::Success(list) => ids_of(list@, chosen),
        _ => Seq::empty(),
    }
}

/// The id of the chosen teacher.
pub fn chosen_teacher_id(teachers: &Resource<Vec<User>>, selected: Option<usize>) -> (id: Option<i64>)
    ensures
        id == chosen_teacher(*teachers, selected),
{
    match (teachers, selected) {
        (Resource::Success(list), Some(i)) => if i < list.len() {
            Some(list[i].id)
        } else {
            None
        },
        _ => None,
    }
}

/// The ids of the chosen students.
pub fn chosen_people_ids(people: &Resource<Vec<User>>, chosen: &Vec<usize>) -> (ids: Vec<i64>)
    ensures
        ids@ == chosen_ids_of(*people, chosen@),
{
    let mut ids: Vec<i64> = Vec::new();
    match people {
        Resource::Success(list) => {
            let mut i: usize = 0;
            while i < chosen.len()
                invariant
                    i <= chosen@.len(),
                    ids@ == ids_of(list@, chosen@.take(i as int)),
                decreases chosen@.len() - i,
            {
                proof {
                    assert(chosen@.take(i + 1).drop_last() =~= chosen@.take(i as int));
                }
                let c = chosen[i];
                if c < list.len() {
                    ids.push(list[c].id);
                }
                i = i + 1;
            }
            assert(chosen@.take(i as int) =~= chosen@);
        },
        _ => {},
    }
    ids
}

} // verus!
