//! What the class and user boxes show: the form fields, and the teacher and
//! student pickers with their visible rows, marks and highlighted row.
use vstd::prelude::*;
use vstd::string::StringExecFns;
use crate::models::User;
use crate::screens::{count_label, counted, minus, scroll_hint, scroll_indicator, visible_window};
use crate::state::{ClassForm, ClassFormField, ClassFormView, Modal, UserForm, UserFormField, UserFormView};
use crate::text::{mask, pad_right, padded};

verus! {

/// Width of the name column of a picker row.
pub const NAME_COLUMN: usize = 28;

/// One row of a picker: the person's position in the list, whether it is
/// chosen, the name padded to its column, and the email.
pub struct PickerRow {
    pub index: usize,
    pub marked: bool,
    pub name: String,
    pub email: String,
}

/// A picker row with its texts taken as sequences of chars.
pub struct PickerRowView {
    pub index: nat,
    pub marked: bool,
    pub name: Seq<char>,
    pub email: Seq<char>,
}

impl View for PickerRow {
    type V = PickerRowView;

    open spec fn view(&self) -> PickerRowView {
        PickerRowView { index: self.index as nat, marked: self.marked, name: self.name@, email: self.email@ }
    }
}

/// A picker as drawn: its title, the rows of its window, and the row under the
/// cursor, counted from the top of the window, while the picker is active.
pub struct PickerView {
    pub title: String,
    pub rows: Vec<PickerRow>,
    pub highlighted: Option<usize>,
}

/// A picker with its texts taken as sequences of chars.
pub struct PickerShown {
    pub title: Seq<char>,
    pub rows: Seq<PickerRowView>,
    pub highlighted: Option<usize>,
}

impl View for PickerView {
    type V = PickerShown;

    open spec fn view(&self) -> PickerShown {
        PickerShown {
            title: self.title@,
            rows: self.rows@.map_values(|r: PickerRow| r@),
            highlighted: self.highlighted,
        }
    }
}

/// The first row of the window scrolled to `scroll` over `len` rows.
pub open spec fn window_start(scroll: nat, len: nat) -> nat {
    if scroll <= len { scroll } else { len }
}

/// The row after the last of the window of `visible` rows scrolled to `scroll`.
pub open spec fn window_end(scroll: nat, visible: nat, len: nat) -> nat {
    if scroll + visible <= len { scroll + visible } else { len }
}

/// Row `i` of `people` as a picker shows it.
pub open spec fn picker_row(people: Seq<User>, i: int, marked: bool) -> PickerRowView {
    PickerRowView {
        index: i as nat,
        marked: marked,
        name: padded(people[i].name@, NAME_COLUMN as nat),
        email: people[i].email@,
    }
}

/// Whether row `i` is chosen: it is the `single` chosen row or one of `many`.
pub open spec fn is_marked(single: Option<usize>, many: Seq<usize>, i: int) -> bool {
    single == Some(i as usize) || many.contains(i as usize)
}

/// The rows of `people` in the window of `visible` rows scrolled to `scroll`.
pub open spec fn picker_rows(
    people: Seq<User>,
    scroll: nat,
    visible: nat,
    single: Option<usize>,
    many: Seq<usize>,
) -> Seq<PickerRowView> {
    let start = window_start(scroll, people.len());
    let end = window_end(scroll, visible, people.len());
    Seq::new(
        (end - start) as nat,
        |k: int| picker_row(people, start + k, is_marked(single, many, start + k)),
    )
}

/// The row under the cursor, counted from the top of the window, while the
/// picker is active.
pub open spec fn highlight(cursor: nat, scroll: nat, active: bool) -> Option<usize> {
    if active {
        Some(minus(cursor, scroll) as usize)
    } else {
        None
    }
}

/// The teacher picker's title: the chosen teacher's name, or that none is
/// chosen, then how many rows lie outside the window.
pub open spec fn teacher_title(teachers: Seq<User>, selected: Option<usize>, scroll: nat, visible: nat) -> Seq<char> {
    let base = match selected {
        Some(i) => if i < teachers.len() {
            "Professor  ● "@ + teachers[i as int].name@
        } else {
            "Professor  (nenhum selecionado)"@
        },
        None => "Professor  (nenhum selecionado)"@,
    };
    base + scroll_hint(scroll, minus(teachers.len(), scroll + visible))
}

/// The student picker's title: how many students are chosen, then how many
/// rows lie outside the window.
pub open spec fn student_title(students: Seq<User>, chosen: nat, scroll: nat, visible: nat) -> Seq<char> {
    "Alunos  ("@ + counted(chosen, "selecionado"@) + ")"@
        + scroll_hint(scroll, minus(students.len(), scroll + visible))
}

/// Whether `x` is one of `list`.
fn holds(list: &Vec<usize>, x: usize) -> (found: bool)
    ensures
        found == list@.contains(x),
{
    let mut i: usize = 0;
    while i < list.len()
        invariant
            i <= list@.len(),
            forall|k: int| 0 <= k < i ==> list@[k] != x,
        decreases list@.len() - i,
    {
        if list[i] == x {
            assert(list@[i as int] == x);
            return true;
        }
        i = i + 1;
    }
    false
}

/// The rows of the window of `visible` rows scrolled to `scroll`.
fn window_rows(people: &Vec<User>, scroll: usize, visible: usize, single: Option<usize>, many: &Vec<usize>) -> (rows: Vec<PickerRow>)
    ensures
        rows@.map_values(|r: PickerRow| r@) == picker_rows(people@, scroll as nat, visible as nat, single, many@),
{
    let (start, end) = visible_window(scroll, people.len(), visible);
    let mut rows: Vec<PickerRow> = Vec::new();
    let mut i: usize = start;
    while i < end
        invariant
            start == window_start(scroll as nat, people@.len()),
            end == window_end(scroll as nat, visible as nat, people@.len()),
            start <= i <= end <= people@.len(),
            rows@.map_values(|r: PickerRow| r@) == Seq::new(
                (i - start) as nat,
                |k: int| picker_row(people@, start + k, is_marked(single, many@, start + k)),
            ),
        decreases end - i,
    {
        let u = &people[i];
        let marked = match single {
            Some(j) => j == i,
            None => false,
        } || holds(many, i);
        let row = PickerRow { index: i, marked: marked, name: pad_right(u.name.as_str(), NAME_COLUMN), email: u.email.clone() };
        assert(row@ == picker_row(people@, i as int, is_marked(single, many@, i as int)));
        let ghost before = rows@;
        rows.push(row);
        proof {
            assert(rows@ == before.push(row));
            assert(rows@.map_values(|r: PickerRow| r@) =~= before.map_values(|r: PickerRow| r@).push(row@));
        }
        i = i + 1;
        assert(rows@.map_values(|r: PickerRow| r@) =~= Seq::new(
            (i - start) as nat,
            |k: int| picker_row(people@, start + k, is_marked(single, many@, start + k)),
        ));
    }
    rows
}

/// The teacher picker of the class form: one teacher may be chosen, and the
/// window shows `visible` rows from row `scroll` on.
pub fn teacher_picker(
    teachers: &Vec<User>,
    selected: Option<usize>,
    cursor: usize,
    scroll: usize,
    active: bool,
    visible: usize,
) -> (view: PickerView)
    requires
        scroll + visible <= usize::MAX,
    ensures
        view@.title == teacher_title(teachers@, selected, scroll as nat, visible as nat),
        view@.rows == picker_rows(teachers@, scroll as nat, visible as nat, selected, Seq::empty()),
        view@.highlighted == highlight(cursor as nat, scroll as nat, active),
{
    let mut title = match selected {
        Some(i) => if i < teachers.len() {
            let mut t = "Professor  ● ".to_owned();
            t.append(teachers[i].name.as_str());
            t
        } else {
            "Professor  (nenhum selecionado)".to_owned()
        },
        None => "Professor  (nenhum selecionado)".to_owned(),
    };
    let hint = scroll_indicator(scroll, teachers.len(), visible);
    title.append(hint.as_str());
    let none: Vec<usize> = Vec::new();
    let rows = window_rows(teachers, scroll, visible, selected, &none);
    let highlighted = if active {
        Some(if cursor >= scroll { cursor - scroll } else { 0 })
    } else {
        None
    };
    PickerView { title: title, rows: rows, highlighted: highlighted }
}

/// The student picker of the class form: any number of students may be
/// chosen, and the window shows `visible` rows from row `scroll` on.
pub fn student_picker(
    students: &Vec<User>,
    chosen: &Vec<usize>,
    cursor: usize,
    scroll: usize,
    active: bool,
    visible: usize,
) -> (view: PickerView)
    requires
        scroll + visible <= usize::MAX,
    ensures
        view@.title == student_title(students@, chosen@.len(), scroll as nat, visible as nat),
        view@.rows == picker_rows(students@, scroll as nat, visible as nat, None, chosen@),
        view@.highlighted == highlight(cursor as nat, scroll as nat, active),
{
    let mut title = "Alunos  (".to_owned();
    let count = count_label(chosen.len(), "selecionado");
    title.append(count.as_str());
    title.append(")");
    let hint = scroll_indicator(scroll, students.len(), visible);
    title.append(hint.as_str());
    let rows = window_rows(students, scroll, visible, None, chosen);
    let highlighted = if active {
        Some(if cursor >= scroll { cursor - scroll } else { 0 })
    } else {
        None
    };
    PickerView { title: title, rows: rows, highlighted: highlighted }
}

/// One field of a form box: its label, what it shows, and whether it takes the keys.
pub struct FieldView {
    pub label: String,
    pub value: String,
    pub active: bool,
}

/// A form field with its texts taken as sequences of chars.
pub struct FieldShown {
    pub label: Seq<char>,
    pub value: Seq<char>,
    pub active: bool,
}

impl View for FieldView {
    type V = FieldShown;

    open spec fn view(&self) -> FieldShown {
        FieldShown { label: self.label@, value: self.value@, active: self.active }
    }
}

/// A form box as drawn: its title, its text fields in order, and the message
/// of the last failure, if the box shows one.
pub struct FormView {
    pub title: String,
    pub fields: Vec<FieldView>,
    pub error: Option<String>,
}

/// A form box with its texts taken as sequences of chars.
pub struct FormShown {
    pub title: Seq<char>,
    pub fields: Seq<FieldShown>,
    pub error: Option<Seq<char>>,
}

impl View for FormView {
    type V = FormShown;

    open spec fn view(&self) -> FormShown {
        FormShown {
            title: self.title@,
            fields: self.fields@.map_values(|f: FieldView| f@),
            error: match self.error {
                Some(e) => Some(e@),
                None => None,
            },
        }
    }
}

/// The class box: its title tells adding from editing, and it shows the
/// period and grade fields and the message of the last failure.
pub open spec fn class_form_shown(modal: Modal, form: ClassFormView, error: Option<Seq<char>>) -> FormShown {
    FormShown {
        title: if modal == Modal::AddClass { "Adicionar Turma"@ } else { "Editar Turma"@ },
        fields: seq![
            FieldShown {
                label: "Período  (ex: 2026/1)"@,
                value: form.period,
                active: form.active_field == ClassFormField::Period,
            },
            FieldShown {
                label: "Série  (ex: 3A)"@,
                value: form.grade,
                active: form.active_field == ClassFormField::Grade,
            },
        ],
        error: error,
    }
}

/// One `*` per byte of `secret`, as `str::len` counts them in its UTF-8 form.
pub open spec fn stars(secret: Seq<char>) -> Seq<char> {
    Seq::new((vstd::utf8::encode_utf8(secret).len() as usize) as nat, |i: int| '*')
}

/// The user box: its title tells adding from editing; it shows the name, the
/// email, the password hidden behind stars (in an edit, an empty one keeps
/// the old password) and the role between arrows.
pub open spec fn user_form_shown(modal: Modal, form: UserFormView) -> FormShown {
    FormShown {
        title: if modal == Modal::AddUser { "Adicionar Usuário"@ } else { "Editar Usuário"@ },
        fields: seq![
            FieldShown { label: "Nome"@, value: form.name, active: form.active_field == UserFormField::Name },
            FieldShown { label: "Email"@, value: form.email, active: form.active_field == UserFormField::Email },
            FieldShown {
                label: if modal == Modal::EditUser { "Senha (vazio = sem alterar)"@ } else { "Senha"@ },
                value: stars(form.password),
                active: form.active_field == UserFormField::Password,
            },
            FieldShown {
                label: "Perfil"@,
                value: "< "@ + form.role + " >"@,
                active: form.active_field == UserFormField::Role,
            },
        ],
        error: None,
    }
}

/// What the class box shows for `form`, with `error` the last failure.
pub fn class_form_view(modal: Modal, form: &ClassForm, error: &Option<String>) -> (view: FormView)
    ensures
        view@ == class_form_shown(
            modal,
            form@,
            match *error {
                Some(e) => Some(e@),
                None => None,
            },
        ),
{
    let title = if modal == Modal::AddClass { "Adicionar Turma".to_owned() } else { "Editar Turma".to_owned() };
    let mut fields: Vec<FieldView> = Vec::new();
    fields.push(FieldView {
        label: "Período  (ex: 2026/1)".to_owned(),
        value: form.period.clone(),
        active: form.active_field == ClassFormField::Period,
    });
    fields.push(FieldView {
        label: "Série  (ex: 3A)".to_owned(),
        value: form.grade.clone(),
        active: form.active_field == ClassFormField::Grade,
    });
    let error = match error {
        Some(e) => Some(e.clone()),
        None => None,
    };
    let view = FormView { title: title, fields: fields, error: error };
    assert(view@.fields =~= class_form_shown(modal, form@, view@.error).fields);
    view
}

/// What the user box shows for `form`.
pub fn user_form_view(modal: Modal, form: &UserForm) -> (view: FormView)
    ensures
        view@ == user_form_shown(modal, form@),
{
    let title = if modal == Modal::AddUser { "Adicionar Usuário".to_owned() } else { "Editar Usuário".to_owned() };
    let password_label = if modal == Modal::EditUser {
        "Senha (vazio = sem alterar)".to_owned()
    } else {
        "Senha".to_owned()
    };
    let mut role = "< ".to_owned();
    role.append(form.role.as_str());
    role.append(" >");
    let mut fields: Vec<FieldView> = Vec::new();
    fields.push(FieldView {
        label: "Nome".to_owned(),
        value: form.name.clone(),
        active: form.active_field == UserFormField::Name,
    });
    fields.push(FieldView {
        label: "Email".to_owned(),
        value: form.email.clone(),
        active: form.active_field == UserFormField::Email,
    });
    let hidden = mask(form.password.as_str());
    assert(hidden@ =~= stars(form.password@));
    fields.push(FieldView {
        label: password_label,
        value: hidden,
        active: form.active_field == UserFormField::Password,
    });
    fields.push(FieldView { label: "Perfil".to_owned(), value: role, active: form.active_field == UserFormField::Role });
    let view = FormView { title: title, fields: fields, error: None };
    assert(view@.fields =~= user_form_shown(modal, form@).fields);
    view
}

} // verus!
