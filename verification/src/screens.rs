//! What the screens compute before they draw: labels, windows, counts and names.
use vstd::prelude::*;
use crate::models::{ClassReport, ClassRoom, ReportTask, Task, User};
use crate::access::{role_of, session_role, Role};
use crate::state::{AppState, AppView, Resource, Route};
use crate::text::{chars_of, decimal, push_decimal, string_from_range};
use vstd::string::StringExecFns;

verus! {

/// `a - b`, or 0 where `b` exceeds `a`.
pub open spec fn minus(a: nat, b: nat) -> nat {
    if a >= b {
        (a - b) as nat
    } else {
        0
    }
}

/// The title suffix that tells how many rows of a list lie above and below its
/// visible window, such as `"  ↑2 acima  ↓5 mais"`.
pub open spec fn scroll_hint(above: nat, below: nat) -> Seq<char> {
    if above == 0 && below == 0 {
        Seq::empty()
    } else if above == 0 {
        "  ↓"@ + decimal(below) + " mais"@
    } else if below == 0 {
        "  ↑"@ + decimal(above) + " acima"@
    } else {
        "  ↑"@ + decimal(above) + " acima  ↓"@ + decimal(below) + " mais"@
    }
}

/// The suffix of a picker's title for a list of `total` rows of which `visible`
/// are shown from row `scroll` on.
pub fn scroll_indicator(scroll: usize, total: usize, visible: usize) -> (hint: String)
    requires
        scroll + visible <= usize::MAX,
    ensures
        hint@ == scroll_hint(scroll as nat, minus(total as nat, (scroll + visible) as nat)),
{
    let above = scroll;
    let below = total.saturating_sub(scroll + visible);
    let mut hint = String::new();
    if above == 0 && below == 0 {
        return hint;
    }
    if above > 0 {
        hint.append("  ↑");
        push_decimal(&mut hint, above as u64);
        hint.append(" acima");
    }
    if below > 0 {
        hint.append("  ↓");
        push_decimal(&mut hint, below as u64);
        hint.append(" mais");
    }
    proof {
        assert("  ↑"@ + decimal(above as nat) + " acima  ↓"@ =~= "  ↑"@ + decimal(above as nat) + " acima"@ + "  ↓"@) by {
            reveal_strlit("  ↑");
            reveal_strlit(" acima  ↓");
            reveal_strlit(" acima");
            reveal_strlit("  ↓");
        }
    }
    assert(hint@ =~= scroll_hint(above as nat, minus(total as nat, (scroll + visible) as nat)));
    hint
}

/// The rows `start..end` of a list of `total` rows that a window of `visible`
/// rows scrolled to `scroll` shows.
pub fn visible_window(scroll: usize, total: usize, visible: usize) -> (window: (usize, usize))
    ensures
        window.0 == if scroll <= total { scroll } else { total },
        window.1 == if scroll as int + visible as int <= total as int { (scroll + visible) as usize } else { total },
        window.0 <= window.1 <= total,
{
    let start = if scroll <= total { scroll } else { total };
    let end = if visible <= total - start { start + visible } else { total };
    (start, end)
}

/// `count` followed by `noun`, in the plural unless `count` is 1, as in `3 alunos`.
pub open spec fn counted(count: nat, noun: Seq<char>) -> Seq<char> {
    decimal(count) + " "@ + noun + if count == 1 { Seq::empty() } else { "s"@ }
}

/// `count` and `noun`, with the plural `s` where `count` is not 1.
pub fn count_label(count: usize, noun: &str) -> (label: String)
    ensures
        label@ == counted(count as nat, noun@),
{
    let mut label = String::new();
    push_decimal(&mut label, count as u64);
    label.append(" ");
    label.append(noun);
    if count != 1 {
        label.append("s");
    }
    assert(label@ =~= counted(count as nat, noun@));
    label
}

/// The sum of the scores of `tasks`.
pub open spec fn score_sum(tasks: Seq<ReportTask>) -> int
    decreases tasks.len(),
{
    if tasks.len() == 0 {
        0
    } else {
        score_sum(tasks.drop_last()) + tasks.last().score
    }
}

/// How many points the tasks of a class report are worth together.
pub fn total_possible(tasks: &Vec<ReportTask>) -> (total: u32)
    requires
        score_sum(tasks@) <= u32::MAX,
    ensures
        total == score_sum(tasks@),
{
    let mut total: u32 = 0;
    let mut i: usize = 0;
    while i < tasks.len()
        invariant
            i <= tasks@.len(),
            total == score_sum(tasks@.take(i as int)),
            score_sum(tasks@) <= u32::MAX,
        decreases tasks@.len() - i,
    {
        proof {
            assert(tasks@.take(i + 1).drop_last() =~= tasks@.take(i as int));
            score_sum_of_prefix_is_bounded(tasks@, i + 1);
        }
        total = total + tasks[i].score;
        i = i + 1;
    }
    assert(tasks@.take(i as int) =~= tasks@);
    total
}

/// Scores are never negative, so no prefix sums to more than the whole.
pub proof fn score_sum_of_prefix_is_bounded(tasks: Seq<ReportTask>, n: int)
    requires
        0 <= n <= tasks.len(),
    ensures
        0 <= score_sum(tasks.take(n)) <= score_sum(tasks),
    decreases tasks.len(),
{
    if tasks.len() > 0 {
        if n == tasks.len() {
            assert(tasks.take(n) =~= tasks);
            score_sum_is_nonnegative(tasks);
        } else {
            assert(tasks.take(n) =~= tasks.drop_last().take(n));
            score_sum_of_prefix_is_bounded(tasks.drop_last(), n);
        }
    }
}

/// A sum of scores is never negative.
pub proof fn score_sum_is_nonnegative(tasks: Seq<ReportTask>)
    ensures
        score_sum(tasks) >= 0,
    decreases tasks.len(),
{
    if tasks.len() > 0 {
        score_sum_is_nonnegative(tasks.drop_last());
    }
}

/// The chars that `char::is_whitespace` accepts: Unicode's `White_Space`.
pub open spec fn is_white_space(c: char) -> bool {
    let u = c as u32;
    ||| 0x9 <= u <= 0xD
    ||| u == 0x20
    ||| u == 0x85
    ||| u == 0xA0
    ||| u == 0x1680
    ||| 0x2000 <= u <= 0x200A
    ||| u == 0x2028
    ||| u == 0x2029
    ||| u == 0x202F
    ||| u == 0x205F
    ||| u == 0x3000
}

/// Whether `c` separates words.
pub fn white_space(c: char) -> (space: bool)
    ensures
        space == is_white_space(c),
{
    let u = c as u32;
    (0x9 <= u && u <= 0xD) || u == 0x20 || u == 0x85 || u == 0xA0 || u == 0x1680
        || (0x2000 <= u && u <= 0x200A) || u == 0x2028 || u == 0x2029 || u == 0x202F
        || u == 0x205F || u == 0x3000
}

/// `s[i..j]` is the first word of `s`: only spaces come before it, and it runs
/// to the next space or the end.
pub open spec fn bounds_first_word(s: Seq<char>, i: int, j: int) -> bool {
    &&& 0 <= i < j <= s.len()
    &&& forall|k: int| 0 <= k < i ==> is_white_space(s[k])
    &&& forall|k: int| i <= k < j ==> !is_white_space(s[k])
    &&& (j == s.len() || is_white_space(s[j]))
}

/// The first word of `name`, or all of `name` where it has no word.
pub open spec fn first_word(name: Seq<char>) -> Seq<char> {
    if exists|i: int, j: int| bounds_first_word(name, i, j) {
        let (i, j) = choose|i: int, j: int| bounds_first_word(name, i, j);
        name.subrange(i, j)
    } else {
        name
    }
}

/// Only one pair of positions bounds the first word.
pub proof fn first_word_bounds_are_unique(s: Seq<char>, i: int, j: int, i2: int, j2: int)
    requires
        bounds_first_word(s, i, j),
        bounds_first_word(s, i2, j2),
    ensures
        i == i2,
        j == j2,
{
    if i < i2 {
        assert(is_white_space(s[i]));
    }
    if i2 < i {
        assert(is_white_space(s[i2]));
    }
    if j < j2 {
        assert(!is_white_space(s[j]));
    }
    if j2 < j {
        assert(!is_white_space(s[j2]));
    }
}

/// The short form of a person's name on a chart: its first word.
pub fn short_name(name: &str) -> (short: String)
    ensures
        short@ == first_word(name@),
{
    let chars = chars_of(name);
    let n = chars.len();
    let mut i: usize = 0;
    while i < n && white_space(chars[i])
        invariant
            chars@ == name@,
            n == chars@.len(),
            i <= n,
            forall|k: int| 0 <= k < i ==> is_white_space(chars@[k]),
        decreases n - i,
    {
        i = i + 1;
    }
    if i == n {
        assert(!exists|a: int, b: int| bounds_first_word(name@, a, b)) by {
            if exists|a: int, b: int| bounds_first_word(name@, a, b) {
                let (a, b) = choose|a: int, b: int| bounds_first_word(name@, a, b);
                assert(is_white_space(chars@[a]));
            }
        }
        return name.to_owned();
    }
    let mut j: usize = i + 1;
    while j < n && !white_space(chars[j])
        invariant
            chars@ == name@,
            n == chars@.len(),
            i < j <= n,
            !is_white_space(chars@[i as int]),
            forall|k: int| 0 <= k < i ==> is_white_space(chars@[k]),
            forall|k: int| i <= k < j ==> !is_white_space(chars@[k]),
        decreases n - j,
    {
        j = j + 1;
    }
    assert(bounds_first_word(name@, i as int, j as int));
    proof {
        let (a, b) = choose|a: int, b: int| bounds_first_word(name@, a, b);
        first_word_bounds_are_unique(name@, i as int, j as int, a, b);
    }
    string_from_range(&chars, i, j)
}

/// The name of the user at `index` of a loaded list, else the empty text.
pub open spec fn name_at(users: Resource<Vec<User>>, index: int) -> Seq<char> {
    match users {
        Resource::Success(list) => if 0 <= index < list@.len() {
            list@[index].name@
        } else {
            Seq::empty()
        },
        _ => Seq::empty(),
    }
}

/// The name shown when the user at `index` is about to be removed.
pub fn selected_user_name(users: &Resource<Vec<User>>, index: usize) -> (name: String)
    ensures
        name@ == name_at(*users, index as int),
{
    match users {
        Resource::Success(list) => {
            if index < list.len() {
                list[index].name.clone()
            } else {
                String::new()
            }
        },
        _ => String::new(),
    }
}

/// The title of the class at `index` of a loaded list, else the empty text.
pub open spec fn class_title_at(classes: Resource<Vec<ClassRoom>>, index: int) -> Seq<char> {
    match classes {
        Resource::Success(list) => if 0 <= index < list@.len() {
            list@[index].title@
        } else {
            Seq::empty()
        },
        _ => Seq::empty(),
    }
}

/// The title shown when the class at `index` is about to be removed.
pub fn selected_class_title(classes: &Resource<Vec<ClassRoom>>, index: usize) -> (title: String)
    ensures
        title@ == class_title_at(*classes, index as int),
{
    match classes {
        Resource::Success(list) => if index < list.len() {
            list[index].title.clone()
        } else {
            String::new()
        },
        _ => String::new(),
    }
}

/// The title of the task at `index` of a loaded list, else the empty text.
pub open spec fn task_title_at(tasks: Resource<Vec<Task>>, index: int) -> Seq<char> {
    match tasks {
        Resource::Success(list) => if 0 <= index < list@.len() {
            list@[index].title@
        } else {
            Seq::empty()
        },
        _ => Seq::empty(),
    }
}

/// The title shown when the task at `index` is about to be removed.
pub fn selected_task_title(tasks: &Resource<Vec<Task>>, index: usize) -> (title: String)
    ensures
        title@ == task_title_at(*tasks, index as int),
{
    match tasks {
        Resource::Success(list) => if index < list.len() {
            list[index].title.clone()
        } else {
            String::new()
        },
        _ => String::new(),
    }
}

/// The line under the login form.
pub enum StatusLine {
    /// A sign-in request is on its way.
    Authenticating,
    /// The last request failed with this message.
    Failure(String),
    /// Nothing to report.
    Blank,
}

/// The line under the login form: progress first, then the last error.
pub fn login_status(loading: bool, error: &Option<String>) -> (line: StatusLine)
    ensures
        loading ==> line is Authenticating,
        !loading && error is Some ==> (line matches StatusLine::Failure(m) && m@ == error->0@),
        !loading && error is None ==> line is Blank,
{
    if loading {
        StatusLine::Authenticating
    } else {
        match error {
            Some(message) => StatusLine::Failure(message.clone()),
            None => StatusLine::Blank,
        }
    }
}

/// What the content pane shows.
pub enum Panel {
    /// The signed-in role may not see this screen.
    Restricted,
    /// The list has not been asked for.
    NotLoaded,
    /// The list is on its way.
    Loading,
    /// Fetching the list failed with this message.
    Failed(String),
    /// The list is loaded and has no items.
    Empty,
    /// The list is loaded with `count` items, row `selected` highlighted.
    Rows { count: usize, selected: usize },
    /// The dashboard summary.
    Overview,
}

/// A [`Panel`] with its message taken as a sequence of chars.
pub enum PanelView {
    Restricted,
    NotLoaded,
    Loading,
    Failed(Seq<char>),
    Empty,
    Rows(nat, nat),
    Overview,
}

impl View for Panel {
    type V = PanelView;

    open spec fn view(&self) -> PanelView {
        match self {
            Panel::Restricted => PanelView::Restricted,
            Panel::NotLoaded => PanelView::NotLoaded,
            Panel::Loading => PanelView::Loading,
            Panel::Failed(m) => PanelView::Failed(m@),
            Panel::Empty => PanelView::Empty,
            Panel::Rows { count, selected } => PanelView::Rows(*count as nat, *selected as nat),
            Panel::Overview => PanelView::Overview,
        }
    }
}

/// What a list in stage `list`, with row `selected` chosen, shows.
pub open spec fn list_panel<T>(list: Resource<Vec<T>>, selected: nat) -> PanelView {
    match list {
        Resource::Idle => PanelView::NotLoaded,
        Resource::Loading => PanelView::Loading,
        Resource::Error(m) => PanelView::Failed(m@),
        Resource::Success(items) => if items@.len() == 0 {
            PanelView::Empty
        } else {
            PanelView::Rows(items@.len(), selected)
        },
    }
}

/// What the user list shows: as any list, except that a loaded empty list is
/// still drawn as a list, of no rows.
pub open spec fn user_list_panel(list: Resource<Vec<User>>, selected: nat) -> PanelView {
    match list {
        Resource::Success(items) => PanelView::Rows(items@.len(), selected),
        _ => list_panel(list, selected),
    }
}

/// What the reports show: as any list, except that reports not yet asked for
/// are shown as on their way.
pub open spec fn report_panel(list: Resource<Vec<ClassReport>>) -> PanelView {
    match list {
        Resource::Idle => PanelView::Loading,
        _ => list_panel(list, 0),
    }
}

/// What the content pane of `s` shows: the user list only to administrators, the
/// reports only to teachers, each list by its stage, the dashboard otherwise.
pub open spec fn panel_for(s: AppView) -> PanelView {
    match s.route {
        Route::Users => if session_role(s.session) == Role::Admin {
            user_list_panel(s.users, s.selected_user_index)
        } else {
            PanelView::Restricted
        },
        Route::Classes => list_panel(s.classes, s.selected_class_index),
        Route::Tasks => list_panel(s.tasks, s.selected_task_index),
        Route::Reports => if session_role(s.session) == Role::Teacher {
            report_panel(s.reports)
        } else {
            PanelView::Restricted
        },
        _ => PanelView::Overview,
    }
}

fn stage_panel<T>(list: &Resource<Vec<T>>, selected: usize) -> (panel: Panel)
    ensures
        panel@ == list_panel(*list, selected as nat),
{
    match list {
        Resource::Idle => Panel::NotLoaded,
        Resource::Loading => Panel::Loading,
        Resource::Error(m) => Panel::Failed(m.clone()),
        Resource::Success(items) => if items.len() == 0 {
            Panel::Empty
        } else {
            Panel::Rows { count: items.len(), selected: selected }
        },
    }
}

/// What the content pane of `state` shows.
pub fn content_panel(state: &AppState) -> (panel: Panel)
    ensures
        panel@ == panel_for(state@),
{
    match state.route {
        Route::Users => if role_of(&state.session) == Role::Admin {
            match &state.users {
                Resource::Success(items) => Panel::Rows { count: items.len(), selected: state.selected_user_index },
                _ => stage_panel(&state.users, state.selected_user_index),
            }
        } else {
            Panel::Restricted
        },
        Route::Classes => stage_panel(&state.classes, state.selected_class_index),
        Route::Tasks => stage_panel(&state.tasks, state.selected_task_index),
        Route::Reports => if role_of(&state.session) == Role::Teacher {
            match &state.reports {
                Resource::Idle => Panel::Loading,
                _ => stage_panel(&state.reports, 0),
            }
        } else {
            Panel::Restricted
        },
        _ => Panel::Overview,
    }
}

} // verus!
