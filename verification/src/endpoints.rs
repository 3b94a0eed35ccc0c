//! The addresses, headers and form fields of the requests sent to the service.
use vstd::prelude::*;
use vstd::string::StringExecFns;
use crate::text::{decimal, push_decimal};

verus! {

/// A resource of the service.
pub enum Endpoint {
    Login,
    Dashboard,
    Classes,
    Class(String),
    ClassReport(String),
    Tasks,
    Task(String),
    TaskSubmissions(String),
    Submission(String),
    Users,
    /// The users of one role, such as the teachers a class form offers.
    UsersWithRole(String),
    User(i64),
}

/// The decimal writing of `n`, with a leading `-` when it is negative.
pub open spec fn signed_decimal(n: int) -> Seq<char> {
    if n < 0 {
        "-"@ + decimal((-n) as nat)
    } else {
        decimal(n as nat)
    }
}

/// The path of `endpoint` below the service's base address.
pub open spec fn path_of(endpoint: Endpoint) -> Seq<char> {
    match endpoint {
        Endpoint::Login => "/auth/login"@,
        Endpoint::Dashboard => "/dashboard"@,
        Endpoint::Classes => "/classes"@,
        Endpoint::Class(id) => "/classes/"@ + id@,
        Endpoint::ClassReport(id) => "/classes/"@ + id@ + "/report"@,
        Endpoint::Tasks => "/tasks"@,
        Endpoint::Task(id) => "/tasks/"@ + id@,
        Endpoint::TaskSubmissions(id) => "/tasks/"@ + id@ + "/submissions"@,
        Endpoint::Submission(id) => "/submissions/"@ + id@,
        Endpoint::Users => "/users"@,
        Endpoint::UsersWithRole(role) => "/users?role="@ + role@,
        Endpoint::User(id) => "/users/"@ + signed_decimal(id as int),
    }
}

/// The path of `endpoint`.
pub fn endpoint_path(endpoint: &Endpoint) -> (path: String)
    ensures
        path@ == path_of(*endpoint),
{
    let mut path = String::new();
    match endpoint {
        Endpoint::Login => path.append("/auth/login"),
        Endpoint::Dashboard => path.append("/dashboard"),
        Endpoint::Classes => path.append("/classes"),
        Endpoint::Class(id) => {
            path.append("/classes/");
            path.append(id.as_str());
        },
        Endpoint::ClassReport(id) => {
            path.append("/classes/");
            path.append(id.as_str());
            path.append("/report");
        },
        Endpoint::Tasks => path.append("/tasks"),
        Endpoint::Task(id) => {
            path.append("/tasks/");
            path.append(id.as_str());
        },
        Endpoint::TaskSubmissions(id) => {
            path.append("/tasks/");
            path.append(id.as_str());
            path.append("/submissions");
        },
        Endpoint::Submission(id) => {
            path.append("/submissions/");
            path.append(id.as_str());
        },
        Endpoint::Users => path.append("/users"),
        Endpoint::UsersWithRole(role) => {
            path.append("/users?role=");
            path.append(role.as_str());
        },
        Endpoint::User(id) => {
            path.append("/users/");
            let n: i64 = *id;
            if n < 0 {
                path.append("-");
                let magnitude: u64 = if n == i64::MIN {
                    9223372036854775808u64
                } else {
                    (-n) as u64
                };
                push_decimal(&mut path, magnitude);
            } else {
                push_decimal(&mut path, n as u64);
            }
        },
    }
    assert(path@ =~= path_of(*endpoint));
    path
}

/// The full address of `path` at the service whose base address is `base`.
pub fn join_url(base: &str, path: &str) -> (url: String)
    ensures
        url@ == base@ + path@,
{
    let mut url = String::new();
    url.append(base);
    url.append(path);
    assert(url@ =~= base@ + path@);
    url
}

/// The value of the `Authorization` header that carries `token`.
pub fn bearer_header(token: &str) -> (value: String)
    ensures
        value@ == "Bearer "@ + token@,
{
    let mut value = String::new();
    value.append("Bearer ");
    value.append(token);
    assert(value@ =~= "Bearer "@ + token@);
    value
}

/// The text fields of a submission: the answer, when there is a non-empty one.
pub fn submission_fields(content: Option<String>) -> (fields: Vec<(String, String)>)
    ensures
        match content {
            Some(c) => if c@.len() > 0 {
                fields@.len() == 1 && fields@[0].0@ == "content"@ && fields@[0].1 == c
            } else {
                fields@.len() == 0
            },
            None => fields@.len() == 0,
        },
{
    let mut fields: Vec<(String, String)> = Vec::new();
    match content {
        Some(c) => {
            if !c.as_str().is_empty() {
                fields.push(("content".to_owned(), c));
            }
        },
        None => {},
    }
    fields
}

/// The file to attach to a request: the given path, when it is not empty.
pub fn attached_file(file_path: Option<String>) -> (file: Option<String>)
    ensures
        match file_path {
            Some(p) => if p@.len() > 0 {
                file == Some(p)
            } else {
                file is None
            },
            None => file is None,
        },
{
    match file_path {
        Some(p) => {
            if p.as_str().is_empty() {
                None
            } else {
                Some(p)
            }
        },
        None => None,
    }
}

/// The last component of `path` as `std::path::Path::file_name` gives it on the
/// platform the program is built for (whose separators it follows).
pub uninterp spec fn path_file_name(path: Seq<char>) -> Option<Seq<char>>;

/// Whether the last component of `path` is `..`.
pub open spec fn ends_in_parent(path: Seq<char>) -> bool {
    let n = path.len();
    n >= 2 && path.subrange(n - 2, n as int) == ".."@ && (n == 2 || path[n - 3] == '/')
}

/// `std::path::Path::file_name` of `path`, read back as text. Stated: the outcome
/// is the named component, and none where the path terminates in `..`, as the
/// documentation says; nothing more of the component is stated.
#[verifier::external_body]
fn file_name_of(path: &str) -> (name: Option<String>)
    ensures
        match name {
            Some(n) => path_file_name(path@) == Some(n@),
            None => path_file_name(path@) is None,
        },
        ends_in_parent(path@) ==> name is None,
{
    match std::path::Path::new(path).file_name() {
        Some(component) => match component.to_str() {
            Some(text) => Some(text.to_owned()),
            None => None,
        },
        None => None,
    }
}

/// The name an uploaded file is sent under: the last component of its path, or
/// `file` when the path has none.
pub fn upload_file_name(path: &str) -> (name: String)
    ensures
        name@ == match path_file_name(path@) {
            Some(n) => n,
            None => "file"@,
        },
{
    match file_name_of(path) {
        Some(name) => name,
        None => "file".to_owned(),
    }
}

} // verus!
