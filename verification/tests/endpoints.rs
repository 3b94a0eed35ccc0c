use iclass_tui::endpoints::{
    attached_file, bearer_header, endpoint_path, join_url, submission_fields, upload_file_name,
    Endpoint,
};
use iclass_tui::text::{chars_of, decimal_string, mask, pad_right, same_text, string_from_range};

#[test]
fn endpoint_paths() {
    assert_eq!(endpoint_path(&Endpoint::Login), "/auth/login");
    assert_eq!(endpoint_path(&Endpoint::Dashboard), "/dashboard");
    assert_eq!(endpoint_path(&Endpoint::Classes), "/classes");
    assert_eq!(endpoint_path(&Endpoint::Class("c1".to_string())), "/classes/c1");
    assert_eq!(endpoint_path(&Endpoint::ClassReport("c1".to_string())), "/classes/c1/report");
    assert_eq!(endpoint_path(&Endpoint::Tasks), "/tasks");
    assert_eq!(endpoint_path(&Endpoint::Task("t9".to_string())), "/tasks/t9");
    assert_eq!(endpoint_path(&Endpoint::TaskSubmissions("t9".to_string())), "/tasks/t9/submissions");
    assert_eq!(endpoint_path(&Endpoint::Submission("s2".to_string())), "/submissions/s2");
    assert_eq!(endpoint_path(&Endpoint::Users), "/users");
    assert_eq!(endpoint_path(&Endpoint::User(42)), "/users/42");
    assert_eq!(endpoint_path(&Endpoint::User(-7)), "/users/-7");
    assert_eq!(endpoint_path(&Endpoint::User(0)), "/users/0");
    assert_eq!(endpoint_path(&Endpoint::User(i64::MIN)), "/users/-9223372036854775808");
}

#[test]
fn urls_and_headers() {
    assert_eq!(join_url("http://h/api/v1", "/tasks"), "http://h/api/v1/tasks");
    assert_eq!(bearer_header("tok"), "Bearer tok");
}

#[test]
fn submission_fields_keep_a_non_empty_answer() {
    let fields = submission_fields(Some("resposta".to_string()));
    assert_eq!(fields, vec![("content".to_string(), "resposta".to_string())]);
    assert!(submission_fields(Some(String::new())).is_empty());
    assert!(submission_fields(None).is_empty());
}

#[test]
fn attached_file_needs_a_path() {
    assert_eq!(attached_file(Some("/tmp/a.pdf".to_string())).as_deref(), Some("/tmp/a.pdf"));
    assert_eq!(attached_file(Some(String::new())), None);
    assert_eq!(attached_file(None), None);
}

#[test]
fn upload_names() {
    assert_eq!(upload_file_name("/home/ana/relatorio.pdf"), "relatorio.pdf");
    assert_eq!(upload_file_name("notas.txt"), "notas.txt");
    assert_eq!(upload_file_name("dir/"), "dir");
    assert_eq!(upload_file_name(".."), "file");
    assert_eq!(upload_file_name("docs/.."), "file");
    assert_eq!(upload_file_name("/"), "file");
    assert_eq!(upload_file_name(""), "file");
}

#[test]
fn text_helpers() {
    assert_eq!(mask("abc"), "***");
    assert_eq!(mask("é"), "**");
    assert_eq!(mask(""), "");
    assert_eq!(pad_right("ab", 5), "ab   ");
    assert_eq!(pad_right("abcdef", 3), "abcdef");
    assert_eq!(pad_right("ção", 4), "ção ");
    assert_eq!(decimal_string(0), "0");
    assert_eq!(decimal_string(1907), "1907");
    assert_eq!(decimal_string(u64::MAX), "18446744073709551615");
    assert!(same_text("abc", "abc"));
    assert!(!same_text("abc", "abd"));
    assert!(!same_text("ab", "abc"));
    let chars = chars_of("olá");
    assert_eq!(chars, vec!['o', 'l', 'á']);
    assert_eq!(string_from_range(&chars, 1, 3), "lá");
}
