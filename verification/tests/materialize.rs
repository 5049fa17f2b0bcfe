use compile_time_create_file::paths::join_path;
use compile_time_create_file::paths::parent_dir;
use compile_time_create_file::plan::decide_action;
use compile_time_create_file::plan::plan;
use compile_time_create_file::plan::Action;
use compile_time_create_file::plan::Materialization;
use compile_time_create_file::target::parse_args;
use compile_time_create_file::target::MalformedInvocation;
use compile_time_create_file::target::TargetKind;

fn plan_ok(cwd: &str, args: &[&str]) -> Materialization {
    let args: Vec<String> = args.iter().map(|a| a.to_string()).collect();
    plan(cwd, &args).expect("arguments should be well-formed")
}

fn expect_create_file(a: Action) -> (String, String) {
    match a {
        Action::CreateFile { path, content } => (path, content),
        _ => panic!("expected a file-creating action"),
    }
}

fn expect_create_directory(a: Action) -> String {
    match a {
        Action::CreateDirectory { path } => path,
        _ => panic!("expected a directory-creating action"),
    }
}

#[test]
fn file_created_then_second_invocation_skips() {
    let m = plan_ok("/w", &["a/b/c.txt", "hello"]);
    let (path, content) = expect_create_file(decide_action(&m, false));
    assert_eq!(path, "/w/a/b/c.txt");
    assert_eq!(content, "hello");
    // The first invocation created the target, so a second one finds it
    // present and must perform no mutation at all.
    let m2 = plan_ok("/w", &["a/b/c.txt", "hello"]);
    assert!(matches!(decide_action(&m2, true), Action::Skip));
}

#[test]
fn existing_file_is_not_overwritten() {
    // "out.txt" already exists holding "keep-me": the invocation with new
    // content must skip and leave it alone.
    let m = plan_ok("/w", &["out.txt", "new"]);
    assert!(matches!(decide_action(&m, true), Action::Skip));
}

#[test]
fn existing_directory_is_not_overwritten() {
    let m = plan_ok("/w", &["some/dir/"]);
    assert!(matches!(decide_action(&m, true), Action::Skip));
}

#[test]
fn missing_ancestors_are_all_created() {
    let m = plan_ok("/w", &["deep/nested/dir/file.txt", "x"]);
    assert_eq!(m.resolved, "/w/deep/nested/dir/file.txt");
    // The ancestor chain to create reaches every missing directory.
    let a1 = m.ancestor.clone().expect("a nested path has a parent");
    assert_eq!(a1, "/w/deep/nested/dir");
    let a2 = parent_dir(&a1).expect("still below the working directory");
    assert_eq!(a2, "/w/deep/nested");
    let a3 = parent_dir(&a2).expect("still below the working directory");
    assert_eq!(a3, "/w/deep");
    let (path, content) = expect_create_file(decide_action(&m, false));
    assert_eq!(path, "/w/deep/nested/dir/file.txt");
    assert_eq!(content, "x");
}

#[test]
fn trailing_separator_makes_a_directory() {
    let m = plan_ok("/w", &["some/new/dir/"]);
    assert_eq!(m.target.kind, TargetKind::Directory);
    let path = expect_create_directory(decide_action(&m, false));
    assert_eq!(path, "/w/some/new/dir/");
}

#[test]
fn single_argument_creates_an_empty_file() {
    let m = plan_ok("/w", &["empty.txt"]);
    assert_eq!(m.target.kind, TargetKind::File);
    assert_eq!(m.target.content, None);
    let (path, content) = expect_create_file(decide_action(&m, false));
    assert_eq!(path, "/w/empty.txt");
    assert_eq!(content, "");
}

#[test]
fn empty_string_content_creates_an_empty_file() {
    let m = plan_ok("/w", &["f.txt", ""]);
    let (path, content) = expect_create_file(decide_action(&m, false));
    assert_eq!(path, "/w/f.txt");
    assert_eq!(content, "");
}

#[test]
fn zero_arguments_are_rejected() {
    let args: Vec<String> = Vec::new();
    assert_eq!(parse_args(&args), Err(MalformedInvocation::NoArguments));
    assert_eq!(plan("/w", &args).unwrap_err(), MalformedInvocation::NoArguments);
}

#[test]
fn three_or_more_arguments_are_rejected() {
    let args = vec!["a.txt".to_string(), "b".to_string(), "c".to_string()];
    assert_eq!(parse_args(&args), Err(MalformedInvocation::TooManyArguments));
    let args4 = vec![
        "a.txt".to_string(),
        "b".to_string(),
        "c".to_string(),
        "d".to_string(),
    ];
    assert_eq!(plan("/w", &args4).unwrap_err(), MalformedInvocation::TooManyArguments);
}

#[test]
fn empty_path_is_rejected() {
    let args = vec![String::new()];
    assert_eq!(parse_args(&args), Err(MalformedInvocation::EmptyPath));
    let args2 = vec![String::new(), "content".to_string()];
    assert_eq!(plan("/w", &args2).unwrap_err(), MalformedInvocation::EmptyPath);
}

#[test]
fn relative_path_resolves_against_working_directory() {
    // Invoked from /proj/crate, "../outside.txt" is joined against the
    // working directory, not against any source file location; the
    // operating system then reads the ".." as /proj/outside.txt.
    let joined = join_path("/proj/crate", "../outside.txt");
    assert_eq!(joined, "/proj/crate/../outside.txt");
    let m = plan_ok("/proj/crate", &["../outside.txt", "v"]);
    assert_eq!(m.resolved, "/proj/crate/../outside.txt");
    let (path, content) = expect_create_file(decide_action(&m, false));
    assert_eq!(path, "/proj/crate/../outside.txt");
    assert_eq!(content, "v");
}

#[test]
fn absolute_path_discards_the_working_directory() {
    let m = plan_ok("/w", &["/tmp/abs.txt", "v"]);
    assert_eq!(m.resolved, "/tmp/abs.txt");
    assert_eq!(m.ancestor.as_deref(), Some("/tmp"));
    let md = plan_ok("/w", &["/tmp/logs/"]);
    assert_eq!(md.resolved, "/tmp/logs/");
    let path = expect_create_directory(decide_action(&md, false));
    assert_eq!(path, "/tmp/logs/");
}

#[test]
fn multi_line_content_is_kept_verbatim() {
    let content_in = "create table if not exists users (\n    id serial\n);\n";
    let m = plan_ok("/w", &["migrations/users.sql", content_in]);
    let (path, content) = expect_create_file(decide_action(&m, false));
    assert_eq!(path, "/w/migrations/users.sql");
    assert_eq!(content, content_in);
    let no_newline = "one line without a trailing newline";
    let m2 = plan_ok("/w", &["one.txt", no_newline]);
    let (_, content2) = expect_create_file(decide_action(&m2, false));
    assert_eq!(content2, no_newline);
}

#[test]
fn join_path_inserts_a_single_separator() {
    assert_eq!(join_path("/w", "a.txt"), "/w/a.txt");
    assert_eq!(join_path("/w/", "a.txt"), "/w/a.txt");
    assert_eq!(join_path("", "a.txt"), "a.txt");
    assert_eq!(join_path("/w", "/abs/a.txt"), "/abs/a.txt");
}

#[test]
fn parent_dir_walks_one_component_up() {
    assert_eq!(parent_dir("/w/a/b.txt").as_deref(), Some("/w/a"));
    assert_eq!(parent_dir("a/b/").as_deref(), Some("a"));
    assert_eq!(parent_dir("a//b").as_deref(), Some("a"));
    assert_eq!(parent_dir("/a").as_deref(), Some("/"));
    assert_eq!(parent_dir("/"), None);
    assert_eq!(parent_dir(""), None);
    assert_eq!(parent_dir("bare.txt"), None);
    assert_eq!(parent_dir("dir/"), None);
}
