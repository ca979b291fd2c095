use mooreseditor::{greet, project_scope_grant, scope_extension_result, scope_failure_message};

#[test]
fn greet_world() {
    assert_eq!(greet("World"), "Hello, World! You've been greeted from Rust!");
}

#[test]
fn greet_empty_name() {
    assert_eq!(greet(""), "Hello, ! You've been greeted from Rust!");
}

#[test]
fn greet_is_the_same_on_each_call() {
    let first = greet("Ada Lovelace");
    let second = greet("Ada Lovelace");
    assert_eq!(first, second);
    assert_eq!(first, "Hello, Ada Lovelace! You've been greeted from Rust!");
}

#[test]
fn greet_keeps_non_ascii_name() {
    assert_eq!(greet("Zoë"), "Hello, Zoë! You've been greeted from Rust!");
}

#[test]
fn project_grant_is_recursive() {
    let grant = project_scope_grant("/tmp/proj".to_string());
    assert_eq!(grant.directory, "/tmp/proj");
    assert!(grant.recursive);
}

#[test]
fn project_grant_keeps_path_as_given() {
    let grant = project_scope_grant("/does/not/exist".to_string());
    assert_eq!(grant.directory, "/does/not/exist");
    assert!(grant.recursive);
}

#[test]
fn accepted_grant_is_acknowledged() {
    assert_eq!(scope_extension_result(Ok(())), Ok(()));
}

#[test]
fn repeated_grant_is_acknowledged_twice() {
    let first = project_scope_grant("/tmp/proj".to_string());
    let second = project_scope_grant("/tmp/proj".to_string());
    assert_eq!(first.directory, second.directory);
    assert_eq!(first.recursive, second.recursive);
    assert_eq!(scope_extension_result(Ok(())), Ok(()));
    assert_eq!(scope_extension_result(Ok(())), Ok(()));
}

#[test]
fn rejected_grant_reports_reason() {
    let r = scope_extension_result(Err("path does not exist".to_string()));
    let message = r.unwrap_err();
    assert_eq!(message, "Failed to add directory to scope: path does not exist");
    assert!(message.contains("Failed to add directory to scope"));
    assert!(message.contains("path does not exist"));
}

#[test]
fn failure_message_with_empty_reason() {
    assert_eq!(scope_failure_message(""), "Failed to add directory to scope: ");
}

#[test]
fn greeting_unaffected_by_interleaved_grant() {
    let before = greet("World");
    let grant = project_scope_grant("/tmp/proj".to_string());
    let ack = scope_extension_result(Ok(()));
    let after = greet("World");
    assert!(grant.recursive);
    assert_eq!(ack, Ok(()));
    assert_eq!(before, after);
    assert_eq!(after, "Hello, World! You've been greeted from Rust!");
}

#[test]
fn failure_then_greeting_still_answers() {
    let err = scope_extension_result(Err("denied".to_string()));
    assert!(err.is_err());
    assert_eq!(greet("again"), "Hello, again! You've been greeted from Rust!");
}
