use onefuzz_agent::error::{Operation, Root, StateError};
use onefuzz_agent::protocol::Reply;

fn io(operation: Operation) -> StateError {
    StateError::Io {
        operation,
        path: "/onefuzz/file".to_string(),
        detail: "Permission denied".to_string(),
    }
}

#[test]
fn message_of_a_config_error_names_the_root() {
    let state = StateError::Config { root: Root::State, detail: "not set".to_string() };
    assert_eq!(state.message(), "unable to resolve the state root: not set");
    let log = StateError::Config { root: Root::Log, detail: "not set".to_string() };
    assert_eq!(log.message(), "unable to resolve the log root: not set");
}

#[test]
fn message_of_an_io_error_names_the_operation_and_the_path() {
    assert_eq!(io(Operation::Read).message(), "unable to read /onefuzz/file: Permission denied");
    assert_eq!(io(Operation::Write).message(), "unable to write /onefuzz/file: Permission denied");
    assert_eq!(
        io(Operation::Remove).message(),
        "unable to remove /onefuzz/file: Permission denied"
    );
    assert_eq!(io(Operation::List).message(), "unable to list /onefuzz/file: Permission denied");
    assert_eq!(io(Operation::Run).message(), "unable to run /onefuzz/file: Permission denied");
}

#[test]
fn message_of_a_serialization_error_has_the_detail() {
    let error = StateError::Serialization { detail: "expected value at line 1".to_string() };
    assert_eq!(
        error.message(),
        "unable to encode or decode the reboot context: expected value at line 1"
    );
}

#[test]
fn message_of_a_reboot_timeout() {
    assert_eq!(StateError::RebootTimeout.message(), "Failed to reboot in 10 minutes");
}

#[test]
fn message_with_empty_parts_keeps_its_frame() {
    let error =
        StateError::Io { operation: Operation::Read, path: String::new(), detail: String::new() };
    assert_eq!(error.message(), "unable to read : ");
}

#[test]
fn only_io_errors_have_a_path() {
    assert_eq!(io(Operation::Remove).path(), Some("/onefuzz/file"));
    assert_eq!(StateError::RebootTimeout.path(), None);
    assert_eq!(StateError::Serialization { detail: "x".to_string() }.path(), None);
    assert_eq!(StateError::Config { root: Root::Log, detail: "x".to_string() }.path(), None);
}

#[test]
fn detail_of_a_failure_is_what_the_host_said() {
    let reply = Reply::Failed { missing: true, detail: "No such file".to_string() };
    assert_eq!(reply.into_detail(), "No such file");
}

#[test]
fn detail_of_any_other_reply_is_empty() {
    assert_eq!(Reply::Done.into_detail(), "");
    assert_eq!(Reply::Directory("/onefuzz".to_string()).into_detail(), "");
    assert_eq!(Reply::Contents(vec![1, 2, 3]).into_detail(), "");
    assert_eq!(Reply::Entries(vec!["a".to_string()]).into_detail(), "");
}
