use std::collections::BTreeMap;

use onefuzz_agent::error::{Operation, Root, StateError};
use onefuzz_agent::failure::{
    failure_path, read_failure, read_logs, save_failure, ReadFailure, ReadLogs, SaveFailure,
};
use onefuzz_agent::machine_id::MachineId;
use onefuzz_agent::protocol::{Effect, Reply};

/// A host in memory that keeps a journal of what it was asked.
struct MemoryHost {
    state_root: Option<String>,
    log_root: Option<String>,
    files: BTreeMap<String, Vec<u8>>,
    logs: Option<Vec<String>>,
    locked: Vec<String>,
    journal: Vec<Effect>,
}

impl MemoryHost {
    fn new() -> MemoryHost {
        MemoryHost {
            state_root: Some("/onefuzz".to_string()),
            log_root: Some("/onefuzz/logs".to_string()),
            files: BTreeMap::new(),
            logs: Some(Vec::new()),
            locked: Vec::new(),
            journal: Vec::new(),
        }
    }

    fn failed(missing: bool, detail: &str) -> Reply {
        Reply::Failed { missing, detail: detail.to_string() }
    }

    fn perform(&mut self, effect: Effect) -> Reply {
        self.journal.push(effect.clone());
        match effect {
            Effect::ResolveStateRoot => match &self.state_root {
                Some(root) => Reply::Directory(root.clone()),
                None => MemoryHost::failed(false, "no state root"),
            },
            Effect::ResolveLogRoot => match &self.log_root {
                Some(root) => Reply::Directory(root.clone()),
                None => MemoryHost::failed(false, "no log root"),
            },
            Effect::ReadFile { path } => match self.files.get(&path) {
                Some(data) => Reply::Contents(data.clone()),
                None => MemoryHost::failed(true, "No such file or directory"),
            },
            Effect::WriteFile { path, data } => {
                if self.locked.contains(&path) {
                    MemoryHost::failed(false, "Permission denied")
                } else {
                    self.files.insert(path, data);
                    Reply::Done
                }
            }
            Effect::RemoveFile { path } => {
                if self.locked.contains(&path) {
                    MemoryHost::failed(false, "Permission denied")
                } else if self.files.remove(&path).is_some() {
                    Reply::Done
                } else {
                    MemoryHost::failed(true, "No such file or directory")
                }
            }
            Effect::ListDirectory { path } => match &self.logs {
                Some(logs) if Some(&path) == self.log_root.as_ref() => Reply::Entries(logs.clone()),
                _ => MemoryHost::failed(true, "No such file or directory"),
            },
            Effect::Run { .. } => Reply::Done,
            Effect::Sleep { .. } => Reply::Done,
        }
    }

    fn add_log(&mut self, path: &str, data: &[u8]) {
        self.files.insert(path.to_string(), data.to_vec());
        self.logs.as_mut().unwrap().push(path.to_string());
    }
}

fn run_save(mut task: SaveFailure, host: &mut MemoryHost) -> Result<(), StateError> {
    while let Some(effect) = task.effect() {
        let reply = host.perform(effect);
        task = task.resume(reply);
    }
    task.into_result().unwrap()
}

fn run_read(mut task: ReadFailure, host: &mut MemoryHost) -> Result<String, StateError> {
    while let Some(effect) = task.effect() {
        let reply = host.perform(effect);
        task = task.resume(reply);
    }
    task.into_result().unwrap()
}

fn run_logs(mut task: ReadLogs, host: &mut MemoryHost) -> Result<String, StateError> {
    while let Some(effect) = task.effect() {
        let reply = host.perform(effect);
        task = task.resume(reply);
    }
    task.into_result().unwrap()
}

fn machine() -> MachineId {
    MachineId::new(1)
}

const RECORD: &str = "/onefuzz/onefuzz-agent-failure-00000000-0000-0000-0000-000000000001.txt";

#[test]
fn failure_capture() {
    let error = anyhow::Error::msg("disk full").context("boom");
    let rendering = format!("{:?}", error);
    let mut host = MemoryHost::new();
    assert_eq!(run_save(save_failure(&rendering, machine()), &mut host), Ok(()));
    assert!(host.files.contains_key(RECORD));
    let text = run_read(read_failure(machine()), &mut host).unwrap();
    assert!(text.contains("boom"));
    assert!(text.contains("disk full"));
    assert_eq!(text, rendering);
}

#[test]
fn save_failure_asks_for_the_root_and_then_writes() {
    let mut host = MemoryHost::new();
    run_save(save_failure("boom", machine()), &mut host).unwrap();
    assert_eq!(
        host.journal,
        vec![
            Effect::ResolveStateRoot,
            Effect::WriteFile { path: RECORD.to_string(), data: b"boom".to_vec() },
        ]
    );
}

#[test]
fn save_failure_writes_the_rendering_as_utf8() {
    let mut host = MemoryHost::new();
    run_save(save_failure("d\u{e9}faut \u{2764}", machine()), &mut host).unwrap();
    assert_eq!(host.files[RECORD], "d\u{e9}faut \u{2764}".as_bytes().to_vec());
}

#[test]
fn a_later_failure_replaces_the_earlier_one() {
    let mut host = MemoryHost::new();
    run_save(save_failure("the first failure, a long one", machine()), &mut host).unwrap();
    run_save(save_failure("second", machine()), &mut host).unwrap();
    assert_eq!(run_read(read_failure(machine()), &mut host), Ok("second".to_string()));
    assert_eq!(host.files.len(), 1);
}

#[test]
fn failures_of_different_machines_are_kept_apart() {
    let mut host = MemoryHost::new();
    run_save(save_failure("one", MachineId::new(1)), &mut host).unwrap();
    run_save(save_failure("two", MachineId::new(2)), &mut host).unwrap();
    assert_eq!(run_read(read_failure(MachineId::new(1)), &mut host), Ok("one".to_string()));
    assert_eq!(run_read(read_failure(MachineId::new(2)), &mut host), Ok("two".to_string()));
}

#[test]
fn save_failure_reports_the_path_that_could_not_be_written() {
    let mut host = MemoryHost::new();
    host.locked.push(RECORD.to_string());
    let result = run_save(save_failure("boom", machine()), &mut host);
    assert_eq!(
        result,
        Err(StateError::Io {
            operation: Operation::Write,
            path: RECORD.to_string(),
            detail: "Permission denied".to_string(),
        })
    );
    assert_eq!(result.unwrap_err().path(), Some(RECORD));
    assert!(host.files.is_empty());
}

#[test]
fn save_failure_without_a_state_root_is_a_config_error() {
    let mut host = MemoryHost::new();
    host.state_root = None;
    let result = run_save(save_failure("boom", machine()), &mut host);
    assert_eq!(
        result,
        Err(StateError::Config { root: Root::State, detail: "no state root".to_string() })
    );
    assert_eq!(host.journal, vec![Effect::ResolveStateRoot]);
}

#[test]
fn a_finished_task_stays_finished() {
    let mut host = MemoryHost::new();
    let mut task = save_failure("boom", machine());
    while let Some(effect) = task.effect() {
        task = task.resume(host.perform(effect));
    }
    let task = task.resume(Reply::Failed { missing: false, detail: "late".to_string() });
    assert_eq!(task.effect(), None);
    assert_eq!(task.into_result(), Some(Ok(())));
}

#[test]
fn an_unfinished_task_has_no_result() {
    assert_eq!(save_failure("boom", machine()).into_result(), None);
    assert_eq!(read_failure(machine()).into_result(), None);
    assert_eq!(read_logs().into_result(), None);
}

#[test]
fn read_failure_of_invalid_utf8_has_replacement_characters() {
    let mut host = MemoryHost::new();
    host.files.insert(failure_path("/onefuzz", machine()), vec![b'o', b'k', 0xff, 0xfe]);
    let text = run_read(read_failure(machine()), &mut host);
    assert_eq!(text, Ok("ok\u{fffd}\u{fffd}".to_string()));
}

#[test]
fn read_failure_of_a_truncated_character_has_a_replacement_character() {
    let mut host = MemoryHost::new();
    host.files.insert(failure_path("/onefuzz", machine()), vec![b'a', 0xe2, 0x82]);
    assert_eq!(run_read(read_failure(machine()), &mut host), Ok("a\u{fffd}".to_string()));
}

#[test]
fn read_failure_keeps_valid_text() {
    let mut host = MemoryHost::new();
    let path = failure_path("/onefuzz", machine());
    host.files.insert(path.clone(), "gr\u{fc}\u{df}e \u{1f980}".as_bytes().to_vec());
    let text = run_read(read_failure(machine()), &mut host);
    assert_eq!(text, Ok("gr\u{fc}\u{df}e \u{1f980}".to_string()));
    host.files.insert(path, Vec::new());
    assert_eq!(run_read(read_failure(machine()), &mut host), Ok(String::new()));
}

#[test]
fn read_failure_replaces_each_invalid_sequence() {
    let mut host = MemoryHost::new();
    host.files.insert(failure_path("/onefuzz", machine()), vec![b'a', 0xff, b'b', 0xc0, b'c']);
    let text = run_read(read_failure(machine()), &mut host);
    assert_eq!(text, Ok("a\u{fffd}b\u{fffd}c".to_string()));
}

#[test]
fn read_failure_of_a_missing_record_is_an_error() {
    let mut host = MemoryHost::new();
    let result = run_read(read_failure(machine()), &mut host);
    assert_eq!(
        result,
        Err(StateError::Io {
            operation: Operation::Read,
            path: RECORD.to_string(),
            detail: "No such file or directory".to_string(),
        })
    );
    assert_eq!(
        host.journal,
        vec![Effect::ResolveStateRoot, Effect::ReadFile { path: RECORD.to_string() }]
    );
}

#[test]
fn read_failure_without_a_state_root_is_a_config_error() {
    let mut host = MemoryHost::new();
    host.state_root = None;
    let result = run_read(read_failure(machine()), &mut host);
    assert_eq!(
        result,
        Err(StateError::Config { root: Root::State, detail: "no state root".to_string() })
    );
}

#[test]
fn read_failure_takes_an_unexpected_reply_for_a_failure() {
    let task = read_failure(machine()).resume(Reply::Directory("/onefuzz".to_string()));
    let task = task.resume(Reply::Done);
    assert_eq!(
        task.into_result(),
        Some(Err(StateError::Io {
            operation: Operation::Read,
            path: RECORD.to_string(),
            detail: String::new(),
        }))
    );
}

#[test]
fn mixed_encoding_logs() {
    let mut host = MemoryHost::new();
    host.add_log("/onefuzz/logs/a.log", b"hello");
    host.add_log("/onefuzz/logs/b.log", &[0xff, 0xfe]);
    let text = run_logs(read_logs(), &mut host).unwrap();
    assert_eq!(
        text,
        "/onefuzz/logs/a.log\n\nhello\n\n/onefuzz/logs/b.log\n\n\u{fffd}\u{fffd}"
    );
    assert!(text.contains("/onefuzz/logs/a.log"));
    assert!(text.contains("/onefuzz/logs/b.log"));
    assert!(text.contains("hello"));
    assert!(text.contains("\u{fffd}\u{fffd}"));
}

#[test]
fn read_logs_keeps_the_order_of_the_host() {
    let mut host = MemoryHost::new();
    host.add_log("/onefuzz/logs/z.log", b"last written, first listed");
    host.add_log("/onefuzz/logs/a.log", b"second");
    host.add_log("/onefuzz/logs/m.log", b"third");
    let text = run_logs(read_logs(), &mut host).unwrap();
    assert_eq!(
        text,
        "/onefuzz/logs/z.log\n\nlast written, first listed\n\n\
         /onefuzz/logs/a.log\n\nsecond\n\n\
         /onefuzz/logs/m.log\n\nthird"
    );
    assert_eq!(
        host.journal,
        vec![
            Effect::ResolveLogRoot,
            Effect::ListDirectory { path: "/onefuzz/logs".to_string() },
            Effect::ReadFile { path: "/onefuzz/logs/z.log".to_string() },
            Effect::ReadFile { path: "/onefuzz/logs/a.log".to_string() },
            Effect::ReadFile { path: "/onefuzz/logs/m.log".to_string() },
        ]
    );
}

#[test]
fn read_logs_of_one_file_has_its_path_and_its_text() {
    let mut host = MemoryHost::new();
    host.add_log("/onefuzz/logs/only.log", b"line one\nline two\n");
    assert_eq!(
        run_logs(read_logs(), &mut host),
        Ok("/onefuzz/logs/only.log\n\nline one\nline two\n".to_string())
    );
}

#[test]
fn read_logs_of_an_empty_directory_is_empty() {
    let mut host = MemoryHost::new();
    assert_eq!(run_logs(read_logs(), &mut host), Ok(String::new()));
}

#[test]
fn read_logs_of_an_empty_file_keeps_its_path() {
    let mut host = MemoryHost::new();
    host.add_log("/onefuzz/logs/empty.log", b"");
    host.add_log("/onefuzz/logs/full.log", b"x");
    assert_eq!(
        run_logs(read_logs(), &mut host),
        Ok("/onefuzz/logs/empty.log\n\n\n\n/onefuzz/logs/full.log\n\nx".to_string())
    );
}

#[test]
fn read_logs_fails_where_the_directory_cannot_be_listed() {
    let mut host = MemoryHost::new();
    host.logs = None;
    assert_eq!(
        run_logs(read_logs(), &mut host),
        Err(StateError::Io {
            operation: Operation::List,
            path: "/onefuzz/logs".to_string(),
            detail: "No such file or directory".to_string(),
        })
    );
}

#[test]
fn read_logs_fails_where_one_entry_cannot_be_read() {
    let mut host = MemoryHost::new();
    host.add_log("/onefuzz/logs/a.log", b"hello");
    host.logs.as_mut().unwrap().push("/onefuzz/logs/gone.log".to_string());
    host.add_log("/onefuzz/logs/c.log", b"never read");
    assert_eq!(
        run_logs(read_logs(), &mut host),
        Err(StateError::Io {
            operation: Operation::Read,
            path: "/onefuzz/logs/gone.log".to_string(),
            detail: "No such file or directory".to_string(),
        })
    );
    assert_eq!(host.journal.len(), 4);
}

#[test]
fn read_logs_without_a_log_root_is_a_config_error() {
    let mut host = MemoryHost::new();
    host.log_root = None;
    assert_eq!(
        run_logs(read_logs(), &mut host),
        Err(StateError::Config { root: Root::Log, detail: "no log root".to_string() })
    );
}

#[test]
fn reading_changes_nothing() {
    let mut host = MemoryHost::new();
    host.add_log("/onefuzz/logs/a.log", b"hello");
    run_save(save_failure("boom", machine()), &mut host).unwrap();
    let before = host.files.clone();
    run_read(read_failure(machine()), &mut host).unwrap();
    run_logs(read_logs(), &mut host).unwrap();
    assert_eq!(host.files, before);
}
