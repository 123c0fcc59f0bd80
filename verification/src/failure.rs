//! The failure store: the latest failure record of a machine, and the
//! agent's log files gathered into one text.
//!
//! Each operation is a task. A task names the effect that its host has to
//! carry out next, takes the host's reply, and ends with a result.

use crate::error::{text_outcome, unit_outcome, Operation, Root, StateError, StateErrorView};
use crate::machine_id::MachineId;
use crate::paths::{state_file_path, state_path, StateFile};
use crate::protocol::{Effect, EffectView, Reply, ReplyView, Task};
use crate::text::{decode_lossy, join, joined, lossy_text};
use vstd::prelude::*;
use vstd::utf8::encode_utf8;

verus! {

/// The path of a machine's failure record under `state_root`.
pub fn failure_path(state_root: &str, machine_id: MachineId) -> (path: String)
    ensures
        path@ == state_path(state_root@, StateFile::Failure, machine_id),
{
    state_file_path(state_root, StateFile::Failure, machine_id)
}

/// What stands between the parts of the gathered logs: the end of a line
/// and a blank line.
pub open spec fn blank_line() -> Seq<char> {
    "\n\n"@
}

/// The progress of saving a failure record.
pub enum SaveFailureView {
    /// Waiting for the state root.
    Resolving { machine_id: MachineId, rendering: Seq<char> },
    /// Waiting for the record to be written.
    Writing { path: Seq<char>, data: Seq<u8> },
    Finished { result: Result<(), StateErrorView> },
}

impl Task for SaveFailureView {
    /// What the host has to do next; nothing once the task has finished.
    open spec fn effect(self) -> Option<EffectView> {
        match self {
            SaveFailureView::Resolving { machine_id, rendering } => Some(
                EffectView::ResolveStateRoot,
            ),
            SaveFailureView::Writing { path, data } => Some(EffectView::WriteFile { path, data }),
            SaveFailureView::Finished { result } => None,
        }
    }

    /// The task after the host's reply to its effect. The record is the
    /// rendering as UTF-8, written over whatever the file held.
    open spec fn resume(self, reply: ReplyView) -> SaveFailureView {
        match self {
            SaveFailureView::Resolving { machine_id, rendering } => match reply {
                ReplyView::Directory(root) => SaveFailureView::Writing {
                    path: state_path(root, StateFile::Failure, machine_id),
                    data: encode_utf8(rendering),
                },
                _ => SaveFailureView::Finished {
                    result: Err(
                        StateErrorView::Config { root: Root::State, detail: reply.detail() },
                    ),
                },
            },
            SaveFailureView::Writing { path, data } => match reply {
                ReplyView::Done => SaveFailureView::Finished { result: Ok(()) },
                _ => SaveFailureView::Finished {
                    result: Err(
                        StateErrorView::Io {
                            operation: Operation::Write,
                            path,
                            detail: reply.detail(),
                        },
                    ),
                },
            },
            SaveFailureView::Finished { result } => self,
        }
    }
}

impl SaveFailureView {
    /// The result, once the task has finished.
    pub open spec fn result(self) -> Option<Result<(), StateErrorView>> {
        match self {
            SaveFailureView::Finished { result } => Some(result),
            _ => None,
        }
    }
}

enum SaveFailureStage {
    Resolving { machine_id: MachineId, rendering: String },
    Writing { path: String, data: Vec<u8> },
    Finished { result: Result<(), StateError> },
}

/// The task of saving a failure record.
pub struct SaveFailure {
    stage: SaveFailureStage,
}

impl View for SaveFailure {
    type V = SaveFailureView;

    closed spec fn view(&self) -> SaveFailureView {
        match self.stage {
            SaveFailureStage::Resolving { machine_id, rendering } => SaveFailureView::Resolving {
                machine_id,
                rendering: rendering@,
            },
            SaveFailureStage::Writing { path, data } => SaveFailureView::Writing {
                path: path@,
                data: data@,
            },
            SaveFailureStage::Finished { result } => SaveFailureView::Finished {
                result: unit_outcome(result),
            },
        }
    }
}

/// Begins to save a failure for a machine. `rendering` is the verbose text
/// of the error: its message and the chain of its causes.
pub fn save_failure(rendering: &str, machine_id: MachineId) -> (task: SaveFailure)
    ensures
        task@ == (SaveFailureView::Resolving { machine_id, rendering: rendering@ }),
{
    SaveFailure {
        stage: SaveFailureStage::Resolving { machine_id, rendering: String::from_str(rendering) },
    }
}

impl SaveFailure {
    /// What the host has to do next; nothing once the task has finished.
    pub fn effect(&self) -> (effect: Option<Effect>)
        ensures
            effect.deep_view() == self@.effect(),
    {
        match &self.stage {
            SaveFailureStage::Resolving { .. } => Some(Effect::ResolveStateRoot),
            SaveFailureStage::Writing { path, data } => Some(
                Effect::WriteFile { path: path.clone(), data: data.clone() },
            ),
            SaveFailureStage::Finished { .. } => None,
        }
    }

    /// Takes the host's reply to the effect.
    pub fn resume(self, reply: Reply) -> (next: SaveFailure)
        ensures
            next@ == self@.resume(reply@),
    {
        match self.stage {
            SaveFailureStage::Resolving { machine_id, rendering } => match reply {
                Reply::Directory(root) => SaveFailure {
                    stage: SaveFailureStage::Writing {
                        path: failure_path(root.as_str(), machine_id),
                        data: rendering.as_str().as_bytes_vec(),
                    },
                },
                other => SaveFailure {
                    stage: SaveFailureStage::Finished {
                        result: Err(
                            StateError::Config { root: Root::State, detail: other.into_detail() },
                        ),
                    },
                },
            },
            SaveFailureStage::Writing { path, data } => match reply {
                Reply::Done => SaveFailure { stage: SaveFailureStage::Finished { result: Ok(()) } },
                other => SaveFailure {
                    stage: SaveFailureStage::Finished {
                        result: Err(
                            StateError::Io {
                                operation: Operation::Write,
                                path,
                                detail: other.into_detail(),
                            },
                        ),
                    },
                },
            },
            SaveFailureStage::Finished { result } => SaveFailure {
                stage: SaveFailureStage::Finished { result },
            },
        }
    }

    /// The result, once the task has finished.
    pub fn into_result(self) -> (result: Option<Result<(), StateError>>)
        ensures
            match result {
                Some(r) => self@.result() == Some(unit_outcome(r)),
                None => self@.result() is None,
            },
    {
        match self.stage {
            SaveFailureStage::Finished { result } => Some(result),
            _ => None,
        }
    }
}

/// The progress of reading a failure record.
pub enum ReadFailureView {
    /// Waiting for the state root.
    Resolving { machine_id: MachineId },
    /// Waiting for the record's bytes.
    Reading { path: Seq<char> },
    Finished { result: Result<Seq<char>, StateErrorView> },
}

impl Task for ReadFailureView {
    /// What the host has to do next; nothing once the task has finished.
    open spec fn effect(self) -> Option<EffectView> {
        match self {
            ReadFailureView::Resolving { machine_id } => Some(EffectView::ResolveStateRoot),
            ReadFailureView::Reading { path } => Some(EffectView::ReadFile { path }),
            ReadFailureView::Finished { result } => None,
        }
    }

    /// The task after the host's reply to its effect. Whatever bytes the
    /// record holds are read leniently; a record that cannot be read at all,
    /// a missing one too, is an error.
    open spec fn resume(self, reply: ReplyView) -> ReadFailureView {
        match self {
            ReadFailureView::Resolving { machine_id } => match reply {
                ReplyView::Directory(root) => ReadFailureView::Reading {
                    path: state_path(root, StateFile::Failure, machine_id),
                },
                _ => ReadFailureView::Finished {
                    result: Err(
                        StateErrorView::Config { root: Root::State, detail: reply.detail() },
                    ),
                },
            },
            ReadFailureView::Reading { path } => match reply {
                ReplyView::Contents(data) => ReadFailureView::Finished {
                    result: Ok(lossy_text(data)),
                },
                _ => ReadFailureView::Finished {
                    result: Err(
                        StateErrorView::Io {
                            operation: Operation::Read,
                            path,
                            detail: reply.detail(),
                        },
                    ),
                },
            },
            ReadFailureView::Finished { result } => self,
        }
    }
}

impl ReadFailureView {
    /// The result, once the task has finished.
    pub open spec fn result(self) -> Option<Result<Seq<char>, StateErrorView>> {
        match self {
            ReadFailureView::Finished { result } => Some(result),
            _ => None,
        }
    }
}

enum ReadFailureStage {
    Resolving { machine_id: MachineId },
    Reading { path: String },
    Finished { result: Result<String, StateError> },
}

/// The task of reading a failure record.
pub struct ReadFailure {
    stage: ReadFailureStage,
}

impl View for ReadFailure {
    type V = ReadFailureView;

    closed spec fn view(&self) -> ReadFailureView {
        match self.stage {
            ReadFailureStage::Resolving { machine_id } => ReadFailureView::Resolving { machine_id },
            ReadFailureStage::Reading { path } => ReadFailureView::Reading { path: path@ },
            ReadFailureStage::Finished { result } => ReadFailureView::Finished {
                result: text_outcome(result),
            },
        }
    }
}

/// Begins to read the failure record of a machine.
pub fn read_failure(machine_id: MachineId) -> (task: ReadFailure)
    ensures
        task@ == (ReadFailureView::Resolving { machine_id }),
{
    ReadFailure { stage: ReadFailureStage::Resolving { machine_id } }
}

impl ReadFailure {
    /// What the host has to do next; nothing once the task has finished.
    pub fn effect(&self) -> (effect: Option<Effect>)
        ensures
            effect.deep_view() == self@.effect(),
    {
        match &self.stage {
            ReadFailureStage::Resolving { .. } => Some(Effect::ResolveStateRoot),
            ReadFailureStage::Reading { path } => Some(Effect::ReadFile { path: path.clone() }),
            ReadFailureStage::Finished { .. } => None,
        }
    }

    /// Takes the host's reply to the effect.
    pub fn resume(self, reply: Reply) -> (next: ReadFailure)
        ensures
            next@ == self@.resume(reply@),
    {
        match self.stage {
            ReadFailureStage::Resolving { machine_id } => match reply {
                Reply::Directory(root) => ReadFailure {
                    stage: ReadFailureStage::Reading {
                        path: failure_path(root.as_str(), machine_id),
                    },
                },
                other => ReadFailure {
                    stage: ReadFailureStage::Finished {
                        result: Err(
                            StateError::Config { root: Root::State, detail: other.into_detail() },
                        ),
                    },
                },
            },
            ReadFailureStage::Reading { path } => match reply {
                Reply::Contents(data) => ReadFailure {
                    stage: ReadFailureStage::Finished { result: Ok(decode_lossy(data.as_slice())) },
                },
                other => ReadFailure {
                    stage: ReadFailureStage::Finished {
                        result: Err(
                            StateError::Io {
                                operation: Operation::Read,
                                path,
                                detail: other.into_detail(),
                            },
                        ),
                    },
                },
            },
            ReadFailureStage::Finished { result } => ReadFailure {
                stage: ReadFailureStage::Finished { result },
            },
        }
    }

    /// The result, once the task has finished.
    pub fn into_result(self) -> (result: Option<Result<String, StateError>>)
        ensures
            match result {
                Some(r) => self@.result() == Some(text_outcome(r)),
                None => self@.result() is None,
            },
    {
        match self.stage {
            ReadFailureStage::Finished { result } => Some(result),
            _ => None,
        }
    }
}

/// The progress of gathering the logs.
pub enum ReadLogsView {
    /// Waiting for the log root.
    Resolving,
    /// Waiting for the entries of the log root.
    Listing { directory: Seq<char> },
    /// Waiting for the bytes of the entry `current`. `rest` are the entries
    /// still to read, and `parts` what has been gathered: for each entry
    /// read so far its path and then its text.
    Reading { current: Seq<char>, rest: Seq<Seq<char>>, parts: Seq<Seq<char>> },
    Finished { result: Result<Seq<char>, StateErrorView> },
}

impl Task for ReadLogsView {
    /// What the host has to do next; nothing once the task has finished.
    open spec fn effect(self) -> Option<EffectView> {
        match self {
            ReadLogsView::Resolving => Some(EffectView::ResolveLogRoot),
            ReadLogsView::Listing { directory } => Some(
                EffectView::ListDirectory { path: directory },
            ),
            ReadLogsView::Reading { current, rest, parts } => Some(
                EffectView::ReadFile { path: current },
            ),
            ReadLogsView::Finished { result } => None,
        }
    }

    /// The task after the host's reply to its effect. Entries are read in
    /// the host's order, each leniently. One that cannot be read ends the
    /// task with an error and no text.
    open spec fn resume(self, reply: ReplyView) -> ReadLogsView {
        match self {
            ReadLogsView::Resolving => match reply {
                ReplyView::Directory(directory) => ReadLogsView::Listing { directory },
                _ => ReadLogsView::Finished {
                    result: Err(StateErrorView::Config { root: Root::Log, detail: reply.detail() }),
                },
            },
            ReadLogsView::Listing { directory } => match reply {
                ReplyView::Entries(entries) => ReadLogsView::begin_reading(entries),
                _ => ReadLogsView::Finished {
                    result: Err(
                        StateErrorView::Io {
                            operation: Operation::List,
                            path: directory,
                            detail: reply.detail(),
                        },
                    ),
                },
            },
            ReadLogsView::Reading { current, rest, parts } => match reply {
                ReplyView::Contents(data) => {
                    let gathered = parts.push(current).push(lossy_text(data));
                    if rest.len() == 0 {
                        ReadLogsView::Finished { result: Ok(joined(gathered, blank_line())) }
                    } else {
                        ReadLogsView::Reading {
                            current: rest[0],
                            rest: rest.drop_first(),
                            parts: gathered,
                        }
                    }
                },
                _ => ReadLogsView::Finished {
                    result: Err(
                        StateErrorView::Io {
                            operation: Operation::Read,
                            path: current,
                            detail: reply.detail(),
                        },
                    ),
                },
            },
            ReadLogsView::Finished { result } => self,
        }
    }
}

impl ReadLogsView {
    /// The task once the entries are known: the first is read, or there is
    /// none and the text is empty.
    pub open spec fn begin_reading(entries: Seq<Seq<char>>) -> ReadLogsView {
        if entries.len() == 0 {
            ReadLogsView::Finished { result: Ok(Seq::empty()) }
        } else {
            ReadLogsView::Reading {
                current: entries[0],
                rest: entries.drop_first(),
                parts: Seq::empty(),
            }
        }
    }

    /// The result, once the task has finished.
    pub open spec fn result(self) -> Option<Result<Seq<char>, StateErrorView>> {
        match self {
            ReadLogsView::Finished { result } => Some(result),
            _ => None,
        }
    }
}

enum ReadLogsStage {
    Resolving,
    Listing { directory: String },
    /// `next` is the place in `entries` of the entry after `current`.
    Reading { current: String, entries: Vec<String>, next: usize, parts: Vec<String> },
    Finished { result: Result<String, StateError> },
}

/// The task of gathering the logs.
pub struct ReadLogs {
    stage: ReadLogsStage,
}

/// The entries from place `next` on; none where `next` is past the end.
spec fn entries_from(entries: Seq<Seq<char>>, next: int) -> Seq<Seq<char>> {
    if 0 <= next <= entries.len() {
        entries.subrange(next, entries.len() as int)
    } else {
        Seq::empty()
    }
}

impl View for ReadLogs {
    type V = ReadLogsView;

    closed spec fn view(&self) -> ReadLogsView {
        match self.stage {
            ReadLogsStage::Resolving => ReadLogsView::Resolving,
            ReadLogsStage::Listing { directory } => ReadLogsView::Listing { directory: directory@ },
            ReadLogsStage::Reading { current, entries, next, parts } => ReadLogsView::Reading {
                current: current@,
                rest: entries_from(entries.deep_view(), next as int),
                parts: parts.deep_view(),
            },
            ReadLogsStage::Finished { result } => ReadLogsView::Finished {
                result: text_outcome(result),
            },
        }
    }
}

/// Begins to gather the agent's logs.
pub fn read_logs() -> (task: ReadLogs)
    ensures
        task@ == ReadLogsView::Resolving,
{
    ReadLogs { stage: ReadLogsStage::Resolving }
}

impl ReadLogs {
    /// What the host has to do next; nothing once the task has finished.
    pub fn effect(&self) -> (effect: Option<Effect>)
        ensures
            effect.deep_view() == self@.effect(),
    {
        match &self.stage {
            ReadLogsStage::Resolving => Some(Effect::ResolveLogRoot),
            ReadLogsStage::Listing { directory } => Some(
                Effect::ListDirectory { path: directory.clone() },
            ),
            ReadLogsStage::Reading { current, .. } => Some(
                Effect::ReadFile { path: current.clone() },
            ),
            ReadLogsStage::Finished { .. } => None,
        }
    }

    /// The task that reads the entry at place `next`, or the finished task
    /// where there is none.
    fn read_from(entries: Vec<String>, next: usize, parts: Vec<String>) -> (task: ReadLogs)
        requires
            next <= entries.len(),
        ensures
            task@ == if next == entries.len() {
                ReadLogsView::Finished { result: Ok(joined(parts.deep_view(), blank_line())) }
            } else {
                ReadLogsView::Reading {
                    current: entries.deep_view()[next as int],
                    rest: entries.deep_view().subrange(next + 1, entries.len() as int),
                    parts: parts.deep_view(),
                }
            },
    {
        if next < entries.len() {
            let current = entries[next].clone();
            ReadLogs { stage: ReadLogsStage::Reading { current, entries, next: next + 1, parts } }
        } else {
            ReadLogs { stage: ReadLogsStage::Finished { result: Ok(join(&parts, "\n\n")) } }
        }
    }

    /// Takes the host's reply to the effect.
    pub fn resume(self, reply: Reply) -> (next: ReadLogs)
        ensures
            next@ == self@.resume(reply@),
    {
        match self.stage {
            ReadLogsStage::Resolving => match reply {
                Reply::Directory(directory) => ReadLogs {
                    stage: ReadLogsStage::Listing { directory },
                },
                other => ReadLogs {
                    stage: ReadLogsStage::Finished {
                        result: Err(
                            StateError::Config { root: Root::Log, detail: other.into_detail() },
                        ),
                    },
                },
            },
            ReadLogsStage::Listing { directory } => match reply {
                Reply::Entries(entries) => {
                    let ghost listed = entries.deep_view();
                    let parts: Vec<String> = Vec::new();
                    assert(parts.deep_view() =~= Seq::<Seq<char>>::empty());
                    assert(listed.len() > 0 ==> listed.subrange(1, listed.len() as int)
                        =~= listed.drop_first());
                    ReadLogs::read_from(entries, 0, parts)
                },
                other => ReadLogs {
                    stage: ReadLogsStage::Finished {
                        result: Err(
                            StateError::Io {
                                operation: Operation::List,
                                path: directory,
                                detail: other.into_detail(),
                            },
                        ),
                    },
                },
            },
            ReadLogsStage::Reading { current, entries, next, parts } => match reply {
                Reply::Contents(data) => {
                    let ghost rest = entries_from(entries.deep_view(), next as int);
                    let ghost before = parts.deep_view();
                    let text = decode_lossy(data.as_slice());
                    let mut parts = parts;
                    parts.push(current);
                    parts.push(text);
                    assert(parts.deep_view() =~= before.push(current@).push(lossy_text(data@)));
                    if next <= entries.len() {
                        assert(rest.len() > 0 ==> rest[0] == entries.deep_view()[next as int]);
                        assert(rest.len() > 0 ==> rest.drop_first()
                            =~= entries.deep_view().subrange(next + 1, entries.len() as int));
                        ReadLogs::read_from(entries, next, parts)
                    } else {
                        ReadLogs {
                            stage: ReadLogsStage::Finished { result: Ok(join(&parts, "\n\n")) },
                        }
                    }
                },
                other => ReadLogs {
                    stage: ReadLogsStage::Finished {
                        result: Err(
                            StateError::Io {
                                operation: Operation::Read,
                                path: current,
                                detail: other.into_detail(),
                            },
                        ),
                    },
                },
            },
            ReadLogsStage::Finished { result } => ReadLogs {
                stage: ReadLogsStage::Finished { result },
            },
        }
    }

    /// The result, once the task has finished.
    pub fn into_result(self) -> (result: Option<Result<String, StateError>>)
        ensures
            match result {
                Some(r) => self@.result() == Some(text_outcome(r)),
                None => self@.result() is None,
            },
    {
        match self.stage {
            ReadLogsStage::Finished { result } => Some(result),
            _ => None,
        }
    }
}

} // verus!
