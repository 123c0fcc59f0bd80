//! The reboot controller: it stores a reboot context before the host is
//! rebooted, hands it out once at the next start, and asks for the reboot.
//!
//! Each operation is a task. A task names the effect that its host has to
//! carry out next, takes the host's reply, and ends with a result.

pub use crate::context::{RebootContext, WorkSet};
use crate::context::{context_outcome, decoding, encoding, RebootContextView};
use crate::error::{unit_outcome, Operation, Root, StateError, StateErrorView};
use crate::machine_id::MachineId;
use crate::paths::{state_file_path, state_path, StateFile};
use crate::protocol::{Effect, EffectView, Reply, ReplyView, Task};
use vstd::prelude::*;

verus! {

/// The path of a machine's reboot context under `state_root`.
pub fn reboot_context_path(state_root: &str, machine_id: MachineId) -> (path: String)
    ensures
        path@ == state_path(state_root@, StateFile::RebootContext, machine_id),
{
    state_file_path(state_root, StateFile::RebootContext, machine_id)
}

/// The progress of storing a reboot context.
pub enum SaveContextView {
    /// Waiting for the state root.
    Resolving { machine_id: MachineId, context: RebootContextView },
    /// Waiting for the context to be written.
    Writing { path: Seq<char>, data: Seq<u8> },
    Finished { result: Result<(), StateErrorView> },
}

impl Task for SaveContextView {
    /// What the host has to do next; nothing once the task has finished.
    open spec fn effect(self) -> Option<EffectView> {
        match self {
            SaveContextView::Resolving { machine_id, context } => Some(
                EffectView::ResolveStateRoot,
            ),
            SaveContextView::Writing { path, data } => Some(EffectView::WriteFile { path, data }),
            SaveContextView::Finished { result } => None,
        }
    }

    /// The task after the host's reply to its effect. The context is
    /// written in its stored form over whatever the file held; one that has
    /// no stored form is an error and nothing is written.
    open spec fn resume(self, reply: ReplyView) -> SaveContextView {
        match self {
            SaveContextView::Resolving { machine_id, context } => match reply {
                ReplyView::Directory(root) => match encoding(context) {
                    Some(data) => SaveContextView::Writing {
                        path: state_path(root, StateFile::RebootContext, machine_id),
                        data,
                    },
                    None => SaveContextView::Finished {
                        result: Err(StateErrorView::Serialization),
                    },
                },
                _ => SaveContextView::Finished {
                    result: Err(
                        StateErrorView::Config { root: Root::State, detail: reply.detail() },
                    ),
                },
            },
            SaveContextView::Writing { path, data } => match reply {
                ReplyView::Done => SaveContextView::Finished { result: Ok(()) },
                _ => SaveContextView::Finished {
                    result: Err(
                        StateErrorView::Io {
                            operation: Operation::Write,
                            path,
                            detail: reply.detail(),
                        },
                    ),
                },
            },
            SaveContextView::Finished { result } => self,
        }
    }
}

impl SaveContextView {
    /// The result, once the task has finished.
    pub open spec fn result(self) -> Option<Result<(), StateErrorView>> {
        match self {
            SaveContextView::Finished { result } => Some(result),
            _ => None,
        }
    }
}

enum SaveContextStage {
    Resolving { machine_id: MachineId, context: RebootContext },
    Writing { path: String, data: Vec<u8> },
    Finished { result: Result<(), StateError> },
}

/// The task of storing a reboot context.
pub struct SaveContext {
    stage: SaveContextStage,
}

impl View for SaveContext {
    type V = SaveContextView;

    closed spec fn view(&self) -> SaveContextView {
        match self.stage {
            SaveContextStage::Resolving { machine_id, context } => SaveContextView::Resolving {
                machine_id,
                context: context@,
            },
            SaveContextStage::Writing { path, data } => SaveContextView::Writing {
                path: path@,
                data: data@,
            },
            SaveContextStage::Finished { result } => SaveContextView::Finished {
                result: unit_outcome(result),
            },
        }
    }
}

impl SaveContext {
    /// A task that has finished with `result` and asks nothing of the host.
    pub fn finished(result: Result<(), StateError>) -> (task: SaveContext)
        ensures
            task@ == (SaveContextView::Finished { result: unit_outcome(result) }),
    {
        SaveContext { stage: SaveContextStage::Finished { result } }
    }

    /// What the host has to do next; nothing once the task has finished.
    pub fn effect(&self) -> (effect: Option<Effect>)
        ensures
            effect.deep_view() == self@.effect(),
    {
        match &self.stage {
            SaveContextStage::Resolving { .. } => Some(Effect::ResolveStateRoot),
            SaveContextStage::Writing { path, data } => Some(
                Effect::WriteFile { path: path.clone(), data: data.clone() },
            ),
            SaveContextStage::Finished { .. } => None,
        }
    }

    /// Takes the host's reply to the effect.
    pub fn resume(self, reply: Reply) -> (next: SaveContext)
        ensures
            next@ == self@.resume(reply@),
    {
        match self.stage {
            SaveContextStage::Resolving { machine_id, context } => match reply {
                Reply::Directory(root) => {
                    let path = reboot_context_path(root.as_str(), machine_id);
                    match context.encode() {
                        Ok(data) => SaveContext { stage: SaveContextStage::Writing { path, data } },
                        Err(error) => SaveContext {
                            stage: SaveContextStage::Finished { result: Err(error) },
                        },
                    }
                },
                other => SaveContext {
                    stage: SaveContextStage::Finished {
                        result: Err(
                            StateError::Config { root: Root::State, detail: other.into_detail() },
                        ),
                    },
                },
            },
            SaveContextStage::Writing { path, data } => match reply {
                Reply::Done => SaveContext { stage: SaveContextStage::Finished { result: Ok(()) } },
                other => SaveContext {
                    stage: SaveContextStage::Finished {
                        result: Err(
                            StateError::Io {
                                operation: Operation::Write,
                                path,
                                detail: other.into_detail(),
                            },
                        ),
                    },
                },
            },
            SaveContextStage::Finished { result } => SaveContext {
                stage: SaveContextStage::Finished { result },
            },
        }
    }

    /// The result, once the task has finished.
    pub fn into_result(self) -> (result: Option<Result<(), StateError>>)
        ensures
            match result {
                Some(r) => self@.result() == Some(unit_outcome(r)),
                None => self@.result() is None,
            },
    {
        match self.stage {
            SaveContextStage::Finished { result } => Some(result),
            _ => None,
        }
    }
}

/// The progress of looking for a stored reboot context.
pub enum LoadContextView {
    /// Waiting for the state root.
    Resolving { machine_id: MachineId },
    /// Waiting for the bytes of the stored context.
    Reading { path: Seq<char> },
    /// The context was read and decoded; waiting for its file to be
    /// deleted.
    Removing { path: Seq<char>, context: RebootContextView },
    Finished { result: Result<Option<RebootContextView>, StateErrorView> },
}

impl Task for LoadContextView {
    /// What the host has to do next; nothing once the task has finished.
    open spec fn effect(self) -> Option<EffectView> {
        match self {
            LoadContextView::Resolving { machine_id } => Some(EffectView::ResolveStateRoot),
            LoadContextView::Reading { path } => Some(EffectView::ReadFile { path }),
            LoadContextView::Removing { path, context } => Some(EffectView::RemoveFile { path }),
            LoadContextView::Finished { result } => None,
        }
    }

    /// The task after the host's reply to its effect.
    ///
    /// A file that does not exist is the sign of a cold start: the result is
    /// no context, and no error. Bytes that hold no context are an error,
    /// and the file stays. A context that was decoded is handed out only
    /// after its file has been deleted: if the deletion fails, the result is
    /// that failure and the context is withheld.
    open spec fn resume(self, reply: ReplyView) -> LoadContextView {
        match self {
            LoadContextView::Resolving { machine_id } => match reply {
                ReplyView::Directory(root) => LoadContextView::Reading {
                    path: state_path(root, StateFile::RebootContext, machine_id),
                },
                _ => LoadContextView::Finished {
                    result: Err(
                        StateErrorView::Config { root: Root::State, detail: reply.detail() },
                    ),
                },
            },
            LoadContextView::Reading { path } => match reply {
                ReplyView::Contents(data) => match decoding(data) {
                    Some(context) => LoadContextView::Removing { path, context },
                    None => LoadContextView::Finished {
                        result: Err(StateErrorView::Serialization),
                    },
                },
                ReplyView::Failed { missing: true, detail } => LoadContextView::Finished {
                    result: Ok(None),
                },
                _ => LoadContextView::Finished {
                    result: Err(
                        StateErrorView::Io {
                            operation: Operation::Read,
                            path,
                            detail: reply.detail(),
                        },
                    ),
                },
            },
            LoadContextView::Removing { path, context } => match reply {
                ReplyView::Done => LoadContextView::Finished { result: Ok(Some(context)) },
                _ => LoadContextView::Finished {
                    result: Err(
                        StateErrorView::Io {
                            operation: Operation::Remove,
                            path,
                            detail: reply.detail(),
                        },
                    ),
                },
            },
            LoadContextView::Finished { result } => self,
        }
    }
}

impl LoadContextView {
    /// The result, once the task has finished.
    pub open spec fn result(self) -> Option<Result<Option<RebootContextView>, StateErrorView>> {
        match self {
            LoadContextView::Finished { result } => Some(result),
            _ => None,
        }
    }
}

enum LoadContextStage {
    Resolving { machine_id: MachineId },
    Reading { path: String },
    Removing { path: String, context: RebootContext },
    Finished { result: Result<Option<RebootContext>, StateError> },
}

/// The task of looking for a stored reboot context and consuming it.
pub struct LoadContext {
    stage: LoadContextStage,
}

impl View for LoadContext {
    type V = LoadContextView;

    closed spec fn view(&self) -> LoadContextView {
        match self.stage {
            LoadContextStage::Resolving { machine_id } => LoadContextView::Resolving { machine_id },
            LoadContextStage::Reading { path } => LoadContextView::Reading { path: path@ },
            LoadContextStage::Removing { path, context } => LoadContextView::Removing {
                path: path@,
                context: context@,
            },
            LoadContextStage::Finished { result } => LoadContextView::Finished {
                result: context_outcome(result),
            },
        }
    }
}

impl LoadContext {
    /// A task that has finished with `result` and asks nothing of the host.
    pub fn finished(result: Result<Option<RebootContext>, StateError>) -> (task: LoadContext)
        ensures
            task@ == (LoadContextView::Finished { result: context_outcome(result) }),
    {
        LoadContext { stage: LoadContextStage::Finished { result } }
    }

    /// What the host has to do next; nothing once the task has finished.
    pub fn effect(&self) -> (effect: Option<Effect>)
        ensures
            effect.deep_view() == self@.effect(),
    {
        match &self.stage {
            LoadContextStage::Resolving { .. } => Some(Effect::ResolveStateRoot),
            LoadContextStage::Reading { path } => Some(Effect::ReadFile { path: path.clone() }),
            LoadContextStage::Removing { path, .. } => Some(
                Effect::RemoveFile { path: path.clone() },
            ),
            LoadContextStage::Finished { .. } => None,
        }
    }

    /// Takes the host's reply to the effect.
    pub fn resume(self, reply: Reply) -> (next: LoadContext)
        ensures
            next@ == self@.resume(reply@),
    {
        match self.stage {
            LoadContextStage::Resolving { machine_id } => match reply {
                Reply::Directory(root) => LoadContext {
                    stage: LoadContextStage::Reading {
                        path: reboot_context_path(root.as_str(), machine_id),
                    },
                },
                other => LoadContext {
                    stage: LoadContextStage::Finished {
                        result: Err(
                            StateError::Config { root: Root::State, detail: other.into_detail() },
                        ),
                    },
                },
            },
            LoadContextStage::Reading { path } => match reply {
                Reply::Contents(data) => match RebootContext::decode(data.as_slice()) {
                    Ok(context) => LoadContext {
                        stage: LoadContextStage::Removing { path, context },
                    },
                    Err(error) => LoadContext {
                        stage: LoadContextStage::Finished { result: Err(error) },
                    },
                },
                Reply::Failed { missing: true, .. } => LoadContext {
                    stage: LoadContextStage::Finished { result: Ok(None) },
                },
                other => LoadContext {
                    stage: LoadContextStage::Finished {
                        result: Err(
                            StateError::Io {
                                operation: Operation::Read,
                                path,
                                detail: other.into_detail(),
                            },
                        ),
                    },
                },
            },
            LoadContextStage::Removing { path, context } => match reply {
                Reply::Done => LoadContext {
                    stage: LoadContextStage::Finished { result: Ok(Some(context)) },
                },
                other => LoadContext {
                    stage: LoadContextStage::Finished {
                        result: Err(
                            StateError::Io {
                                operation: Operation::Remove,
                                path,
                                detail: other.into_detail(),
                            },
                        ),
                    },
                },
            },
            LoadContextStage::Finished { result } => LoadContext {
                stage: LoadContextStage::Finished { result },
            },
        }
    }

    /// The result, once the task has finished.
    pub fn into_result(self) -> (result: Option<Result<Option<RebootContext>, StateError>>)
        ensures
            match result {
                Some(r) => self@.result() == Some(context_outcome(r)),
                None => self@.result() is None,
            },
    {
        match self.stage {
            LoadContextStage::Finished { result } => Some(result),
            _ => None,
        }
    }
}

/// The families of hosts that can be rebooted.
#[derive(Clone, Copy, Debug, PartialEq, Eq, Structural)]
pub enum HostFamily {
    Unix,
    Windows,
}

/// How long a task waits for the reboot that it asked for: ten minutes.
pub const REBOOT_WAIT_SECONDS: u64 = 600;

/// The program that reboots a host of the given family.
pub open spec fn reboot_program(family: HostFamily) -> Seq<char> {
    match family {
        HostFamily::Unix => "reboot"@,
        HostFamily::Windows => "powershell.exe"@,
    }
}

/// The arguments with which the program reboots the host by force.
pub open spec fn reboot_arguments(family: HostFamily) -> Seq<Seq<char>> {
    match family {
        HostFamily::Unix => seq!["-f"@],
        HostFamily::Windows => seq!["-Command"@, "Restart-Computer"@, "-Force"@],
    }
}

/// The command that reboots a host of the given family: the program and its
/// arguments.
pub fn reboot_command(family: HostFamily) -> (command: (String, Vec<String>))
    ensures
        command.0@ == reboot_program(family),
        command.1.deep_view() == reboot_arguments(family),
{
    match family {
        HostFamily::Unix => {
            let mut arguments: Vec<String> = Vec::new();
            arguments.push(String::from_str("-f"));
            assert(arguments.deep_view() =~= reboot_arguments(family));
            (String::from_str("reboot"), arguments)
        },
        HostFamily::Windows => {
            let mut arguments: Vec<String> = Vec::new();
            arguments.push(String::from_str("-Command"));
            arguments.push(String::from_str("Restart-Computer"));
            arguments.push(String::from_str("-Force"));
            assert(arguments.deep_view() =~= reboot_arguments(family));
            (String::from_str("powershell.exe"), arguments)
        },
    }
}

/// The progress of rebooting the host.
pub enum InvokeView {
    /// Waiting for the reboot command to have run.
    Requesting { family: HostFamily },
    /// The reboot was asked for; waiting for it to end this process.
    Waiting,
    Finished { result: Result<(), StateErrorView> },
}

impl Task for InvokeView {
    /// What the host has to do next; nothing once the task has finished.
    open spec fn effect(self) -> Option<EffectView> {
        match self {
            InvokeView::Requesting { family } => Some(
                EffectView::Run {
                    program: reboot_program(family),
                    arguments: reboot_arguments(family),
                },
            ),
            InvokeView::Waiting => Some(EffectView::Sleep { seconds: REBOOT_WAIT_SECONDS }),
            InvokeView::Finished { result } => None,
        }
    }

    /// The task after the host's reply to its effect. A command that could
    /// not be run is an error at once. Once the command has run, whatever
    /// its exit status, the task waits; a task that is still there after
    /// the wait has outlived its reboot, and that is the only way it ends.
    open spec fn resume(self, reply: ReplyView) -> InvokeView {
        match self {
            InvokeView::Requesting { family } => match reply {
                ReplyView::Done => InvokeView::Waiting,
                _ => InvokeView::Finished {
                    result: Err(
                        StateErrorView::Io {
                            operation: Operation::Run,
                            path: reboot_program(family),
                            detail: reply.detail(),
                        },
                    ),
                },
            },
            InvokeView::Waiting => InvokeView::Finished {
                result: Err(StateErrorView::RebootTimeout),
            },
            InvokeView::Finished { result } => self,
        }
    }
}

impl InvokeView {
    /// The result, once the task has finished.
    pub open spec fn result(self) -> Option<Result<(), StateErrorView>> {
        match self {
            InvokeView::Finished { result } => Some(result),
            _ => None,
        }
    }
}

enum InvokeStage {
    Requesting { family: HostFamily },
    Waiting,
    Finished { result: Result<(), StateError> },
}

/// The task of rebooting the host.
pub struct Invoke {
    stage: InvokeStage,
}

impl View for Invoke {
    type V = InvokeView;

    closed spec fn view(&self) -> InvokeView {
        match self.stage {
            InvokeStage::Requesting { family } => InvokeView::Requesting { family },
            InvokeStage::Waiting => InvokeView::Waiting,
            InvokeStage::Finished { result } => InvokeView::Finished {
                result: unit_outcome(result),
            },
        }
    }
}

impl Invoke {
    /// A task that has finished with `result` and asks nothing of the host.
    pub fn finished(result: Result<(), StateError>) -> (task: Invoke)
        ensures
            task@ == (InvokeView::Finished { result: unit_outcome(result) }),
    {
        Invoke { stage: InvokeStage::Finished { result } }
    }

    /// What the host has to do next; nothing once the task has finished.
    pub fn effect(&self) -> (effect: Option<Effect>)
        ensures
            effect.deep_view() == self@.effect(),
    {
        match &self.stage {
            InvokeStage::Requesting { family } => {
                let (program, arguments) = reboot_command(*family);
                Some(Effect::Run { program, arguments })
            },
            InvokeStage::Waiting => Some(Effect::Sleep { seconds: REBOOT_WAIT_SECONDS }),
            InvokeStage::Finished { .. } => None,
        }
    }

    /// Takes the host's reply to the effect.
    pub fn resume(self, reply: Reply) -> (next: Invoke)
        ensures
            next@ == self@.resume(reply@),
    {
        match self.stage {
            InvokeStage::Requesting { family } => match reply {
                Reply::Done => Invoke { stage: InvokeStage::Waiting },
                other => {
                    let (program, _) = reboot_command(family);
                    Invoke {
                        stage: InvokeStage::Finished {
                            result: Err(
                                StateError::Io {
                                    operation: Operation::Run,
                                    path: program,
                                    detail: other.into_detail(),
                                },
                            ),
                        },
                    }
                },
            },
            InvokeStage::Waiting => Invoke {
                stage: InvokeStage::Finished { result: Err(StateError::RebootTimeout) },
            },
            InvokeStage::Finished { result } => Invoke { stage: InvokeStage::Finished { result } },
        }
    }

    /// The result, once the task has finished.
    pub fn into_result(self) -> (result: Option<Result<(), StateError>>)
        ensures
            match result {
                Some(r) => self@.result() == Some(unit_outcome(r)),
                None => self@.result() is None,
            },
    {
        match self.stage {
            InvokeStage::Finished { result } => Some(result),
            _ => None,
        }
    }
}

/// The three operations of a reboot controller. The agent is written
/// against this trait, so that a stand-in which records what it was asked
/// can take the controller's place: its tasks are finished from the start.
pub trait IReboot {
    /// Begins to store `context` for the next start.
    fn save_context(&self, context: RebootContext) -> SaveContext;

    /// Begins to look for a stored context.
    fn load_context(&self) -> LoadContext;

    /// Begins to reboot a host of the given family.
    fn invoke(&self, family: HostFamily) -> Invoke;
}

/// The reboot controller of one machine.
pub struct Reboot {
    machine_id: MachineId,
}

impl Reboot {
    /// The machine whose reboots this controller handles.
    pub closed spec fn id(&self) -> MachineId {
        self.machine_id
    }

    pub fn new(machine_id: MachineId) -> (reboot: Reboot)
        ensures
            reboot.id() == machine_id,
    {
        Reboot { machine_id }
    }

    /// The machine whose reboots this controller handles.
    pub fn machine_id(&self) -> (machine_id: MachineId)
        ensures
            machine_id == self.id(),
    {
        self.machine_id
    }

    /// Begins to store `context`, so that the next start of the agent finds
    /// it. To be done before [`Reboot::invoke`].
    pub fn save_context(&self, context: RebootContext) -> (task: SaveContext)
        ensures
            task@ == (SaveContextView::Resolving { machine_id: self.id(), context: context@ }),
    {
        SaveContext {
            stage: SaveContextStage::Resolving { machine_id: self.machine_id, context },
        }
    }

    /// Begins to look for a stored context. To be done once at each start
    /// of the agent, before any work is handed out.
    pub fn load_context(&self) -> (task: LoadContext)
        ensures
            task@ == (LoadContextView::Resolving { machine_id: self.id() }),
    {
        LoadContext { stage: LoadContextStage::Resolving { machine_id: self.machine_id } }
    }

    /// Begins to reboot a host of the given family.
    pub fn invoke(&self, family: HostFamily) -> (task: Invoke)
        ensures
            task@ == (InvokeView::Requesting { family }),
    {
        Invoke { stage: InvokeStage::Requesting { family } }
    }
}

impl IReboot for Reboot {
    fn save_context(&self, context: RebootContext) -> (task: SaveContext)
        ensures
            task@ == (SaveContextView::Resolving { machine_id: self.id(), context: context@ }),
    {
        Reboot::save_context(self, context)
    }

    fn load_context(&self) -> (task: LoadContext)
        ensures
            task@ == (LoadContextView::Resolving { machine_id: self.id() }),
    {
        Reboot::load_context(self)
    }

    fn invoke(&self, family: HostFamily) -> (task: Invoke)
        ensures
            task@ == (InvokeView::Requesting { family }),
    {
        Reboot::invoke(self, family)
    }
}

} // verus!
