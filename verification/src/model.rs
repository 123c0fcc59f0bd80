//! A model of a host, and what the tasks of this crate come to when such a
//! host carries out their effects.
//!
//! Nothing here is executed. The model says how a host answers that does
//! what it is asked, but for the paths that it keeps locked; the laws say
//! what the tasks achieve on it.

use crate::protocol::{EffectView, ReplyView, Task};
use vstd::prelude::*;

verus! {

/// A host that does what it is asked, but for the paths that it keeps
/// locked.
pub struct Host {
    /// The directory that holds the agent's persistent files.
    pub state_root: Seq<char>,
    /// The directory into which the agent's logger writes.
    pub log_root: Seq<char>,
    /// The files that exist, by path, with their contents.
    pub files: Map<Seq<char>, Seq<u8>>,
    /// The paths of the entries of the log root, in the order in which the
    /// host lists them.
    pub logs: Seq<Seq<char>>,
    /// The paths that the host refuses to write or delete.
    pub locked: Set<Seq<char>>,
}

impl Host {
    /// The host after an effect, and its reply.
    pub open spec fn perform(self, effect: EffectView) -> (Host, ReplyView) {
        match effect {
            EffectView::ResolveStateRoot => (self, ReplyView::Directory(self.state_root)),
            EffectView::ResolveLogRoot => (self, ReplyView::Directory(self.log_root)),
            EffectView::ReadFile { path } => if self.files.contains_key(path) {
                (self, ReplyView::Contents(self.files[path]))
            } else {
                (self, ReplyView::Failed { missing: true, detail: Seq::empty() })
            },
            EffectView::WriteFile { path, data } => if self.locked.contains(path) {
                (self, ReplyView::Failed { missing: false, detail: Seq::empty() })
            } else {
                (Host { files: self.files.insert(path, data), ..self }, ReplyView::Done)
            },
            EffectView::RemoveFile { path } => if self.locked.contains(path) {
                (self, ReplyView::Failed { missing: false, detail: Seq::empty() })
            } else if self.files.contains_key(path) {
                (Host { files: self.files.remove(path), ..self }, ReplyView::Done)
            } else {
                (self, ReplyView::Failed { missing: true, detail: Seq::empty() })
            },
            EffectView::ListDirectory { path } => if path == self.log_root {
                (self, ReplyView::Entries(self.logs))
            } else {
                (self, ReplyView::Failed { missing: true, detail: Seq::empty() })
            },
            EffectView::Run { program, arguments } => (self, ReplyView::Done),
            EffectView::Sleep { seconds } => (self, ReplyView::Done),
        }
    }
}

/// The task and the host after the host has carried out the task's next
/// effect; both unchanged once the task has finished.
pub open spec fn step<T: Task>(task: T, host: Host) -> (T, Host) {
    match task.effect() {
        Some(effect) => (task.resume(host.perform(effect).1), host.perform(effect).0),
        None => (task, host),
    }
}

/// The task and the host after as many steps as `steps` says.
pub open spec fn run<T: Task>(task: T, host: Host, steps: nat) -> (T, Host)
    decreases steps,
{
    if steps == 0 {
        (task, host)
    } else {
        run(step(task, host).0, step(task, host).1, (steps - 1) as nat)
    }
}

/// A run of some steps is its first step and then the rest of the run.
pub proof fn lemma_run_first<T: Task>(task: T, host: Host, steps: nat)
    requires
        steps > 0,
    ensures
        run(task, host, steps) == run(step(task, host).0, step(task, host).1, (steps - 1) as nat),
{
}

/// A run of two steps is one step after another.
pub proof fn lemma_run_two<T: Task>(task: T, host: Host)
    ensures
        run(task, host, 2) == step(step(task, host).0, step(task, host).1),
{
    reveal_with_fuel(run, 3);
}

/// A run of three steps is one step after a run of two.
pub proof fn lemma_run_three<T: Task>(task: T, host: Host)
    ensures
        run(task, host, 3) == step(run(task, host, 2).0, run(task, host, 2).1),
{
    reveal_with_fuel(run, 4);
}

/// A task that asks for nothing stays as it is, however long it is run.
pub proof fn lemma_run_at_rest<T: Task>(task: T, host: Host, steps: nat)
    requires
        task.effect() is None,
    ensures
        run(task, host, steps) == (task, host),
    decreases steps,
{
    if steps > 0 {
        lemma_run_at_rest(task, host, (steps - 1) as nat);
    }
}

} // verus!
