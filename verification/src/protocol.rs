//! The vocabulary between the state layer and its host: what the layer asks
//! for, and what the host answers.

use vstd::prelude::*;

verus! {

/// One thing that the host is asked to do.
#[derive(Clone, Debug, PartialEq, Eq)]
pub enum Effect {
    /// Resolve the directory that holds the agent's persistent files.
    ResolveStateRoot,
    /// Resolve the directory into which the agent's logger writes.
    ResolveLogRoot,
    /// Read the whole file at `path`.
    ReadFile { path: String },
    /// Create or overwrite the file at `path` with `data`.
    WriteFile { path: String, data: Vec<u8> },
    /// Delete the file at `path`.
    RemoveFile { path: String },
    /// List the entries directly inside the directory at `path`.
    ListDirectory { path: String },
    /// Run `program` with `arguments` and wait until it exits.
    Run { program: String, arguments: Vec<String> },
    /// Block for `seconds`.
    Sleep { seconds: u64 },
}

/// The mathematical content of an [`Effect`].
pub enum EffectView {
    ResolveStateRoot,
    ResolveLogRoot,
    ReadFile { path: Seq<char> },
    WriteFile { path: Seq<char>, data: Seq<u8> },
    RemoveFile { path: Seq<char> },
    ListDirectory { path: Seq<char> },
    Run { program: Seq<char>, arguments: Seq<Seq<char>> },
    Sleep { seconds: u64 },
}

impl View for Effect {
    type V = EffectView;

    open spec fn view(&self) -> EffectView {
        match self {
            Effect::ResolveStateRoot => EffectView::ResolveStateRoot,
            Effect::ResolveLogRoot => EffectView::ResolveLogRoot,
            Effect::ReadFile { path } => EffectView::ReadFile { path: path@ },
            Effect::WriteFile { path, data } => EffectView::WriteFile { path: path@, data: data@ },
            Effect::RemoveFile { path } => EffectView::RemoveFile { path: path@ },
            Effect::ListDirectory { path } => EffectView::ListDirectory { path: path@ },
            Effect::Run { program, arguments } => EffectView::Run {
                program: program@,
                arguments: arguments.deep_view(),
            },
            Effect::Sleep { seconds } => EffectView::Sleep { seconds: *seconds },
        }
    }
}

impl DeepView for Effect {
    type V = EffectView;

    open spec fn deep_view(&self) -> EffectView {
        self@
    }
}

/// What the host observed when it carried out an effect.
#[derive(Clone, Debug, PartialEq, Eq)]
pub enum Reply {
    /// The effect was carried out and there is nothing to report.
    Done,
    /// The directory that was resolved.
    Directory(String),
    /// The contents of the file that was read.
    Contents(Vec<u8>),
    /// The paths of the entries that were listed, in the host's order.
    Entries(Vec<String>),
    /// The effect failed. `missing` tells that the file or directory does
    /// not exist; `detail` is the host's description of the failure.
    Failed { missing: bool, detail: String },
}

/// The mathematical content of a [`Reply`].
pub enum ReplyView {
    Done,
    Directory(Seq<char>),
    Contents(Seq<u8>),
    Entries(Seq<Seq<char>>),
    Failed { missing: bool, detail: Seq<char> },
}

impl View for Reply {
    type V = ReplyView;

    open spec fn view(&self) -> ReplyView {
        match self {
            Reply::Done => ReplyView::Done,
            Reply::Directory(path) => ReplyView::Directory(path@),
            Reply::Contents(data) => ReplyView::Contents(data@),
            Reply::Entries(paths) => ReplyView::Entries(paths.deep_view()),
            Reply::Failed { missing, detail } => ReplyView::Failed {
                missing: *missing,
                detail: detail@,
            },
        }
    }
}

impl ReplyView {
    /// The host's description of a failure; empty for any other reply.
    pub open spec fn detail(self) -> Seq<char> {
        match self {
            ReplyView::Failed { detail, .. } => detail,
            _ => Seq::empty(),
        }
    }
}

impl Reply {
    /// The host's description of a failure; empty for any other reply.
    pub fn into_detail(self) -> (detail: String)
        ensures
            detail@ == self@.detail(),
    {
        match self {
            Reply::Failed { detail, .. } => detail,
            _ => String::new(),
        }
    }
}

/// What every task of this crate is: something that names its next effect
/// and goes on from the reply.
pub trait Task: Sized {
    /// What the host has to do next; nothing once the task has finished.
    spec fn effect(self) -> Option<EffectView>;

    /// The task after the host's reply to its effect.
    spec fn resume(self, reply: ReplyView) -> Self;
}

} // verus!
