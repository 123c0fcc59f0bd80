//! The errors that the state layer reports.

use vstd::prelude::*;

verus! {

/// The two directories that the host resolves for the agent.
#[derive(Clone, Copy, Debug, PartialEq, Eq, Structural)]
pub enum Root {
    /// The directory that holds the agent's persistent files.
    State,
    /// The directory into which the agent's logger writes.
    Log,
}

/// What was being done to a path when the host reported a failure.
#[derive(Clone, Copy, Debug, PartialEq, Eq, Structural)]
pub enum Operation {
    Read,
    Write,
    Remove,
    List,
    Run,
}

/// An error of the state layer. Nothing is recovered here: every failure
/// reaches the caller with the path it concerns.
#[derive(Clone, Debug, PartialEq, Eq)]
pub enum StateError {
    /// A root directory could not be resolved.
    Config { root: Root, detail: String },
    /// The host could not carry out an operation on `path`.
    Io { operation: Operation, path: String, detail: String },
    /// A reboot context could not be encoded or decoded. `detail` is the
    /// wording of the JSON library and no part of the error's view.
    Serialization { detail: String },
    /// The reboot was requested and the process outlived the wait.
    RebootTimeout,
}

/// The mathematical content of a [`StateError`].
pub enum StateErrorView {
    Config { root: Root, detail: Seq<char> },
    Io { operation: Operation, path: Seq<char>, detail: Seq<char> },
    Serialization,
    RebootTimeout,
}

impl View for StateError {
    type V = StateErrorView;

    open spec fn view(&self) -> StateErrorView {
        match self {
            StateError::Config { root, detail } => StateErrorView::Config {
                root: *root,
                detail: detail@,
            },
            StateError::Io { operation, path, detail } => StateErrorView::Io {
                operation: *operation,
                path: path@,
                detail: detail@,
            },
            StateError::Serialization { detail } => StateErrorView::Serialization,
            StateError::RebootTimeout => StateErrorView::RebootTimeout,
        }
    }
}

/// The content of the outcome of an operation that yields nothing.
pub open spec fn unit_outcome(result: Result<(), StateError>) -> Result<(), StateErrorView> {
    match result {
        Ok(_) => Ok(()),
        Err(error) => Err(error@),
    }
}

/// The content of the outcome of an operation that yields text.
pub open spec fn text_outcome(result: Result<String, StateError>) -> Result<
    Seq<char>,
    StateErrorView,
> {
    match result {
        Ok(text) => Ok(text@),
        Err(error) => Err(error@),
    }
}

/// How a root directory is called in messages.
pub open spec fn root_name(root: Root) -> Seq<char> {
    match root {
        Root::State => "state"@,
        Root::Log => "log"@,
    }
}

/// How an operation is called in messages.
pub open spec fn operation_name(operation: Operation) -> Seq<char> {
    match operation {
        Operation::Read => "read"@,
        Operation::Write => "write"@,
        Operation::Remove => "remove"@,
        Operation::List => "list"@,
        Operation::Run => "run"@,
    }
}

impl StateError {
    /// The error in words, for the operator: what could not be done, to
    /// which path, and what the host or the JSON library said of it.
    pub open spec fn message_text(&self) -> Seq<char> {
        match self {
            StateError::Config { root, detail } => "unable to resolve the "@ + root_name(*root)
                + " root: "@ + detail@,
            StateError::Io { operation, path, detail } => "unable to "@ + operation_name(
                *operation,
            ) + " "@ + path@ + ": "@ + detail@,
            StateError::Serialization { detail } => {
                "unable to encode or decode the reboot context: "@ + detail@
            },
            StateError::RebootTimeout => "Failed to reboot in 10 minutes"@,
        }
    }

    /// The error in words.
    pub fn message(&self) -> (message: String)
        ensures
            message@ == self.message_text(),
    {
        match self {
            StateError::Config { root, detail } => {
                let mut message = String::from_str("unable to resolve the ");
                match root {
                    Root::State => message.append("state"),
                    Root::Log => message.append("log"),
                }
                message.append(" root: ");
                message.append(detail.as_str());
                message
            },
            StateError::Io { operation, path, detail } => {
                let mut message = String::from_str("unable to ");
                match operation {
                    Operation::Read => message.append("read"),
                    Operation::Write => message.append("write"),
                    Operation::Remove => message.append("remove"),
                    Operation::List => message.append("list"),
                    Operation::Run => message.append("run"),
                }
                message.append(" ");
                message.append(path.as_str());
                message.append(": ");
                message.append(detail.as_str());
                message
            },
            StateError::Serialization { detail } => {
                let mut message = String::from_str(
                    "unable to encode or decode the reboot context: ",
                );
                message.append(detail.as_str());
                message
            },
            StateError::RebootTimeout => String::from_str("Failed to reboot in 10 minutes"),
        }
    }

    /// The path that the error concerns, where it concerns one.
    pub fn path(&self) -> (path: Option<&str>)
        ensures
            match self@ {
                StateErrorView::Io { path: p, .. } => path is Some && path->Some_0@ == p,
                _ => path is None,
            },
    {
        match self {
            StateError::Io { path, .. } => Some(path.as_str()),
            _ => None,
        }
    }
}

} // verus!
