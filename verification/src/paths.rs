//! Names and places of the files that the agent keeps in its state root.

use crate::machine_id::{
    hyphenated_text, law_text_tells_identifiers_apart, lemma_hyphenated_char_is_plain, MachineId,
};
use vstd::prelude::*;

verus! {

/// The two files that the agent keeps for a machine.
#[derive(Clone, Copy, Debug, PartialEq, Eq, Structural)]
pub enum StateFile {
    /// The latest failure record of the machine.
    Failure,
    /// The reboot context that waits for the next start.
    RebootContext,
}

/// What stands before the machine identifier in the name of a state file.
pub open spec fn name_prefix(kind: StateFile) -> Seq<char> {
    match kind {
        StateFile::Failure => "onefuzz-agent-failure-"@,
        StateFile::RebootContext => "reboot_context_"@,
    }
}

/// What stands behind the machine identifier in the name of a state file.
pub open spec fn name_suffix(kind: StateFile) -> Seq<char> {
    match kind {
        StateFile::Failure => ".txt"@,
        StateFile::RebootContext => ".json"@,
    }
}

/// The name of a machine's state file of the given kind.
pub open spec fn file_name(kind: StateFile, id: MachineId) -> Seq<char> {
    name_prefix(kind) + id.text() + name_suffix(kind)
}

/// A file name adjoined to a directory: the directory, a `/` unless the
/// directory is empty or already ends in one, and the name.
pub open spec fn join(dir: Seq<char>, name: Seq<char>) -> Seq<char> {
    if dir.len() == 0 {
        name
    } else if dir.last() == '/' {
        dir + name
    } else {
        dir + seq!['/'] + name
    }
}

/// The path of a machine's state file of the given kind under `root`.
pub open spec fn state_path(root: Seq<char>, kind: StateFile, id: MachineId) -> Seq<char> {
    join(root, file_name(kind, id))
}

/// Builds the name of a machine's state file.
pub fn state_file_name(kind: StateFile, id: MachineId) -> (name: String)
    ensures
        name@ == file_name(kind, id),
{
    let text = hyphenated_text(id.value());
    match kind {
        StateFile::Failure => {
            let mut name = String::from_str("onefuzz-agent-failure-");
            name.append(text.as_str());
            name.append(".txt");
            name
        },
        StateFile::RebootContext => {
            let mut name = String::from_str("reboot_context_");
            name.append(text.as_str());
            name.append(".json");
            name
        },
    }
}

/// Adjoins a file name to a directory.
pub fn join_path(dir: &str, name: &str) -> (path: String)
    ensures
        path@ == join(dir@, name@),
{
    let n = dir.unicode_len();
    let mut path = String::from_str(dir);
    if n > 0 && dir.get_char(n - 1) != '/' {
        path.append("/");
        proof {
            reveal_strlit("/");
            assert("/"@ =~= seq!['/']);
        }
    }
    path.append(name);
    path
}

/// Builds the path of a machine's state file under `root`.
pub fn state_file_path(root: &str, kind: StateFile, id: MachineId) -> (path: String)
    ensures
        path@ == state_path(root@, kind, id),
{
    let name = state_file_name(kind, id);
    join_path(root, name.as_str())
}

/// A common beginning can be struck from two equal sequences.
proof fn lemma_cancel_prefix<T>(p: Seq<T>, x: Seq<T>, y: Seq<T>)
    requires
        p + x == p + y,
    ensures
        x == y,
{
    assert(x =~= (p + x).subrange(p.len() as int, (p + x).len() as int));
    assert(y =~= (p + y).subrange(p.len() as int, (p + y).len() as int));
}

/// A common end can be struck from two equal sequences.
proof fn lemma_cancel_suffix<T>(x: Seq<T>, y: Seq<T>, s: Seq<T>)
    requires
        x + s == y + s,
    ensures
        x == y,
{
    assert((x + s).len() == x.len() + s.len());
    assert((y + s).len() == y.len() + s.len());
    assert(x =~= (x + s).subrange(0, x.len() as int));
    assert(y =~= (y + s).subrange(0, y.len() as int));
}

/// Adjoining to one directory keeps different names apart.
proof fn lemma_join_injective(dir: Seq<char>, a: Seq<char>, b: Seq<char>)
    requires
        join(dir, a) == join(dir, b),
    ensures
        a == b,
{
    if dir.len() == 0 {
    } else if dir.last() == '/' {
        lemma_cancel_prefix(dir, a, b);
    } else {
        lemma_cancel_prefix(dir + seq!['/'], a, b);
    }
}

/// Different machines have different state files of each kind.
pub proof fn law_file_names_distinct(kind: StateFile, a: MachineId, b: MachineId)
    requires
        a != b,
    ensures
        file_name(kind, a) != file_name(kind, b),
{
    if file_name(kind, a) == file_name(kind, b) {
        lemma_cancel_suffix(
            name_prefix(kind) + a.text(),
            name_prefix(kind) + b.text(),
            name_suffix(kind),
        );
        lemma_cancel_prefix(name_prefix(kind), a.text(), b.text());
        law_text_tells_identifiers_apart(a.value, b.value);
    }
}

/// Under one root, different machines have different paths for each kind of
/// state file.
pub proof fn law_state_paths_distinct(
    root: Seq<char>,
    kind: StateFile,
    a: MachineId,
    b: MachineId,
)
    requires
        a != b,
    ensures
        state_path(root, kind, a) != state_path(root, kind, b),
{
    if state_path(root, kind, a) == state_path(root, kind, b) {
        lemma_join_injective(root, file_name(kind, a), file_name(kind, b));
        law_file_names_distinct(kind, a, b);
    }
}

/// A failure record and a reboot context never share a name, whichever
/// machines they belong to.
pub proof fn law_kinds_have_distinct_names(a: MachineId, b: MachineId)
    ensures
        file_name(StateFile::Failure, a) != file_name(StateFile::RebootContext, b),
{
    reveal_strlit("onefuzz-agent-failure-");
    reveal_strlit("reboot_context_");
    assert(file_name(StateFile::Failure, a)[0] == 'o');
    assert(file_name(StateFile::RebootContext, b)[0] == 'r');
}

/// Under one root a failure record and a reboot context never share a path.
pub proof fn law_kinds_have_distinct_paths(root: Seq<char>, a: MachineId, b: MachineId)
    ensures
        state_path(root, StateFile::Failure, a) != state_path(root, StateFile::RebootContext, b),
{
    if state_path(root, StateFile::Failure, a) == state_path(root, StateFile::RebootContext, b) {
        lemma_join_injective(
            root,
            file_name(StateFile::Failure, a),
            file_name(StateFile::RebootContext, b),
        );
        law_kinds_have_distinct_names(a, b);
    }
}

/// The name of a state file holds no `/`: the file lies in the root
/// itself and in no directory below it.
pub proof fn law_state_files_lie_in_the_root(kind: StateFile, id: MachineId)
    ensures
        forall|i: int|
            0 <= i < file_name(kind, id).len() ==> #[trigger] file_name(kind, id)[i] != '/',
{
    reveal_strlit("onefuzz-agent-failure-");
    reveal_strlit("reboot_context_");
    reveal_strlit(".txt");
    reveal_strlit(".json");
    assert forall|i: int| 0 <= i < file_name(kind, id).len() implies #[trigger] file_name(
        kind,
        id,
    )[i] != '/' by {
        let prefix = name_prefix(kind);
        let text = id.text();
        if i < prefix.len() {
            assert(file_name(kind, id)[i] == prefix[i]);
        } else if i < prefix.len() + text.len() {
            let k = i - prefix.len();
            assert(file_name(kind, id)[i] == text[k]);
            lemma_hyphenated_char_is_plain(id.value, k);
        } else {
            let k = i - prefix.len() - text.len();
            assert(file_name(kind, id)[i] == name_suffix(kind)[k]);
        }
    }
}

} // verus!
