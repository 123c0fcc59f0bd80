//! What the reboot controller achieves on the model of a host.

use crate::context::{decoding, encoding, survives_storage, RebootContextView};
use crate::error::{Operation, StateErrorView};
use crate::failure_laws::{
    law_save_reports_the_path, law_save_writes_the_record, record_path, save_failure_on,
};
use crate::machine_id::MachineId;
use crate::model::{lemma_run_three, lemma_run_two, run, step, Host};
use crate::paths::{law_kinds_have_distinct_paths, law_state_paths_distinct, state_path, StateFile};
use crate::protocol::{ReplyView, Task};
use crate::reboot::{HostFamily, InvokeView, LoadContextView, SaveContextView};
use vstd::prelude::*;

verus! {

/// Where a host keeps the reboot context of a machine.
pub open spec fn context_path(host: Host, machine_id: MachineId) -> Seq<char> {
    state_path(host.state_root, StateFile::RebootContext, machine_id)
}

/// The finished task of storing `context` on `host`, and the host after it.
pub open spec fn save_context_on(host: Host, machine_id: MachineId, context: RebootContextView) -> (
    SaveContextView,
    Host,
) {
    run(SaveContextView::Resolving { machine_id, context }, host, 2)
}

/// The finished task of looking for a stored context on `host`, and the
/// host after it.
pub open spec fn load_context_on(host: Host, machine_id: MachineId) -> (LoadContextView, Host) {
    run(LoadContextView::Resolving { machine_id }, host, 3)
}

/// Storing a context puts its stored form at the machine's path and
/// changes nothing else, whatever stood there before.
pub proof fn law_save_writes_the_context(
    host: Host,
    machine_id: MachineId,
    context: RebootContextView,
)
    requires
        encoding(context) is Some,
        !host.locked.contains(context_path(host, machine_id)),
    ensures
        save_context_on(host, machine_id, context).0.result() == Some(
            Ok::<(), StateErrorView>(()),
        ),
        save_context_on(host, machine_id, context).1 == (Host {
            files: host.files.insert(context_path(host, machine_id), encoding(context)->Some_0),
            ..host
        }),
{
    lemma_run_two(SaveContextView::Resolving { machine_id, context }, host);
}

/// A context that has no stored form is refused, and the host stays as it
/// was.
pub proof fn law_save_refuses_what_cannot_be_encoded(
    host: Host,
    machine_id: MachineId,
    context: RebootContextView,
)
    requires
        encoding(context) is None,
    ensures
        save_context_on(host, machine_id, context).0.result() == Some(
            Err::<(), StateErrorView>(StateErrorView::Serialization),
        ),
        save_context_on(host, machine_id, context).1 == host,
{
    lemma_run_two(SaveContextView::Resolving { machine_id, context }, host);
}

/// With no stored context the agent starts cold: looking for one yields
/// none, is no error, and leaves the host as it was.
pub proof fn law_cold_start(host: Host, machine_id: MachineId)
    requires
        !host.files.contains_key(context_path(host, machine_id)),
    ensures
        load_context_on(host, machine_id).0.result() == Some(
            Ok::<Option<RebootContextView>, StateErrorView>(None),
        ),
        load_context_on(host, machine_id).1 == host,
{
    lemma_run_two(LoadContextView::Resolving { machine_id }, host);
    lemma_run_three(LoadContextView::Resolving { machine_id }, host);
}

/// Looking for a context where one is stored hands it out and deletes its
/// file, and changes nothing else.
pub proof fn law_load_consumes_the_context(host: Host, machine_id: MachineId)
    requires
        host.files.contains_key(context_path(host, machine_id)),
        decoding(host.files[context_path(host, machine_id)]) is Some,
        !host.locked.contains(context_path(host, machine_id)),
    ensures
        load_context_on(host, machine_id).0.result() == Some(
            Ok::<Option<RebootContextView>, StateErrorView>(
                decoding(host.files[context_path(host, machine_id)]),
            ),
        ),
        load_context_on(host, machine_id).1 == (Host {
            files: host.files.remove(context_path(host, machine_id)),
            ..host
        }),
{
    lemma_run_two(LoadContextView::Resolving { machine_id }, host);
    lemma_run_three(LoadContextView::Resolving { machine_id }, host);
}

/// A context that was stored is found at the next start, whether or not the
/// reboot was ever asked for; its file is gone after that, with the rest of
/// the host as it was before the context was stored; and a second look
/// finds nothing.
pub proof fn law_stored_context_is_loaded_once(
    host: Host,
    machine_id: MachineId,
    context: RebootContextView,
)
    requires
        survives_storage(context),
        !host.locked.contains(context_path(host, machine_id)),
    ensures
        ({
            let stored = save_context_on(host, machine_id, context);
            let first = load_context_on(stored.1, machine_id);
            let second = load_context_on(first.1, machine_id);
            &&& stored.0.result() == Some(Ok::<(), StateErrorView>(()))
            &&& first.0.result() == Some(
                Ok::<Option<RebootContextView>, StateErrorView>(Some(context)),
            )
            &&& !first.1.files.contains_key(context_path(host, machine_id))
            &&& first.1.files == host.files.remove(context_path(host, machine_id))
            &&& second.0.result() == Some(Ok::<Option<RebootContextView>, StateErrorView>(None))
            &&& second.1 == first.1
        }),
{
    let path = context_path(host, machine_id);
    let stored = save_context_on(host, machine_id, context);
    law_save_writes_the_context(host, machine_id, context);
    assert(context_path(stored.1, machine_id) == path);
    law_load_consumes_the_context(stored.1, machine_id);
    let first = load_context_on(stored.1, machine_id);
    assert(first.1.files =~= host.files.remove(path));
    assert(context_path(first.1, machine_id) == path);
    law_cold_start(first.1, machine_id);
}

/// A later context replaces an earlier one entirely: the host is as if the
/// earlier one had never been stored.
pub proof fn law_later_context_replaces_earlier(
    host: Host,
    machine_id: MachineId,
    earlier: RebootContextView,
    later: RebootContextView,
)
    requires
        encoding(earlier) is Some,
        encoding(later) is Some,
        !host.locked.contains(context_path(host, machine_id)),
    ensures
        save_context_on(save_context_on(host, machine_id, earlier).1, machine_id, later).1
            == save_context_on(host, machine_id, later).1,
{
    let path = context_path(host, machine_id);
    law_save_writes_the_context(host, machine_id, earlier);
    let first = save_context_on(host, machine_id, earlier).1;
    assert(context_path(first, machine_id) == path);
    law_save_writes_the_context(first, machine_id, later);
    law_save_writes_the_context(host, machine_id, later);
    assert(host.files.insert(path, encoding(earlier)->Some_0).insert(path, encoding(later)->Some_0)
        =~= host.files.insert(path, encoding(later)->Some_0));
}

/// The context of one machine is not found by another: each machine has a
/// file of its own.
pub proof fn law_machines_do_not_share_contexts(
    host: Host,
    owner: MachineId,
    other: MachineId,
    context: RebootContextView,
)
    requires
        owner != other,
        encoding(context) is Some,
        !host.locked.contains(context_path(host, owner)),
        !host.files.contains_key(context_path(host, other)),
    ensures
        load_context_on(save_context_on(host, owner, context).1, other).0.result() == Some(
            Ok::<Option<RebootContextView>, StateErrorView>(None),
        ),
        load_context_on(save_context_on(host, owner, context).1, other).1 == save_context_on(
            host,
            owner,
            context,
        ).1,
{
    law_state_paths_distinct(host.state_root, StateFile::RebootContext, owner, other);
    law_save_writes_the_context(host, owner, context);
    let stored = save_context_on(host, owner, context).1;
    assert(context_path(stored, other) == context_path(host, other));
    law_cold_start(stored, other);
}

/// Saving a failure, for whichever machine, leaves every stored context as
/// it is: a failure record and a reboot context never share a file.
pub proof fn law_failure_leaves_contexts_alone(
    host: Host,
    failed: MachineId,
    machine_id: MachineId,
    rendering: Seq<char>,
)
    ensures
        ({
            let after = save_failure_on(host, failed, rendering).1;
            let path = context_path(host, machine_id);
            &&& after.files.contains_key(path) == host.files.contains_key(path)
            &&& host.files.contains_key(path) ==> after.files[path] == host.files[path]
        }),
{
    law_kinds_have_distinct_paths(host.state_root, failed, machine_id);
    if host.locked.contains(record_path(host, failed)) {
        law_save_reports_the_path(host, failed, rendering);
    } else {
        law_save_writes_the_record(host, failed, rendering);
    }
}

/// Whatever the host replies, looking for a context ends with the third
/// reply at the latest.
pub proof fn law_load_ends(
    machine_id: MachineId,
    first: ReplyView,
    second: ReplyView,
    third: ReplyView,
)
    ensures
        (LoadContextView::Resolving { machine_id }).resume(first).resume(second).resume(
            third,
        ).result() is Some,
{
}

/// Whatever the host replies, storing a context ends with the second reply
/// at the latest.
pub proof fn law_save_ends(
    machine_id: MachineId,
    context: RebootContextView,
    first: ReplyView,
    second: ReplyView,
)
    ensures
        (SaveContextView::Resolving { machine_id, context }).resume(first).resume(
            second,
        ).result() is Some,
{
}

/// Bytes that hold no context are an error, and their file stays for
/// inspection.
pub proof fn law_corrupt_context_stays(host: Host, machine_id: MachineId)
    requires
        host.files.contains_key(context_path(host, machine_id)),
        decoding(host.files[context_path(host, machine_id)]) is None,
    ensures
        load_context_on(host, machine_id).0.result() == Some(
            Err::<Option<RebootContextView>, StateErrorView>(StateErrorView::Serialization),
        ),
        load_context_on(host, machine_id).1 == host,
{
    lemma_run_two(LoadContextView::Resolving { machine_id }, host);
    lemma_run_three(LoadContextView::Resolving { machine_id }, host);
}

/// Where the host refuses to delete the file, the context in it is
/// withheld: the result is the failure to delete, and the file stays.
pub proof fn law_failed_deletion_withholds_the_context(host: Host, machine_id: MachineId)
    requires
        host.files.contains_key(context_path(host, machine_id)),
        decoding(host.files[context_path(host, machine_id)]) is Some,
        host.locked.contains(context_path(host, machine_id)),
    ensures
        load_context_on(host, machine_id).0.result() == Some(
            Err::<Option<RebootContextView>, StateErrorView>(
                StateErrorView::Io {
                    operation: Operation::Remove,
                    path: context_path(host, machine_id),
                    detail: Seq::empty(),
                },
            ),
        ),
        load_context_on(host, machine_id).1 == host,
{
    lemma_run_two(LoadContextView::Resolving { machine_id }, host);
    lemma_run_three(LoadContextView::Resolving { machine_id }, host);
}

/// Whatever the host replies, a task hands out a context only on the reply
/// that its file has been deleted.
pub proof fn law_context_only_after_deletion(
    task: LoadContextView,
    reply: ReplyView,
    context: RebootContextView,
)
    requires
        task.result() is None,
        task.resume(reply).result() == Some(
            Ok::<Option<RebootContextView>, StateErrorView>(Some(context)),
        ),
    ensures
        reply == ReplyView::Done,
        task matches LoadContextView::Removing { context: held, .. } && held == context,
{
}

/// A task that looks for a context writes nothing: its effects are to
/// resolve the state root, to read, and to delete the file that it has read.
pub proof fn law_load_never_writes(task: LoadContextView)
    ensures
        !(task.effect() matches Some(crate::protocol::EffectView::WriteFile { .. })),
{
}

/// On a host that runs the reboot command and yet lives on, the task waits
/// ten minutes and ends with the timeout.
pub proof fn law_invoke_times_out(host: Host, family: HostFamily)
    ensures
        run(InvokeView::Requesting { family }, host, 2).0.result() == Some(
            Err::<(), StateErrorView>(StateErrorView::RebootTimeout),
        ),
        step(InvokeView::Requesting { family }, host).0.effect() == Some(
            crate::protocol::EffectView::Sleep { seconds: 600 },
        ),
{
    lemma_run_two(InvokeView::Requesting { family }, host);
}

/// Whatever the host replies, asking for a reboot never ends well: a task
/// that is still there to end has not been rebooted.
pub proof fn law_invoke_never_succeeds(task: InvokeView, reply: ReplyView)
    requires
        task.result() is None,
    ensures
        !(task.resume(reply).result() matches Some(Ok(_))),
{
}

} // verus!
