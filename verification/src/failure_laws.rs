//! What the failure store achieves on the model of a host.

use crate::error::{Operation, StateErrorView};
use crate::failure::{blank_line, ReadFailureView, ReadLogsView, SaveFailureView};
use crate::machine_id::MachineId;
use crate::model::{lemma_run_at_rest, lemma_run_first, lemma_run_two, run, step, Host};
use crate::paths::{law_state_paths_distinct, state_path, StateFile};
use crate::text::{
    joined, lemma_joined_holds_each_part, lemma_lossy_text_of_encoded, lossy_text, occurs_in,
};
use crate::protocol::{ReplyView, Task};
use vstd::prelude::*;
use vstd::utf8::encode_utf8;

verus! {

/// Where a host keeps the failure record of a machine.
pub open spec fn record_path(host: Host, machine_id: MachineId) -> Seq<char> {
    state_path(host.state_root, StateFile::Failure, machine_id)
}

/// The finished task of saving a failure on `host`, and the host after it.
pub open spec fn save_failure_on(host: Host, machine_id: MachineId, rendering: Seq<char>) -> (
    SaveFailureView,
    Host,
) {
    run(SaveFailureView::Resolving { machine_id, rendering }, host, 2)
}

/// The finished task of reading a machine's failure record on `host`, and
/// the host after it.
pub open spec fn read_failure_on(host: Host, machine_id: MachineId) -> (ReadFailureView, Host) {
    run(ReadFailureView::Resolving { machine_id }, host, 2)
}

/// The finished task of gathering the logs on `host`, and the host after
/// it.
pub open spec fn read_logs_on(host: Host) -> (ReadLogsView, Host) {
    run(ReadLogsView::Resolving, host, host.logs.len() + 2)
}

/// Saving a failure puts its rendering, as UTF-8, at the machine's path
/// and changes nothing else, whatever stood there before.
pub proof fn law_save_writes_the_record(host: Host, machine_id: MachineId, rendering: Seq<char>)
    requires
        !host.locked.contains(record_path(host, machine_id)),
    ensures
        save_failure_on(host, machine_id, rendering).0.result() == Some(
            Ok::<(), StateErrorView>(()),
        ),
        save_failure_on(host, machine_id, rendering).1 == (Host {
            files: host.files.insert(record_path(host, machine_id), encode_utf8(rendering)),
            ..host
        }),
{
    lemma_run_two(SaveFailureView::Resolving { machine_id, rendering }, host);
}

/// Where the host refuses to write, saving a failure is an error that
/// names the record's path.
pub proof fn law_save_reports_the_path(host: Host, machine_id: MachineId, rendering: Seq<char>)
    requires
        host.locked.contains(record_path(host, machine_id)),
    ensures
        save_failure_on(host, machine_id, rendering).0.result() == Some(
            Err::<(), StateErrorView>(
                StateErrorView::Io {
                    operation: Operation::Write,
                    path: record_path(host, machine_id),
                    detail: Seq::empty(),
                },
            ),
        ),
        save_failure_on(host, machine_id, rendering).1 == host,
{
    lemma_run_two(SaveFailureView::Resolving { machine_id, rendering }, host);
}

/// A record is read whatever bytes it holds: the result is their lenient
/// text and never an error, and reading changes nothing.
pub proof fn law_record_is_read_leniently(host: Host, machine_id: MachineId)
    requires
        host.files.contains_key(record_path(host, machine_id)),
    ensures
        read_failure_on(host, machine_id).0.result() == Some(
            Ok::<Seq<char>, StateErrorView>(
                lossy_text(host.files[record_path(host, machine_id)]),
            ),
        ),
        read_failure_on(host, machine_id).1 == host,
{
    lemma_run_two(ReadFailureView::Resolving { machine_id }, host);
}

/// A record that does not exist is an error that names its path.
pub proof fn law_missing_record_is_reported(host: Host, machine_id: MachineId)
    requires
        !host.files.contains_key(record_path(host, machine_id)),
    ensures
        read_failure_on(host, machine_id).0.result() == Some(
            Err::<Seq<char>, StateErrorView>(
                StateErrorView::Io {
                    operation: Operation::Read,
                    path: record_path(host, machine_id),
                    detail: Seq::empty(),
                },
            ),
        ),
        read_failure_on(host, machine_id).1 == host,
{
    lemma_run_two(ReadFailureView::Resolving { machine_id }, host);
}

/// A failure that was saved is read back as it was rendered.
pub proof fn law_saved_failure_is_read_back(
    host: Host,
    machine_id: MachineId,
    rendering: Seq<char>,
)
    requires
        !host.locked.contains(record_path(host, machine_id)),
    ensures
        read_failure_on(save_failure_on(host, machine_id, rendering).1, machine_id).0.result()
            == Some(Ok::<Seq<char>, StateErrorView>(rendering)),
{
    law_save_writes_the_record(host, machine_id, rendering);
    let saved = save_failure_on(host, machine_id, rendering).1;
    assert(record_path(saved, machine_id) == record_path(host, machine_id));
    law_record_is_read_leniently(saved, machine_id);
    lemma_lossy_text_of_encoded(rendering);
}

/// A later failure replaces an earlier one entirely: the host is as if the
/// earlier one had never been saved.
pub proof fn law_later_failure_replaces_earlier(
    host: Host,
    machine_id: MachineId,
    earlier: Seq<char>,
    later: Seq<char>,
)
    requires
        !host.locked.contains(record_path(host, machine_id)),
    ensures
        save_failure_on(save_failure_on(host, machine_id, earlier).1, machine_id, later).1
            == save_failure_on(host, machine_id, later).1,
        read_failure_on(
            save_failure_on(save_failure_on(host, machine_id, earlier).1, machine_id, later).1,
            machine_id,
        ).0.result() == Some(Ok::<Seq<char>, StateErrorView>(later)),
{
    let path = record_path(host, machine_id);
    law_save_writes_the_record(host, machine_id, earlier);
    let first = save_failure_on(host, machine_id, earlier).1;
    assert(record_path(first, machine_id) == path);
    law_save_writes_the_record(first, machine_id, later);
    law_save_writes_the_record(host, machine_id, later);
    assert(host.files.insert(path, encode_utf8(earlier)).insert(path, encode_utf8(later))
        =~= host.files.insert(path, encode_utf8(later)));
    law_saved_failure_is_read_back(host, machine_id, later);
}

/// The failure of one machine is not read as another's: each machine has a
/// record of its own.
pub proof fn law_machines_do_not_share_records(
    host: Host,
    owner: MachineId,
    other: MachineId,
    rendering: Seq<char>,
)
    requires
        owner != other,
        !host.locked.contains(record_path(host, owner)),
    ensures
        read_failure_on(save_failure_on(host, owner, rendering).1, other).0.result()
            == read_failure_on(host, other).0.result(),
{
    law_state_paths_distinct(host.state_root, StateFile::Failure, owner, other);
    law_save_writes_the_record(host, owner, rendering);
    let saved = save_failure_on(host, owner, rendering).1;
    assert(record_path(saved, other) == record_path(host, other));
    if host.files.contains_key(record_path(host, other)) {
        law_record_is_read_leniently(host, other);
        law_record_is_read_leniently(saved, other);
    } else {
        law_missing_record_is_reported(host, other);
        law_missing_record_is_reported(saved, other);
    }
}

/// Whether the host can read every entry of its log root.
pub open spec fn logs_are_readable(host: Host) -> bool {
    forall|i: int| 0 <= i < host.logs.len() ==> host.files.contains_key(#[trigger] host.logs[i])
}

/// What is gathered from the first `count` entries of the log root: for
/// each its path and then its lenient text.
pub open spec fn log_parts(host: Host, count: nat) -> Seq<Seq<char>>
    decreases count,
{
    if count == 0 {
        Seq::empty()
    } else {
        log_parts(host, (count - 1) as nat).push(host.logs[count - 1]).push(
            lossy_text(host.files[host.logs[count - 1]]),
        )
    }
}

/// The text of all logs of a host: the parts with a blank line between
/// neighbours.
pub open spec fn log_text(host: Host) -> Seq<char> {
    joined(log_parts(host, host.logs.len()), blank_line())
}

/// From the entry at place `k` on, reading ends with the text of all logs.
proof fn lemma_reading_gathers_the_rest(host: Host, k: int)
    requires
        logs_are_readable(host),
        0 <= k < host.logs.len(),
    ensures
        run(
            ReadLogsView::Reading {
                current: host.logs[k],
                rest: host.logs.subrange(k + 1, host.logs.len() as int),
                parts: log_parts(host, k as nat),
            },
            host,
            (host.logs.len() - k) as nat,
        ) == (ReadLogsView::Finished { result: Ok(log_text(host)) }, host),
    decreases host.logs.len() - k,
{
    let n = host.logs.len() as int;
    let task = ReadLogsView::Reading {
        current: host.logs[k],
        rest: host.logs.subrange(k + 1, n),
        parts: log_parts(host, k as nat),
    };
    assert(host.files.contains_key(host.logs[k]));
    lemma_run_first(task, host, (n - k) as nat);
    assert(log_parts(host, (k + 1) as nat) == log_parts(host, k as nat).push(host.logs[k]).push(
        lossy_text(host.files[host.logs[k]]),
    ));
    if k + 1 == n {
        let done = ReadLogsView::Finished { result: Ok(log_text(host)) };
        assert(step(task, host) == (done, host));
        lemma_run_at_rest(done, host, (n - k - 1) as nat);
    } else {
        let rest = host.logs.subrange(k + 1, n);
        assert(rest[0] == host.logs[k + 1]);
        assert(rest.drop_first() =~= host.logs.subrange(k + 2, n));
        lemma_reading_gathers_the_rest(host, k + 1);
    }
}

/// Where every entry of the log root can be read, gathering the logs
/// yields their text and changes nothing.
pub proof fn law_logs_are_gathered(host: Host)
    requires
        logs_are_readable(host),
    ensures
        read_logs_on(host).0.result() == Some(Ok::<Seq<char>, StateErrorView>(log_text(host))),
        read_logs_on(host).1 == host,
{
    let n = host.logs.len();
    lemma_run_first(ReadLogsView::Resolving, host, n + 2);
    let listing = ReadLogsView::Listing { directory: host.log_root };
    assert(step(ReadLogsView::Resolving, host) == (listing, host));
    lemma_run_first(listing, host, n + 1);
    assert(step(listing, host) == (ReadLogsView::begin_reading(host.logs), host));
    if n == 0 {
        assert(log_text(host) =~= Seq::<char>::empty());
        lemma_run_at_rest(ReadLogsView::begin_reading(host.logs), host, n);
    } else {
        assert(host.logs.drop_first() =~= host.logs.subrange(1, n as int));
        lemma_reading_gathers_the_rest(host, 0);
    }
}

/// The parts gathered from the first `count` entries are two for each
/// entry: its path, and behind it its text.
proof fn lemma_log_parts_layout(host: Host, count: nat, i: int)
    requires
        0 <= i < count,
    ensures
        log_parts(host, count).len() == 2 * count,
        log_parts(host, count)[2 * i] == host.logs[i],
        log_parts(host, count)[2 * i + 1] == lossy_text(host.files[host.logs[i]]),
    decreases count,
{
    lemma_log_parts_len(host, (count - 1) as nat);
    if i < count - 1 {
        lemma_log_parts_layout(host, (count - 1) as nat, i);
    }
}

proof fn lemma_log_parts_len(host: Host, count: nat)
    ensures
        log_parts(host, count).len() == 2 * count,
    decreases count,
{
    if count > 0 {
        lemma_log_parts_len(host, (count - 1) as nat);
    }
}

/// The text of the logs holds, for every entry of the log root, the
/// entry's path and the lenient text of its contents.
pub proof fn law_gathered_logs_hold_every_file(host: Host, i: int)
    requires
        logs_are_readable(host),
        0 <= i < host.logs.len(),
    ensures
        read_logs_on(host).0.result() == Some(Ok::<Seq<char>, StateErrorView>(log_text(host))),
        occurs_in(host.logs[i], log_text(host)),
        occurs_in(lossy_text(host.files[host.logs[i]]), log_text(host)),
{
    law_logs_are_gathered(host);
    lemma_log_parts_layout(host, host.logs.len(), i);
    lemma_joined_holds_each_part(log_parts(host, host.logs.len()), blank_line(), 2 * i);
    lemma_joined_holds_each_part(log_parts(host, host.logs.len()), blank_line(), 2 * i + 1);
}

/// Whatever the host replies, each reply to a read brings the gathering one
/// entry nearer to its end.
pub proof fn law_gathering_advances(task: ReadLogsView, reply: ReplyView)
    requires
        task is Reading,
    ensures
        task.resume(reply) is Finished || (task.resume(reply) is Reading && task.resume(
            reply,
        )->rest.len() + 1 == task->rest.len()),
{
}

/// Whatever the host replies, an entry that cannot be read ends the
/// gathering with an error that names the entry: there is no partial text.
pub proof fn law_unreadable_log_fails_the_gathering(task: ReadLogsView, reply: ReplyView)
    requires
        task is Reading,
        !(reply is Contents),
    ensures
        task.resume(reply).result() == Some(
            Err::<Seq<char>, StateErrorView>(
                StateErrorView::Io {
                    operation: Operation::Read,
                    path: task->current,
                    detail: reply.detail(),
                },
            ),
        ),
{
}

} // verus!
