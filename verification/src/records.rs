//! The records of transfers and what is shown of failed operations.

use crate::models::Transfer;
use crate::text::chars_of;
use crate::text::contains;
use crate::text::has_substring;
use crate::text::join2;
use crate::text::join3;
use crate::text::same_text;
use crate::text::string_of;
use vstd::prelude::*;

verus! {

/// The direction of a transfer.
#[derive(Clone, Copy, Debug, PartialEq, Eq, Structural)]
pub enum Direction {
    Upload,
    Download,
}

/// The state of a transfer that is shown to the user.
#[derive(Clone, Copy, Debug, PartialEq, Eq, Structural)]
pub enum TransferStatus {
    Pending,
    Running,
    Completed,
    Error,
    Cancelled,
}

/// The word that a record holds for a status.
pub open spec fn spec_status_text(status: TransferStatus) -> Seq<char> {
    match status {
        TransferStatus::Pending => "pending"@,
        TransferStatus::Running => "running"@,
        TransferStatus::Completed => "completed"@,
        TransferStatus::Error => "error"@,
        TransferStatus::Cancelled => "cancelled"@,
    }
}

/// The text as an owned string.
fn literal(text: &str) -> (out: String)
    ensures
        out@ == text@,
{
    let mut out = String::new();
    out.append(text);
    assert(out@ =~= text@);
    out
}

/// The word under which a status is stored and shown.
pub fn status_text(status: TransferStatus) -> (text: String)
    ensures
        text@ == spec_status_text(status),
{
    match status {
        TransferStatus::Pending => literal("pending"),
        TransferStatus::Running => literal("running"),
        TransferStatus::Completed => literal("completed"),
        TransferStatus::Error => literal("error"),
        TransferStatus::Cancelled => literal("cancelled"),
    }
}

/// Index just behind the last character at or before `end` that is no
/// slash: the end of the path without trailing slashes.
pub open spec fn spec_strip_slashes(path: Seq<char>, end: int) -> int
    decreases end,
{
    if end <= 0 || end > path.len() {
        0
    } else if path[end - 1] != '/' {
        end
    } else {
        spec_strip_slashes(path, end - 1)
    }
}

/// Index of the first character of the last component that ends at
/// `end`.
pub open spec fn spec_component_start(path: Seq<char>, end: int, at: int) -> int
    decreases at,
{
    if at <= 0 || at > end || end > path.len() {
        0
    } else if path[at - 1] == '/' {
        at
    } else {
        spec_component_start(path, end, at - 1)
    }
}

/// The name of a file under which a transfer is shown: the last
/// component of its path, trailing slashes aside; empty for a path
/// without a component and for `..`.
pub open spec fn spec_file_name(path: Seq<char>) -> Seq<char> {
    let end = spec_strip_slashes(path, path.len() as int);
    let start = spec_component_start(path, end, end);
    let name = path.subrange(start, end);
    if name == ".."@ {
        Seq::<char>::empty()
    } else {
        name
    }
}

/// The last component of a path.
pub fn file_name(path: &str) -> (name: String)
    ensures
        name@ == spec_file_name(path@),
{
    let p = chars_of(path);
    let mut end: usize = p.len();
    while end > 0 && p[end - 1] == '/'
        invariant
            end <= p.len(),
            spec_strip_slashes(p@, end as int) == spec_strip_slashes(p@, p@.len() as int),
        decreases end,
    {
        end -= 1;
    }
    let mut start: usize = end;
    while start > 0 && p[start - 1] != '/'
        invariant
            start <= end <= p.len(),
            spec_component_start(p@, end as int, start as int) == spec_component_start(
                p@,
                end as int,
                end as int,
            ),
        decreases start,
    {
        start -= 1;
    }
    let mut out: Vec<char> = Vec::new();
    let mut i: usize = start;
    while i < end
        invariant
            start <= i <= end <= p.len(),
            out@ == p@.subrange(start as int, i as int),
        decreases end - i,
    {
        out.push(p[i]);
        i += 1;
        assert(out@ =~= p@.subrange(start as int, i as int));
    }
    let name = string_of(&out);
    if same_text(name.as_str(), "..") {
        String::new()
    } else {
        name
    }
}

/// The record of a transfer that was just asked for: pending, nothing
/// moved, its size not yet known, named after the file that is read.
pub fn new_transfer(
    id: String,
    session_id: String,
    local_path: String,
    remote_path: String,
    direction: Direction,
    created_at: i64,
) -> (record: Transfer)
    ensures
        record.id == id,
        record.session_id == session_id,
        record.local_path == local_path,
        record.remote_path == remote_path,
        record.name@ == spec_file_name(
            match direction {
                Direction::Upload => local_path@,
                Direction::Download => remote_path@,
            },
        ),
        record.transfer_type@ == (match direction {
            Direction::Upload => "upload"@,
            Direction::Download => "download"@,
        }),
        record.status@ == spec_status_text(TransferStatus::Pending),
        record.total_size == 0,
        record.transferred == 0,
        record.created_at == created_at,
        record.error is None,
{
    let name = match direction {
        Direction::Upload => file_name(local_path.as_str()),
        Direction::Download => file_name(remote_path.as_str()),
    };
    let transfer_type = match direction {
        Direction::Upload => literal("upload"),
        Direction::Download => literal("download"),
    };
    Transfer {
        id,
        session_id,
        name,
        local_path,
        remote_path,
        transfer_type,
        status: status_text(TransferStatus::Pending),
        total_size: 0,
        transferred: 0,
        created_at,
        error: None,
    }
}

/// Whether the record says that the transfer was cancelled.
pub fn is_cancelled(record: &Transfer) -> (yes: bool)
    ensures
        yes == (record.status@ == spec_status_text(TransferStatus::Cancelled)),
{
    same_text(record.status.as_str(), "cancelled")
}

/// Whether a transfer may still be cancelled: it is pending or running.
pub open spec fn spec_cancellable(record: Transfer) -> bool {
    record.status@ == spec_status_text(TransferStatus::Running) || record.status@
        == spec_status_text(TransferStatus::Pending)
}

/// Whether `after` is `before` with the four fields that change while a
/// transfer runs as given here, and every other field as it was.
pub open spec fn spec_updated(
    before: Transfer,
    after: Transfer,
    status: TransferStatus,
    total_size: u64,
    transferred: u64,
    error: Option<String>,
) -> bool {
    &&& after.id == before.id
    &&& after.session_id == before.session_id
    &&& after.name == before.name
    &&& after.local_path == before.local_path
    &&& after.remote_path == before.remote_path
    &&& after.transfer_type == before.transfer_type
    &&& after.created_at == before.created_at
    &&& after.status@ == spec_status_text(status)
    &&& after.total_size == total_size
    &&& after.transferred == transferred
    &&& after.error == error
}

/// The worker took the transfer up: the record is shown as running and
/// is otherwise as it was.
pub fn mark_running(record: &mut Transfer)
    ensures
        spec_updated(
            *old(record),
            *final(record),
            TransferStatus::Running,
            old(record).total_size,
            old(record).transferred,
            old(record).error,
        ),
{
    record.status = status_text(TransferStatus::Running);
}

/// The size of the source is known: nothing else changes.
pub fn set_total(record: &mut Transfer, total: u64)
    ensures
        *final(record) == (Transfer { total_size: total, ..*old(record) }),
{
    record.total_size = total;
}

/// So many bytes are moved by now: nothing else changes.
pub fn set_transferred(record: &mut Transfer, transferred: u64)
    ensures
        *final(record) == (Transfer { transferred, ..*old(record) }),
{
    record.transferred = transferred;
}

/// The transfer is done: it is shown as completed and counts as moved in
/// full; the record is otherwise as it was.
pub fn mark_completed(record: &mut Transfer)
    ensures
        spec_updated(
            *old(record),
            *final(record),
            TransferStatus::Completed,
            old(record).total_size,
            old(record).total_size,
            old(record).error,
        ),
{
    record.status = status_text(TransferStatus::Completed);
    record.transferred = record.total_size;
}

/// The user asked to cancel: a transfer that is pending or running is
/// shown as cancelled at once and is otherwise as it was; any other
/// record stays as it is. Returns whether the record changed.
pub fn cancel_transfer(record: &mut Transfer) -> (changed: bool)
    ensures
        changed == spec_cancellable(*old(record)),
        changed ==> spec_updated(
            *old(record),
            *final(record),
            TransferStatus::Cancelled,
            old(record).total_size,
            old(record).transferred,
            old(record).error,
        ),
        !changed ==> *final(record) == *old(record),
{
    if same_text(record.status.as_str(), "running") || same_text(
        record.status.as_str(),
        "pending",
    ) {
        record.status = status_text(TransferStatus::Cancelled);
        true
    } else {
        false
    }
}

/// The worker ended with an error: the record shows it and is otherwise
/// as it was, unless the transfer is shown as cancelled, in which case
/// the whole record stays. Returns whether the record changed.
pub fn mark_failed(record: &mut Transfer, error: String) -> (changed: bool)
    ensures
        changed == (old(record).status@ != spec_status_text(TransferStatus::Cancelled)),
        changed ==> spec_updated(
            *old(record),
            *final(record),
            TransferStatus::Error,
            old(record).total_size,
            old(record).transferred,
            Some(error),
        ),
        !changed ==> *final(record) == *old(record),
{
    if is_cancelled(record) {
        false
    } else {
        record.status = status_text(TransferStatus::Error);
        record.error = Some(error);
        true
    }
}

/// Whether each record is at least as recent as its successor.
pub open spec fn spec_newest_first(records: Seq<Transfer>) -> bool {
    forall|i: int|
        0 <= i < records.len() - 1 ==> (#[trigger] records[i]).created_at >= records[i
            + 1].created_at
}

/// Puts the records in order, the most recent first. The result holds
/// the same records.
pub fn sort_newest_first(records: Vec<Transfer>) -> (sorted: Vec<Transfer>)
    ensures
        spec_newest_first(sorted@),
        sorted@.to_multiset() == records@.to_multiset(),
{
    let mut rest = records;
    let mut out: Vec<Transfer> = Vec::new();
    assert(out@.to_multiset().add(rest@.to_multiset()) =~= records@.to_multiset()) by {
        assert(out@ =~= Seq::<Transfer>::empty());
        out@.to_multiset_ensures();
        assert(out@.to_multiset().len() == 0);
    }
    while rest.len() > 0
        invariant
            spec_newest_first(out@),
            out@.to_multiset().add(rest@.to_multiset()) == records@.to_multiset(),
        decreases rest@.len(),
    {
        let ghost before = rest@;
        let ghost placed = out@;
        let item = rest.pop().unwrap();
        assert(before =~= rest@.push(item));
        let mut pos: usize = 0;
        while pos < out.len() && out[pos].created_at > item.created_at
            invariant
                pos <= out@.len(),
                out@ == placed,
                forall|k: int| 0 <= k < pos ==> (#[trigger] out@[k]).created_at > item.created_at,
            decreases out@.len() - pos,
        {
            pos += 1;
        }
        out.insert(pos, item);
        proof {
            assert(out@ == placed.insert(pos as int, item));
            assert forall|i: int| 0 <= i < out@.len() - 1 implies (#[trigger] out@[i]).created_at
                >= out@[i + 1].created_at by {
                if i + 1 < pos {
                    assert(out@[i] == placed[i]);
                    assert(out@[i + 1] == placed[i + 1]);
                } else if i + 1 == pos {
                    assert(out@[i] == placed[i]);
                } else if i == pos {
                    assert(out@[i + 1] == placed[i]);
                } else {
                    assert(out@[i] == placed[i - 1]);
                    assert(out@[i + 1] == placed[i]);
                }
            }
            vstd::seq_lib::to_multiset_insert(placed, pos as int, item);
            vstd::seq_lib::to_multiset_build(rest@, item);
            assert(out@.to_multiset() =~= placed.to_multiset().insert(item));
            assert(before.to_multiset() =~= rest@.to_multiset().insert(item));
            assert(out@.to_multiset().add(rest@.to_multiset()) =~= placed.to_multiset().add(
                before.to_multiset(),
            ));
        }
    }
    assert(out@.to_multiset() =~= records@.to_multiset()) by {
        assert(rest@ =~= Seq::<Transfer>::empty());
        rest@.to_multiset_ensures();
        assert(rest@.to_multiset().len() == 0);
    }
    out
}

/// What was being created when an operation failed.
#[derive(Clone, Copy, Debug, PartialEq, Eq, Structural)]
pub enum Created {
    Directory,
    File,
}

/// The word for what is being created.
pub open spec fn spec_created_word(what: Created) -> Seq<char> {
    match what {
        Created::Directory => "directory"@,
        Created::File => "file"@,
    }
}

/// The guidance shown when a directory or file could not be created: a
/// permission problem and a missing parent are told apart from the
/// rest by the words of the transport's error.
pub open spec fn spec_create_guidance(what: Created, path: Seq<char>, error: Seq<char>) -> Seq<
    char,
> {
    if has_substring(error, "Permission denied"@) {
        "Permission denied: Cannot create "@ + spec_created_word(what) + " '"@ + path
            + "'. Check if you have write permissions."@
    } else if has_substring(error, "No such file"@) {
        "Parent directory does not exist: "@ + path
    } else {
        "Failed to create "@ + spec_created_word(what) + " '"@ + path + "': "@ + error
    }
}

/// The message for a failed creation: the error, and advice where the error
/// is one of the known kinds.
pub fn create_guidance(what: Created, path: &str, error: &str) -> (message: String)
    ensures
        message@ == spec_create_guidance(what, path@, error@),
{
    let word = match what {
        Created::Directory => "directory",
        Created::File => "file",
    };
    if contains(error, "Permission denied") {
        let mut m = String::new();
        m.append("Permission denied: Cannot create ");
        m.append(word);
        m.append(" '");
        m.append(path);
        m.append("'. Check if you have write permissions.");
        assert(m@ =~= spec_create_guidance(what, path@, error@));
        m
    } else if contains(error, "No such file") {
        join2("Parent directory does not exist: ", path)
    } else {
        let mut m = String::new();
        m.append("Failed to create ");
        m.append(word);
        m.append(" '");
        m.append(path);
        m.append("': ");
        m.append(error);
        assert(m@ =~= spec_create_guidance(what, path@, error@));
        m
    }
}

/// The message with which a failure to obtain a background session is
/// passed on.
pub fn session_failure(detail: &str) -> (message: String)
    ensures
        message@ == "Failed to get background session: "@ + detail@,
{
    join2("Failed to get background session: ", detail)
}

/// The name of the event that carries output of the shell of a
/// connection.
pub fn shell_data_event(connection: &str) -> (name: String)
    ensures
        name@ == "term-data:"@ + connection@,
{
    join2("term-data:", connection)
}

/// The name of the event that tells the end of the shell of a
/// connection.
pub fn shell_exit_event(connection: &str) -> (name: String)
    ensures
        name@ == "term-exit:"@ + connection@,
{
    join2("term-exit:", connection)
}

/// The line that is appended to the file of authorized keys for a
/// public key: the key without surrounding white space, on a line of
/// its own.
pub fn authorized_keys_entry(public_key: &str) -> (entry: String)
    ensures
        entry@ == "\n"@ + crate::text::spec_trim(public_key@) + "\n"@,
{
    let key = crate::text::trim(public_key);
    join3("\n", key.as_str(), "\n")
}

} // verus!
