//! What holds of the commands together: what is saved is what is loaded, what is
//! not lost, and what strangers are answered.

use vstd::prelude::*;
use vstd::utf8::*;

use crate::cipher::{Vault, MAGIC};
use crate::json::{json_space, opens_with_brace, parsed_json, JsonView};
use crate::links::external_link;
use crate::origin::{origin_verdict, trusted_page};
use crate::page_url::UrlView;
use crate::session::{
    clear_verdict, empty_content, existing_empty, file_content, guard_verdict, load_verdict,
    log_verdict, magic_bytes, next_step, savable, save_verdict, snapshot_plain, written, SaveStep,
    SnapshotFormat, StoredFile,
};
use crate::text::{blank, white_space};

verus! {

proof fn lemma_savable_text(data: Seq<char>)
    requires
        opens_with_brace(data),
    ensures
        !blank(data),
        valid_utf8(encode_utf8(data)),
        decode_utf8(encode_utf8(data)) == data,
        !magic_bytes().is_prefix_of(encode_utf8(data)),
{
    let i = choose|i: int|
        0 <= i < data.len() && #[trigger] data[i] == '{' && forall|j: int|
            0 <= j < i ==> json_space(#[trigger] data[j]);
    assert(!white_space(data[i]));
    encode_utf8_valid_utf8(data);
    encode_utf8_decode_utf8(data);
    reveal_strlit("DSENC1:");
    let bytes = encode_utf8(data);
    if magic_bytes().is_prefix_of(bytes) {
        encode_utf8_first_scalar(data);
        encode_utf8_first_scalar(MAGIC@);
        assert(magic_bytes() == bytes.subrange(0, magic_bytes().len() as int));
        is_ascii_chars_encode_utf8(MAGIC@);
        assert(magic_bytes()[0] == MAGIC@[0] as u8);
        assert(bytes[0] == magic_bytes()[0]);
        assert(bytes[0] == 0x44u8);
        assert(0x44u8 & 0x7fu8 == 0x44u8) by (bit_vector);
        assert(decode_first_scalar(bytes) == 0x44);
        assert(data[0] as u32 == 0x44);
        assert(data[0] == '{' || json_space(data[0]));
    }
}

/// That one vault opens what another sealed: the keys are the same, or Windows
/// gives back the bytes that it was given to protect.
pub open spec fn opens(plain: Seq<u8>, sealing: Vault, opening: Vault) -> bool {
    match (sealing, opening) {
        (Vault::Keychain(Ok(used)), Vault::Keychain(Ok(key))) => used@ == key@,
        (Vault::Dpapi(Ok(_)), Vault::Dpapi(Ok(unprotected))) => unprotected@ == plain,
        _ => false,
    }
}

proof fn lemma_written_content(
    format: SnapshotFormat,
    data: Seq<char>,
    sealing: Vault,
    bytes: Seq<u8>,
    opening: Vault,
)
    requires
        savable(data),
        written(format, data, sealing, Ok(bytes)),
        format == SnapshotFormat::Encrypted ==> opens(encode_utf8(data), sealing, opening),
    ensures
        file_content(format, bytes, opening) == Ok::<Option<Seq<char>>, Seq<char>>(Some(data)),
{
    lemma_savable_text(data);
}

/// What was written is what a trusted page loads: the snapshot as it was saved,
/// plain, or encrypted and read with a vault that opens it.
pub proof fn law_saved_is_loaded(
    caller: Result<UrlView, Seq<char>>,
    format: SnapshotFormat,
    data: Seq<char>,
    sealing: Vault,
    bytes: Vec<u8>,
    opening: Vault,
)
    requires
        caller matches Ok(page) && trusted_page(page),
        savable(data),
        written(format, data, sealing, Ok(bytes@)),
        format == SnapshotFormat::Encrypted ==> opens(encode_utf8(data), sealing, opening),
    ensures
        load_verdict(caller, format, StoredFile::Bytes(bytes), opening) == Ok::<
            Option<Seq<char>>,
            Seq<char>,
        >(Some(data)),
{
    lemma_written_content(format, data, sealing, bytes@, opening);
}

/// A snapshot that was written plain stays readable, whether or not the program
/// that reads it encrypts its own, and without any vault.
pub proof fn law_plain_snapshots_stay_readable(
    caller: Result<UrlView, Seq<char>>,
    format: SnapshotFormat,
    data: Seq<char>,
    bytes: Vec<u8>,
    written_with: Vault,
    read_with: Vault,
)
    requires
        caller matches Ok(page) && trusted_page(page),
        savable(data),
        written(SnapshotFormat::Plain, data, written_with, Ok(bytes@)),
    ensures
        load_verdict(caller, format, StoredFile::Bytes(bytes), read_with) == Ok::<
            Option<Seq<char>>,
            Seq<char>,
        >(Some(data)),
{
    lemma_savable_text(data);
}

/// A snapshot that holds no session replaces one on disk only where that one
/// holds none either; a file that cannot be read or decrypted is not replaced by
/// one. A snapshot that holds a session replaces anything.
pub proof fn law_sessions_are_not_lost(
    empty: bool,
    format: SnapshotFormat,
    stored: StoredFile,
    vault: Vault,
)
    ensures
        !empty ==> guard_verdict(empty, format, stored, vault) is Ok,
        empty && guard_verdict(empty, format, stored, vault) is Ok ==> existing_empty(
            format,
            stored,
            vault,
        ),
        empty && snapshot_plain(format, stored, vault) is Err ==> guard_verdict(
            empty,
            format,
            stored,
            vault,
        ) is Err,
{
}

/// While a session that was written is on disk, no snapshot without one takes its
/// place, whether or not the vault still opens what is on disk.
pub proof fn law_written_sessions_withstand_empty_ones(
    format: SnapshotFormat,
    data: Seq<char>,
    sealing: Vault,
    bytes: Vec<u8>,
    opening: Vault,
)
    requires
        savable(data),
        written(format, data, sealing, Ok(bytes@)),
        format == SnapshotFormat::Encrypted ==> {
            ||| opens(encode_utf8(data), sealing, opening)
            ||| snapshot_plain(format, StoredFile::Bytes(bytes), opening) is Err
        },
    ensures
        !empty_content(parsed_json(data)) ==> guard_verdict(
            true,
            format,
            StoredFile::Bytes(bytes),
            opening,
        ) is Err,
{
    if format == SnapshotFormat::Plain || opens(encode_utf8(data), sealing, opening) {
        lemma_written_content(format, data, sealing, bytes@, opening);
    }
}

/// Once the file is removed, a trusted page that asks for the snapshot gets none.
pub proof fn law_cleared_session_is_gone(
    caller: Result<UrlView, Seq<char>>,
    format: SnapshotFormat,
    vault: Vault,
)
    requires
        caller matches Ok(page) && trusted_page(page),
    ensures
        load_verdict(caller, format, StoredFile::Missing, vault) == Ok::<
            Option<Seq<char>>,
            Seq<char>,
        >(None),
{
}

/// A caller that does not pass the origin check is answered its refusal by every
/// command that works on the session or on links, whatever else is the case.
pub proof fn law_strangers_get_the_refusal(
    caller: Result<UrlView, Seq<char>>,
    refusal: Seq<char>,
    data: Seq<char>,
    json: Result<JsonView, Seq<char>>,
    url: Result<UrlView, Seq<char>>,
    format: SnapshotFormat,
    stored: StoredFile,
    vault: Vault,
    exists_on_disk: bool,
    millis: Option<u128>,
)
    requires
        origin_verdict(caller) == Err::<(), Seq<char>>(refusal),
    ensures
        save_verdict(caller, data, json) == Err::<bool, Seq<char>>(refusal),
        load_verdict(caller, format, stored, vault) == Err::<Option<Seq<char>>, Seq<char>>(refusal),
        clear_verdict(caller, exists_on_disk) == Err::<bool, Seq<char>>(refusal),
        log_verdict(caller, millis, data) == Err::<Seq<char>, Seq<char>>(refusal),
        external_link(caller, data, url) == Err::<Seq<char>, Seq<char>>(refusal),
{
}

/// The two files that a run works on, with what they hold.
pub struct Disk {
    pub snapshot: Option<Seq<u8>>,
    pub temp: Option<Seq<u8>>,
}

/// What a step may leave on disk, as far as file systems go: a removal or a write
/// that fails or is cut short leaves the temporary file in any condition, and a
/// rename happens wholly or not at all.
pub open spec fn step_effect(
    step: SaveStep,
    content: Seq<u8>,
    ok: bool,
    before: Disk,
    after: Disk,
) -> bool {
    match step {
        SaveStep::RemoveTemp => after.snapshot == before.snapshot,
        SaveStep::WriteTemp => {
            &&& after.snapshot == before.snapshot
            &&& ok ==> after.temp == Some(content)
        },
        SaveStep::RenameTemp => if ok {
            after == Disk { snapshot: before.temp, temp: None }
        } else {
            after == before
        },
        SaveStep::Finished => after == before,
    }
}

/// That a run with this content may take the steps of `trace`, from `step` on:
/// for each step whether it ended well, and the disk after it.
pub open spec fn run_trace(
    content: Seq<u8>,
    before: Disk,
    step: SaveStep,
    trace: Seq<(bool, Disk)>,
) -> bool
    decreases trace.len(),
{
    trace.len() == 0 || {
        &&& step_effect(step, content, trace[0].0, before, trace[0].1)
        &&& run_trace(content, trace[0].1, next_step(step, trace[0].0), trace.drop_first())
    }
}

proof fn lemma_run_trace(
    content: Seq<u8>,
    start: Option<Seq<u8>>,
    before: Disk,
    step: SaveStep,
    trace: Seq<(bool, Disk)>,
)
    requires
        run_trace(content, before, step, trace),
        before.snapshot == start || before.snapshot == Some(content),
        step == SaveStep::RenameTemp ==> before.temp == Some(content),
    ensures
        forall|i: int|
            0 <= i < trace.len() ==> (#[trigger] trace[i]).1.snapshot == start
                || trace[i].1.snapshot == Some(content),
    decreases trace.len(),
{
    if trace.len() > 0 {
        let rest = trace.drop_first();
        lemma_run_trace(content, start, trace[0].1, next_step(step, trace[0].0), rest);
        assert forall|i: int| 0 <= i < trace.len() implies (#[trigger] trace[i]).1.snapshot == start
            || trace[i].1.snapshot == Some(content) by {
            if i > 0 {
                assert(trace[i] == rest[i - 1]);
            }
        }
    }
}

/// Wherever a run is broken off, the snapshot file holds what it held before the
/// run or the whole new content, and never a part of it.
pub proof fn law_interrupted_saves_leave_a_whole_snapshot(
    content: Seq<u8>,
    before: Disk,
    trace: Seq<(bool, Disk)>,
)
    requires
        run_trace(content, before, SaveStep::RemoveTemp, trace),
    ensures
        forall|i: int|
            0 <= i < trace.len() ==> (#[trigger] trace[i]).1.snapshot == before.snapshot
                || trace[i].1.snapshot == Some(content),
{
    lemma_run_trace(content, before.snapshot, before, SaveStep::RemoveTemp, trace);
}

/// A run whose write or whose rename fails leaves the snapshot file as it was, in
/// every state that it goes through from its start on.
pub proof fn law_failed_saves_keep_the_snapshot(
    content: Seq<u8>,
    before: Disk,
    trace: Seq<(bool, Disk)>,
)
    requires
        run_trace(content, before, SaveStep::RemoveTemp, trace),
        trace.len() >= 2,
        !trace[1].0 || (trace.len() >= 3 && !trace[2].0),
    ensures
        forall|i: int| 0 <= i < trace.len() ==> (#[trigger] trace[i]).1.snapshot == before.snapshot,
{
    let t1 = trace.drop_first();
    let t2 = t1.drop_first();
    assert(t1[0] == trace[1]);
    if trace.len() >= 3 {
        assert(t2[0] == trace[2]);
    }
    assert(run_trace(content, trace[0].1, SaveStep::WriteTemp, t1));
    if !trace[1].0 {
        lemma_finished_run(content, trace[1].1, t2);
        assert forall|i: int| 0 <= i < trace.len() implies (#[trigger] trace[i]).1.snapshot
            == before.snapshot by {
            if i >= 2 {
                assert(trace[i] == t2[i - 2]);
            }
        }
    } else {
        let t3 = t2.drop_first();
        assert(run_trace(content, trace[1].1, SaveStep::RenameTemp, t2));
        lemma_finished_run(content, trace[2].1, t3);
        assert forall|i: int| 0 <= i < trace.len() implies (#[trigger] trace[i]).1.snapshot
            == before.snapshot by {
            if i >= 3 {
                assert(trace[i] == t3[i - 3]);
            }
        }
    }
}

proof fn lemma_finished_run(content: Seq<u8>, before: Disk, trace: Seq<(bool, Disk)>)
    requires
        run_trace(content, before, SaveStep::Finished, trace),
    ensures
        forall|i: int| 0 <= i < trace.len() ==> (#[trigger] trace[i]).1 == before,
    decreases trace.len(),
{
    if trace.len() > 0 {
        let rest = trace.drop_first();
        lemma_finished_run(content, trace[0].1, rest);
        assert forall|i: int| 0 <= i < trace.len() implies (#[trigger] trace[i]).1 == before by {
            if i > 0 {
                assert(trace[i] == rest[i - 1]);
            }
        }
    }
}

/// A run whose write and rename end well leaves the new content in the snapshot
/// file and no temporary file, whatever an earlier run left behind.
pub proof fn law_complete_saves_replace_the_snapshot(
    content: Seq<u8>,
    before: Disk,
    trace: Seq<(bool, Disk)>,
)
    requires
        run_trace(content, before, SaveStep::RemoveTemp, trace),
        trace.len() == 3,
        trace[1].0,
        trace[2].0,
    ensures
        trace[2].1 == (Disk { snapshot: Some(content), temp: None }),
{
    let t1 = trace.drop_first();
    let t2 = t1.drop_first();
    assert(t1[0] == trace[1]);
    assert(t2[0] == trace[2]);
    assert(run_trace(content, trace[0].1, SaveStep::WriteTemp, t1));
    assert(run_trace(content, trace[1].1, SaveStep::RenameTemp, t2));
}

} // verus!
