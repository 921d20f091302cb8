//! The session snapshot: cookies and localStorage, kept in a file beside the
//! webview's own storage.

use vstd::prelude::*;
use vstd::slice::*;
use vstd::string::*;
use vstd::utf8::*;

use crate::cipher::{bytes_option, decrypt, decrypted, encrypt, encrypted, Vault, MAGIC};
use crate::failure::{done, text_outcome, Failure};
use crate::json::{
    json_outcome, opens_with_brace, parse_json, parsed_json, JsonDocument, JsonKind, JsonKindView,
    JsonView, MAX_JSON_LEN,
};
use crate::origin::{ensure_deepseek_origin, origin_verdict};
use crate::page_url::{url_outcome, PageUrl, UrlView};
use crate::text::{
    blank, decimal, decimal_text, has_prefix, is_blank, join2, lemma_chars_within_bytes,
    text_of_bytes, utf8_error_text,
};

verus! {

/// The name of the snapshot file in the application's data directory.
pub const SESSION_FILE: &'static str = "session.json";

/// The name of the file that a snapshot is written to before it takes its place.
pub const SESSION_TEMP_FILE: &'static str = "session.json.tmp";

/// The name of the debug log beside the snapshot file.
pub const DEBUG_LOG_FILE: &'static str = "debug.log";

/// The size in bytes beyond which a snapshot is refused.
pub const MAX_SIZE: usize = 10_485_760;

/// How snapshots are written.
#[derive(Debug, Clone, Copy, PartialEq, Eq, Structural)]
pub enum SnapshotFormat {
    /// As they are.
    Plain,
    /// Encrypted, after [`MAGIC`].
    Encrypted,
}

/// What reading the snapshot file came to.
#[derive(Debug)]
pub enum StoredFile {
    /// There is no such file.
    Missing,
    /// The file could not be read, for this reason.
    Unreadable(String),
    /// What the file holds.
    Bytes(Vec<u8>),
}

/// The outcome of reading a snapshot, as a mathematical value.
pub open spec fn read_outcome(outcome: Result<Option<String>, String>) -> Result<
    Option<Seq<char>>,
    Seq<char>,
> {
    match outcome {
        Ok(Some(text)) => Ok(Some(text@)),
        Ok(None) => Ok(None),
        Err(message) => Err(message@),
    }
}

/// A snapshot that holds no session: no localStorage entries and no cookies. A
/// member of another kind than expected counts as nothing.
pub open spec fn empty_snapshot(document: JsonView) -> bool {
    &&& match document.member("localStorage"@) {
        Some(JsonKindView::Object(size)) => size == 0,
        _ => true,
    }
    &&& match document.member("cookies"@) {
        Some(JsonKindView::Text(text)) => text.len() == 0,
        _ => true,
    }
}

/// Whether a snapshot holds no session.
pub fn is_empty_snapshot(value: &JsonDocument) -> (r: bool)
    ensures
        r == empty_snapshot(value@),
{
    let ls_empty = match value.get("localStorage") {
        Some(JsonKind::Object(size)) => *size == 0,
        _ => true,
    };
    let cookies_empty = match value.get("cookies") {
        Some(JsonKind::Text(text)) => text.as_str().is_empty(),
        _ => true,
    };
    ls_empty && cookies_empty
}

/// That stored text holds no session, given what the JSON parser makes of it;
/// text that is no JSON holds none.
pub open spec fn empty_content(parsed: Result<JsonView, Seq<char>>) -> bool {
    match parsed {
        Ok(document) => empty_snapshot(document),
        Err(_) => true,
    }
}

/// Whether stored text holds no session, given what the JSON parser makes of it.
pub fn content_is_empty(parsed: &Result<JsonDocument, String>) -> (r: bool)
    ensures
        r == empty_content(json_outcome(*parsed)),
{
    match parsed {
        Ok(document) => is_empty_snapshot(document),
        Err(_) => true,
    }
}

/// The bytes of [`MAGIC`].
pub open spec fn magic_bytes() -> Seq<u8> {
    encode_utf8(MAGIC@)
}

/// That bytes are an encrypted snapshot. Only a program that encrypts snapshots
/// tells them from plain ones.
pub open spec fn is_sealed(format: SnapshotFormat, bytes: Seq<u8>) -> bool {
    format == SnapshotFormat::Encrypted && magic_bytes().is_prefix_of(bytes)
}

/// The encrypted part of the snapshot file, where it is an encrypted one.
pub open spec fn payload_of(format: SnapshotFormat, stored: StoredFile) -> Option<Seq<u8>> {
    match stored {
        StoredFile::Bytes(bytes) => if is_sealed(format, bytes@) {
            Some(bytes@.skip(magic_bytes().len() as int))
        } else {
            None
        },
        _ => None,
    }
}

/// What bytes say as text: nothing where the text is blank, and a failure where
/// they are no text.
pub open spec fn decoded(bytes: Seq<u8>, failure: Failure) -> Result<Option<Seq<char>>, Seq<char>> {
    if !valid_utf8(bytes) {
        Err(failure.text(utf8_error_text(bytes)))
    } else if blank(decode_utf8(bytes)) {
        Ok(None)
    } else {
        Ok(Some(decode_utf8(bytes)))
    }
}

/// What the bytes of a snapshot file say.
pub open spec fn file_content(format: SnapshotFormat, bytes: Seq<u8>, vault: Vault) -> Result<
    Option<Seq<char>>,
    Seq<char>,
> {
    if is_sealed(format, bytes) {
        match decrypted(bytes.skip(magic_bytes().len() as int), vault) {
            Err(message) => Err(message),
            Ok(plain) => decoded(plain, Failure::DecodeSnapshot),
        }
    } else {
        decoded(bytes, Failure::SnapshotEncoding)
    }
}

/// What the snapshot file says.
pub open spec fn snapshot_plain(format: SnapshotFormat, stored: StoredFile, vault: Vault) -> Result<
    Option<Seq<char>>,
    Seq<char>,
> {
    match stored {
        StoredFile::Missing => Ok(None),
        StoredFile::Unreadable(detail) => Err(Failure::ReadSnapshot.text(detail@)),
        StoredFile::Bytes(bytes) => file_content(format, bytes@, vault),
    }
}

/// That the snapshot file holds no session. A file that cannot be read or
/// decrypted is taken to hold one.
pub open spec fn existing_empty(format: SnapshotFormat, stored: StoredFile, vault: Vault) -> bool {
    match snapshot_plain(format, stored, vault) {
        Ok(Some(text)) => empty_content(parsed_json(text)),
        Ok(None) => true,
        Err(_) => false,
    }
}

/// That neither the file nor what Windows made of it is longer than the JSON parser
/// can take.
pub open spec fn parsable(stored: StoredFile, vault: Vault) -> bool {
    &&& stored matches StoredFile::Bytes(bytes) ==> bytes@.len() <= MAX_JSON_LEN
    &&& vault matches Vault::Dpapi(Ok(plain)) ==> plain@.len() <= MAX_JSON_LEN
}

fn decode(bytes: Vec<u8>, failure: Failure) -> (r: Result<Option<String>, String>)
    ensures
        read_outcome(r) == decoded(bytes@, failure),
        r matches Ok(Some(text)) ==> text@.len() <= bytes@.len(),
{
    match text_of_bytes(bytes) {
        Err(detail) => Err(failure.report(&detail)),
        Ok(text) => {
            proof {
                encode_utf8_decode_utf8(text@);
                lemma_chars_within_bytes(text@);
            }
            if is_blank(&text) {
                Ok(None)
            } else {
                Ok(Some(text))
            }
        },
    }
}

fn magic() -> (r: &'static [u8])
    ensures
        r@ == magic_bytes(),
{
    MAGIC.as_bytes()
}

/// The encrypted part of the snapshot file, where it is an encrypted one: what
/// the platform's vault is to decrypt before the file can be read.
pub fn sealed_payload(format: SnapshotFormat, stored: &StoredFile) -> (r: Option<Vec<u8>>)
    ensures
        bytes_option(r) == payload_of(format, *stored),
        match *stored {
            StoredFile::Bytes(bytes) => if is_sealed(format, bytes@) {
                r matches Some(payload) && payload@ == bytes@.skip(magic_bytes().len() as int)
            } else {
                r is None
            },
            _ => r is None,
        },
{
    match stored {
        StoredFile::Bytes(bytes) => {
            let encrypts = match format {
                SnapshotFormat::Encrypted => true,
                SnapshotFormat::Plain => false,
            };
            if encrypts && has_prefix(bytes.as_slice(), magic()) {
                let payload = slice_to_vec(
                    slice_subrange(bytes.as_slice(), magic().len(), bytes.len()),
                );
                assert(payload@ =~= bytes@.skip(magic_bytes().len() as int));
                Some(payload)
            } else {
                None
            }
        },
        _ => None,
    }
}

/// The text of the snapshot file, if there is one. An encrypted file is read with
/// what the vault makes of its [`sealed_payload`]; a plain one is read as it is,
/// whatever the format of new snapshots.
pub fn read_snapshot_plain(format: SnapshotFormat, stored: StoredFile, vault: Vault) -> (r: Result<
    Option<String>,
    String,
>)
    ensures
        read_outcome(r) == snapshot_plain(format, stored, vault),
        parsable(stored, vault) ==> (r matches Ok(Some(text)) ==> text@.len() <= MAX_JSON_LEN),
{
    let payload = sealed_payload(format, &stored);
    match stored {
        StoredFile::Missing => Ok(None),
        StoredFile::Unreadable(detail) => Err(Failure::ReadSnapshot.report(&detail)),
        StoredFile::Bytes(bytes) => match payload {
            Some(payload) => match decrypt(payload.as_slice(), vault) {
                Err(message) => Err(message),
                Ok(plain) => decode(plain, Failure::DecodeSnapshot),
            },
            None => decode(bytes, Failure::SnapshotEncoding),
        },
    }
}

/// Whether the snapshot file holds no session.
pub fn existing_is_empty(format: SnapshotFormat, stored: StoredFile, vault: Vault) -> (r: bool)
    requires
        parsable(stored, vault),
    ensures
        r == existing_empty(format, stored, vault),
{
    match read_snapshot_plain(format, stored, vault) {
        Ok(Some(text)) => content_is_empty(&parse_json(&text)),
        Ok(None) => true,
        Err(_) => false,
    }
}

/// Whether a snapshot of this text is accepted, and whether it holds no session,
/// given what the JSON parser makes of the text.
pub open spec fn accepted(parsed: Result<JsonView, Seq<char>>) -> Result<bool, Seq<char>> {
    match parsed {
        Err(detail) => Err(Failure::SnapshotJson.text(detail)),
        Ok(document) => if document is Object {
            Ok(empty_snapshot(document))
        } else {
            Err("快照必须是 JSON 对象"@)
        },
    }
}

/// What a page is answered that hands in a snapshot to save: whether it holds no
/// session, or why it is refused.
pub open spec fn save_verdict(
    caller: Result<UrlView, Seq<char>>,
    data: Seq<char>,
    parsed: Result<JsonView, Seq<char>>,
) -> Result<bool, Seq<char>> {
    match origin_verdict(caller) {
        Err(refusal) => Err(refusal),
        Ok(_) => if encode_utf8(data).len() > MAX_SIZE {
            Err("快照数据过大"@)
        } else {
            accepted(parsed)
        },
    }
}

/// Decides on a snapshot once the JSON parser has read it: whether it holds no
/// session, or why it is refused.
pub fn accept_snapshot(parsed: &Result<JsonDocument, String>) -> (r: Result<bool, String>)
    ensures
        (match r {
            Ok(empty) => Ok(empty),
            Err(message) => Err(message@),
        }) == accepted(json_outcome(*parsed)),
{
    match parsed {
        Err(detail) => Err(Failure::SnapshotJson.report(detail)),
        Ok(document) => {
            if document.is_object() {
                Ok(is_empty_snapshot(document))
            } else {
                Err("快照必须是 JSON 对象".to_owned())
            }
        },
    }
}

/// A text that can be saved: small enough, and opening with a brace.
pub open spec fn savable(data: Seq<char>) -> bool {
    &&& encode_utf8(data).len() <= MAX_SIZE
    &&& opens_with_brace(data)
}

/// A snapshot that was accepted, and is still to be held against the one on disk.
pub struct PendingSave {
    data: String,
    empty: bool,
}

impl PendingSave {
    #[verifier::type_invariant]
    spec fn inv(self) -> bool {
        savable(self.data@)
    }

    /// The text of the snapshot.
    pub closed spec fn text(self) -> Seq<char> {
        self.data@
    }

    /// That the snapshot holds no session.
    pub closed spec fn empty(self) -> bool {
        self.empty
    }

    /// Whether the snapshot on disk matters: it does for one that holds no session.
    pub fn needs_existing(&self) -> (r: bool)
        ensures
            r == self.empty(),
    {
        self.empty
    }
}

/// Accepts or refuses a snapshot that a page hands in. What is accepted still has
/// to be held against the snapshot on disk ([`PendingSave::approve`]).
pub fn save_session(caller: &Result<PageUrl, String>, data: String) -> (r: Result<
    PendingSave,
    String,
>)
    ensures
        match save_verdict(url_outcome(*caller), data@, parsed_json(data@)) {
            Ok(empty) => {
                &&& r matches Ok(pending)
                &&& pending.text() == data@
                &&& pending.empty() == empty
                &&& savable(pending.text())
            },
            Err(refusal) => r matches Err(message) && message@ == refusal,
        },
{
    match ensure_deepseek_origin(caller) {
        Err(refusal) => return Err(refusal),
        Ok(_) => {},
    }
    if data.as_str().as_bytes().len() > MAX_SIZE {
        return Err("快照数据过大".to_owned());
    }
    proof {
        lemma_chars_within_bytes(data@);
    }
    let parsed = parse_json(&data);
    match accept_snapshot(&parsed) {
        Err(refusal) => Err(refusal),
        Ok(empty) => Ok(PendingSave { data, empty }),
    }
}

/// Whether a snapshot may take the place of the one on disk: one that holds no
/// session may not replace one that does.
pub open spec fn guard_verdict(
    empty: bool,
    format: SnapshotFormat,
    stored: StoredFile,
    vault: Vault,
) -> Result<(), Seq<char>> {
    if empty && !(stored is Missing) && !existing_empty(format, stored, vault) {
        Err("空快照拒绝覆盖已有会话（可能为未登录中间态）"@)
    } else {
        Ok(())
    }
}

/// A snapshot that may take the place of the one on disk.
pub struct ApprovedSave {
    data: String,
}

impl ApprovedSave {
    #[verifier::type_invariant]
    spec fn inv(self) -> bool {
        savable(self.data@)
    }

    /// The text of the snapshot.
    pub closed spec fn text(self) -> Seq<char> {
        self.data@
    }

    /// The bytes of the snapshot before encryption.
    pub fn plain_bytes(&self) -> (r: Vec<u8>)
        ensures
            r@ == encode_utf8(self.text()),
    {
        slice_to_vec(self.data.as_str().as_bytes())
    }

    /// The bytes to put into the snapshot file, and the run that puts them there.
    /// The vault is what the platform makes of [`ApprovedSave::plain_bytes`]; only
    /// the encrypted format takes it.
    pub fn seal(self, format: SnapshotFormat, vault: Vault) -> (r: Result<SaveRun, String>)
        ensures
            savable(self.text()),
            written(
                format,
                self.text(),
                vault,
                match r {
                    Ok(run) => Ok(run.content()),
                    Err(message) => Err(message@),
                },
            ),
            r matches Ok(run) ==> run.step() == SaveStep::RemoveTemp,
    {
        proof {
            use_type_invariant(&self);
        }
        let plain = slice_to_vec(self.data.as_str().as_bytes());
        match format {
            SnapshotFormat::Plain => Ok(SaveRun { bytes: plain, step: SaveStep::RemoveTemp }),
            SnapshotFormat::Encrypted => match encrypt(plain.as_slice(), vault) {
                Err(message) => Err(message),
                Ok(sealed) => {
                    let mut bytes = slice_to_vec(magic());
                    let mut tail = sealed;
                    let ghost sealed_bytes = tail@;
                    bytes.append(&mut tail);
                    assert(bytes@.subrange(0, magic_bytes().len() as int) =~= magic_bytes());
                    assert(bytes@.skip(magic_bytes().len() as int) =~= sealed_bytes);
                    Ok(SaveRun { bytes, step: SaveStep::RemoveTemp })
                },
            },
        }
    }
}

impl PendingSave {
    /// Holds the snapshot against the one on disk, which only matters for a
    /// snapshot that holds no session.
    pub fn approve(self, format: SnapshotFormat, stored: StoredFile, vault: Vault) -> (r: Result<
        ApprovedSave,
        String,
    >)
        requires
            self.empty() ==> parsable(stored, vault),
        ensures
            match guard_verdict(self.empty(), format, stored, vault) {
                Ok(_) => r matches Ok(approved) && approved.text() == self.text(),
                Err(refusal) => r matches Err(message) && message@ == refusal,
            },
    {
        proof {
            use_type_invariant(&self);
        }
        let missing = match &stored {
            StoredFile::Missing => true,
            _ => false,
        };
        if self.empty && !missing && !existing_is_empty(format, stored, vault) {
            return Err(
                "空快照拒绝覆盖已有会话（可能为未登录中间态）".to_owned(),
            );
        }
        Ok(ApprovedSave { data: self.data })
    }
}

/// That `outcome` is what a snapshot of the text `data` may come to in the file:
/// its bytes, or [`MAGIC`] and what the vault makes of them.
pub open spec fn written(
    format: SnapshotFormat,
    data: Seq<char>,
    vault: Vault,
    outcome: Result<Seq<u8>, Seq<char>>,
) -> bool {
    match format {
        SnapshotFormat::Plain => outcome == Ok::<Seq<u8>, Seq<char>>(encode_utf8(data)),
        SnapshotFormat::Encrypted => match outcome {
            Ok(bytes) => {
                &&& magic_bytes().is_prefix_of(bytes)
                &&& encrypted(
                    encode_utf8(data),
                    vault,
                    Ok(bytes.skip(magic_bytes().len() as int)),
                )
            },
            Err(message) => encrypted(encode_utf8(data), vault, Err(message)),
        },
    }
}

/// The next thing to do in a run that writes a snapshot.
#[derive(Debug, Clone, Copy, PartialEq, Eq, Structural)]
pub enum SaveStep {
    /// Remove a temporary file that an earlier run may have left.
    RemoveTemp,
    /// Write the content to the temporary file.
    WriteTemp,
    /// Rename the temporary file to the snapshot file.
    RenameTemp,
    /// Nothing more.
    Finished,
}

/// The step after one that ended well or not.
pub open spec fn next_step(step: SaveStep, ok: bool) -> SaveStep {
    match step {
        SaveStep::RemoveTemp => SaveStep::WriteTemp,
        SaveStep::WriteTemp => if ok {
            SaveStep::RenameTemp
        } else {
            SaveStep::Finished
        },
        _ => SaveStep::Finished,
    }
}

/// What the page is answered about a step: only writing and renaming can fail.
pub open spec fn step_report(step: SaveStep, outcome: Result<(), Seq<char>>) -> Result<
    (),
    Seq<char>,
> {
    match (step, outcome) {
        (SaveStep::WriteTemp, Err(detail)) => Err(Failure::WriteSnapshot.text(detail)),
        (SaveStep::RenameTemp, Err(detail)) => Err(Failure::RenameSnapshot.text(detail)),
        _ => Ok(()),
    }
}

/// A run that writes a snapshot: into a temporary file first, which then takes
/// the place of the snapshot file.
pub struct SaveRun {
    bytes: Vec<u8>,
    step: SaveStep,
}

impl SaveRun {
    /// The bytes to write.
    pub closed spec fn content(self) -> Seq<u8> {
        self.bytes@
    }

    /// The next step.
    pub closed spec fn step(self) -> SaveStep {
        self.step
    }

    /// The bytes to write.
    pub fn bytes(&self) -> (r: &[u8])
        ensures
            r@ == self.content(),
    {
        self.bytes.as_slice()
    }

    /// The next step.
    pub fn current(&self) -> (r: SaveStep)
        ensures
            r == self.step(),
    {
        self.step
    }

    /// Takes note of how the current step ended. A failure to write or to rename
    /// ends the run and is what the page is answered.
    pub fn report(&mut self, outcome: Result<(), String>) -> (r: Result<(), String>)
        ensures
            final(self).content() == old(self).content(),
            final(self).step() == next_step(old(self).step(), outcome is Ok),
            done(r) == step_report(old(self).step(), done(outcome)),
    {
        match self.step {
            SaveStep::RemoveTemp => {
                self.step = SaveStep::WriteTemp;
                Ok(())
            },
            SaveStep::WriteTemp => match outcome {
                Ok(_) => {
                    self.step = SaveStep::RenameTemp;
                    Ok(())
                },
                Err(detail) => {
                    self.step = SaveStep::Finished;
                    Err(Failure::WriteSnapshot.report(&detail))
                },
            },
            SaveStep::RenameTemp => {
                self.step = SaveStep::Finished;
                Failure::RenameSnapshot.check(outcome)
            },
            SaveStep::Finished => Ok(()),
        }
    }
}

/// What a page is answered that asks for the snapshot.
pub open spec fn load_verdict(
    caller: Result<UrlView, Seq<char>>,
    format: SnapshotFormat,
    stored: StoredFile,
    vault: Vault,
) -> Result<Option<Seq<char>>, Seq<char>> {
    match origin_verdict(caller) {
        Err(refusal) => Err(refusal),
        Ok(_) => snapshot_plain(format, stored, vault),
    }
}

/// The text of the snapshot for a page that asks for it, if there is one.
pub fn load_session(
    caller: &Result<PageUrl, String>,
    format: SnapshotFormat,
    stored: StoredFile,
    vault: Vault,
) -> (r: Result<Option<String>, String>)
    ensures
        read_outcome(r) == load_verdict(url_outcome(*caller), format, stored, vault),
{
    match ensure_deepseek_origin(caller) {
        Err(refusal) => Err(refusal),
        Ok(_) => read_snapshot_plain(format, stored, vault),
    }
}

/// What a page is answered that asks to remove the snapshot: whether there is a
/// file to remove.
pub open spec fn clear_verdict(caller: Result<UrlView, Seq<char>>, exists_on_disk: bool) -> Result<
    bool,
    Seq<char>,
> {
    match origin_verdict(caller) {
        Err(refusal) => Err(refusal),
        Ok(_) => Ok(exists_on_disk),
    }
}

/// Whether the snapshot file is to be removed for a page that asks for it.
pub fn clear_session(caller: &Result<PageUrl, String>, exists_on_disk: bool) -> (r: Result<
    bool,
    String,
>)
    ensures
        (match r {
            Ok(remove) => Ok(remove),
            Err(message) => Err(message@),
        }) == clear_verdict(url_outcome(*caller), exists_on_disk),
{
    match ensure_deepseek_origin(caller) {
        Err(refusal) => Err(refusal),
        Ok(_) => Ok(exists_on_disk),
    }
}

/// A line of the debug log.
pub open spec fn log_line(millis: nat, message: Seq<char>) -> Seq<char> {
    "["@ + decimal(millis) + "] "@ + message + "\n"@
}

/// What a page is answered that asks to log a message: the line to append. A
/// clock before 1970 counts as 0.
pub open spec fn log_verdict(
    caller: Result<UrlView, Seq<char>>,
    millis: Option<u128>,
    message: Seq<char>,
) -> Result<Seq<char>, Seq<char>> {
    match origin_verdict(caller) {
        Err(refusal) => Err(refusal),
        Ok(_) => Ok(
            log_line(
                match millis {
                    Some(millis) => millis as nat,
                    None => 0,
                },
                message,
            ),
        ),
    }
}

/// The line to append to the debug log for a page that asks to log a message, at
/// a time in milliseconds since 1970.
pub fn debug_log(caller: &Result<PageUrl, String>, millis: Option<u128>, msg: &str) -> (r: Result<
    String,
    String,
>)
    ensures
        text_outcome(r) == log_verdict(url_outcome(*caller), millis, msg@),
{
    match ensure_deepseek_origin(caller) {
        Err(refusal) => Err(refusal),
        Ok(_) => {
            let ts: u128 = match millis {
                Some(millis) => millis,
                None => 0,
            };
            let mut line = join2("[", &decimal_text(ts));
            line.append("] ");
            line.append(msg);
            line.append("\n");
            Ok(line)
        },
    }
}

/// A snapshot with at least one localStorage entry holds a session, whatever its
/// cookies; one with at least one character of cookies holds a session, whatever its
/// localStorage; and one that has neither holds none.
pub proof fn law_what_counts_as_a_session(document: JsonView)
    ensures
        document.member("localStorage"@) matches Some(JsonKindView::Object(size)) && size > 0
            ==> !empty_snapshot(document),
        document.member("cookies"@) matches Some(JsonKindView::Text(text)) && text.len() > 0
            ==> !empty_snapshot(document),
        !(document.member("localStorage"@) matches Some(JsonKindView::Object(size)) && size > 0)
            && !(document.member("cookies"@) matches Some(JsonKindView::Text(text)) && text.len()
            > 0) ==> empty_snapshot(document),
{
}

/// Whether a snapshot holds a session depends on its localStorage and its cookies
/// alone.
pub proof fn law_other_members_do_not_matter(one: JsonView, other: JsonView)
    requires
        one.member("localStorage"@) == other.member("localStorage"@),
        one.member("cookies"@) == other.member("cookies"@),
    ensures
        empty_snapshot(one) == empty_snapshot(other),
{
}

/// Stored text that is no JSON holds no session, and JSON holds one exactly where
/// the document has entries or cookies.
pub proof fn law_what_counts_as_a_stored_session(
    parsed: Result<JsonView, Seq<char>>,
)
    ensures
        parsed is Err ==> empty_content(parsed),
        parsed matches Ok(document) ==> (!empty_content(parsed) <==> (document.member(
            "localStorage"@,
        ) matches Some(JsonKindView::Object(size)) && size > 0) || (document.member(
            "cookies"@,
        ) matches Some(JsonKindView::Text(text)) && text.len() > 0)),
{
}

/// What a trusted page is answered that hands in a snapshot: up to 10 MiB, every
/// JSON object is accepted, with whether it holds a session; anything else is
/// refused with its reason, the size before the form.
pub proof fn law_snapshots_of_trusted_pages(
    caller: Result<UrlView, Seq<char>>,
    data: Seq<char>,
    parsed: Result<JsonView, Seq<char>>,
)
    requires
        origin_verdict(caller) is Ok,
    ensures
        encode_utf8(data).len() > 10 * 1024 * 1024 ==> save_verdict(caller, data, parsed) == Err::<
            bool,
            Seq<char>,
        >("快照数据过大"@),
        encode_utf8(data).len() <= 10 * 1024 * 1024 ==> {
            &&& parsed matches Err(detail) ==> save_verdict(caller, data, parsed) == Err::<
                bool,
                Seq<char>,
            >("快照 JSON 无效: "@ + detail)
            &&& parsed matches Ok(JsonView::Other) ==> save_verdict(caller, data, parsed) == Err::<
                bool,
                Seq<char>,
            >("快照必须是 JSON 对象"@)
            &&& parsed matches Ok(JsonView::Object(members)) ==> (save_verdict(
                caller,
                data,
                parsed,
            ) matches Ok(empty) && (!empty <==> (JsonView::Object(members).member(
                "localStorage"@,
            ) matches Some(JsonKindView::Object(size)) && size > 0) || (JsonView::Object(
                members,
            ).member("cookies"@) matches Some(JsonKindView::Text(text)) && text.len() > 0)))
        },
{
}

/// What is decided once the parser has read a snapshot is what the whole command
/// decides of it.
pub proof fn law_acceptance_is_that_of_the_command(
    caller: Result<UrlView, Seq<char>>,
    data: Seq<char>,
    parsed: Result<JsonView, Seq<char>>,
)
    requires
        origin_verdict(caller) is Ok,
        encode_utf8(data).len() <= 10 * 1024 * 1024,
    ensures
        save_verdict(caller, data, parsed) == accepted(parsed),
{
}

/// Which snapshots are held back: those without a session while the file is there
/// and cannot be read, or says a text with a session. Every other is let through.
pub proof fn law_which_snapshots_are_held_back(
    empty: bool,
    format: SnapshotFormat,
    stored: StoredFile,
    vault: Vault,
)
    ensures
        !empty ==> guard_verdict(empty, format, stored, vault) is Ok,
        stored is Missing ==> guard_verdict(empty, format, stored, vault) is Ok,
        empty && stored is Unreadable ==> guard_verdict(empty, format, stored, vault) is Err,
        empty && !(stored is Missing) ==> match snapshot_plain(format, stored, vault) {
            Err(_) => guard_verdict(empty, format, stored, vault) is Err,
            Ok(None) => guard_verdict(empty, format, stored, vault) is Ok,
            Ok(Some(text)) => guard_verdict(empty, format, stored, vault) is Err <==> (parsed_json(
                text,
            ) matches Ok(document) && ((document.member("localStorage"@) matches Some(
                JsonKindView::Object(size),
            ) && size > 0) || (document.member("cookies"@) matches Some(JsonKindView::Text(cookies))
                && cookies.len() > 0))),
        },
        guard_verdict(empty, format, stored, vault) matches Err(m) ==> m
            == "空快照拒绝覆盖已有会话（可能为未登录中间态）"@,
{
}

/// When the file counts as holding no session: where it is missing or says nothing,
/// never where it cannot be read, and otherwise by what it says.
pub proof fn law_which_files_hold_no_session(
    format: SnapshotFormat,
    stored: StoredFile,
    vault: Vault,
)
    ensures
        match snapshot_plain(format, stored, vault) {
            Err(_) => !existing_empty(format, stored, vault),
            Ok(None) => existing_empty(format, stored, vault),
            Ok(Some(text)) => !existing_empty(format, stored, vault) <==> (parsed_json(text) matches
                Ok(document) && ((document.member("localStorage"@) matches Some(
                JsonKindView::Object(size),
            ) && size > 0) || (document.member("cookies"@) matches Some(JsonKindView::Text(cookies))
                && cookies.len() > 0))),
        },
        stored is Missing ==> existing_empty(format, stored, vault),
        stored is Unreadable ==> !existing_empty(format, stored, vault),
{
}

/// A file that is missing says nothing, and one that cannot be read says why.
pub proof fn law_files_that_say_nothing(format: SnapshotFormat, detail: String, vault: Vault)
    ensures
        snapshot_plain(format, StoredFile::Missing, vault) == Ok::<Option<Seq<char>>, Seq<char>>(
            None,
        ),
        snapshot_plain(format, StoredFile::Unreadable(detail), vault) == Err::<
            Option<Seq<char>>,
            Seq<char>,
        >("读取快照失败: "@ + detail@),
{
}

/// A file that holds a text says that text, every character of it, unless it is
/// blank: in a program that does not encrypt whatever the text, and in one that does
/// where the text does not begin like an encrypted file.
pub proof fn law_plain_files_say_their_text(
    format: SnapshotFormat,
    text: Seq<char>,
    file: Vec<u8>,
    vault: Vault,
)
    requires
        file@ == encode_utf8(text),
        format == SnapshotFormat::Plain || !encode_utf8("DSENC1:"@).is_prefix_of(file@),
    ensures
        blank(text) ==> snapshot_plain(format, StoredFile::Bytes(file), vault) == Ok::<
            Option<Seq<char>>,
            Seq<char>,
        >(None),
        !blank(text) ==> snapshot_plain(format, StoredFile::Bytes(file), vault) == Ok::<
            Option<Seq<char>>,
            Seq<char>,
        >(Some(text)),
{
    encode_utf8_valid_utf8(text);
    encode_utf8_decode_utf8(text);
}

/// An encrypted file says what its part behind the mark decrypts to, every character
/// of it, unless that is blank, and passes on why it does not decrypt.
pub proof fn law_encrypted_files_say_their_text(
    payload: Seq<u8>,
    text: Seq<char>,
    file: Vec<u8>,
    vault: Vault,
)
    requires
        file@ == encode_utf8("DSENC1:"@) + payload,
    ensures
        payload_of(SnapshotFormat::Encrypted, StoredFile::Bytes(file)) == Some(payload),
        decrypted(payload, vault) matches Err(m) ==> snapshot_plain(
            SnapshotFormat::Encrypted,
            StoredFile::Bytes(file),
            vault,
        ) == Err::<Option<Seq<char>>, Seq<char>>(m),
        decrypted(payload, vault) == Ok::<Seq<u8>, Seq<char>>(encode_utf8(text)) ==> snapshot_plain(
            SnapshotFormat::Encrypted,
            StoredFile::Bytes(file),
            vault,
        ) == Ok::<Option<Seq<char>>, Seq<char>>(
            if blank(text) {
                None
            } else {
                Some(text)
            },
        ),
        decrypted(payload, vault) matches Ok(plain) && !valid_utf8(plain) ==> snapshot_plain(
            SnapshotFormat::Encrypted,
            StoredFile::Bytes(file),
            vault,
        ) == Err::<Option<Seq<char>>, Seq<char>>(
            "快照解码失败: "@ + utf8_error_text(decrypted(payload, vault)->Ok_0),
        ),
{
    encode_utf8_valid_utf8(text);
    encode_utf8_decode_utf8(text);
    let mark = encode_utf8("DSENC1:"@);
    assert(file@.subrange(0, mark.len() as int) =~= mark);
    assert(file@.skip(mark.len() as int) =~= payload);
}

/// Bytes that are no text are reported as such where nothing is to be decrypted, and
/// nothing is to be decrypted of a file without the mark, of a file that is not
/// there, or in a program that does not encrypt.
pub proof fn law_files_that_are_no_text(format: SnapshotFormat, file: Vec<u8>, vault: Vault)
    requires
        format == SnapshotFormat::Plain || !encode_utf8("DSENC1:"@).is_prefix_of(file@),
    ensures
        !valid_utf8(file@) ==> snapshot_plain(format, StoredFile::Bytes(file), vault) == Err::<
            Option<Seq<char>>,
            Seq<char>,
        >("快照编码非法: "@ + utf8_error_text(file@)),
        payload_of(format, StoredFile::Bytes(file)) is None,
        payload_of(format, StoredFile::Missing) is None,
{
}

/// A plain snapshot is written byte for byte, with nothing before or behind it.
pub proof fn law_plain_snapshots_are_written_as_they_are(
    data: Seq<char>,
    vault: Vault,
    outcome: Result<Seq<u8>, Seq<char>>,
)
    ensures
        written(SnapshotFormat::Plain, data, vault, outcome) <==> outcome == Ok::<
            Seq<u8>,
            Seq<char>,
        >(encode_utf8(data)),
{
}

/// An encrypted snapshot is the mark and what the vault makes of all its bytes, and
/// never anything else: where the vault fails, nothing is written, and the failure is
/// the vault's.
pub proof fn law_encrypted_snapshots_are_never_plain(
    data: Seq<char>,
    vault: Vault,
    outcome: Result<Seq<u8>, Seq<char>>,
)
    requires
        written(SnapshotFormat::Encrypted, data, vault, outcome),
    ensures
        outcome matches Ok(bytes) ==> exists|message: Seq<u8>|
            bytes == #[trigger] (encode_utf8("DSENC1:"@) + message) && encrypted(
                encode_utf8(data),
                vault,
                Ok(message),
            ),
        outcome is Err ==> encrypted(encode_utf8(data), vault, outcome),
        vault is Unsupported ==> outcome is Err,
        vault matches Vault::Keychain(Err(_)) ==> outcome is Err,
        vault matches Vault::Dpapi(Err(_)) ==> outcome is Err,
        vault matches Vault::Dpapi(Ok(sealed)) ==> outcome == Ok::<Seq<u8>, Seq<char>>(
            encode_utf8("DSENC1:"@) + vault->Dpapi_0->Ok_0@,
        ),
{
    let mark = encode_utf8("DSENC1:"@);
    if outcome is Ok {
        let bytes = outcome->Ok_0;
        let message = bytes.skip(mark.len() as int);
        assert(mark == bytes.subrange(0, mark.len() as int));
        assert(bytes =~= mark + message);
    }
}

/// A run first clears away what an earlier one left, whether or not there was
/// anything, then writes, and renames only what was written; it is over after that,
/// or where writing fails.
pub proof fn law_runs_write_before_they_rename(step: SaveStep, ok: bool)
    ensures
        next_step(SaveStep::RemoveTemp, ok) == SaveStep::WriteTemp,
        next_step(SaveStep::WriteTemp, true) == SaveStep::RenameTemp,
        next_step(SaveStep::WriteTemp, false) == SaveStep::Finished,
        next_step(SaveStep::RenameTemp, ok) == SaveStep::Finished,
        next_step(SaveStep::Finished, ok) == SaveStep::Finished,
        next_step(step, ok) == SaveStep::RenameTemp ==> step == SaveStep::WriteTemp && ok,
{
}

/// A page hears of a run exactly that it could not write or could not rename, with
/// the reason.
pub proof fn law_what_pages_hear_of_a_run(step: SaveStep, detail: Seq<char>)
    ensures
        step_report(step, Ok(())) is Ok,
        step_report(SaveStep::RemoveTemp, Err(detail)) is Ok,
        step_report(SaveStep::WriteTemp, Err(detail)) == Err::<(), Seq<char>>(
            "写入快照失败: "@ + detail,
        ),
        step_report(SaveStep::RenameTemp, Err(detail)) == Err::<(), Seq<char>>(
            "落盘快照失败: "@ + detail,
        ),
        step_report(SaveStep::Finished, Err(detail)) is Ok,
{
}

/// A trusted page is told what the file says, whatever that is, and has the file
/// removed exactly where there is one.
pub proof fn law_trusted_pages_load_and_clear(
    caller: Result<UrlView, Seq<char>>,
    format: SnapshotFormat,
    stored: StoredFile,
    vault: Vault,
    exists_on_disk: bool,
)
    requires
        origin_verdict(caller) is Ok,
    ensures
        load_verdict(caller, format, stored, vault) == snapshot_plain(format, stored, vault),
        clear_verdict(caller, exists_on_disk) == Ok::<bool, Seq<char>>(exists_on_disk),
{
}

/// A line of the log is the time in brackets, a space, the message as it is, and the
/// end of the line; a clock before 1970 counts as 0.
pub proof fn law_log_lines_carry_time_and_message(
    caller: Result<UrlView, Seq<char>>,
    millis: u128,
    message: Seq<char>,
)
    requires
        origin_verdict(caller) is Ok,
    ensures
        log_verdict(caller, Some(millis), message) == Ok::<Seq<char>, Seq<char>>(
            seq!['['] + decimal(millis as nat) + seq![']', ' '] + message + seq!['\n'],
        ),
        log_verdict(caller, None, message) == Ok::<Seq<char>, Seq<char>>(
            seq!['[', '0', ']', ' '] + message + seq!['\n'],
        ),
{
    reveal_strlit("[");
    reveal_strlit("] ");
    reveal_strlit("\n");
    assert("["@ =~= seq!['[']);
    assert("] "@ =~= seq![']', ' ']);
    assert("\n"@ =~= seq!['\n']);
    assert(decimal(0) =~= seq!['0']);
    assert(seq!['['] + seq!['0'] + seq![']', ' '] =~= seq!['[', '0', ']', ' ']);
}

/// A snapshot is written beside the snapshot file, under its name with an ending of
/// its own.
pub proof fn law_snapshots_are_written_aside()
    ensures
        SESSION_FILE@ == "session.json"@,
        SESSION_TEMP_FILE@ == SESSION_FILE@ + ".tmp"@,
        DEBUG_LOG_FILE@ == "debug.log"@,
        SESSION_TEMP_FILE@ != SESSION_FILE@,
{
    reveal_strlit("session.json");
    reveal_strlit("session.json.tmp");
    reveal_strlit(".tmp");
    assert(SESSION_TEMP_FILE@ =~= SESSION_FILE@ + ".tmp"@);
    assert(SESSION_TEMP_FILE@.len() != SESSION_FILE@.len());
}

/// Readings say what they hold.
pub proof fn law_readings_say_what_they_hold(outcome: Result<Option<String>, String>)
    ensures
        outcome matches Ok(Some(text)) ==> read_outcome(outcome) == Ok::<
            Option<Seq<char>>,
            Seq<char>,
        >(Some(text@)),
        outcome matches Ok(None) ==> read_outcome(outcome) == Ok::<Option<Seq<char>>, Seq<char>>(
            None,
        ),
        outcome matches Err(m) ==> read_outcome(outcome) == Err::<Option<Seq<char>>, Seq<char>>(m@),
{
}

} // verus!
