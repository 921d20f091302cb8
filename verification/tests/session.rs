use deepchat_desktop::cipher::Vault;
use deepchat_desktop::json::{JsonDocument, JsonKind};
use deepchat_desktop::page_url::PageUrl;
use deepchat_desktop::session::{
    accept_snapshot, clear_session, content_is_empty, debug_log, existing_is_empty,
    is_empty_snapshot, load_session, read_snapshot_plain, save_session, sealed_payload, SaveStep,
    SnapshotFormat, StoredFile, MAX_SIZE,
};

const SESSION: &str = "{\"localStorage\":{\"token\":\"t\"},\"cookies\":\"\",\"savedAt\":1}";
const EMPTY: &str = "{\"localStorage\":{},\"cookies\":\"\"}";
const KEY: [u8; 32] = [9; 32];

fn trusted() -> Result<PageUrl, String> {
    Ok(PageUrl {
        href: "https://chat.deepseek.com/".to_string(),
        scheme: "https".to_string(),
        host: Some("chat.deepseek.com".to_string()),
    })
}

fn stranger() -> Result<PageUrl, String> {
    Ok(PageUrl {
        href: "https://example.com/".to_string(),
        scheme: "https".to_string(),
        host: Some("example.com".to_string()),
    })
}

fn key() -> Vault {
    Vault::Keychain(Ok(KEY))
}

fn file(text: &str) -> StoredFile {
    StoredFile::Bytes(text.as_bytes().to_vec())
}

fn save(data: &str) -> Result<bool, String> {
    save_session(&trusted(), data.to_string()).map(|pending| pending.needs_existing())
}

/// Saves over what is on disk, and gives what is then to be written.
fn save_over(
    data: &str,
    format: SnapshotFormat,
    stored: StoredFile,
    vault: Vault,
) -> Result<Vec<u8>, String> {
    let pending = save_session(&trusted(), data.to_string())?;
    let approved = pending.approve(format, stored, Vault::Unsupported)?;
    assert_eq!(approved.plain_bytes(), data.as_bytes());
    let run = approved.seal(format, vault)?;
    Ok(run.bytes().to_vec())
}

fn object(members: Vec<(&str, JsonKind)>) -> JsonDocument {
    JsonDocument::Object(members.into_iter().map(|(name, kind)| (name.to_string(), kind)).collect())
}

fn text(value: &str) -> JsonKind {
    JsonKind::Text(value.to_string())
}

#[test]
fn snapshots_without_entries_and_cookies_are_empty() {
    assert!(is_empty_snapshot(&object(vec![])));
    assert!(is_empty_snapshot(&object(vec![("localStorage", JsonKind::Object(0)), ("cookies", text(""))])));
    assert!(is_empty_snapshot(&object(vec![("other", JsonKind::Object(3))])));
    assert!(is_empty_snapshot(&JsonDocument::Other));
    assert!(!is_empty_snapshot(&object(vec![("localStorage", JsonKind::Object(1))])));
    assert!(!is_empty_snapshot(&object(vec![("cookies", text("a=1"))])));
    assert!(!is_empty_snapshot(&object(vec![("localStorage", JsonKind::Object(0)), ("cookies", text("a=1"))])));
}

#[test]
fn members_of_another_kind_count_as_nothing() {
    assert!(is_empty_snapshot(&object(vec![("localStorage", JsonKind::Array), ("cookies", JsonKind::Array)])));
    assert!(is_empty_snapshot(&object(vec![("localStorage", text("x")), ("cookies", JsonKind::Object(2))])));
    assert!(is_empty_snapshot(&object(vec![("localStorage", JsonKind::Null), ("cookies", JsonKind::Bool)])));
    assert!(is_empty_snapshot(&object(vec![("localStorage", JsonKind::Number)])));
}

#[test]
fn the_parser_tells_the_kinds_apart() {
    assert_eq!(save("{\"localStorage\":[1],\"cookies\":null}"), Ok(true));
    assert_eq!(save("{\"localStorage\":\"x\",\"cookies\":true}"), Ok(true));
    assert_eq!(save("{\"localStorage\":1.5,\"cookies\":{\"a\":1}}"), Ok(true));
    assert_eq!(save("{\"localStorage\":{\"a\":null}}"), Ok(false));
    assert_eq!(save("{\"cookies\":\"\\u0061\"}"), Ok(false));
    assert_eq!(save("{\"cookies\":\"a\",\"cookies\":\"\"}"), Ok(true));
    assert_eq!(save(" \n{}\t"), Ok(true));
    assert_eq!(save(SESSION), Ok(false));
    assert_eq!(save(EMPTY), Ok(true));
}

#[test]
fn only_objects_are_accepted() {
    let refusal = Err("快照必须是 JSON 对象".to_string());
    for other in ["null", "true", "1", "\"{}\"", "[]", "[{}]"] {
        assert_eq!(save(other), refusal);
    }
    assert_eq!(accept_snapshot(&Ok(JsonDocument::Other)), refusal);
    assert_eq!(accept_snapshot(&Ok(object(vec![("cookies", text("a"))]))), Ok(false));
    assert_eq!(accept_snapshot(&Ok(object(vec![]))), Ok(true));
}

#[test]
fn what_is_no_json_is_refused_with_the_reason() {
    assert_eq!(save(""), Err("快照 JSON 无效: EOF while parsing a value at line 1 column 0".to_string()));
    assert_eq!(save("{} x"), Err("快照 JSON 无效: trailing characters at line 1 column 4".to_string()));
    assert_eq!(accept_snapshot(&Err("bad".to_string())), Err("快照 JSON 无效: bad".to_string()));
}

#[test]
fn large_snapshots_are_refused_by_their_bytes() {
    let of_size = |size: usize| format!("{{\"a\":\"{}\"}}", "x".repeat(size - 8));
    assert_eq!(of_size(MAX_SIZE).len(), MAX_SIZE);
    assert_eq!(save(&of_size(MAX_SIZE)), Ok(true));
    assert_eq!(save(&of_size(MAX_SIZE + 1)), Err("快照数据过大".to_string()));
    let wide = format!("{{\"a\":\"{}\"}}", "会".repeat(MAX_SIZE / 3));
    assert_eq!(save(&wide), Err("快照数据过大".to_string()));
    assert_eq!(MAX_SIZE, 10 * 1024 * 1024);
}

#[test]
fn what_is_saved_plain_is_loaded() {
    let bytes = save_over(SESSION, SnapshotFormat::Plain, StoredFile::Missing, Vault::Unsupported).unwrap();
    assert_eq!(bytes, SESSION.as_bytes());
    let loaded = load_session(&trusted(), SnapshotFormat::Plain, StoredFile::Bytes(bytes), Vault::Unsupported);
    assert_eq!(loaded, Ok(Some(SESSION.to_string())));
}

#[test]
fn what_is_saved_encrypted_is_loaded() {
    let bytes = save_over(SESSION, SnapshotFormat::Encrypted, StoredFile::Missing, key()).unwrap();
    assert!(bytes.starts_with(b"DSENC1:"));
    assert_eq!(bytes.len(), 7 + 12 + SESSION.len() + 16);
    let stored = StoredFile::Bytes(bytes.clone());
    assert_eq!(sealed_payload(SnapshotFormat::Encrypted, &stored), Some(bytes[7..].to_vec()));
    assert_eq!(sealed_payload(SnapshotFormat::Plain, &stored), None);
    let loaded = load_session(&trusted(), SnapshotFormat::Encrypted, stored, key());
    assert_eq!(loaded, Ok(Some(SESSION.to_string())));
}

#[test]
fn what_windows_protects_is_loaded() {
    let bytes = save_over(SESSION, SnapshotFormat::Encrypted, StoredFile::Missing, Vault::Dpapi(Ok(vec![1, 2]))).unwrap();
    assert_eq!(bytes, b"DSENC1:\x01\x02");
    let unprotected = Vault::Dpapi(Ok(SESSION.as_bytes().to_vec()));
    let loaded = load_session(&trusted(), SnapshotFormat::Encrypted, StoredFile::Bytes(bytes), unprotected);
    assert_eq!(loaded, Ok(Some(SESSION.to_string())));
}

#[test]
fn encryption_that_fails_writes_nothing() {
    assert_eq!(
        save_over(SESSION, SnapshotFormat::Encrypted, StoredFile::Missing, Vault::Unsupported),
        Err("当前平台不支持会话加密（encrypt-session）".to_string())
    );
}

#[test]
fn plain_snapshots_stay_readable_once_encryption_is_on() {
    let bytes = save_over(SESSION, SnapshotFormat::Plain, StoredFile::Missing, Vault::Unsupported).unwrap();
    let loaded = load_session(&trusted(), SnapshotFormat::Encrypted, StoredFile::Bytes(bytes), Vault::Unsupported);
    assert_eq!(loaded, Ok(Some(SESSION.to_string())));
}

#[test]
fn no_file_and_blank_files_hold_no_snapshot() {
    for stored in [StoredFile::Missing, file(""), file(" \n\u{3000}")] {
        assert_eq!(read_snapshot_plain(SnapshotFormat::Plain, stored, Vault::Unsupported), Ok(None));
    }
    let blank = Vault::Dpapi(Ok(b"  ".to_vec()));
    assert_eq!(read_snapshot_plain(SnapshotFormat::Encrypted, file("DSENC1:x"), blank), Ok(None));
}

#[test]
fn files_that_cannot_be_read_are_reported() {
    assert_eq!(
        read_snapshot_plain(SnapshotFormat::Plain, StoredFile::Unreadable("denied".to_string()), Vault::Unsupported),
        Err("读取快照失败: denied".to_string())
    );
    assert_eq!(
        read_snapshot_plain(SnapshotFormat::Plain, StoredFile::Bytes(vec![b'a', 0xff]), Vault::Unsupported),
        Err("快照编码非法: invalid utf-8 sequence of 1 bytes from index 1".to_string())
    );
    assert_eq!(
        read_snapshot_plain(SnapshotFormat::Encrypted, file("DSENC1:x"), Vault::Dpapi(Ok(vec![0xff]))),
        Err("快照解码失败: invalid utf-8 sequence of 1 bytes from index 0".to_string())
    );
    assert_eq!(
        read_snapshot_plain(SnapshotFormat::Encrypted, file("DSENC1:x"), key()),
        Err("加密数据不完整".to_string())
    );
}

#[test]
fn without_encryption_an_encrypted_file_is_just_text() {
    assert_eq!(
        read_snapshot_plain(SnapshotFormat::Plain, file("DSENC1:x"), Vault::Unsupported),
        Ok(Some("DSENC1:x".to_string()))
    );
}

#[test]
fn stored_files_are_judged_by_their_content() {
    let plain = SnapshotFormat::Plain;
    assert!(existing_is_empty(plain, StoredFile::Missing, Vault::Unsupported));
    assert!(existing_is_empty(plain, file(" "), Vault::Unsupported));
    assert!(existing_is_empty(plain, file(EMPTY), Vault::Unsupported));
    assert!(existing_is_empty(plain, file("no json"), Vault::Unsupported));
    assert!(!existing_is_empty(plain, file(SESSION), Vault::Unsupported));
    assert!(!existing_is_empty(plain, StoredFile::Unreadable("denied".to_string()), Vault::Unsupported));
    assert!(!existing_is_empty(plain, StoredFile::Bytes(vec![0xff]), Vault::Unsupported));
    assert!(!existing_is_empty(SnapshotFormat::Encrypted, file("DSENC1:x"), Vault::Unsupported));
    assert!(content_is_empty(&Err("bad".to_string())));
    assert!(!content_is_empty(&Ok(object(vec![("cookies", text("a"))]))));
}

#[test]
fn empty_snapshots_do_not_replace_sessions() {
    let refusal = Err("空快照拒绝覆盖已有会话（可能为未登录中间态）".to_string());
    let plain = SnapshotFormat::Plain;
    let none = || Vault::Unsupported;
    assert_eq!(save_over(EMPTY, plain, file(SESSION), none()), refusal);
    assert_eq!(save_over(EMPTY, plain, StoredFile::Unreadable("denied".to_string()), none()), refusal);
    assert_eq!(save_over(EMPTY, SnapshotFormat::Encrypted, file("DSENC1:x"), none()), refusal);
    assert_eq!(save_over(EMPTY, plain, StoredFile::Missing, none()), Ok(EMPTY.as_bytes().to_vec()));
    assert_eq!(save_over(EMPTY, plain, file(EMPTY), none()), Ok(EMPTY.as_bytes().to_vec()));
    assert_eq!(save_over(SESSION, plain, file(SESSION), none()), Ok(SESSION.as_bytes().to_vec()));
}

#[test]
fn encrypted_sessions_withstand_empty_snapshots() {
    let format = SnapshotFormat::Encrypted;
    let approve = |bytes: &[u8], vault: Vault| {
        let pending = save_session(&trusted(), EMPTY.to_string()).unwrap();
        pending.approve(format, StoredFile::Bytes(bytes.to_vec()), vault).map(|_| ())
    };
    let refusal = Err("空快照拒绝覆盖已有会话（可能为未登录中间态）".to_string());
    let session = save_over(SESSION, format, StoredFile::Missing, key()).unwrap();
    assert_eq!(approve(&session, key()), refusal);
    assert_eq!(approve(&session, Vault::Keychain(Ok([8; 32]))), refusal);
    let empty = save_over(EMPTY, format, StoredFile::Missing, key()).unwrap();
    assert_eq!(approve(&empty, key()), Ok(()));
}

#[test]
fn a_run_writes_aside_and_renames() {
    let approved = save_session(&trusted(), SESSION.to_string())
        .unwrap()
        .approve(SnapshotFormat::Plain, StoredFile::Missing, Vault::Unsupported)
        .unwrap();
    let mut run = approved.seal(SnapshotFormat::Plain, Vault::Unsupported).unwrap();
    assert_eq!(run.current(), SaveStep::RemoveTemp);
    assert_eq!(run.report(Err("no such file".to_string())), Ok(()));
    assert_eq!(run.current(), SaveStep::WriteTemp);
    assert_eq!(run.report(Ok(())), Ok(()));
    assert_eq!(run.current(), SaveStep::RenameTemp);
    assert_eq!(run.report(Ok(())), Ok(()));
    assert_eq!(run.current(), SaveStep::Finished);
    assert_eq!(run.bytes(), SESSION.as_bytes());
}

#[test]
fn a_run_that_fails_never_renames() {
    let start = || {
        save_session(&trusted(), SESSION.to_string())
            .unwrap()
            .approve(SnapshotFormat::Plain, StoredFile::Missing, Vault::Unsupported)
            .unwrap()
            .seal(SnapshotFormat::Plain, Vault::Unsupported)
            .unwrap()
    };
    let mut run = start();
    run.report(Ok(())).unwrap();
    assert_eq!(run.report(Err("disk full".to_string())), Err("写入快照失败: disk full".to_string()));
    assert_eq!(run.current(), SaveStep::Finished);
    let mut run = start();
    run.report(Ok(())).unwrap();
    run.report(Ok(())).unwrap();
    assert_eq!(run.report(Err("busy".to_string())), Err("落盘快照失败: busy".to_string()));
    assert_eq!(run.current(), SaveStep::Finished);
}

#[test]
fn clearing_removes_what_is_there() {
    assert_eq!(clear_session(&trusted(), true), Ok(true));
    assert_eq!(clear_session(&trusted(), false), Ok(false));
    let loaded = load_session(&trusted(), SnapshotFormat::Encrypted, StoredFile::Missing, Vault::Unsupported);
    assert_eq!(loaded, Ok(None));
}

#[test]
fn log_lines_carry_the_time() {
    assert_eq!(
        debug_log(&trusted(), Some(1_760_000_000_123), "marker"),
        Ok("[1760000000123] marker\n".to_string())
    );
    assert_eq!(debug_log(&trusted(), None, ""), Ok("[0] \n".to_string()));
}

#[test]
fn strangers_are_refused_by_every_command() {
    let refusal = "拒绝非 deepseek 域调用".to_string();
    match save_session(&stranger(), "no json".to_string()) {
        Err(message) => assert_eq!(message, refusal),
        Ok(_) => panic!("a stranger saved a session"),
    }
    assert_eq!(
        load_session(&stranger(), SnapshotFormat::Plain, file(SESSION), Vault::Unsupported),
        Err(refusal.clone())
    );
    assert_eq!(clear_session(&stranger(), true), Err(refusal.clone()));
    assert_eq!(debug_log(&stranger(), None, "x"), Err(refusal));
}
