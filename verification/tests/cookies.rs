use deepchat_desktop::cookies::{
    dump_all_cookies, is_positive, mac, restore_all_cookies, win, CookieData, DumpAnswer,
    RestoreAnswer,
};
use deepchat_desktop::failure::Failure;
use deepchat_desktop::page_url::PageUrl;

fn caller(host: &str) -> Result<PageUrl, String> {
    Ok(PageUrl {
        href: format!("https://{}/", host),
        scheme: "https".to_string(),
        host: Some(host.to_string()),
    })
}

fn trusted() -> Result<PageUrl, String> {
    caller("chat.deepseek.com")
}

fn some(text: &str) -> Result<Option<String>, String> {
    Ok(Some(text.to_string()))
}

fn raw(name: &str) -> win::RawCookie {
    win::RawCookie {
        name: some(name),
        value: some("v"),
        domain: some(".deepseek.com"),
        path: some("/"),
        http_only: Ok(true),
        secure: Ok(false),
        session: Ok(false),
        expires_bits: Ok(1.5f64.to_bits()),
    }
}

fn cookie(name: &str, session: bool, expires: f64) -> CookieData {
    CookieData {
        name: name.to_string(),
        value: "v".to_string(),
        domain: ".deepseek.com".to_string(),
        path: "/".to_string(),
        http_only: true,
        secure: false,
        session,
        expires_bits: expires.to_bits(),
    }
}

#[test]
fn bits_tell_positive_numbers() {
    let numbers = [
        0.0, -0.0, 1.0, -1.0, 1.75e9, f64::MIN_POSITIVE, 5e-324, -5e-324, f64::MAX, f64::MIN,
        f64::INFINITY, f64::NEG_INFINITY, f64::NAN, -f64::NAN,
    ];
    for number in numbers {
        assert_eq!(is_positive(number.to_bits()), number > 0.0, "{}", number);
    }
}

#[test]
fn webview2_cookies_are_read() {
    let read = win::cookie_to_data(&raw("sid")).unwrap();
    assert_eq!(read.name, "sid");
    assert_eq!(read.value, "v");
    assert_eq!(read.domain, ".deepseek.com");
    assert_eq!(read.path, "/");
    assert!(read.http_only);
    assert!(!read.secure);
    assert!(!read.session);
    assert_eq!(f64::from_bits(read.expires_bits), 1.5);
    let absent = win::RawCookie { value: Ok(None), ..raw("sid") };
    assert_eq!(win::cookie_to_data(&absent).unwrap().value, "");
    assert_eq!(win::pwstr(&None), "");
    assert_eq!(win::pwstr(&Some("x".to_string())), "x");
}

#[test]
fn session_cookies_have_no_expiry() {
    for expires in [-1.0f64, 0.0, 1.75e9] {
        let session = win::RawCookie {
            session: Ok(true),
            expires_bits: Ok(expires.to_bits()),
            ..raw("sid")
        };
        let read = win::cookie_to_data(&session).unwrap();
        assert!(read.session);
        assert_eq!(read.expires_bits, 0);
        let session = mac::RawCookie { session: true, ..mac_raw("sid", Some(expires.to_bits())) };
        let read = mac::cookie_to_data(&session);
        assert!(read.session);
        assert_eq!(read.expires_bits, 0);
    }
    let lasting = win::RawCookie { expires_bits: Ok((-1.0f64).to_bits()), ..raw("sid") };
    assert_eq!(f64::from_bits(win::cookie_to_data(&lasting).unwrap().expires_bits), -1.0);
    let unreadable = win::RawCookie {
        session: Ok(true),
        expires_bits: Err("0x1".to_string()),
        ..raw("sid")
    };
    assert_eq!(win::cookie_to_data(&unreadable).unwrap_err(), "读 Cookie Expires 失败: 0x1");
}

#[test]
fn exported_cookies_are_written_and_told_again() {
    let session = win::RawCookie {
        session: Ok(true),
        expires_bits: Ok((-1.0f64).to_bits()),
        ..raw("s")
    };
    let listed = win::DumpReply::Listed(vec![Ok(raw("p")), Ok(session)]);
    let exported = win::dump_all_cookies(listed).unwrap();
    let mut run = win::RestoreRun::new(exported.clone());
    let mut store = Vec::new();
    while let Some(write) = run.current() {
        store.push(Ok(win::RawCookie {
            name: some(&write.name),
            value: some(&write.value),
            domain: some(&write.domain),
            path: some(&write.path),
            http_only: Ok(write.http_only),
            secure: Ok(write.secure),
            session: Ok(write.expires_bits.is_none()),
            expires_bits: Ok(write.expires_bits.unwrap_or((-1.0f64).to_bits())),
        }));
        run.report(Ok(())).unwrap();
    }
    store.reverse();
    let mut again = win::dump_all_cookies(win::DumpReply::Listed(store)).unwrap();
    again.reverse();
    assert_eq!(again.len(), 2);
    for (told, before) in again.iter().zip(&exported) {
        assert_eq!(format!("{:?}", told), format!("{:?}", before));
    }
}

#[test]
fn the_first_unreadable_property_is_reported() {
    let e = || "0x1".to_string();
    let message = |raw: win::RawCookie| win::cookie_to_data(&raw).unwrap_err();
    assert_eq!(message(win::RawCookie { name: Err(e()), value: Err(e()), ..raw("a") }), "读 Cookie Name 失败: 0x1");
    assert_eq!(message(win::RawCookie { value: Err(e()), ..raw("a") }), "读 Cookie Value 失败: 0x1");
    assert_eq!(message(win::RawCookie { domain: Err(e()), ..raw("a") }), "读 Cookie Domain 失败: 0x1");
    assert_eq!(message(win::RawCookie { path: Err(e()), ..raw("a") }), "读 Cookie Path 失败: 0x1");
    assert_eq!(message(win::RawCookie { http_only: Err(e()), ..raw("a") }), "读 Cookie HttpOnly 失败: 0x1");
    assert_eq!(message(win::RawCookie { secure: Err(e()), ..raw("a") }), "读 Cookie Secure 失败: 0x1");
    assert_eq!(message(win::RawCookie { session: Err(e()), ..raw("a") }), "读 Cookie Session 失败: 0x1");
    assert_eq!(message(win::RawCookie { expires_bits: Err(e()), ..raw("a") }), "读 Cookie Expires 失败: 0x1");
}

#[test]
fn webview2_exports_are_complete_or_fail() {
    let names = |reply| {
        win::dump_all_cookies(reply)
            .map(|cookies| cookies.into_iter().map(|cookie| cookie.name).collect::<Vec<_>>())
    };
    let listed = win::DumpReply::Listed(vec![Ok(raw("a")), Ok(raw("b"))]);
    assert_eq!(names(listed), Ok(vec!["a".to_string(), "b".to_string()]));
    assert_eq!(names(win::DumpReply::Listed(vec![])), Ok(vec![]));
    let broken = win::DumpReply::Listed(vec![Ok(raw("a")), Err("gone".to_string()), Ok(raw("b"))]);
    assert_eq!(names(broken), Err("读 Cookie 失败: gone".to_string()));
    let unread = win::RawCookie { path: Err("bad".to_string()), ..raw("b") };
    let broken = win::DumpReply::Listed(vec![Ok(unread), Err("gone".to_string())]);
    assert_eq!(names(broken), Err("读 Cookie Path 失败: bad".to_string()));
    assert_eq!(names(win::DumpReply::TimedOut), Err("获取 Cookie 超时".to_string()));
    let failed = win::DumpReply::Failed(Failure::GetCookies, "0x2".to_string());
    assert_eq!(names(failed), Err("GetCookies 失败: 0x2".to_string()));
}

#[test]
fn webview2_restorations_go_cookie_by_cookie() {
    let mut run = win::RestoreRun::new(vec![
        cookie("a", false, 2.5),
        cookie("b", true, 2.5),
        cookie("c", false, -1.0),
    ]);
    let write = run.current().unwrap();
    assert_eq!(write.name, "a");
    assert_eq!(write.value, "v");
    assert_eq!(write.domain, ".deepseek.com");
    assert_eq!(write.path, "/");
    assert!(write.http_only);
    assert!(!write.secure);
    assert_eq!(write.expires_bits, Some(2.5f64.to_bits()));
    assert_eq!(run.report(Ok(())), Ok(()));
    let write = run.current().unwrap();
    assert_eq!((write.name.as_str(), write.expires_bits), ("b", None));
    assert_eq!(run.report(Ok(())), Ok(()));
    let write = run.current().unwrap();
    assert_eq!((write.name.as_str(), write.expires_bits), ("c", None));
    assert_eq!(run.report(Ok(())), Ok(()));
    assert!(run.current().is_none());
}

#[test]
fn webview2_restorations_stop_at_a_failure() {
    let cases = [
        (win::WriteStage::Create, "CreateCookie 失败 (a): 0x3"),
        (win::WriteStage::Attributes, "设置 Cookie 属性失败 (a): 0x3"),
        (win::WriteStage::Store, "AddOrUpdateCookie 失败 (a): 0x3"),
    ];
    for (stage, message) in cases {
        let mut run = win::RestoreRun::new(vec![cookie("a", false, 1.0), cookie("b", false, 1.0)]);
        assert_eq!(run.report(Err((stage, "0x3".to_string()))), Err(message.to_string()));
        assert!(run.current().is_none());
    }
    assert_eq!(
        win::restore_all_cookies(win::RestoreReply::TimedOut),
        Err("写入 Cookie 超时".to_string())
    );
    assert_eq!(
        win::restore_all_cookies(win::RestoreReply::Failed(Failure::WithWebview, "x".to_string())),
        Err("with_webview 失败: x".to_string())
    );
    assert_eq!(win::restore_all_cookies(win::RestoreReply::Finished(Ok(()))), Ok(()));
}

fn mac_raw(name: &str, expires_bits: Option<u64>) -> mac::RawCookie {
    mac::RawCookie {
        name: name.to_string(),
        value: "v".to_string(),
        domain: "deepseek.com".to_string(),
        path: "/".to_string(),
        http_only: true,
        secure: true,
        session: false,
        expires_bits,
    }
}

#[test]
fn webkit_cookies_are_read_and_go_back() {
    let read = mac::cookie_to_data(&mac_raw("sid", Some(3.0f64.to_bits())));
    assert_eq!(f64::from_bits(read.expires_bits), 3.0);
    assert!(read.http_only && read.secure && !read.session);
    let back = mac::properties_of(&read);
    assert_eq!((back.name.as_str(), back.value.as_str()), ("sid", "v"));
    assert_eq!((back.domain.as_str(), back.path.as_str()), ("deepseek.com", "/"));
    assert!(back.secure);
    assert_eq!(back.expires_bits.map(f64::from_bits), Some(3.0));
    assert_eq!(mac::cookie_to_data(&mac_raw("sid", None)).expires_bits, 0);
}

#[test]
fn webkit_dates_do_not_go_below_zero() {
    for expires in [0.0, -0.0, -7.0, f64::NEG_INFINITY, f64::NAN, 7.0, f64::INFINITY] {
        let back = mac::properties_of(&cookie("a", false, expires));
        assert_eq!(back.expires_bits.map(f64::from_bits), Some(expires.max(0.0)));
    }
}

#[test]
fn webkit_session_cookies_go_back_without_a_date() {
    for expires in [0.0, -0.0, -1.0, f64::NAN] {
        assert_eq!(mac::properties_of(&cookie("sid", true, expires)).expires_bits, None);
    }
    let dated = mac::properties_of(&cookie("sid", true, 7.0));
    assert_eq!(dated.expires_bits, Some(7.0f64.to_bits()));
}

#[test]
fn webkit_cookies_are_told_again_but_for_two_flags() {
    let session = mac::RawCookie { session: true, ..mac_raw("s", None) };
    let dated = mac_raw("d", Some(7.0f64.to_bits()));
    let exported = mac::dump_all_cookies(mac::DumpReply::Listed(vec![dated, session])).unwrap();
    let mut run = mac::RestoreRun::new(exported.clone());
    let mut store = Vec::new();
    while let Some(made) = run.current() {
        store.push(mac::RawCookie {
            name: made.name,
            value: made.value,
            domain: made.domain,
            path: made.path,
            http_only: false,
            secure: made.secure,
            session: made.expires_bits.is_none(),
            expires_bits: made.expires_bits,
        });
        assert!(run.report(true).is_none());
    }
    store.reverse();
    let mut again = mac::dump_all_cookies(mac::DumpReply::Listed(store)).unwrap();
    again.reverse();
    assert_eq!(again.len(), 2);
    for (told, before) in again.iter().zip(&exported) {
        assert_eq!((&told.name, &told.value), (&before.name, &before.value));
        assert_eq!((&told.domain, &told.path), (&before.domain, &before.path));
        assert_eq!((told.secure, told.expires_bits), (before.secure, before.expires_bits));
    }
}

#[test]
fn webkit_runs_go_cookie_by_cookie() {
    let mut run = mac::RestoreRun::new(vec![cookie("a", false, 2.5), cookie("b", true, 0.0)]);
    let properties = run.current().unwrap();
    assert_eq!((properties.name.as_str(), properties.value.as_str()), ("a", "v"));
    assert_eq!((properties.domain.as_str(), properties.path.as_str()), (".deepseek.com", "/"));
    assert_eq!(properties.expires_bits, Some(2.5f64.to_bits()));
    assert!(!properties.secure);
    assert!(run.report(true).is_none());
    let properties = run.current().unwrap();
    assert_eq!((properties.name.as_str(), properties.expires_bits), ("b", None));
    assert!(run.report(true).is_none());
    assert!(run.current().is_none());
}

#[test]
fn webkit_runs_stop_at_the_first_cookie_that_cannot_be_made() {
    let mut run = mac::RestoreRun::new(vec![
        cookie("a", false, 1.0),
        cookie("b", false, 1.0),
        cookie("c", false, 1.0),
    ]);
    let mut wait = mac::RestoreWait::new(3);
    assert!(run.report(true).is_none());
    let failure = run.report(false).unwrap();
    assert!(run.current().is_none());
    assert_eq!(wait.report(mac::WaitEvent::Written), Ok(()));
    assert_eq!(wait.report(failure), Err("创建 Cookie 失败: b".to_string()));
    assert!(wait.is_over());
}

#[test]
fn webkit_exports() {
    let listed = mac::DumpReply::Listed(vec![mac_raw("a", None), mac_raw("b", None)]);
    let cookies = mac::dump_all_cookies(listed).unwrap();
    assert_eq!(cookies.len(), 2);
    assert_eq!((cookies[0].name.as_str(), cookies[1].name.as_str()), ("a", "b"));
    assert_eq!(
        mac::dump_all_cookies(mac::DumpReply::TimedOut).unwrap_err(),
        "获取 Cookie 超时"
    );
    assert_eq!(
        mac::dump_all_cookies(mac::DumpReply::Failed(Failure::WithWebview, "x".to_string())).unwrap_err(),
        "with_webview 失败: x"
    );
}

#[test]
fn webkit_restorations_wait_for_every_cookie() {
    let mut wait = mac::RestoreWait::new(2);
    assert!(!wait.is_over());
    assert_eq!(wait.report(mac::WaitEvent::Written), Ok(()));
    assert!(!wait.is_over());
    assert_eq!(wait.report(mac::WaitEvent::Written), Ok(()));
    assert!(wait.is_over());
    assert!(mac::RestoreWait::new(0).is_over());
    let mut wait = mac::RestoreWait::new(2);
    assert_eq!(
        wait.report(mac::WaitEvent::CreateFailed("sid".to_string())),
        Err("创建 Cookie 失败: sid".to_string())
    );
    assert!(wait.is_over());
    let mut wait = mac::RestoreWait::new(2);
    assert_eq!(wait.report(mac::WaitEvent::TimedOut), Err("写入 Cookie 超时".to_string()));
    assert!(wait.is_over());
    assert_eq!(mac::restore_all_cookies(mac::RestoreReply::Finished(Ok(()))), Ok(()));
    assert_eq!(
        mac::restore_all_cookies(mac::RestoreReply::Failed(Failure::WithWebview, "x".to_string())),
        Err("with_webview 失败: x".to_string())
    );
}

#[test]
fn commands_answer_for_their_platform() {
    let unsupported = "当前平台不支持 HttpOnly Cookie 全量快照（full-cookie-snapshot）";
    assert_eq!(dump_all_cookies(&trusted(), DumpAnswer::Unsupported).unwrap_err(), unsupported);
    assert_eq!(
        restore_all_cookies(&trusted(), RestoreAnswer::Unsupported).unwrap_err(),
        unsupported
    );
    assert_eq!(
        dump_all_cookies(&trusted(), DumpAnswer::TaskFailed("lost".to_string())).unwrap_err(),
        "dump_all_cookies 任务失败: lost"
    );
    assert_eq!(
        restore_all_cookies(&trusted(), RestoreAnswer::TaskFailed("lost".to_string())).unwrap_err(),
        "restore_all_cookies 任务失败: lost"
    );
    let listed = DumpAnswer::Windows(win::DumpReply::Listed(vec![Ok(raw("a"))]));
    assert_eq!(dump_all_cookies(&trusted(), listed).unwrap()[0].name, "a");
    let listed = DumpAnswer::MacOs(mac::DumpReply::Listed(vec![mac_raw("m", None)]));
    assert_eq!(dump_all_cookies(&trusted(), listed).unwrap()[0].name, "m");
    let finished = RestoreAnswer::Windows(win::RestoreReply::Finished(Ok(())));
    assert_eq!(restore_all_cookies(&trusted(), finished), Ok(()));
    let finished = RestoreAnswer::MacOs(mac::RestoreReply::Finished(Err("bad".to_string())));
    assert_eq!(restore_all_cookies(&trusted(), finished), Err("bad".to_string()));
}

#[test]
fn strangers_neither_get_nor_set_cookies() {
    let refusal = "拒绝非 deepseek 域调用";
    let stranger = caller("example.com");
    let listed = DumpAnswer::Windows(win::DumpReply::Listed(vec![Ok(raw("a"))]));
    assert_eq!(dump_all_cookies(&stranger, listed).unwrap_err(), refusal);
    let finished = RestoreAnswer::Windows(win::RestoreReply::Finished(Ok(())));
    assert_eq!(restore_all_cookies(&stranger, finished).unwrap_err(), refusal);
}
