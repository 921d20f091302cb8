use deepchat_desktop::failure::Failure;
use deepchat_desktop::origin::ensure_deepseek_origin;
use deepchat_desktop::page_url::PageUrl;

fn page(text: &str) -> Result<PageUrl, String> {
    let url = url::Url::parse(text).unwrap();
    Ok(PageUrl {
        href: url.as_str().to_string(),
        scheme: url.scheme().to_string(),
        host: url.host_str().map(|host| host.to_string()),
    })
}

#[test]
fn pages_of_deepseek_pass() {
    assert_eq!(ensure_deepseek_origin(&page("https://deepseek.com/")), Ok(()));
    assert_eq!(ensure_deepseek_origin(&page("https://chat.deepseek.com/a/chat")), Ok(()));
    assert_eq!(ensure_deepseek_origin(&page("https://a.b.deepseek.com")), Ok(()));
    assert_eq!(ensure_deepseek_origin(&page("HTTPS://CHAT.DEEPSEEK.COM")), Ok(()));
}

#[test]
fn other_schemes_are_refused_first() {
    let refusal = Err("拒绝非 https 调用".to_string());
    assert_eq!(ensure_deepseek_origin(&page("http://chat.deepseek.com")), refusal);
    assert_eq!(ensure_deepseek_origin(&page("http://example.com")), refusal);
    assert_eq!(ensure_deepseek_origin(&page("data:text/plain,deepseek.com")), refusal);
}

#[test]
fn other_hosts_are_refused() {
    let refusal = Err("拒绝非 deepseek 域调用".to_string());
    assert_eq!(ensure_deepseek_origin(&page("https://example.com")), refusal);
    assert_eq!(ensure_deepseek_origin(&page("https://deepseek.com.example.com")), refusal);
    let hostless = Ok(PageUrl { href: String::new(), scheme: "https".to_string(), host: None });
    assert_eq!(ensure_deepseek_origin(&hostless), refusal);
}

#[test]
fn lookalike_hosts_are_refused() {
    let refusal = Err("拒绝非 deepseek 域调用".to_string());
    assert_eq!(ensure_deepseek_origin(&page("https://evildeepseek.com")), refusal);
    assert_eq!(ensure_deepseek_origin(&page("https://chat-deepseek.com")), refusal);
}

#[test]
fn an_unknown_caller_is_refused_with_the_reason() {
    let caller = Err("webview gone".to_string());
    assert_eq!(
        ensure_deepseek_origin(&caller),
        Err("获取调用方 URL 失败: webview gone".to_string())
    );
}

#[test]
fn failures_report_their_detail() {
    assert_eq!(Failure::DataDir.report("x"), "无法获取应用数据目录: x");
    assert_eq!(Failure::CreateDataDir.report("x"), "无法创建应用数据目录: x");
    assert_eq!(Failure::OpenLog.report("x"), "打开日志失败: x");
    assert_eq!(Failure::WriteLog.report("x"), "写日志失败: x");
    assert_eq!(Failure::CreateWindow.report("x"), "创建主窗口失败: x");
    assert_eq!(Failure::KeychainWrite.check(Ok(())), Ok(()));
    assert_eq!(
        Failure::KeychainWrite.check(Err("locked".to_string())),
        Err("Keychain 写入失败: locked".to_string())
    );
    assert_eq!(
        Failure::OpenLink.check(Err("no browser".to_string())),
        Err("打开外部链接失败: no browser".to_string())
    );
    assert_eq!(
        Failure::ClearSnapshot.check(Err("busy".to_string())),
        Err("清理快照失败: busy".to_string())
    );
}
