use deepchat_desktop::links::{
    external_target, local_app_url, offline_page, on_navigation, open_external, start_page,
    try_local_app_url,
};
use deepchat_desktop::page_url::PageUrl;
use deepchat_desktop::platform::Platform;

fn page(text: &str) -> PageUrl {
    let url = url::Url::parse(text).unwrap();
    PageUrl {
        href: url.as_str().to_string(),
        scheme: url.scheme().to_string(),
        host: url.host_str().map(|host| host.to_string()),
    }
}

fn trusted() -> Result<PageUrl, String> {
    Ok(page("https://chat.deepseek.com/"))
}

#[test]
fn the_start_page_is_the_chat() {
    let start = start_page();
    assert_eq!(start.href, "https://chat.deepseek.com/");
    assert_eq!(start.scheme, "https");
    assert_eq!(start.host, Some("chat.deepseek.com".to_string()));
}

#[test]
fn local_pages_have_the_scheme_of_the_platform() {
    let mac = local_app_url(Platform::MacOs, "index.html?offline=1");
    assert_eq!(mac.href, "tauri://localhost/index.html?offline=1");
    assert_eq!(mac.scheme, "tauri");
    assert_eq!(mac.host, Some("localhost".to_string()));
    for platform in [Platform::Windows, Platform::Linux] {
        let local = local_app_url(platform, "index.html?offline=1");
        assert_eq!(local.href, "http://tauri.localhost/index.html?offline=1");
        assert_eq!(local.scheme, "http");
        assert_eq!(local.host, Some("tauri.localhost".to_string()));
    }
}

#[test]
fn local_pages_can_be_navigated_to() {
    let odd_paths = ["", "a b", "x#y", "//z", "\t\n", "@host/", ":80", "路径?q=1", "..", "%zz", "\\a"];
    for platform in [Platform::MacOs, Platform::Windows, Platform::Linux] {
        assert!(on_navigation(&offline_page(platform)));
        for path in odd_paths {
            let local = try_local_app_url(platform, path).unwrap();
            assert!(on_navigation(&local));
            assert_eq!(local.host, offline_page(platform).host);
        }
    }
    assert_eq!(
        try_local_app_url(Platform::Linux, "a b").unwrap().href,
        "http://tauri.localhost/a%20b"
    );
}

#[test]
fn navigation_keeps_to_the_web_and_to_local_pages() {
    assert!(on_navigation(&page("http://example.com")));
    assert!(on_navigation(&page("https://accounts.example.com/oauth")));
    assert!(on_navigation(&page("tauri://localhost/index.html")));
    assert!(on_navigation(&page("http://tauri.localhost/index.html")));
    assert!(!on_navigation(&page("tauri://example.com/index.html")));
    assert!(!on_navigation(&page("data:text/html,hi")));
    assert!(!on_navigation(&page("file:///etc/hosts")));
    assert!(!on_navigation(&page("javascript:alert(1)")));
    assert!(!on_navigation(&page("ftp://localhost/")));
}

#[test]
fn web_links_leave_as_they_are() {
    let link = "HTTPS://Example.com/a b".to_string();
    assert_eq!(open_external(&trusted(), link.clone()), Ok(link));
    let plain = "http://example.com".to_string();
    assert_eq!(open_external(&trusted(), plain.clone()), Ok(plain));
}

#[test]
fn other_links_do_not_leave() {
    assert_eq!(
        open_external(&trusted(), "file:///etc/hosts".to_string()),
        Err("不允许的协议: file".to_string())
    );
    assert_eq!(
        open_external(&trusted(), "JavaScript:alert(1)".to_string()),
        Err("不允许的协议: javascript".to_string())
    );
}

#[test]
fn texts_that_are_no_links_do_not_leave() {
    assert_eq!(
        open_external(&trusted(), "nothing".to_string()),
        Err("无效 URL: relative URL without a base".to_string())
    );
    assert_eq!(
        open_external(&trusted(), "https://".to_string()),
        Err("无效 URL: empty host".to_string())
    );
}

#[test]
fn strangers_open_no_links() {
    let stranger = Ok(page("https://example.com"));
    assert_eq!(
        open_external(&stranger, "https://example.com".to_string()),
        Err("拒绝非 deepseek 域调用".to_string())
    );
}

#[test]
fn a_link_is_judged_by_what_the_parser_read() {
    let read = Ok(page("https://example.com"));
    assert_eq!(external_target("raw".to_string(), read), Ok("raw".to_string()));
    let read = Ok(page("mailto:a@example.com"));
    assert_eq!(
        external_target("raw".to_string(), read),
        Err("不允许的协议: mailto".to_string())
    );
    assert_eq!(
        external_target("raw".to_string(), Err("bad".to_string())),
        Err("无效 URL: bad".to_string())
    );
}
