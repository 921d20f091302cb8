//! Where pages may go: the start page, the local pages, navigation and links
//! that leave the application.

use vstd::pervasive::unreached;
use vstd::prelude::*;
use vstd::string::*;

use crate::failure::{text_outcome, Failure};
use crate::origin::{deepseek_host, ensure_deepseek_origin, origin_verdict, trusted_page};
use crate::page_url::{
    parse_url, parsed_url, plain_address, plain_host, plain_scheme, url_outcome, PageUrl, UrlView,
    MAX_URL_LEN, SAFE_URL_LEN,
};
use crate::platform::Platform;
use crate::text::{join2, same_text};

verus! {

/// The address of the page that the main window opens.
pub const APP_URL: &'static str = "https://chat.deepseek.com";

proof fn lemma_start_page()
    ensures
        plain_address(APP_URL@, "https"@, "chat.deepseek.com"@, Seq::empty()),
        APP_URL@.len() <= SAFE_URL_LEN,
        deepseek_host("chat.deepseek.com"@),
{
    reveal_strlit("https://chat.deepseek.com");
    reveal_strlit("https");
    reveal_strlit("://");
    reveal_strlit("chat.deepseek.com");
    reveal_strlit("file");
    reveal_strlit(".deepseek.com");
    let host = "chat.deepseek.com"@;
    assert(APP_URL@ =~= "https"@ + "://"@ + host + Seq::empty());
    assert(host.subrange(4, 17) =~= ".deepseek.com"@);
    assert("https"@[0] != "file"@[0]);
}

/// The page that the main window opens, which may call commands.
pub fn start_page() -> (r: PageUrl)
    ensures
        parsed_url(APP_URL@) == Ok::<UrlView, Seq<char>>(r@),
        r@.scheme == "https"@,
        r@.host == Some("chat.deepseek.com"@),
        trusted_page(r@),
{
    proof {
        lemma_start_page();
    }
    match parse_url(APP_URL) {
        Ok(url) => url,
        Err(_) => unreached(),
    }
}

/// The scheme of the pages that ship with the application.
pub open spec fn local_scheme(platform: Platform) -> Seq<char> {
    match platform {
        Platform::MacOs => "tauri"@,
        _ => "http"@,
    }
}

/// The host of the pages that ship with the application.
pub open spec fn local_host(platform: Platform) -> Seq<char> {
    match platform {
        Platform::MacOs => "localhost"@,
        _ => "tauri.localhost"@,
    }
}

/// The address of a page that ships with the application.
pub open spec fn local_address(platform: Platform, path: Seq<char>) -> Seq<char> {
    local_scheme(platform) + "://"@ + local_host(platform) + "/"@ + path
}

/// A page that ships with the application, on some platform.
pub open spec fn local_page(url: UrlView) -> bool {
    ||| url.scheme == "tauri"@ && url.host == Some("localhost"@)
    ||| url.scheme == "http"@ && url.host == Some("tauri.localhost"@)
}

proof fn lemma_local_address(platform: Platform, path: Seq<char>)
    ensures
        plain_address(
            local_address(platform, path),
            local_scheme(platform),
            local_host(platform),
            "/"@ + path,
        ),
{
    reveal_strlit("tauri");
    reveal_strlit("http");
    reveal_strlit("localhost");
    reveal_strlit("tauri.localhost");
    reveal_strlit("file");
    reveal_strlit("/");
    let rest = "/"@ + path;
    assert(rest[0] == '/');
    assert(local_address(platform, path) =~= local_scheme(platform) + "://"@ + local_host(platform)
        + rest);
    assert("tauri"@ != "file"@) by {
        assert("tauri"@.len() == 5);
    }
    assert("http"@ != "file"@) by {
        assert("http"@[0] == 'h');
        assert("file"@[0] == 'f');
    }
    assert(plain_scheme(local_scheme(platform)));
    assert(plain_host(local_host(platform)));
}

fn local_address_text(platform: Platform, path: &str) -> (r: String)
    ensures
        r@ == local_address(platform, path@),
{
    let (scheme, host) = match platform {
        Platform::MacOs => ("tauri", "localhost"),
        _ => ("http", "tauri.localhost"),
    };
    let mut out = join2(scheme, "://");
    out.append(host);
    out.append("/");
    out.append(path);
    out
}

/// The page at `path` among those that ship with the application. Whatever the
/// path, the main window may navigate there.
pub fn local_app_url(platform: Platform, path: &str) -> (r: PageUrl)
    requires
        local_address(platform, path@).len() <= MAX_URL_LEN,
        parsed_url(local_address(platform, path@)) is Ok,
    ensures
        parsed_url(local_address(platform, path@)) == Ok::<UrlView, Seq<char>>(r@),
        r@.scheme == local_scheme(platform),
        r@.host == Some(local_host(platform)),
        local_page(r@),
        navigation_allowed(r@),
{
    proof {
        lemma_local_address(platform, path@);
    }
    match parse_url(&local_address_text(platform, path)) {
        Ok(url) => url,
        Err(_) => unreached(),
    }
}

/// The page at `path` among those that ship with the application, or what the
/// URL parser has against it. No path of ordinary length is refused, and whatever
/// the path, the main window may navigate to its page.
pub fn try_local_app_url(platform: Platform, path: &str) -> (r: Result<PageUrl, String>)
    requires
        local_address(platform, path@).len() <= MAX_URL_LEN,
    ensures
        url_outcome(r) == parsed_url(local_address(platform, path@)),
        local_address(platform, path@).len() <= SAFE_URL_LEN ==> r is Ok,
        r matches Ok(page) ==> {
            &&& page@.scheme == local_scheme(platform)
            &&& page@.host == Some(local_host(platform))
            &&& local_page(page@)
            &&& navigation_allowed(page@)
        },
{
    proof {
        lemma_local_address(platform, path@);
    }
    match parse_url(&local_address_text(platform, path)) {
        Ok(_) => Ok(local_app_url(platform, path)),
        Err(message) => Err(message),
    }
}

/// The local page that reports a lost connection and retries.
pub const OFFLINE_PAGE: &'static str = "index.html?offline=1";

/// The local page that reports a lost connection and retries.
pub fn offline_page(platform: Platform) -> (r: PageUrl)
    ensures
        parsed_url(local_address(platform, OFFLINE_PAGE@)) == Ok::<UrlView, Seq<char>>(r@),
        local_page(r@),
        navigation_allowed(r@),
{
    proof {
        reveal_strlit("index.html?offline=1");
        reveal_strlit("tauri");
        reveal_strlit("http");
        reveal_strlit("://");
        reveal_strlit("localhost");
        reveal_strlit("tauri.localhost");
        reveal_strlit("/");
        assert(local_address(platform, OFFLINE_PAGE@).len() <= SAFE_URL_LEN);
    }
    match try_local_app_url(platform, OFFLINE_PAGE) {
        Ok(page) => page,
        Err(_) => unreached(),
    }
}

/// Where the main window may navigate: remote sites over http or https, and the
/// pages that ship with the application.
pub open spec fn navigation_allowed(url: UrlView) -> bool {
    ||| url.scheme == "http"@
    ||| url.scheme == "https"@
    ||| local_page(url)
}

fn host_is(url: &PageUrl, expected: &str) -> (r: bool)
    ensures
        r == (url@.host == Some(expected@)),
{
    match &url.host {
        Some(host) => same_text(host, expected),
        None => false,
    }
}

/// Whether the main window may navigate to a page.
pub fn on_navigation(url: &PageUrl) -> (r: bool)
    ensures
        r == navigation_allowed(url@),
{
    if same_text(&url.scheme, "http") || same_text(&url.scheme, "https") {
        return true;
    }
    (same_text(&url.scheme, "tauri") && host_is(url, "localhost")) || (same_text(
        &url.scheme,
        "http",
    ) && host_is(url, "tauri.localhost"))
}

/// Pages of the schemes `data`, `file` and `javascript` are never navigated to,
/// whatever their host.
pub proof fn law_no_navigation_to_active_content(url: UrlView)
    requires
        url.scheme == "data"@ || url.scheme == "file"@ || url.scheme == "javascript"@,
    ensures
        !navigation_allowed(url),
{
    reveal_strlit("data");
    reveal_strlit("file");
    reveal_strlit("javascript");
    reveal_strlit("http");
    reveal_strlit("https");
    reveal_strlit("tauri");
    assert(url.scheme[0] != 'h' && url.scheme[0] != 't');
    assert("http"@[0] == 'h' && "https"@[0] == 'h' && "tauri"@[0] == 't');
}

/// What becomes of a link that the calling page asks to open outside: the link
/// to hand to the system browser, or the answer to the caller. `parsed` is what
/// the URL parser makes of the link.
pub open spec fn external_link(
    caller: Result<UrlView, Seq<char>>,
    link: Seq<char>,
    parsed: Result<UrlView, Seq<char>>,
) -> Result<Seq<char>, Seq<char>> {
    match origin_verdict(caller) {
        Err(refusal) => Err(refusal),
        Ok(_) => link_verdict(link, parsed),
    }
}

/// What becomes of a link for a caller that may ask.
pub open spec fn link_verdict(
    link: Seq<char>,
    parsed: Result<UrlView, Seq<char>>,
) -> Result<Seq<char>, Seq<char>> {
    match parsed {
        Err(detail) => Err(Failure::InvalidUrl.text(detail)),
        Ok(url) => if url.scheme == "http"@ || url.scheme == "https"@ {
            Ok(link)
        } else {
            Err("不允许的协议: "@ + url.scheme)
        },
    }
}

/// Decides on a link once the URL parser has read it, for a caller that may ask.
pub fn external_target(link: String, parsed: Result<PageUrl, String>) -> (r: Result<String, String>)
    ensures
        text_outcome(r) == link_verdict(link@, url_outcome(parsed)),
        text_outcome(r) == (match url_outcome(parsed) {
            Err(detail) => Err(Failure::InvalidUrl.text(detail)),
            Ok(url) => if url.scheme == "http"@ || url.scheme == "https"@ {
                Ok(link@)
            } else {
                Err("不允许的协议: "@ + url.scheme)
            },
        }),
{
    match parsed {
        Err(detail) => Err(Failure::InvalidUrl.report(&detail)),
        Ok(url) => {
            if same_text(&url.scheme, "http") || same_text(&url.scheme, "https") {
                Ok(link)
            } else {
                Err(join2("不允许的协议: ", &url.scheme))
            }
        },
    }
}

/// The link to hand to the system browser for a page that asks to open `url`
/// outside the application: only http and https links leave it, as they are.
pub fn open_external(caller: &Result<PageUrl, String>, url: String) -> (r: Result<String, String>)
    requires
        url@.len() <= MAX_URL_LEN,
    ensures
        text_outcome(r) == external_link(url_outcome(*caller), url@, parsed_url(url@)),
{
    match ensure_deepseek_origin(caller) {
        Err(refusal) => Err(refusal),
        Ok(_) => {
            let parsed = parse_url(&url);
            external_target(url, parsed)
        },
    }
}

/// Whatever leaves the application is the very link that a trusted page asked
/// for, and it goes to http or https.
pub proof fn law_only_web_links_leave(
    caller: Result<UrlView, Seq<char>>,
    link: Seq<char>,
    parsed: Result<UrlView, Seq<char>>,
)
    ensures
        external_link(caller, link, parsed) matches Ok(opened) ==> {
            &&& opened == link
            &&& caller matches Ok(page)
            &&& trusted_page(page)
            &&& parsed matches Ok(url)
            &&& url.scheme == "http"@ || url.scheme == "https"@
        },
{
}

/// Every page over http or https may be navigated to, whatever its host; of all
/// other pages only those of the scheme tauri on localhost may.
pub proof fn law_where_windows_may_go(url: UrlView)
    ensures
        url.scheme == "http"@ ==> navigation_allowed(url),
        url.scheme == "https"@ ==> navigation_allowed(url),
        url.scheme == "tauri"@ && url.host == Some("localhost"@) ==> navigation_allowed(url),
        url.scheme == "tauri"@ && url.host != Some("localhost"@) ==> !navigation_allowed(url),
        url.scheme != "http"@ && url.scheme != "https"@ && url.scheme != "tauri"@
            ==> !navigation_allowed(url),
{
    reveal_strlit("http");
    reveal_strlit("https");
    reveal_strlit("tauri");
    assert("tauri"@[0] == 't');
    assert("http"@[0] == 'h' && "https"@[0] == 'h');
}

/// The pages that ship with the application are those of the platform's own scheme
/// and host, with the path behind the slash as it is.
pub proof fn law_local_addresses(path: Seq<char>)
    ensures
        local_address(Platform::MacOs, path) == "tauri://localhost/"@ + path,
        local_address(Platform::Windows, path) == "http://tauri.localhost/"@ + path,
        local_address(Platform::Linux, path) == "http://tauri.localhost/"@ + path,
        local_scheme(Platform::MacOs) == "tauri"@,
        local_scheme(Platform::Windows) == "http"@,
        local_scheme(Platform::Linux) == "http"@,
        local_host(Platform::MacOs) == "localhost"@,
        local_host(Platform::Windows) == "tauri.localhost"@,
        local_host(Platform::Linux) == "tauri.localhost"@,
{
    reveal_strlit("tauri://localhost/");
    reveal_strlit("http://tauri.localhost/");
    reveal_strlit("tauri");
    reveal_strlit("http");
    reveal_strlit("://");
    reveal_strlit("localhost");
    reveal_strlit("tauri.localhost");
    reveal_strlit("/");
    assert("tauri"@ + "://"@ + "localhost"@ + "/"@ =~= "tauri://localhost/"@);
    assert("http"@ + "://"@ + "tauri.localhost"@ + "/"@ =~= "http://tauri.localhost/"@);
}

/// Only pages on the hosts that stand for the application count as its own.
pub proof fn law_local_pages(url: UrlView)
    ensures
        local_page(url) ==> url.host == Some("localhost"@) || url.host == Some("tauri.localhost"@),
        url.scheme == "tauri"@ ==> (local_page(url) <==> url.host == Some("localhost"@)),
        url.scheme == "http"@ ==> (local_page(url) <==> url.host == Some("tauri.localhost"@)),
        url.scheme != "tauri"@ && url.scheme != "http"@ ==> !local_page(url),
{
    reveal_strlit("http");
    reveal_strlit("tauri");
    assert("tauri"@[0] != "http"@[0]);
}

/// Every link of a trusted page to http or https leaves as it is, whatever it
/// holds; any other is answered with its scheme, and a text that is no link with
/// the parser's words. The same is decided where the parser has read the link
/// already.
pub proof fn law_links_of_trusted_pages(
    caller: Result<UrlView, Seq<char>>,
    link: Seq<char>,
    parsed: Result<UrlView, Seq<char>>,
)
    requires
        origin_verdict(caller) is Ok,
    ensures
        external_link(caller, link, parsed) == link_verdict(link, parsed),
        parsed matches Err(detail) ==> external_link(caller, link, parsed) == Err::<
            Seq<char>,
            Seq<char>,
        >("无效 URL: "@ + detail),
        parsed matches Ok(url) && url.scheme == "http"@ ==> external_link(caller, link, parsed)
            == Ok::<Seq<char>, Seq<char>>(link),
        parsed matches Ok(url) && url.scheme == "https"@ ==> external_link(caller, link, parsed)
            == Ok::<Seq<char>, Seq<char>>(link),
        parsed matches Ok(url) && url.scheme != "http"@ && url.scheme != "https"@
            ==> external_link(caller, link, parsed) == Err::<Seq<char>, Seq<char>>(
            "不允许的协议: "@ + parsed->Ok_0.scheme,
        ),
{
}

} // verus!
