//! The failures of outside work, and the texts that report them.

use vstd::prelude::*;

use crate::text::join2;

verus! {

/// What was being done when the work outside the crate failed.
#[derive(Debug, Clone, Copy, PartialEq, Eq, Structural)]
pub enum Failure {
    /// Asking the webview for the address of the calling page.
    CallerUrl,
    /// Reading a link as a URL.
    InvalidUrl,
    /// Handing a link to the system browser.
    OpenLink,
    /// Finding the application's data directory.
    DataDir,
    /// Creating the application's data directory.
    CreateDataDir,
    /// Reading the snapshot file.
    ReadSnapshot,
    /// Reading the decrypted snapshot as text.
    DecodeSnapshot,
    /// Reading the plain snapshot as text.
    SnapshotEncoding,
    /// Reading the new snapshot as JSON.
    SnapshotJson,
    /// Writing the temporary snapshot file.
    WriteSnapshot,
    /// Renaming the temporary snapshot file.
    RenameSnapshot,
    /// Removing the snapshot file.
    ClearSnapshot,
    /// Opening the debug log.
    OpenLog,
    /// Appending to the debug log.
    WriteLog,
    /// Encrypting with the Windows data protection API.
    DpapiEncrypt,
    /// Decrypting with the Windows data protection API.
    DpapiDecrypt,
    /// Storing the key in the Keychain.
    KeychainWrite,
    /// Reaching the native webview.
    WithWebview,
    /// Reaching the native WebView2 object.
    CoreWebView,
    /// Reaching the WebView2 interface that has a cookie manager.
    CoreWebViewInterface,
    /// Reaching the cookie manager of WebView2.
    CookieManager,
    /// Asking WebView2 for its cookies.
    GetCookies,
    /// Reading how many cookies WebView2 listed.
    CookieCount,
    /// Reading a cookie that WebView2 listed.
    ReadCookie,
    /// Reading the name of a cookie.
    CookieName,
    /// Reading the value of a cookie.
    CookieValue,
    /// Reading the domain of a cookie.
    CookieDomain,
    /// Reading the path of a cookie.
    CookiePath,
    /// Reading whether a cookie is for http only.
    CookieHttpOnly,
    /// Reading whether a cookie is for secure connections.
    CookieSecure,
    /// Reading whether a cookie is for the session.
    CookieSession,
    /// Reading when a cookie expires.
    CookieExpires,
    /// Creating the cookie of this name for WebKit.
    CreateMacCookie,
    /// The worker that exports the cookies.
    DumpTask,
    /// The worker that restores the cookies.
    RestoreTask,
    /// Creating the main window.
    CreateWindow,
}

impl Failure {
    /// The fixed part of the report, which the detail follows.
    pub open spec fn label(self) -> Seq<char> {
        match self {
            Failure::CallerUrl => "获取调用方 URL 失败: "@,
            Failure::InvalidUrl => "无效 URL: "@,
            Failure::OpenLink => "打开外部链接失败: "@,
            Failure::DataDir => "无法获取应用数据目录: "@,
            Failure::CreateDataDir => "无法创建应用数据目录: "@,
            Failure::ReadSnapshot => "读取快照失败: "@,
            Failure::DecodeSnapshot => "快照解码失败: "@,
            Failure::SnapshotEncoding => "快照编码非法: "@,
            Failure::SnapshotJson => "快照 JSON 无效: "@,
            Failure::WriteSnapshot => "写入快照失败: "@,
            Failure::RenameSnapshot => "落盘快照失败: "@,
            Failure::ClearSnapshot => "清理快照失败: "@,
            Failure::OpenLog => "打开日志失败: "@,
            Failure::WriteLog => "写日志失败: "@,
            Failure::DpapiEncrypt => "DPAPI 加密失败: "@,
            Failure::DpapiDecrypt => "DPAPI 解密失败: "@,
            Failure::KeychainWrite => "Keychain 写入失败: "@,
            Failure::WithWebview => "with_webview 失败: "@,
            Failure::CoreWebView => "获取 CoreWebView2 失败: "@,
            Failure::CoreWebViewInterface => "获取 ICoreWebView2_2 失败: "@,
            Failure::CookieManager => "获取 CookieManager 失败: "@,
            Failure::GetCookies => "GetCookies 失败: "@,
            Failure::CookieCount => "读 Cookie 数量失败: "@,
            Failure::ReadCookie => "读 Cookie 失败: "@,
            Failure::CookieName => "读 Cookie Name 失败: "@,
            Failure::CookieValue => "读 Cookie Value 失败: "@,
            Failure::CookieDomain => "读 Cookie Domain 失败: "@,
            Failure::CookiePath => "读 Cookie Path 失败: "@,
            Failure::CookieHttpOnly => "读 Cookie HttpOnly 失败: "@,
            Failure::CookieSecure => "读 Cookie Secure 失败: "@,
            Failure::CookieSession => "读 Cookie Session 失败: "@,
            Failure::CookieExpires => "读 Cookie Expires 失败: "@,
            Failure::CreateMacCookie => "创建 Cookie 失败: "@,
            Failure::DumpTask => "dump_all_cookies 任务失败: "@,
            Failure::RestoreTask => "restore_all_cookies 任务失败: "@,
            Failure::CreateWindow => "创建主窗口失败: "@,
        }
    }

    /// The whole report of this failure.
    pub open spec fn text(self, detail: Seq<char>) -> Seq<char> {
        self.label() + detail
    }

    /// The report of this failure, with what the failing work said of it.
    pub fn report(self, detail: &str) -> (r: String)
        ensures
            r@ == self.text(detail@),
    {
        let label = match self {
            Failure::CallerUrl => "获取调用方 URL 失败: ",
            Failure::InvalidUrl => "无效 URL: ",
            Failure::OpenLink => "打开外部链接失败: ",
            Failure::DataDir => "无法获取应用数据目录: ",
            Failure::CreateDataDir => "无法创建应用数据目录: ",
            Failure::ReadSnapshot => "读取快照失败: ",
            Failure::DecodeSnapshot => "快照解码失败: ",
            Failure::SnapshotEncoding => "快照编码非法: ",
            Failure::SnapshotJson => "快照 JSON 无效: ",
            Failure::WriteSnapshot => "写入快照失败: ",
            Failure::RenameSnapshot => "落盘快照失败: ",
            Failure::ClearSnapshot => "清理快照失败: ",
            Failure::OpenLog => "打开日志失败: ",
            Failure::WriteLog => "写日志失败: ",
            Failure::DpapiEncrypt => "DPAPI 加密失败: ",
            Failure::DpapiDecrypt => "DPAPI 解密失败: ",
            Failure::KeychainWrite => "Keychain 写入失败: ",
            Failure::WithWebview => "with_webview 失败: ",
            Failure::CoreWebView => "获取 CoreWebView2 失败: ",
            Failure::CoreWebViewInterface => "获取 ICoreWebView2_2 失败: ",
            Failure::CookieManager => "获取 CookieManager 失败: ",
            Failure::GetCookies => "GetCookies 失败: ",
            Failure::CookieCount => "读 Cookie 数量失败: ",
            Failure::ReadCookie => "读 Cookie 失败: ",
            Failure::CookieName => "读 Cookie Name 失败: ",
            Failure::CookieValue => "读 Cookie Value 失败: ",
            Failure::CookieDomain => "读 Cookie Domain 失败: ",
            Failure::CookiePath => "读 Cookie Path 失败: ",
            Failure::CookieHttpOnly => "读 Cookie HttpOnly 失败: ",
            Failure::CookieSecure => "读 Cookie Secure 失败: ",
            Failure::CookieSession => "读 Cookie Session 失败: ",
            Failure::CookieExpires => "读 Cookie Expires 失败: ",
            Failure::CreateMacCookie => "创建 Cookie 失败: ",
            Failure::DumpTask => "dump_all_cookies 任务失败: ",
            Failure::RestoreTask => "restore_all_cookies 任务失败: ",
            Failure::CreateWindow => "创建主窗口失败: ",
        };
        join2(label, detail)
    }

    /// The outcome of work that yields nothing, with its failure reported.
    pub fn check(self, outcome: Result<(), String>) -> (r: Result<(), String>)
        ensures
            done(r) == (match done(outcome) {
                Ok(_) => Ok::<(), Seq<char>>(()),
                Err(detail) => Err(self.text(detail)),
            }),
    {
        match outcome {
            Ok(_) => Ok(()),
            Err(detail) => Err(self.report(&detail)),
        }
    }
}

/// What an outcome without a value says, as a mathematical value.
pub open spec fn done(outcome: Result<(), String>) -> Result<(), Seq<char>> {
    match outcome {
        Ok(_) => Ok(()),
        Err(message) => Err(message@),
    }
}

/// What an outcome with a text says, as a mathematical value.
pub open spec fn text_outcome(outcome: Result<String, String>) -> Result<Seq<char>, Seq<char>> {
    match outcome {
        Ok(text) => Ok(text@),
        Err(message) => Err(message@),
    }
}

/// What an outcome with bytes says, as a mathematical value.
pub open spec fn bytes_outcome(outcome: Result<Vec<u8>, String>) -> Result<Seq<u8>, Seq<char>> {
    match outcome {
        Ok(bytes) => Ok(bytes@),
        Err(message) => Err(message@),
    }
}

/// Each failure is reported in its own words, with all that was said of it behind
/// them.
pub proof fn law_reports_keep_the_detail(detail: Seq<char>)
    ensures
        Failure::CallerUrl.text(detail) == "获取调用方 URL 失败: "@ + detail,
        Failure::InvalidUrl.text(detail) == "无效 URL: "@ + detail,
        Failure::OpenLink.text(detail) == "打开外部链接失败: "@ + detail,
        Failure::DataDir.text(detail) == "无法获取应用数据目录: "@ + detail,
        Failure::CreateDataDir.text(detail) == "无法创建应用数据目录: "@ + detail,
        Failure::ReadSnapshot.text(detail) == "读取快照失败: "@ + detail,
        Failure::DecodeSnapshot.text(detail) == "快照解码失败: "@ + detail,
        Failure::SnapshotEncoding.text(detail) == "快照编码非法: "@ + detail,
        Failure::SnapshotJson.text(detail) == "快照 JSON 无效: "@ + detail,
        Failure::WriteSnapshot.text(detail) == "写入快照失败: "@ + detail,
        Failure::RenameSnapshot.text(detail) == "落盘快照失败: "@ + detail,
        Failure::ClearSnapshot.text(detail) == "清理快照失败: "@ + detail,
        Failure::OpenLog.text(detail) == "打开日志失败: "@ + detail,
        Failure::WriteLog.text(detail) == "写日志失败: "@ + detail,
        Failure::DpapiEncrypt.text(detail) == "DPAPI 加密失败: "@ + detail,
        Failure::DpapiDecrypt.text(detail) == "DPAPI 解密失败: "@ + detail,
        Failure::KeychainWrite.text(detail) == "Keychain 写入失败: "@ + detail,
        Failure::WithWebview.text(detail) == "with_webview 失败: "@ + detail,
        Failure::CoreWebView.text(detail) == "获取 CoreWebView2 失败: "@ + detail,
        Failure::CoreWebViewInterface.text(detail) == "获取 ICoreWebView2_2 失败: "@ + detail,
        Failure::CookieManager.text(detail) == "获取 CookieManager 失败: "@ + detail,
        Failure::GetCookies.text(detail) == "GetCookies 失败: "@ + detail,
        Failure::CookieCount.text(detail) == "读 Cookie 数量失败: "@ + detail,
        Failure::ReadCookie.text(detail) == "读 Cookie 失败: "@ + detail,
        Failure::CookieName.text(detail) == "读 Cookie Name 失败: "@ + detail,
        Failure::CookieValue.text(detail) == "读 Cookie Value 失败: "@ + detail,
        Failure::CookieDomain.text(detail) == "读 Cookie Domain 失败: "@ + detail,
        Failure::CookiePath.text(detail) == "读 Cookie Path 失败: "@ + detail,
        Failure::CookieHttpOnly.text(detail) == "读 Cookie HttpOnly 失败: "@ + detail,
        Failure::CookieSecure.text(detail) == "读 Cookie Secure 失败: "@ + detail,
        Failure::CookieSession.text(detail) == "读 Cookie Session 失败: "@ + detail,
        Failure::CookieExpires.text(detail) == "读 Cookie Expires 失败: "@ + detail,
        Failure::CreateMacCookie.text(detail) == "创建 Cookie 失败: "@ + detail,
        Failure::DumpTask.text(detail) == "dump_all_cookies 任务失败: "@ + detail,
        Failure::RestoreTask.text(detail) == "restore_all_cookies 任务失败: "@ + detail,
        Failure::CreateWindow.text(detail) == "创建主窗口失败: "@ + detail,
{
}

/// Outcomes say what they hold, and a failure says its message.
pub proof fn law_outcomes_say_what_they_hold(
    nothing: Result<(), String>,
    text: Result<String, String>,
    bytes: Result<Vec<u8>, String>,
)
    ensures
        nothing is Ok ==> done(nothing) == Ok::<(), Seq<char>>(()),
        nothing matches Err(m) ==> done(nothing) == Err::<(), Seq<char>>(m@),
        text matches Ok(t) ==> text_outcome(text) == Ok::<Seq<char>, Seq<char>>(t@),
        text matches Err(m) ==> text_outcome(text) == Err::<Seq<char>, Seq<char>>(m@),
        bytes matches Ok(b) ==> bytes_outcome(bytes) == Ok::<Seq<u8>, Seq<char>>(b@),
        bytes matches Err(m) ==> bytes_outcome(bytes) == Err::<Seq<u8>, Seq<char>>(m@),
{
}

} // verus!
