//! Platforms whose webview has no cookie store that can be read in full.

use vstd::prelude::*;
use vstd::string::*;

use crate::cookies::{cookies_outcome, CookieData, CookieView};
use crate::failure::done;

verus! {

/// What a page is answered on such a platform.
pub open spec fn unsupported() -> Seq<char> {
    "当前平台不支持 HttpOnly Cookie 全量快照（full-cookie-snapshot）"@
}

/// There are no cookies to export.
pub fn dump_all_cookies() -> (r: Result<Vec<CookieData>, String>)
    ensures
        cookies_outcome(r) == Err::<Seq<CookieView>, Seq<char>>(unsupported()),
{
    Err(
        "当前平台不支持 HttpOnly Cookie 全量快照（full-cookie-snapshot）".to_owned(),
    )
}

/// No cookies can be restored.
pub fn restore_all_cookies() -> (r: Result<(), String>)
    ensures
        done(r) == Err::<(), Seq<char>>(unsupported()),
{
    Err(
        "当前平台不支持 HttpOnly Cookie 全量快照（full-cookie-snapshot）".to_owned(),
    )
}

} // verus!
