//! The second check in front of every command: which pages may call it.

use vstd::prelude::*;

use crate::failure::{done, Failure};
use crate::page_url::{url_outcome, PageUrl, UrlView};
use crate::text::{has_suffix, same_text};

verus! {

/// The host `deepseek.com` or a host below it.
pub open spec fn deepseek_host(host: Seq<char>) -> bool {
    ||| host == "deepseek.com"@
    ||| ".deepseek.com"@.is_suffix_of(host)
}

/// A page that may call commands: over https, on a host of deepseek.com.
pub open spec fn trusted_page(url: UrlView) -> bool {
    &&& url.scheme == "https"@
    &&& deepseek_host(url.host_or_empty())
}

/// What a command answers a caller before it does anything.
pub open spec fn origin_verdict(caller: Result<UrlView, Seq<char>>) -> Result<(), Seq<char>> {
    match caller {
        Err(detail) => Err(Failure::CallerUrl.text(detail)),
        Ok(url) => if url.scheme != "https"@ {
            Err("拒绝非 https 调用"@)
        } else if !deepseek_host(url.host_or_empty()) {
            Err("拒绝非 deepseek 域调用"@)
        } else {
            Ok(())
        },
    }
}

/// Refuses every caller but pages of deepseek.com over https. `caller` is the
/// address of the calling page, or why the webview could not tell it.
pub fn ensure_deepseek_origin(caller: &Result<PageUrl, String>) -> (r: Result<(), String>)
    ensures
        done(r) == origin_verdict(url_outcome(*caller)),
{
    match caller {
        Err(detail) => Err(Failure::CallerUrl.report(detail)),
        Ok(url) => {
            if !same_text(&url.scheme, "https") {
                return Err("拒绝非 https 调用".to_owned());
            }
            let host = match &url.host {
                Some(host) => host.as_str(),
                None => "",
            };
            proof {
                reveal_strlit("");
                assert(host@ =~= url@.host_or_empty());
            }
            if !same_text(host, "deepseek.com") && !has_suffix(host, ".deepseek.com") {
                return Err("拒绝非 deepseek 域调用".to_owned());
            }
            Ok(())
        },
    }
}

/// Exactly the trusted pages pass.
pub proof fn law_only_trusted_pages_pass(caller: Result<UrlView, Seq<char>>)
    ensures
        origin_verdict(caller) is Ok <==> (caller matches Ok(url) && trusted_page(url)),
{
}

/// A host whose name merely ends in the letters `deepseek.com` is none of theirs.
pub proof fn law_lookalike_hosts_are_refused(prefix: Seq<char>)
    requires
        prefix.len() > 0,
        prefix.last() != '.',
    ensures
        !deepseek_host(prefix + "deepseek.com"@),
{
    reveal_strlit("deepseek.com");
    reveal_strlit(".deepseek.com");
    let host = prefix + "deepseek.com"@;
    assert(host.len() == prefix.len() + 12);
    if ".deepseek.com"@.is_suffix_of(host) {
        let tail = host.subrange(host.len() - 13, host.len() as int);
        assert(tail[0] == prefix.last());
        assert(tail == ".deepseek.com"@);
        assert(tail[0] == '.');
    }
}

/// Every host below deepseek.com is one of theirs.
pub proof fn law_subdomains_are_accepted(label: Seq<char>)
    ensures
        deepseek_host(label + ".deepseek.com"@),
{
    let host = label + ".deepseek.com"@;
    assert(host.subrange(label.len() as int, host.len() as int) =~= ".deepseek.com"@);
}

/// What a caller is answered, from its address alone: a page over https passes if
/// its host is deepseek.com or that behind any label and a dot, and never
/// otherwise; every other caller is told why it does not.
pub proof fn law_who_may_call(caller: Result<UrlView, Seq<char>>, label: Seq<char>)
    ensures
        caller matches Err(detail) ==> origin_verdict(caller) == Err::<(), Seq<char>>(
            "获取调用方 URL 失败: "@ + detail,
        ),
        caller matches Ok(url) ==> {
            &&& url.scheme != "https"@ ==> origin_verdict(caller) == Err::<(), Seq<char>>(
                "拒绝非 https 调用"@,
            )
            &&& url.scheme == "https"@ && url.host is None ==> origin_verdict(caller) == Err::<
                (),
                Seq<char>,
            >("拒绝非 deepseek 域调用"@)
            &&& url.scheme == "https"@ && url.host == Some("deepseek.com"@) ==> origin_verdict(
                caller,
            ) is Ok
            &&& url.scheme == "https"@ && url.host == Some(label + ".deepseek.com"@)
                ==> origin_verdict(caller) is Ok
            &&& origin_verdict(caller) is Err && url.scheme == "https"@ ==> origin_verdict(caller)
                == Err::<(), Seq<char>>("拒绝非 deepseek 域调用"@)
        },
{
    reveal_strlit("deepseek.com");
    reveal_strlit(".deepseek.com");
    law_subdomains_are_accepted(label);
    assert("deepseek.com"@.len() == 12);
    assert(".deepseek.com"@.len() == 13);
    assert(!deepseek_host(Seq::empty()));
}

/// A caller that passes is a page over https whose host is deepseek.com or ends in
/// a dot and deepseek.com.
pub proof fn law_callers_are_deepseek_pages(caller: Result<UrlView, Seq<char>>)
    requires
        origin_verdict(caller) is Ok,
    ensures
        caller matches Ok(url) && url.scheme == "https"@ && (url.host matches Some(host) && (host
            == "deepseek.com"@ || exists|label: Seq<char>|
            host == #[trigger] (label + ".deepseek.com"@))),
        caller matches Ok(url) && trusted_page(url),
{
    reveal_strlit("deepseek.com");
    reveal_strlit(".deepseek.com");
    let url = caller->Ok_0;
    if url.host is None {
        assert(url.host_or_empty().len() == 0);
    }
    let host = url.host_or_empty();
    if host != "deepseek.com"@ {
        let label = host.take(host.len() - 13);
        assert(host =~= label + ".deepseek.com"@);
    }
}

/// A trusted page is one that a command answers.
pub proof fn law_trusted_pages_pass(url: UrlView)
    ensures
        trusted_page(url) <==> origin_verdict(Ok(url)) is Ok,
{
}

} // verus!
