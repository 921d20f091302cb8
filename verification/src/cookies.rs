//! Full cookie snapshots, HttpOnly cookies included, through the native stores of
//! WebView2 and WebKit.

use vstd::prelude::*;
use vstd::string::*;

use crate::failure::{done, Failure};
use crate::origin::{ensure_deepseek_origin, origin_verdict};
use crate::page_url::{url_outcome, PageUrl, UrlView};

pub mod mac;
pub mod other;
pub mod recovery;
pub mod webkit_recovery;
pub mod win;

verus! {

/// A cookie with all that the native stores tell of it.
#[derive(Debug, Clone)]
pub struct CookieData {
    pub name: String,
    pub value: String,
    pub domain: String,
    pub path: String,
    pub http_only: bool,
    pub secure: bool,
    /// A cookie for this session only.
    pub session: bool,
    /// When the cookie expires, in seconds since 1970: the bits of a 64-bit
    /// floating-point number. 0 for a session cookie.
    pub expires_bits: u64,
}

/// A [`CookieData`] as a mathematical value.
pub struct CookieView {
    pub name: Seq<char>,
    pub value: Seq<char>,
    pub domain: Seq<char>,
    pub path: Seq<char>,
    pub http_only: bool,
    pub secure: bool,
    pub session: bool,
    pub expires_bits: u64,
}

impl View for CookieData {
    type V = CookieView;

    open spec fn view(&self) -> CookieView {
        CookieView {
            name: self.name@,
            value: self.value@,
            domain: self.domain@,
            path: self.path@,
            http_only: self.http_only,
            secure: self.secure,
            session: self.session,
            expires_bits: self.expires_bits,
        }
    }
}

/// The bits of the floating-point infinity, the largest of the positive numbers.
pub const INFINITY_BITS: u64 = 0x7ff0_0000_0000_0000;

/// That the bits are those of a floating-point number above zero: those of
/// negative numbers come after them, and those that are no numbers as well.
pub open spec fn positive(bits: u64) -> bool {
    0 < bits <= INFINITY_BITS
}

/// Whether the bits are those of a floating-point number above zero.
pub fn is_positive(bits: u64) -> (r: bool)
    ensures
        r == positive(bits),
{
    0 < bits && bits <= INFINITY_BITS
}

/// Cookies as mathematical values.
pub open spec fn cookie_views(cookies: Seq<CookieData>) -> Seq<CookieView> {
    cookies.map_values(|cookie: CookieData| cookie@)
}

/// The outcome of an export, as a mathematical value.
pub open spec fn cookies_outcome(outcome: Result<Vec<CookieData>, String>) -> Result<
    Seq<CookieView>,
    Seq<char>,
> {
    match outcome {
        Ok(cookies) => Ok(cookie_views(cookies@)),
        Err(message) => Err(message@),
    }
}

/// What the platform answered to an export.
#[derive(Debug)]
pub enum DumpAnswer {
    Windows(win::DumpReply),
    MacOs(mac::DumpReply),
    /// The platform has no such store.
    Unsupported,
    /// The worker that asks the platform was lost, for this reason.
    TaskFailed(String),
}

/// What an export comes to.
pub open spec fn dump_verdict(caller: Result<UrlView, Seq<char>>, answer: DumpAnswer) -> Result<
    Seq<CookieView>,
    Seq<char>,
> {
    match origin_verdict(caller) {
        Err(refusal) => Err(refusal),
        Ok(_) => match answer {
            DumpAnswer::Windows(reply) => win::dumped(reply),
            DumpAnswer::MacOs(reply) => mac::dumped(reply),
            DumpAnswer::Unsupported => Err(other::unsupported()),
            DumpAnswer::TaskFailed(detail) => Err(Failure::DumpTask.text(detail@)),
        },
    }
}

/// All cookies of the webview, for a page that asks for them.
pub fn dump_all_cookies(caller: &Result<PageUrl, String>, answer: DumpAnswer) -> (r: Result<
    Vec<CookieData>,
    String,
>)
    ensures
        cookies_outcome(r) == dump_verdict(url_outcome(*caller), answer),
{
    match ensure_deepseek_origin(caller) {
        Err(refusal) => Err(refusal),
        Ok(_) => match answer {
            DumpAnswer::Windows(reply) => win::dump_all_cookies(reply),
            DumpAnswer::MacOs(reply) => mac::dump_all_cookies(reply),
            DumpAnswer::Unsupported => other::dump_all_cookies(),
            DumpAnswer::TaskFailed(detail) => Err(Failure::DumpTask.report(&detail)),
        },
    }
}

/// How many of `total` cookies a run is through with after the next one ended well
/// or not; a failure ends the run.
pub open spec fn next_position(position: nat, total: nat, ok: bool) -> nat {
    if ok {
        position + 1
    } else {
        total
    }
}

/// The cookies that a run puts into the store from `position` on, when the cookies
/// that it comes to end well or not.
pub open spec fn handed_over(
    cookies: Seq<CookieView>,
    position: nat,
    ended_well: Seq<bool>,
) -> Seq<CookieView>
    decreases ended_well.len(),
{
    if ended_well.len() == 0 || position >= cookies.len() {
        Seq::empty()
    } else {
        (if ended_well[0] {
            seq![cookies[position as int]]
        } else {
            Seq::empty()
        }) + handed_over(
            cookies,
            next_position(position, cookies.len(), ended_well[0]),
            ended_well.drop_first(),
        )
    }
}

proof fn lemma_handed_over(
    cookies: Seq<CookieView>,
    position: nat,
    ended_well: Seq<bool>,
    count: nat,
)
    requires
        position + count <= cookies.len(),
        count <= ended_well.len(),
        forall|i: int| 0 <= i < count ==> #[trigger] ended_well[i],
        count < ended_well.len() && position + count < cookies.len() ==> !ended_well[count as int],
    ensures
        handed_over(cookies, position, ended_well) == cookies.subrange(
            position as int,
            (position + count) as int,
        ),
    decreases count,
{
    if count > 0 {
        let rest = ended_well.drop_first();
        assert(ended_well[0]);
        assert forall|i: int| 0 <= i < count - 1 implies #[trigger] rest[i] by {
            assert(ended_well[i + 1]);
        }
        lemma_handed_over(cookies, position + 1, rest, (count - 1) as nat);
        assert(cookies.subrange(position as int, (position + count) as int) =~= seq![
            cookies[position as int],
        ] + cookies.subrange((position + 1) as int, (position + count) as int));
    } else {
        assert(cookies.subrange(position as int, position as int) =~= Seq::empty());
        if ended_well.len() > 0 && position < cookies.len() {
            assert(handed_over(cookies, cookies.len(), ended_well.drop_first()) =~= Seq::empty());
        }
    }
}

/// A run stops at the first cookie that does not end well: it has put those before
/// it into the store, in their order, and puts none from there on, whatever is
/// said of later ones. Nothing is taken back.
pub proof fn law_runs_stop_at_the_first_failure(
    cookies: Seq<CookieView>,
    ended_well: Seq<bool>,
    first: nat,
)
    requires
        first < cookies.len(),
        first < ended_well.len(),
        forall|i: int| 0 <= i < first ==> #[trigger] ended_well[i],
        !ended_well[first as int],
    ensures
        handed_over(cookies, 0, ended_well) == cookies.take(first as int),
{
    lemma_handed_over(cookies, 0, ended_well, first);
}

/// A run whose cookies all end well puts every cookie into the store, in their
/// order.
pub proof fn law_runs_go_through_every_cookie(cookies: Seq<CookieView>, ended_well: Seq<bool>)
    requires
        ended_well.len() == cookies.len(),
        forall|i: int| 0 <= i < ended_well.len() ==> #[trigger] ended_well[i],
    ensures
        handed_over(cookies, 0, ended_well) == cookies,
{
    lemma_handed_over(cookies, 0, ended_well, cookies.len());
    assert(cookies.subrange(0, cookies.len() as int) =~= cookies);
}

/// What the platform answered to a restoration.
#[derive(Debug)]
pub enum RestoreAnswer {
    Windows(win::RestoreReply),
    MacOs(mac::RestoreReply),
    /// The platform has no such store.
    Unsupported,
    /// The worker that asks the platform was lost, for this reason.
    TaskFailed(String),
}

/// What a restoration comes to.
pub open spec fn restore_verdict(
    caller: Result<UrlView, Seq<char>>,
    answer: RestoreAnswer,
) -> Result<(), Seq<char>> {
    match origin_verdict(caller) {
        Err(refusal) => Err(refusal),
        Ok(_) => match answer {
            RestoreAnswer::Windows(reply) => win::restored(reply),
            RestoreAnswer::MacOs(reply) => mac::restored(reply),
            RestoreAnswer::Unsupported => Err(other::unsupported()),
            RestoreAnswer::TaskFailed(detail) => Err(Failure::RestoreTask.text(detail@)),
        },
    }
}

/// Whether the cookies that a page hands in are all in the webview again.
pub fn restore_all_cookies(caller: &Result<PageUrl, String>, answer: RestoreAnswer) -> (r: Result<
    (),
    String,
>)
    ensures
        done(r) == restore_verdict(url_outcome(*caller), answer),
{
    match ensure_deepseek_origin(caller) {
        Err(refusal) => Err(refusal),
        Ok(_) => match answer {
            RestoreAnswer::Windows(reply) => win::restore_all_cookies(reply),
            RestoreAnswer::MacOs(reply) => mac::restore_all_cookies(reply),
            RestoreAnswer::Unsupported => other::restore_all_cookies(),
            RestoreAnswer::TaskFailed(detail) => Err(Failure::RestoreTask.report(&detail)),
        },
    }
}

/// A caller that does not pass the origin check neither gets nor sets cookies.
pub proof fn law_strangers_get_no_cookies(
    caller: Result<UrlView, Seq<char>>,
    refusal: Seq<char>,
    dump: DumpAnswer,
    restore: RestoreAnswer,
)
    requires
        origin_verdict(caller) == Err::<(), Seq<char>>(refusal),
    ensures
        dump_verdict(caller, dump) == Err::<Seq<CookieView>, Seq<char>>(refusal),
        restore_verdict(caller, restore) == Err::<(), Seq<char>>(refusal),
{
}

/// The bits of a number above zero are those without a sign, other than those of
/// zero, up to the infinity: a larger exponent or fraction is no number.
pub proof fn law_positive_numbers(bits: u64)
    ensures
        bits == 0 ==> !positive(bits),
        bits & 0x8000_0000_0000_0000 != 0 ==> !positive(bits),
        bits & 0x7ff0_0000_0000_0000 == 0x7ff0_0000_0000_0000 && bits & 0x000f_ffff_ffff_ffff != 0
            ==> !positive(bits),
        bits != 0 && bits & 0x8000_0000_0000_0000 == 0 && bits & 0x7ff0_0000_0000_0000
            != 0x7ff0_0000_0000_0000 ==> positive(bits),
        positive(0x7ff0_0000_0000_0000),
{
    assert(bits & 0x8000_0000_0000_0000 != 0 ==> bits > 0x7ff0_0000_0000_0000u64) by (bit_vector);
    assert(bits & 0x7ff0_0000_0000_0000 == 0x7ff0_0000_0000_0000 && bits & 0x000f_ffff_ffff_ffff
        != 0 ==> bits > 0x7ff0_0000_0000_0000u64) by (bit_vector);
    assert(bits & 0x8000_0000_0000_0000 == 0 && bits & 0x7ff0_0000_0000_0000
        != 0x7ff0_0000_0000_0000 ==> bits <= 0x7ff0_0000_0000_0000u64) by (bit_vector);
}

/// A cookie says all that it holds, and a list of cookies says each of them in its
/// place.
pub proof fn law_cookies_say_what_they_hold(cookie: CookieData, cookies: Vec<CookieData>, at: int)
    requires
        0 <= at < cookies@.len(),
    ensures
        cookie@.name == cookie.name@,
        cookie@.value == cookie.value@,
        cookie@.domain == cookie.domain@,
        cookie@.path == cookie.path@,
        cookie@.http_only == cookie.http_only,
        cookie@.secure == cookie.secure,
        cookie@.session == cookie.session,
        cookie@.expires_bits == cookie.expires_bits,
        cookie_views(cookies@).len() == cookies@.len(),
        cookie_views(cookies@)[at] == cookies@[at]@,
{
}

/// An outcome of an export says its cookies or its message.
pub proof fn law_exports_say_what_they_hold(outcome: Result<Vec<CookieData>, String>)
    ensures
        outcome matches Ok(cookies) ==> (cookies_outcome(outcome) matches Ok(views) && views.len()
            == outcome->Ok_0@.len() && forall|i: int|
            0 <= i < views.len() ==> #[trigger] views[i] == outcome->Ok_0@[i]@),
        outcome matches Err(m) ==> cookies_outcome(outcome) == Err::<Seq<CookieView>, Seq<char>>(
            m@,
        ),
{
}

/// A trusted page is told every cookie that WebView2 lists, where all of them can be
/// read: as many, the `at`-th of them from the `at`-th of the list, each with the
/// name, value, domain, path and flags that WebView2 gave, and with its expiry unless
/// it is for the session.
pub proof fn law_trusted_pages_get_every_webview2_cookie(
    caller: Result<UrlView, Seq<char>>,
    items: Vec<Result<win::RawCookie, String>>,
    at: int,
)
    requires
        origin_verdict(caller) is Ok,
        forall|i: int|
            0 <= i < items@.len() ==> (#[trigger] items@[i] matches Ok(raw) && raw.name is Ok
                && raw.value is Ok && raw.domain is Ok && raw.path is Ok && raw.http_only is Ok
                && raw.secure is Ok && raw.session is Ok && raw.expires_bits is Ok),
    ensures
        dump_verdict(caller, DumpAnswer::Windows(win::DumpReply::Listed(items))) matches Ok(told)
            && told.len() == items@.len() && (0 <= at < items@.len() ==> {
            let raw = items@[at]->Ok_0;
            &&& raw.name->Ok_0 matches Some(text) ==> told[at].name == text@
            &&& raw.name->Ok_0 is None ==> told[at].name.len() == 0
            &&& raw.value->Ok_0 matches Some(text) ==> told[at].value == text@
            &&& raw.value->Ok_0 is None ==> told[at].value.len() == 0
            &&& raw.domain->Ok_0 matches Some(text) ==> told[at].domain == text@
            &&& raw.domain->Ok_0 is None ==> told[at].domain.len() == 0
            &&& raw.path->Ok_0 matches Some(text) ==> told[at].path == text@
            &&& raw.path->Ok_0 is None ==> told[at].path.len() == 0
            &&& told[at].http_only == raw.http_only->Ok_0
            &&& told[at].secure == raw.secure->Ok_0
            &&& told[at].session == raw.session->Ok_0
            &&& raw.session->Ok_0 ==> told[at].expires_bits == 0
            &&& !raw.session->Ok_0 ==> told[at].expires_bits == raw.expires_bits->Ok_0
        }),
{
    win::law_exports_are_complete(items@);
    assert forall|i: int| 0 <= i < items@.len() implies (#[trigger] items@[i] matches Ok(raw)
        && win::read_cookie(raw) is Ok) by {}
    if 0 <= at < items@.len() {
        assert(items@[at] is Ok);
    }
}

/// A trusted page is told every cookie that WebKit lists: as many, the `at`-th of
/// them from the `at`-th of the list, each with the name, value, domain, path and
/// flags that WebKit gave, and with its expiry unless it has none or is for the
/// session.
pub proof fn law_trusted_pages_get_every_webkit_cookie(
    caller: Result<UrlView, Seq<char>>,
    list: Vec<mac::RawCookie>,
    at: int,
)
    requires
        origin_verdict(caller) is Ok,
    ensures
        dump_verdict(caller, DumpAnswer::MacOs(mac::DumpReply::Listed(list))) matches Ok(told)
            && told.len() == list@.len() && (0 <= at < list@.len() ==> {
            let raw = list@[at];
            &&& told[at].name == raw.name@
            &&& told[at].value == raw.value@
            &&& told[at].domain == raw.domain@
            &&& told[at].path == raw.path@
            &&& told[at].http_only == raw.http_only
            &&& told[at].secure == raw.secure
            &&& told[at].session == raw.session
            &&& raw.session || raw.expires_bits is None ==> told[at].expires_bits == 0
            &&& !raw.session ==> (raw.expires_bits matches Some(bits) ==> told[at].expires_bits
                == bits)
        }),
{
}

/// What a trusted page is answered to an export that did not list the cookies, on
/// every platform: the reason, in the words of the step that failed.
pub proof fn law_failed_exports_are_answered(
    caller: Result<UrlView, Seq<char>>,
    failure: Failure,
    detail: String,
)
    requires
        origin_verdict(caller) is Ok,
    ensures
        dump_verdict(caller, DumpAnswer::Windows(win::DumpReply::Failed(failure, detail))) == Err::<
            Seq<CookieView>,
            Seq<char>,
        >(failure.text(detail@)),
        dump_verdict(caller, DumpAnswer::MacOs(mac::DumpReply::Failed(failure, detail))) == Err::<
            Seq<CookieView>,
            Seq<char>,
        >(failure.text(detail@)),
        dump_verdict(caller, DumpAnswer::Windows(win::DumpReply::TimedOut)) == Err::<
            Seq<CookieView>,
            Seq<char>,
        >("获取 Cookie 超时"@),
        dump_verdict(caller, DumpAnswer::MacOs(mac::DumpReply::TimedOut)) == Err::<
            Seq<CookieView>,
            Seq<char>,
        >("获取 Cookie 超时"@),
        dump_verdict(caller, DumpAnswer::Unsupported) == Err::<Seq<CookieView>, Seq<char>>(
            "当前平台不支持 HttpOnly Cookie 全量快照（full-cookie-snapshot）"@,
        ),
        dump_verdict(caller, DumpAnswer::TaskFailed(detail)) == Err::<Seq<CookieView>, Seq<char>>(
            "dump_all_cookies 任务失败: "@ + detail@,
        ),
{
}

/// A trusted page that asks for the cookies while one of those that WebView2 lists
/// cannot be read is answered the first such failure, and gets none of them.
pub proof fn law_unreadable_cookies_are_answered(
    caller: Result<UrlView, Seq<char>>,
    items: Vec<Result<win::RawCookie, String>>,
    first: int,
)
    requires
        origin_verdict(caller) is Ok,
        0 <= first < items@.len(),
        forall|i: int|
            0 <= i < first ==> (#[trigger] items@[i] matches Ok(raw) && win::read_cookie(raw)
                is Ok),
        !(items@[first] matches Ok(raw) && win::read_cookie(raw) is Ok),
    ensures
        items@[first] matches Err(detail) ==> dump_verdict(
            caller,
            DumpAnswer::Windows(win::DumpReply::Listed(items)),
        ) == Err::<Seq<CookieView>, Seq<char>>("读 Cookie 失败: "@ + detail@),
        items@[first] matches Ok(raw) ==> (win::read_cookie(raw) matches Err(m) && dump_verdict(
            caller,
            DumpAnswer::Windows(win::DumpReply::Listed(items)),
        ) == Err::<Seq<CookieView>, Seq<char>>(m)),
{
    let upto = items@.take(first + 1);
    let before = items@.take(first);
    win::law_exports_are_complete(before);
    assert(forall|i: int| 0 <= i < first ==> #[trigger] before[i] == items@[i]);
    assert(upto.drop_last() =~= before);
    assert(upto.last() == items@[first]);
    win::lemma_read_list_fails(items@, first + 1);
}

/// A trusted page hears that the cookies are back if and only if the platform's run
/// or wait ended well, on Windows and on macOS alike; where it did not, the page
/// hears why.
pub proof fn law_trusted_pages_hear_how_it_ended(
    caller: Result<UrlView, Seq<char>>,
    ended: Result<(), String>,
    failure: Failure,
    detail: String,
)
    requires
        origin_verdict(caller) is Ok,
    ensures
        ended is Ok ==> {
            &&& restore_verdict(caller, RestoreAnswer::Windows(win::RestoreReply::Finished(ended)))
                == Ok::<(), Seq<char>>(())
            &&& restore_verdict(caller, RestoreAnswer::MacOs(mac::RestoreReply::Finished(ended)))
                == Ok::<(), Seq<char>>(())
        },
        ended matches Err(m) ==> {
            &&& restore_verdict(caller, RestoreAnswer::Windows(win::RestoreReply::Finished(ended)))
                == Err::<(), Seq<char>>(m@)
            &&& restore_verdict(caller, RestoreAnswer::MacOs(mac::RestoreReply::Finished(ended)))
                == Err::<(), Seq<char>>(m@)
        },
        restore_verdict(caller, RestoreAnswer::Windows(win::RestoreReply::Failed(failure, detail)))
            == Err::<(), Seq<char>>(failure.text(detail@)),
        restore_verdict(caller, RestoreAnswer::MacOs(mac::RestoreReply::Failed(failure, detail)))
            == Err::<(), Seq<char>>(failure.text(detail@)),
        restore_verdict(caller, RestoreAnswer::Windows(win::RestoreReply::TimedOut)) == Err::<
            (),
            Seq<char>,
        >("写入 Cookie 超时"@),
        restore_verdict(caller, RestoreAnswer::Unsupported) == Err::<(), Seq<char>>(
            "当前平台不支持 HttpOnly Cookie 全量快照（full-cookie-snapshot）"@,
        ),
        restore_verdict(caller, RestoreAnswer::TaskFailed(detail)) == Err::<(), Seq<char>>(
            "restore_all_cookies 任务失败: "@ + detail@,
        ),
{
}

/// What the commands answer a trusted page is what the platform's own part answers.
pub proof fn law_commands_pass_the_platform_on(
    caller: Result<UrlView, Seq<char>>,
    win_dump: win::DumpReply,
    mac_dump: mac::DumpReply,
    win_restore: win::RestoreReply,
    mac_restore: mac::RestoreReply,
)
    requires
        origin_verdict(caller) is Ok,
    ensures
        dump_verdict(caller, DumpAnswer::Windows(win_dump)) == win::dumped(win_dump),
        dump_verdict(caller, DumpAnswer::MacOs(mac_dump)) == mac::dumped(mac_dump),
        restore_verdict(caller, RestoreAnswer::Windows(win_restore)) == win::restored(win_restore),
        restore_verdict(caller, RestoreAnswer::MacOs(mac_restore)) == mac::restored(mac_restore),
{
}

/// A run goes on by one cookie after one that ended well, and is over after one that
/// did not.
pub proof fn law_runs_go_on_by_one(position: nat, total: nat)
    ensures
        next_position(position, total, true) == position + 1,
        next_position(position, total, false) == total,
{
}

} // verus!
