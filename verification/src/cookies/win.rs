//! Cookies of WebView2, through its cookie manager.

use vstd::prelude::*;
use vstd::string::*;

use crate::cookies::{
    cookie_views, cookies_outcome, is_positive, next_position, positive, CookieData, CookieView,
};
use crate::failure::{done, Failure};
use crate::text::join2;

verus! {

/// What reading the properties of a cookie came to, one by one. A text is absent
/// where WebView2 gave a null pointer or no valid text.
#[derive(Debug)]
pub struct RawCookie {
    pub name: Result<Option<String>, String>,
    pub value: Result<Option<String>, String>,
    pub domain: Result<Option<String>, String>,
    pub path: Result<Option<String>, String>,
    pub http_only: Result<bool, String>,
    pub secure: Result<bool, String>,
    pub session: Result<bool, String>,
    pub expires_bits: Result<u64, String>,
}

/// A text from WebView2, or nothing where it is absent.
pub open spec fn text_or_empty(text: Option<String>) -> Seq<char> {
    match text {
        Some(text) => text@,
        None => Seq::empty(),
    }
}

/// A text from WebView2, or nothing where it is absent.
pub fn pwstr(text: &Option<String>) -> (r: String)
    ensures
        r@ == text_or_empty(*text),
{
    match text {
        Some(text) => text.clone(),
        None => String::new(),
    }
}

/// The cookie that the properties describe, or the failure of the first property,
/// in their order, that could not be read. What WebView2 gives as the expiry of a
/// session cookie does not count.
pub open spec fn read_cookie(raw: RawCookie) -> Result<CookieView, Seq<char>> {
    if let Err(e) = raw.name {
        Err(Failure::CookieName.text(e@))
    } else if let Err(e) = raw.value {
        Err(Failure::CookieValue.text(e@))
    } else if let Err(e) = raw.domain {
        Err(Failure::CookieDomain.text(e@))
    } else if let Err(e) = raw.path {
        Err(Failure::CookiePath.text(e@))
    } else if let Err(e) = raw.http_only {
        Err(Failure::CookieHttpOnly.text(e@))
    } else if let Err(e) = raw.secure {
        Err(Failure::CookieSecure.text(e@))
    } else if let Err(e) = raw.session {
        Err(Failure::CookieSession.text(e@))
    } else if let Err(e) = raw.expires_bits {
        Err(Failure::CookieExpires.text(e@))
    } else {
        Ok(
            CookieView {
                name: text_or_empty(raw.name->Ok_0),
                value: text_or_empty(raw.value->Ok_0),
                domain: text_or_empty(raw.domain->Ok_0),
                path: text_or_empty(raw.path->Ok_0),
                http_only: raw.http_only->Ok_0,
                secure: raw.secure->Ok_0,
                session: raw.session->Ok_0,
                expires_bits: if raw.session->Ok_0 {
                    0
                } else {
                    raw.expires_bits->Ok_0
                },
            },
        )
    }
}

/// The cookie that the properties describe.
pub fn cookie_to_data(raw: &RawCookie) -> (r: Result<CookieData, String>)
    ensures
        (match r {
            Ok(cookie) => Ok(cookie@),
            Err(message) => Err(message@),
        }) == read_cookie(*raw),
{
    let name = match &raw.name {
        Err(e) => return Err(Failure::CookieName.report(e)),
        Ok(text) => pwstr(text),
    };
    let value = match &raw.value {
        Err(e) => return Err(Failure::CookieValue.report(e)),
        Ok(text) => pwstr(text),
    };
    let domain = match &raw.domain {
        Err(e) => return Err(Failure::CookieDomain.report(e)),
        Ok(text) => pwstr(text),
    };
    let path = match &raw.path {
        Err(e) => return Err(Failure::CookiePath.report(e)),
        Ok(text) => pwstr(text),
    };
    let http_only = match &raw.http_only {
        Err(e) => return Err(Failure::CookieHttpOnly.report(e)),
        Ok(flag) => *flag,
    };
    let secure = match &raw.secure {
        Err(e) => return Err(Failure::CookieSecure.report(e)),
        Ok(flag) => *flag,
    };
    let session = match &raw.session {
        Err(e) => return Err(Failure::CookieSession.report(e)),
        Ok(flag) => *flag,
    };
    let told_bits: u64 = match &raw.expires_bits {
        Err(e) => return Err(Failure::CookieExpires.report(e)),
        Ok(bits) => *bits,
    };
    let expires_bits: u64 = if session {
        0
    } else {
        told_bits
    };
    Ok(CookieData { name, value, domain, path, http_only, secure, session, expires_bits })
}

/// What WebView2 answered to an export.
#[derive(Debug)]
pub enum DumpReply {
    /// The step that failed before the cookies were listed, and why.
    Failed(Failure, String),
    /// The cookies, each with its properties or with why it could not be read.
    Listed(Vec<Result<RawCookie, String>>),
    /// No answer came in time.
    TimedOut,
}

/// The cookies of a list, or the failure of the first that could not be read.
pub open spec fn read_list(items: Seq<Result<RawCookie, String>>) -> Result<
    Seq<CookieView>,
    Seq<char>,
>
    decreases items.len(),
{
    if items.len() == 0 {
        Ok(Seq::empty())
    } else {
        match read_list(items.drop_last()) {
            Err(message) => Err(message),
            Ok(cookies) => match items.last() {
                Err(detail) => Err(Failure::ReadCookie.text(detail@)),
                Ok(raw) => match read_cookie(raw) {
                    Err(message) => Err(message),
                    Ok(cookie) => Ok(cookies.push(cookie)),
                },
            },
        }
    }
}

/// What an export comes to.
pub open spec fn dumped(reply: DumpReply) -> Result<Seq<CookieView>, Seq<char>> {
    match reply {
        DumpReply::Failed(failure, detail) => Err(failure.text(detail@)),
        DumpReply::Listed(items) => read_list(items@),
        DumpReply::TimedOut => Err("获取 Cookie 超时"@),
    }
}

pub(crate) proof fn lemma_read_list_fails(items: Seq<Result<RawCookie, String>>, n: int)
    requires
        0 <= n <= items.len(),
        read_list(items.take(n)) is Err,
    ensures
        read_list(items) == read_list(items.take(n)),
    decreases items.len() - n,
{
    if n == items.len() {
        assert(items.take(n) =~= items);
    } else {
        assert(items.take(n + 1).drop_last() =~= items.take(n));
        lemma_read_list_fails(items, n + 1);
    }
}

/// The cookies that WebView2 listed.
pub fn dump_all_cookies(reply: DumpReply) -> (r: Result<Vec<CookieData>, String>)
    ensures
        cookies_outcome(r) == dumped(reply),
{
    match reply {
        DumpReply::Failed(failure, detail) => Err(failure.report(&detail)),
        DumpReply::TimedOut => Err("获取 Cookie 超时".to_owned()),
        DumpReply::Listed(items) => {
            let mut out: Vec<CookieData> = Vec::new();
            let mut i: usize = 0;
            assert(items@.take(0) =~= Seq::empty());
            assert(cookie_views(out@) =~= Seq::empty());
            while i < items.len()
                invariant
                    i <= items.len(),
                    dumped(reply) == read_list(items@),
                    read_list(items@.take(i as int)) == Ok::<Seq<CookieView>, Seq<char>>(
                        cookie_views(out@),
                    ),
                decreases items.len() - i,
            {
                assert(items@.take(i + 1).drop_last() =~= items@.take(i as int));
                match &items[i] {
                    Err(detail) => {
                        proof {
                            lemma_read_list_fails(items@, i + 1);
                        }
                        return Err(Failure::ReadCookie.report(detail));
                    },
                    Ok(raw) => match cookie_to_data(raw) {
                        Err(message) => {
                            proof {
                                lemma_read_list_fails(items@, i + 1);
                            }
                            return Err(message);
                        },
                        Ok(cookie) => {
                            let ghost before = out@;
                            out.push(cookie);
                            assert(cookie_views(out@) =~= cookie_views(before).push(cookie@));
                        },
                    },
                }
                i = i + 1;
            }
            assert(items@.take(i as int) =~= items@);
            Ok(out)
        },
    }
}

/// A cookie to be put into WebView2.
#[derive(Debug)]
pub struct CookieWrite {
    pub name: String,
    pub value: String,
    pub domain: String,
    pub path: String,
    pub http_only: bool,
    pub secure: bool,
    /// The expiry to set, where one is set.
    pub expires_bits: Option<u64>,
}

/// That a write puts a cookie into WebView2 as it is. An expiry is set for
/// cookies that outlive the session and have one after 1970.
pub open spec fn writes(write: CookieWrite, cookie: CookieView) -> bool {
    &&& write.name@ == cookie.name
    &&& write.value@ == cookie.value
    &&& write.domain@ == cookie.domain
    &&& write.path@ == cookie.path
    &&& write.http_only == cookie.http_only
    &&& write.secure == cookie.secure
    &&& write.expires_bits == (if !cookie.session && positive(cookie.expires_bits) {
        Some(cookie.expires_bits)
    } else {
        None
    })
}

/// Where putting a cookie into WebView2 failed.
#[derive(Debug, Clone, Copy, PartialEq, Eq, Structural)]
pub enum WriteStage {
    Create,
    Attributes,
    Store,
}

/// The report of a cookie that could not be put into WebView2.
pub open spec fn write_failure(stage: WriteStage, name: Seq<char>, detail: Seq<char>) -> Seq<char> {
    (match stage {
        WriteStage::Create => "CreateCookie 失败 ("@,
        WriteStage::Attributes => "设置 Cookie 属性失败 ("@,
        WriteStage::Store => "AddOrUpdateCookie 失败 ("@,
    }) + name + "): "@ + detail
}

/// What is said of a cookie once it was tried to put it into WebView2.
pub open spec fn write_report(name: Seq<char>, outcome: Result<(), (WriteStage, String)>) -> Result<
    (),
    Seq<char>,
> {
    match outcome {
        Ok(_) => Ok(()),
        Err((stage, detail)) => Err(write_failure(stage, name, detail@)),
    }
}

/// A run that puts cookies into WebView2, one after the other, until one fails.
pub struct RestoreRun {
    cookies: Vec<CookieData>,
    next: usize,
}

impl RestoreRun {
    /// The cookies of the run.
    pub closed spec fn cookies(self) -> Seq<CookieData> {
        self.cookies@
    }

    /// How many cookies the run is through with.
    pub closed spec fn position(self) -> nat {
        self.next as nat
    }

    /// A run before its first cookie.
    pub fn new(cookies: Vec<CookieData>) -> (r: Self)
        ensures
            r.cookies() == cookies@,
            r.position() == 0,
    {
        RestoreRun { cookies, next: 0 }
    }

    /// The cookie to put into WebView2 next, if there is one.
    pub fn current(&self) -> (r: Option<CookieWrite>)
        ensures
            if self.position() < self.cookies().len() {
                r matches Some(write) && writes(
                    write,
                    self.cookies()[self.position() as int]@,
                )
            } else {
                r is None
            },
    {
        if self.next >= self.cookies.len() {
            return None;
        }
        let cookie = &self.cookies[self.next];
        let expires_bits = if !cookie.session && is_positive(cookie.expires_bits) {
            Some(cookie.expires_bits)
        } else {
            None
        };
        Some(
            CookieWrite {
                name: cookie.name.clone(),
                value: cookie.value.clone(),
                domain: cookie.domain.clone(),
                path: cookie.path.clone(),
                http_only: cookie.http_only,
                secure: cookie.secure,
                expires_bits,
            },
        )
    }

    /// Takes note of how putting the current cookie into WebView2 ended. A failure
    /// ends the run.
    pub fn report(&mut self, outcome: Result<(), (WriteStage, String)>) -> (r: Result<(), String>)
        requires
            old(self).position() < old(self).cookies().len(),
        ensures
            final(self).cookies() == old(self).cookies(),
            final(self).position() == next_position(
                old(self).position(),
                old(self).cookies().len(),
                outcome is Ok,
            ),
            done(r) == write_report(
                old(self).cookies()[old(self).position() as int]@.name,
                outcome,
            ),
            done(r) == (match outcome {
                Ok(_) => Ok::<(), Seq<char>>(()),
                Err((stage, detail)) => Err(
                    write_failure(
                        stage,
                        old(self).cookies()[old(self).position() as int]@.name,
                        detail@,
                    ),
                ),
            }),
    {
        match outcome {
            Ok(_) => {
                assert(self.next < self.cookies.len());
                self.next = self.next + 1;
                Ok(())
            },
            Err((stage, detail)) => {
                let label = match stage {
                    WriteStage::Create => "CreateCookie 失败 (",
                    WriteStage::Attributes => "设置 Cookie 属性失败 (",
                    WriteStage::Store => "AddOrUpdateCookie 失败 (",
                };
                let mut message = join2(label, &self.cookies[self.next].name);
                message.append("): ");
                message.append(&detail);
                self.next = self.cookies.len();
                Err(message)
            },
        }
    }
}

/// What WebView2 answered to a restoration.
#[derive(Debug)]
pub enum RestoreReply {
    /// The step that failed before the first cookie, and why.
    Failed(Failure, String),
    /// How the run ended: well, or with the report of its failure.
    Finished(Result<(), String>),
    /// No answer came in time.
    TimedOut,
}

/// What a restoration comes to.
pub open spec fn restored(reply: RestoreReply) -> Result<(), Seq<char>> {
    match reply {
        RestoreReply::Failed(failure, detail) => Err(failure.text(detail@)),
        RestoreReply::Finished(outcome) => done(outcome),
        RestoreReply::TimedOut => Err("写入 Cookie 超时"@),
    }
}

/// Whether the cookies are in WebView2 again.
pub fn restore_all_cookies(reply: RestoreReply) -> (r: Result<(), String>)
    ensures
        done(r) == restored(reply),
{
    match reply {
        RestoreReply::Failed(failure, detail) => Err(failure.report(&detail)),
        RestoreReply::Finished(outcome) => outcome,
        RestoreReply::TimedOut => Err("写入 Cookie 超时".to_owned()),
    }
}

/// A cookie that was exported goes back with the texts and the flags that WebView2
/// told of it, and with the expiry of a cookie that outlives the session.
pub proof fn law_exported_cookies_go_back(raw: RawCookie, cookie: CookieView, write: CookieWrite)
    requires
        read_cookie(raw) == Ok::<CookieView, Seq<char>>(cookie),
        writes(write, cookie),
    ensures
        raw.name matches Ok(text) && write.name@ == text_or_empty(text),
        raw.value matches Ok(text) && write.value@ == text_or_empty(text),
        raw.domain matches Ok(text) && write.domain@ == text_or_empty(text),
        raw.path matches Ok(text) && write.path@ == text_or_empty(text),
        raw.http_only == Ok::<bool, String>(write.http_only),
        raw.secure == Ok::<bool, String>(write.secure),
        raw.session == Ok::<bool, String>(true) ==> write.expires_bits is None,
        raw.session == Ok::<bool, String>(false) && positive(cookie.expires_bits)
            ==> (write.expires_bits matches Some(bits) && raw.expires_bits == Ok::<u64, String>(
            bits,
        )),
{
}

/// An export is complete or fails: it has one cookie for each that WebView2
/// listed, in their order, and fails if and only if one of them cannot be read.
pub proof fn law_exports_are_complete(items: Seq<Result<RawCookie, String>>)
    ensures
        read_list(items) is Ok <==> forall|i: int|
            0 <= i < items.len() ==> (#[trigger] items[i] matches Ok(raw) && read_cookie(raw) is Ok),
        read_list(items) matches Ok(cookies) ==> {
            &&& cookies.len() == items.len()
            &&& forall|i: int|
                0 <= i < items.len() ==> (#[trigger] items[i] matches Ok(raw) && read_cookie(raw)
                    == Ok::<CookieView, Seq<char>>(cookies[i]))
        },
    decreases items.len(),
{
    if items.len() > 0 {
        let before = items.drop_last();
        law_exports_are_complete(before);
        let n = items.len() - 1;
        assert(forall|i: int| 0 <= i < n ==> before[i] == #[trigger] items[i]);
        assert(items.last() == items[n]);
        if read_list(items) is Ok {
            assert forall|i: int| 0 <= i < items.len() implies (#[trigger] items[i] matches Ok(raw)
                && read_cookie(raw) == Ok::<CookieView, Seq<char>>(read_list(items)->Ok_0[i])) by {
                if i < n {
                    assert(before[i] == items[i]);
                }
            }
        } else {
            if read_list(before) is Err {
                let i = choose|i: int|
                    0 <= i < before.len() && !(#[trigger] before[i] matches Ok(raw) && read_cookie(
                        raw,
                    ) is Ok);
                assert(items[i] == before[i]);
            }
        }
    }
}

/// The failure of a cookie is that of the first of its properties, in their order,
/// that could not be read; a cookie whose properties can all be read is told.
pub proof fn law_the_first_unreadable_property_is_reported(raw: RawCookie)
    ensures
        raw.name is Err ==> read_cookie(raw) == Err::<CookieView, Seq<char>>(
            "读 Cookie Name 失败: "@ + raw.name->Err_0@,
        ),
        raw.name is Ok && raw.value is Err ==> read_cookie(raw) == Err::<CookieView, Seq<char>>(
            "读 Cookie Value 失败: "@ + raw.value->Err_0@,
        ),
        raw.name is Ok && raw.value is Ok && raw.domain is Err ==> read_cookie(raw) == Err::<CookieView, Seq<char>>(
            "读 Cookie Domain 失败: "@ + raw.domain->Err_0@,
        ),
        raw.name is Ok && raw.value is Ok && raw.domain is Ok && raw.path is Err ==> read_cookie(raw) == Err::<CookieView, Seq<char>>(
            "读 Cookie Path 失败: "@ + raw.path->Err_0@,
        ),
        raw.name is Ok && raw.value is Ok && raw.domain is Ok && raw.path is Ok && raw.http_only is Err ==> read_cookie(raw) == Err::<CookieView, Seq<char>>(
            "读 Cookie HttpOnly 失败: "@ + raw.http_only->Err_0@,
        ),
        raw.name is Ok && raw.value is Ok && raw.domain is Ok && raw.path is Ok && raw.http_only is Ok && raw.secure is Err ==> read_cookie(raw) == Err::<CookieView, Seq<char>>(
            "读 Cookie Secure 失败: "@ + raw.secure->Err_0@,
        ),
        raw.name is Ok && raw.value is Ok && raw.domain is Ok && raw.path is Ok && raw.http_only is Ok && raw.secure is Ok && raw.session is Err ==> read_cookie(raw) == Err::<CookieView, Seq<char>>(
            "读 Cookie Session 失败: "@ + raw.session->Err_0@,
        ),
        raw.name is Ok && raw.value is Ok && raw.domain is Ok && raw.path is Ok && raw.http_only is Ok && raw.secure is Ok && raw.session is Ok && raw.expires_bits is Err ==> read_cookie(raw) == Err::<CookieView, Seq<char>>(
            "读 Cookie Expires 失败: "@ + raw.expires_bits->Err_0@,
        ),
        raw.name is Ok && raw.value is Ok && raw.domain is Ok && raw.path is Ok && raw.http_only
            is Ok && raw.secure is Ok && raw.session is Ok && raw.expires_bits is Ok
            ==> read_cookie(raw) is Ok,
{
}

/// A cookie whose properties can all be read is told with each of them as WebView2
/// gave it, but for the expiry of a session cookie.
pub proof fn law_cookies_are_told_as_given(raw: RawCookie, cookie: CookieView)
    requires
        read_cookie(raw) == Ok::<CookieView, Seq<char>>(cookie),
    ensures
        raw.name matches Ok(Some(text)) ==> cookie.name == text@,
        raw.name matches Ok(None) ==> cookie.name.len() == 0,
        raw.value matches Ok(Some(text)) ==> cookie.value == text@,
        raw.value matches Ok(None) ==> cookie.value.len() == 0,
        raw.domain matches Ok(Some(text)) ==> cookie.domain == text@,
        raw.domain matches Ok(None) ==> cookie.domain.len() == 0,
        raw.path matches Ok(Some(text)) ==> cookie.path == text@,
        raw.path matches Ok(None) ==> cookie.path.len() == 0,
        raw.http_only == Ok::<bool, String>(cookie.http_only),
        raw.secure == Ok::<bool, String>(cookie.secure),
        raw.session == Ok::<bool, String>(cookie.session),
        cookie.session ==> cookie.expires_bits == 0,
        !cookie.session ==> raw.expires_bits == Ok::<u64, String>(cookie.expires_bits),
{
}

/// A text from WebView2 is told as it is, and an absent one as nothing.
pub proof fn law_texts_are_told_as_given(text: Option<String>)
    ensures
        text matches Some(given) ==> text_or_empty(text) == given@,
        text is None ==> text_or_empty(text).len() == 0,
{
}

/// A cookie is written with its own name, value, domain, path and flags. No expiry is
/// set for a session cookie or for one whose expiry is no number above zero, and
/// every other cookie is written with its own.
pub proof fn law_cookies_are_written_as_given(write: CookieWrite, cookie: CookieView)
    requires
        writes(write, cookie),
    ensures
        write.name@ == cookie.name,
        write.value@ == cookie.value,
        write.domain@ == cookie.domain,
        write.path@ == cookie.path,
        write.http_only == cookie.http_only,
        write.secure == cookie.secure,
        cookie.session ==> write.expires_bits is None,
        cookie.expires_bits == 0 ==> write.expires_bits is None,
        cookie.expires_bits > 0x7ff0_0000_0000_0000 ==> write.expires_bits is None,
        !cookie.session && 0 < cookie.expires_bits <= 0x7ff0_0000_0000_0000 ==> write.expires_bits
            == Some(cookie.expires_bits),
{
}

/// A cookie that could not be put into WebView2 is reported with what failed, its
/// name and the reason.
pub proof fn law_failed_writes_name_the_cookie(name: Seq<char>, detail: Seq<char>)
    ensures
        write_failure(WriteStage::Create, name, detail) == "CreateCookie 失败 ("@ + name + "): "@
            + detail,
        write_failure(WriteStage::Attributes, name, detail) == "设置 Cookie 属性失败 ("@ + name
            + "): "@ + detail,
        write_failure(WriteStage::Store, name, detail) == "AddOrUpdateCookie 失败 ("@ + name
            + "): "@ + detail,
{
}

/// Nothing is said against a cookie that was put into WebView2, and of one that was
/// not, where it failed, its name and why, for every name and every reason.
pub proof fn law_what_is_said_of_a_write(name: Seq<char>, stage: WriteStage, detail: String)
    ensures
        write_report(name, Ok(())) == Ok::<(), Seq<char>>(()),
        write_report(name, Err((stage, detail))) == Err::<(), Seq<char>>(
            (match stage {
                WriteStage::Create => "CreateCookie 失败 ("@,
                WriteStage::Attributes => "设置 Cookie 属性失败 ("@,
                WriteStage::Store => "AddOrUpdateCookie 失败 ("@,
            }) + name + "): "@ + detail@,
        ),
{
}

/// How an export and a restoration end is passed on as it is, and silence is a
/// timeout.
pub proof fn law_replies_are_passed_on(failure: Failure, detail: String, ended: Result<(), String>)
    ensures
        dumped(DumpReply::Failed(failure, detail)) == Err::<Seq<CookieView>, Seq<char>>(
            failure.text(detail@),
        ),
        dumped(DumpReply::TimedOut) == Err::<Seq<CookieView>, Seq<char>>("获取 Cookie 超时"@),
        restored(RestoreReply::Failed(failure, detail)) == Err::<(), Seq<char>>(
            failure.text(detail@),
        ),
        restored(RestoreReply::TimedOut) == Err::<(), Seq<char>>("写入 Cookie 超时"@),
        ended is Ok <==> restored(RestoreReply::Finished(ended)) is Ok,
        ended matches Err(m) ==> restored(RestoreReply::Finished(ended)) == Err::<(), Seq<char>>(
            m@,
        ),
{
}

} // verus!
