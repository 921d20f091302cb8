//! Cookies of WebKit, through its cookie store.

use vstd::prelude::*;
use vstd::string::*;

use crate::cookies::{
    cookie_views, cookies_outcome, is_positive, next_position, positive, CookieData, CookieView,
};
use crate::failure::{done, Failure};

verus! {

/// What WebKit tells of a cookie.
#[derive(Debug)]
pub struct RawCookie {
    pub name: String,
    pub value: String,
    pub domain: String,
    pub path: String,
    pub http_only: bool,
    pub secure: bool,
    pub session: bool,
    /// When the cookie expires, where it does.
    pub expires_bits: Option<u64>,
}

/// The cookie that WebKit describes.
pub open spec fn read_cookie(raw: RawCookie) -> CookieView {
    CookieView {
        name: raw.name@,
        value: raw.value@,
        domain: raw.domain@,
        path: raw.path@,
        http_only: raw.http_only,
        secure: raw.secure,
        session: raw.session,
        expires_bits: match raw.expires_bits {
            Some(bits) if !raw.session => bits,
            _ => 0,
        },
    }
}

/// The cookie that WebKit describes; a session cookie and one without an expiry
/// get 0.
pub fn cookie_to_data(raw: &RawCookie) -> (r: CookieData)
    ensures
        r@ == read_cookie(*raw),
{
    CookieData {
        name: raw.name.clone(),
        value: raw.value.clone(),
        domain: raw.domain.clone(),
        path: raw.path.clone(),
        http_only: raw.http_only,
        secure: raw.secure,
        session: raw.session,
        expires_bits: match raw.expires_bits {
            Some(bits) if !raw.session => bits,
            _ => 0,
        },
    }
}

/// What WebKit answered to an export.
#[derive(Debug)]
pub enum DumpReply {
    /// The step that failed before the cookies were listed, and why.
    Failed(Failure, String),
    /// The cookies.
    Listed(Vec<RawCookie>),
    /// No answer came in time.
    TimedOut,
}

/// What an export comes to.
pub open spec fn dumped(reply: DumpReply) -> Result<Seq<CookieView>, Seq<char>> {
    match reply {
        DumpReply::Failed(failure, detail) => Err(failure.text(detail@)),
        DumpReply::Listed(list) => Ok(list@.map_values(|raw: RawCookie| read_cookie(raw))),
        DumpReply::TimedOut => Err("获取 Cookie 超时"@),
    }
}

/// The cookies that WebKit listed.
pub fn dump_all_cookies(reply: DumpReply) -> (r: Result<Vec<CookieData>, String>)
    ensures
        cookies_outcome(r) == dumped(reply),
{
    match reply {
        DumpReply::Failed(failure, detail) => Err(failure.report(&detail)),
        DumpReply::TimedOut => Err("获取 Cookie 超时".to_owned()),
        DumpReply::Listed(list) => {
            let mut out: Vec<CookieData> = Vec::new();
            let mut i: usize = 0;
            while i < list.len()
                invariant
                    i <= list.len(),
                    out.len() == i,
                    forall|j: int| 0 <= j < i ==> (#[trigger] out@[j])@ == read_cookie(list@[j]),
                decreases list.len() - i,
            {
                out.push(cookie_to_data(&list[i]));
                i = i + 1;
            }
            assert(cookie_views(out@) =~= list@.map_values(|raw: RawCookie| read_cookie(raw)));
            Ok(out)
        },
    }
}

/// The properties with which WebKit makes a cookie. It has none that says that a
/// cookie is for http only, or for the session only.
#[derive(Debug)]
pub struct CookieProperties {
    pub name: String,
    pub value: String,
    pub domain: String,
    pub path: String,
    /// The expiry to set, where one is set; without one WebKit makes a cookie for
    /// the session.
    pub expires_bits: Option<u64>,
    pub secure: bool,
}

/// That the properties are those of a cookie. A session cookie without an expiry
/// gets none, as it would be expired at once; of any other cookie, an expiry that
/// is not after 1970 becomes the start of 1970.
pub open spec fn describes(properties: CookieProperties, cookie: CookieView) -> bool {
    &&& properties.name@ == cookie.name
    &&& properties.value@ == cookie.value
    &&& properties.domain@ == cookie.domain
    &&& properties.path@ == cookie.path
    &&& properties.secure == cookie.secure
    &&& properties.expires_bits == (if positive(cookie.expires_bits) {
        Some(cookie.expires_bits)
    } else if cookie.session {
        None
    } else {
        Some(0)
    })
}

/// The properties with which WebKit makes a cookie again.
pub fn properties_of(cookie: &CookieData) -> (r: CookieProperties)
    ensures
        describes(r, cookie@),
{
    CookieProperties {
        name: cookie.name.clone(),
        value: cookie.value.clone(),
        domain: cookie.domain.clone(),
        path: cookie.path.clone(),
        expires_bits: if is_positive(cookie.expires_bits) {
            Some(cookie.expires_bits)
        } else if cookie.session {
            None
        } else {
            Some(0)
        },
        secure: cookie.secure,
    }
}

/// What is heard of the cookies that were handed to WebKit.
#[derive(Debug)]
pub enum WaitEvent {
    /// One of them is in the store.
    Written,
    /// The cookie of this name could not be made.
    CreateFailed(String),
    /// Nothing was heard in time.
    TimedOut,
}

/// A run that makes cookies and hands them to WebKit, one after the other, until
/// one cannot be made.
pub struct RestoreRun {
    cookies: Vec<CookieData>,
    next: usize,
}

impl RestoreRun {
    /// The cookies of the run.
    pub closed spec fn cookies(self) -> Seq<CookieData> {
        self.cookies@
    }

    /// How many cookies the run is through with.
    pub closed spec fn position(self) -> nat {
        self.next as nat
    }

    /// A run before its first cookie.
    pub fn new(cookies: Vec<CookieData>) -> (r: Self)
        ensures
            r.cookies() == cookies@,
            r.position() == 0,
    {
        RestoreRun { cookies, next: 0 }
    }

    /// The cookie to make next, if there is one.
    pub fn current(&self) -> (r: Option<CookieProperties>)
        ensures
            if self.position() < self.cookies().len() {
                r matches Some(properties) && describes(
                    properties,
                    self.cookies()[self.position() as int]@,
                )
            } else {
                r is None
            },
    {
        if self.next >= self.cookies.len() {
            return None;
        }
        Some(properties_of(&self.cookies[self.next]))
    }

    /// Takes note of whether the current cookie could be made. One that could is to
    /// be handed to WebKit; one that could not ends the run, and the event is what
    /// the wait is to hear of it.
    pub fn report(&mut self, made: bool) -> (r: Option<WaitEvent>)
        requires
            old(self).position() < old(self).cookies().len(),
        ensures
            final(self).cookies() == old(self).cookies(),
            final(self).position() == next_position(
                old(self).position(),
                old(self).cookies().len(),
                made,
            ),
            if made {
                r is None
            } else {
                r matches Some(WaitEvent::CreateFailed(name)) && name@ == old(
                    self,
                ).cookies()[old(self).position() as int]@.name
            },
    {
        assert(self.next < self.cookies.len());
        if made {
            self.next = self.next + 1;
            return None;
        }
        let name = self.cookies[self.next].name.clone();
        self.next = self.cookies.len();
        Some(WaitEvent::CreateFailed(name))
    }
}

/// What an event says of the restoration.
pub open spec fn heard(event: WaitEvent) -> Result<(), Seq<char>> {
    match event {
        WaitEvent::Written => Ok(()),
        WaitEvent::CreateFailed(name) => Err(Failure::CreateMacCookie.text(name@)),
        WaitEvent::TimedOut => Err("写入 Cookie 超时"@),
    }
}

/// How many cookies are still to be heard of after an event; a failure ends the
/// wait.
pub open spec fn next_remaining(remaining: nat, event: WaitEvent) -> nat {
    if heard(event) is Ok && remaining > 0 {
        (remaining - 1) as nat
    } else {
        0
    }
}

/// The wait for the cookies that were handed to WebKit.
pub struct RestoreWait {
    remaining: usize,
}

impl RestoreWait {
    /// How many cookies are still to be heard of.
    pub closed spec fn remaining(self) -> nat {
        self.remaining as nat
    }

    /// A wait for this many cookies.
    pub fn new(total: usize) -> (r: Self)
        ensures
            r.remaining() == total,
    {
        RestoreWait { remaining: total }
    }

    /// Whether every cookie is in the store, or the restoration has failed.
    pub fn is_over(&self) -> (r: bool)
        ensures
            r == (self.remaining() == 0),
    {
        self.remaining == 0
    }

    /// Takes note of an event. A failure ends the wait.
    pub fn report(&mut self, event: WaitEvent) -> (r: Result<(), String>)
        requires
            old(self).remaining() > 0,
        ensures
            done(r) == heard(event),
            final(self).remaining() == next_remaining(old(self).remaining(), event),
            final(self).remaining() == (if heard(event) is Ok {
                (old(self).remaining() - 1) as nat
            } else {
                0
            }),
    {
        match event {
            WaitEvent::Written => {
                self.remaining = self.remaining - 1;
                Ok(())
            },
            WaitEvent::CreateFailed(name) => {
                self.remaining = 0;
                Err(Failure::CreateMacCookie.report(&name))
            },
            WaitEvent::TimedOut => {
                self.remaining = 0;
                Err("写入 Cookie 超时".to_owned())
            },
        }
    }
}

/// What a wait for `total` cookies comes to when it hears these events; it hears
/// no more of them than it waits for, and none after a failure.
pub open spec fn wait_outcome(total: nat, events: Seq<WaitEvent>) -> Result<(), Seq<char>>
    recommends
        events.len() >= total,
    decreases total,
{
    if total == 0 {
        Ok(())
    } else {
        match heard(events[0]) {
            Err(message) => Err(message),
            Ok(_) => wait_outcome((total - 1) as nat, events.drop_first()),
        }
    }
}

/// A restoration succeeds if and only if each of its cookies is heard to be in
/// the store.
pub proof fn law_restorations_wait_for_every_cookie(total: nat, events: Seq<WaitEvent>)
    requires
        events.len() >= total,
    ensures
        wait_outcome(total, events) is Ok <==> forall|i: int|
            0 <= i < total ==> #[trigger] events[i] is Written,
    decreases total,
{
    if total > 0 {
        let rest = events.drop_first();
        law_restorations_wait_for_every_cookie((total - 1) as nat, rest);
        if events[0] is Written {
            if wait_outcome(total, events) is Ok {
                assert forall|i: int| 0 <= i < total implies #[trigger] events[i] is Written by {
                    if i > 0 {
                        assert(rest[i - 1] is Written);
                    }
                }
            } else {
                let i = choose|i: int| 0 <= i < total - 1 && !(#[trigger] rest[i] is Written);
                assert(events[i + 1] == rest[i]);
            }
        }
    }
}

/// How many of the events tell of a cookie that is in the store.
pub open spec fn written_count(events: Seq<WaitEvent>) -> nat
    decreases events.len(),
{
    if events.len() == 0 {
        0
    } else {
        written_count(events.drop_first()) + (if events[0] is Written {
            1nat
        } else {
            0
        })
    }
}

/// A restoration in which the cookie `name` cannot be made never succeeds, however
/// the events arrive: fewer cookies than it waits for were handed to WebKit, so it
/// fails, and unless an answer of WebKit stays out, it names that cookie.
pub proof fn law_failed_restorations_name_the_cookie(
    total: nat,
    events: Seq<WaitEvent>,
    name: Seq<char>,
)
    requires
        events.len() >= total,
        written_count(events) < total,
        forall|i: int|
            0 <= i < events.len() ==> (#[trigger] events[i] matches WaitEvent::CreateFailed(failed)
                ==> failed@ == name),
    ensures
        wait_outcome(total, events) is Err,
        (forall|i: int| 0 <= i < events.len() ==> !(#[trigger] events[i] is TimedOut))
            ==> wait_outcome(total, events) == Err::<(), Seq<char>>(
            Failure::CreateMacCookie.text(name),
        ),
    decreases total,
{
    if events[0] is Written {
        let rest = events.drop_first();
        assert(forall|i: int| 0 <= i < rest.len() ==> #[trigger] rest[i] == events[i + 1]);
        law_failed_restorations_name_the_cookie((total - 1) as nat, rest, name);
    }
}

/// What WebKit answered to a restoration.
#[derive(Debug)]
pub enum RestoreReply {
    /// The step that failed before the first cookie, and why.
    Failed(Failure, String),
    /// How the wait ended: well, or with the report of its failure.
    Finished(Result<(), String>),
}

/// What a restoration comes to.
pub open spec fn restored(reply: RestoreReply) -> Result<(), Seq<char>> {
    match reply {
        RestoreReply::Failed(failure, detail) => Err(failure.text(detail@)),
        RestoreReply::Finished(outcome) => done(outcome),
    }
}

/// Whether the cookies are in WebKit's store again.
pub fn restore_all_cookies(reply: RestoreReply) -> (r: Result<(), String>)
    ensures
        done(r) == restored(reply),
{
    match reply {
        RestoreReply::Failed(failure, detail) => Err(failure.report(&detail)),
        RestoreReply::Finished(outcome) => outcome,
    }
}

/// A cookie that was exported goes back with what WebKit told of it, except for the
/// flags that it is for http only and for the session only. A session cookie goes
/// back without an expiry, and any other with its own.
pub proof fn law_exported_cookies_go_back(raw: RawCookie, properties: CookieProperties)
    requires
        describes(properties, read_cookie(raw)),
    ensures
        properties.name@ == raw.name@,
        properties.value@ == raw.value@,
        properties.domain@ == raw.domain@,
        properties.path@ == raw.path@,
        properties.secure == raw.secure,
        raw.session ==> properties.expires_bits is None,
        !raw.session && raw.expires_bits is Some && positive(raw.expires_bits->Some_0)
            ==> properties.expires_bits == raw.expires_bits,
{
}

/// A cookie is told with what WebKit gave of it, but for the expiry of a session
/// cookie, and with 0 where there is no expiry.
pub proof fn law_cookies_are_told_as_given(raw: RawCookie)
    ensures
        read_cookie(raw).name == raw.name@,
        read_cookie(raw).value == raw.value@,
        read_cookie(raw).domain == raw.domain@,
        read_cookie(raw).path == raw.path@,
        read_cookie(raw).http_only == raw.http_only,
        read_cookie(raw).secure == raw.secure,
        read_cookie(raw).session == raw.session,
        raw.session ==> read_cookie(raw).expires_bits == 0,
        raw.expires_bits is None ==> read_cookie(raw).expires_bits == 0,
        !raw.session ==> (raw.expires_bits matches Some(bits) ==> read_cookie(raw).expires_bits
            == bits),
{
}

/// A cookie goes back with its own name, value, domain, path and secure flag, and
/// with its expiry where that is a number above zero. Otherwise a session cookie gets
/// no expiry, and any other the start of 1970.
pub proof fn law_cookies_are_made_as_given(properties: CookieProperties, cookie: CookieView)
    requires
        describes(properties, cookie),
    ensures
        properties.name@ == cookie.name,
        properties.value@ == cookie.value,
        properties.domain@ == cookie.domain,
        properties.path@ == cookie.path,
        properties.secure == cookie.secure,
        0 < cookie.expires_bits <= 0x7ff0_0000_0000_0000 ==> properties.expires_bits == Some(
            cookie.expires_bits,
        ),
        cookie.session && (cookie.expires_bits == 0 || cookie.expires_bits > 0x7ff0_0000_0000_0000)
            ==> properties.expires_bits is None,
        !cookie.session && (cookie.expires_bits == 0 || cookie.expires_bits
            > 0x7ff0_0000_0000_0000) ==> properties.expires_bits == Some(0u64),
{
}

/// What is heard of a cookie: that it is written is no failure, that it could not be
/// made names it, and silence is a timeout. After a cookie that is written, one less
/// is waited for, and after a failure none.
pub proof fn law_what_is_heard(event: WaitEvent, remaining: nat)
    requires
        remaining > 0,
    ensures
        event is Written ==> heard(event) == Ok::<(), Seq<char>>(()) && next_remaining(
            remaining,
            event,
        ) == remaining - 1,
        event matches WaitEvent::CreateFailed(name) ==> heard(event) == Err::<(), Seq<char>>(
            "创建 Cookie 失败: "@ + name@,
        ) && next_remaining(remaining, event) == 0,
        event is TimedOut ==> heard(event) == Err::<(), Seq<char>>("写入 Cookie 超时"@)
            && next_remaining(remaining, event) == 0,
{
}

/// How an export and a restoration end is passed on as it is, and silence is a
/// timeout.
pub proof fn law_replies_are_passed_on(failure: Failure, detail: String, ended: Result<(), String>)
    ensures
        dumped(DumpReply::Failed(failure, detail)) == Err::<Seq<CookieView>, Seq<char>>(
            failure.text(detail@),
        ),
        dumped(DumpReply::TimedOut) == Err::<Seq<CookieView>, Seq<char>>("获取 Cookie 超时"@),
        restored(RestoreReply::Failed(failure, detail)) == Err::<(), Seq<char>>(
            failure.text(detail@),
        ),
        ended is Ok <==> restored(RestoreReply::Finished(ended)) is Ok,
        ended matches Err(m) ==> restored(RestoreReply::Finished(ended)) == Err::<(), Seq<char>>(
            m@,
        ),
{
}

} // verus!
