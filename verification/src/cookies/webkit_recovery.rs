//! What becomes of a WebKit store that is exported, lost and restored.

use vstd::prelude::*;

use crate::cookies::mac::{describes, dumped, read_cookie, CookieProperties, DumpReply, RawCookie};
use crate::cookies::recovery::{lasting, lemma_same_cookies, CookieKey};
use crate::cookies::CookieView;

verus! {

/// What a store holds of a cookie.
pub struct WebKitCookie {
    pub value: Seq<char>,
    pub http_only: bool,
    pub secure: bool,
    pub session: bool,
    /// The expiry, where there is one.
    pub expires_bits: Option<u64>,
}

/// That what WebKit tells of a cookie is what the store holds of it.
pub open spec fn tells(raw: RawCookie, key: CookieKey, cookie: WebKitCookie) -> bool {
    &&& raw.name@ == key.name
    &&& raw.value@ == cookie.value
    &&& raw.domain@ == key.domain
    &&& raw.path@ == key.path
    &&& raw.http_only == cookie.http_only
    &&& raw.secure == cookie.secure
    &&& raw.session == cookie.session
    &&& raw.expires_bits == cookie.expires_bits
}

/// That WebKit lists the cookies of a store in the order of `keys`, each once.
pub open spec fn lists(
    items: Seq<RawCookie>,
    keys: Seq<CookieKey>,
    store: Map<CookieKey, WebKitCookie>,
) -> bool {
    &&& items.len() == keys.len()
    &&& keys.no_duplicates()
    &&& forall|key: CookieKey| #[trigger] keys.contains(key) <==> store.contains_key(key)
    &&& forall|i: int|
        0 <= i < keys.len() ==> tells(items[i], #[trigger] keys[i], store[keys[i]])
}

/// The key of the cookie that WebKit makes with these properties.
pub open spec fn properties_key(properties: CookieProperties) -> CookieKey {
    CookieKey { name: properties.name@, domain: properties.domain@, path: properties.path@ }
}

/// That putting a cookie made with these properties into a store leads from one
/// condition of it to the next: the cookie is there with what the properties say,
/// one with an expiry is not for the session, and all others are as before. Whether
/// the cookie is for http only, the properties do not say.
pub open spec fn puts(
    before: Map<CookieKey, WebKitCookie>,
    properties: CookieProperties,
    after: Map<CookieKey, WebKitCookie>,
) -> bool {
    let key = properties_key(properties);
    &&& after == before.insert(key, after[key])
    &&& after[key].value == properties.value@
    &&& after[key].secure == properties.secure
    &&& after[key].expires_bits == properties.expires_bits
    &&& after[key].expires_bits is Some ==> !after[key].session
}

/// What an export tells of a cookie in the store.
pub open spec fn exported(key: CookieKey, cookie: WebKitCookie) -> CookieView {
    CookieView {
        name: key.name,
        value: cookie.value,
        domain: key.domain,
        path: key.path,
        http_only: cookie.http_only,
        secure: cookie.secure,
        session: cookie.session,
        expires_bits: match cookie.expires_bits {
            Some(bits) if !cookie.session => bits,
            _ => 0,
        },
    }
}

/// What an export tells of a store whose cookies are listed in the order of `keys`.
pub open spec fn export(keys: Seq<CookieKey>, store: Map<CookieKey, WebKitCookie>) -> Seq<
    CookieView,
> {
    Seq::new(keys.len(), |i: int| exported(keys[i], store[keys[i]]))
}

/// What survives of a cookie: all but the two flags for which WebKit has no
/// property.
pub open spec fn kept(cookie: CookieView) -> CookieView {
    CookieView { http_only: false, session: false, ..cookie }
}

/// What survives of cookies.
pub open spec fn all_kept(cookies: Seq<CookieView>) -> Seq<CookieView> {
    cookies.map_values(|cookie: CookieView| kept(cookie))
}

/// An export tells of every cookie in the store what the store holds of it.
pub proof fn law_exports_tell_the_store(
    items: Vec<RawCookie>,
    keys: Seq<CookieKey>,
    store: Map<CookieKey, WebKitCookie>,
)
    requires
        lists(items@, keys, store),
    ensures
        dumped(DumpReply::Listed(items)) == Ok::<Seq<CookieView>, Seq<char>>(export(keys, store)),
{
    let told = items@.map_values(|raw: RawCookie| read_cookie(raw));
    assert forall|i: int| 0 <= i < told.len() implies #[trigger] told[i] == export(
        keys,
        store,
    )[i] by {
        assert(tells(items@[i], keys[i], store[keys[i]]));
    }
    assert(told =~= export(keys, store));
}

proof fn lemma_kept_has_no_duplicates(keys: Seq<CookieKey>, store: Map<CookieKey, WebKitCookie>)
    requires
        keys.no_duplicates(),
    ensures
        all_kept(export(keys, store)).no_duplicates(),
{
    let cookies = all_kept(export(keys, store));
    assert forall|i: int, j: int|
        0 <= i < cookies.len() && 0 <= j < cookies.len() && i != j implies cookies[i]
        != cookies[j] by {
        if cookies[i] == cookies[j] {
            assert(cookies[i].name == keys[i].name && cookies[j].name == keys[j].name);
            assert(keys[i] == keys[j]);
        }
    }
}

/// That cookies made with these properties are put into a store, one after the
/// other, from an empty store on; `conditions` are those that the store goes
/// through.
pub open spec fn restores(
    cookies: Seq<CookieView>,
    made: Seq<CookieProperties>,
    conditions: Seq<Map<CookieKey, WebKitCookie>>,
) -> bool {
    &&& made.len() == cookies.len()
    &&& conditions.len() == cookies.len() + 1
    &&& conditions[0] == Map::<CookieKey, WebKitCookie>::empty()
    &&& forall|i: int|
        0 <= i < cookies.len() ==> describes(#[trigger] made[i], cookies[i]) && puts(
            conditions[i],
            made[i],
            conditions[i + 1],
        )
}

proof fn lemma_restored(
    keys: Seq<CookieKey>,
    store: Map<CookieKey, WebKitCookie>,
    made: Seq<CookieProperties>,
    conditions: Seq<Map<CookieKey, WebKitCookie>>,
    n: int,
)
    requires
        keys.no_duplicates(),
        restores(export(keys, store), made, conditions),
        forall|i: int| 0 <= i < keys.len() ==> lasting(#[trigger] export(keys, store)[i]),
        0 <= n <= keys.len(),
    ensures
        forall|key: CookieKey| #[trigger]
            conditions[n].contains_key(key) <==> keys.take(n).contains(key),
        forall|i: int|
            0 <= i < n ==> kept(exported(#[trigger] keys[i], conditions[n][keys[i]])) == kept(
                export(keys, store)[i],
            ),
    decreases n,
{
    let cookies = export(keys, store);
    if n == 0 {
        assert(keys.take(0) =~= Seq::empty());
    } else {
        lemma_restored(keys, store, made, conditions, n - 1);
        let last = n - 1;
        assert(describes(made[last], cookies[last]));
        assert(lasting(cookies[last]));
        assert(properties_key(made[last]) == keys[last]);
        assert(puts(conditions[last], made[last], conditions[n]));
        assert(keys.take(n) =~= keys.take(last).push(keys[last]));
        assert forall|key: CookieKey| #[trigger]
            conditions[n].contains_key(key) <==> keys.take(n).contains(key) by {
            if keys.take(n).contains(key) {
                let i = choose|i: int| 0 <= i < n && keys.take(n)[i] == key;
                if i < last {
                    assert(keys.take(last)[i] == key);
                }
            }
            if keys.take(last).contains(key) {
                let i = choose|i: int| 0 <= i < last && keys.take(last)[i] == key;
                assert(keys.take(n)[i] == key);
            }
            assert(keys.take(n)[last] == keys[last]);
        }
        assert forall|i: int| 0 <= i < n implies kept(
            exported(#[trigger] keys[i], conditions[n][keys[i]]),
        ) == kept(cookies[i]) by {
            if i < last {
                assert(keys[i] != keys[last]);
                assert(conditions[n][keys[i]] == conditions[last][keys[i]]);
            }
        }
    }
}

/// A store that was exported, then lost, is recovered but for two flags: once every
/// exported cookie has been put into an empty store, a new export tells the same
/// name, value, domain, path, secure flag and expiry of each, in whatever order
/// WebKit lists them. No cookie of the export may have expired meanwhile.
pub proof fn law_lost_cookies_are_recovered(
    store: Map<CookieKey, WebKitCookie>,
    keys: Seq<CookieKey>,
    items: Vec<RawCookie>,
    cookies: Seq<CookieView>,
    made: Seq<CookieProperties>,
    conditions: Seq<Map<CookieKey, WebKitCookie>>,
    new_keys: Seq<CookieKey>,
    new_items: Vec<RawCookie>,
)
    requires
        lists(items@, keys, store),
        dumped(DumpReply::Listed(items)) == Ok::<Seq<CookieView>, Seq<char>>(cookies),
        forall|i: int| 0 <= i < cookies.len() ==> lasting(#[trigger] cookies[i]),
        restores(cookies, made, conditions),
        lists(new_items@, new_keys, conditions.last()),
    ensures
        dumped(DumpReply::Listed(new_items)) matches Ok(again) && all_kept(again).to_multiset()
            == all_kept(cookies).to_multiset(),
{
    law_exports_tell_the_store(items, keys, store);
    let restored = conditions.last();
    law_exports_tell_the_store(new_items, new_keys, restored);
    let before = all_kept(cookies);
    let after = all_kept(export(new_keys, restored));
    let n = keys.len() as int;
    lemma_restored(keys, store, made, conditions, n);
    assert(keys.take(n) =~= keys);
    assert(conditions[n] == restored);
    lemma_kept_has_no_duplicates(keys, store);
    lemma_kept_has_no_duplicates(new_keys, restored);
    assert forall|cookie: CookieView| before.contains(cookie) <==> after.contains(cookie) by {
        if before.contains(cookie) {
            let i = choose|i: int| 0 <= i < before.len() && before[i] == cookie;
            assert(keys.contains(keys[i]));
            assert(restored.contains_key(keys[i]));
            assert(new_keys.contains(keys[i]));
            let j = choose|j: int| 0 <= j < new_keys.len() && new_keys[j] == keys[i];
            assert(after[j] == cookie);
        }
        if after.contains(cookie) {
            let j = choose|j: int| 0 <= j < after.len() && after[j] == cookie;
            assert(new_keys.contains(new_keys[j]));
            assert(restored.contains_key(new_keys[j]));
            assert(keys.contains(new_keys[j]));
            let i = choose|i: int| 0 <= i < keys.len() && keys[i] == new_keys[j];
            assert(before[i] == cookie);
        }
    }
    lemma_same_cookies(before, after);
}

} // verus!
