//! What becomes of a WebView2 store that is exported, lost and restored.

use vstd::prelude::*;

use crate::cookies::win::{
    dumped, law_exports_are_complete, read_cookie, text_or_empty, writes, CookieWrite, DumpReply,
    RawCookie,
};
use crate::cookies::{positive, CookieView};

verus! {

/// What tells the cookies of a store apart.
pub struct CookieKey {
    pub name: Seq<char>,
    pub domain: Seq<char>,
    pub path: Seq<char>,
}

/// What a store holds of a cookie. The expiry of a session cookie means nothing.
pub struct StoredCookie {
    pub value: Seq<char>,
    pub http_only: bool,
    pub secure: bool,
    pub session: bool,
    pub expires_bits: u64,
}

/// That the properties of a listed cookie are those of a cookie in the store.
pub open spec fn tells(
    item: Result<RawCookie, String>,
    key: CookieKey,
    cookie: StoredCookie,
) -> bool {
    &&& item matches Ok(raw)
    &&& raw.name matches Ok(text) && text_or_empty(text) == key.name
    &&& raw.value matches Ok(text) && text_or_empty(text) == cookie.value
    &&& raw.domain matches Ok(text) && text_or_empty(text) == key.domain
    &&& raw.path matches Ok(text) && text_or_empty(text) == key.path
    &&& raw.http_only == Ok::<bool, String>(cookie.http_only)
    &&& raw.secure == Ok::<bool, String>(cookie.secure)
    &&& raw.session == Ok::<bool, String>(cookie.session)
    &&& raw.expires_bits == Ok::<u64, String>(cookie.expires_bits)
}

/// That WebView2 lists the cookies of a store in the order of `keys`, each once.
pub open spec fn lists(
    items: Seq<Result<RawCookie, String>>,
    keys: Seq<CookieKey>,
    store: Map<CookieKey, StoredCookie>,
) -> bool {
    &&& items.len() == keys.len()
    &&& keys.no_duplicates()
    &&& forall|key: CookieKey| #[trigger] keys.contains(key) <==> store.contains_key(key)
    &&& forall|i: int|
        0 <= i < keys.len() ==> tells(items[i], #[trigger] keys[i], store[keys[i]])
}

/// The key of the cookie that a write puts into the store.
pub open spec fn write_key(write: CookieWrite) -> CookieKey {
    CookieKey { name: write.name@, domain: write.domain@, path: write.path@ }
}

/// That putting a cookie into a store leads from one condition of it to the next:
/// the cookie is there with what was written, for the session where no expiry was
/// set, and all others are as before.
pub open spec fn puts(
    before: Map<CookieKey, StoredCookie>,
    write: CookieWrite,
    after: Map<CookieKey, StoredCookie>,
) -> bool {
    let key = write_key(write);
    &&& after == before.insert(key, after[key])
    &&& after[key].value == write.value@
    &&& after[key].http_only == write.http_only
    &&& after[key].secure == write.secure
    &&& match write.expires_bits {
        Some(bits) => !after[key].session && after[key].expires_bits == bits,
        None => after[key].session,
    }
}

/// What an export tells of a cookie in the store.
pub open spec fn exported(key: CookieKey, cookie: StoredCookie) -> CookieView {
    CookieView {
        name: key.name,
        value: cookie.value,
        domain: key.domain,
        path: key.path,
        http_only: cookie.http_only,
        secure: cookie.secure,
        session: cookie.session,
        expires_bits: if cookie.session {
            0
        } else {
            cookie.expires_bits
        },
    }
}

/// What an export tells of a store whose cookies are listed in the order of `keys`.
pub open spec fn export(keys: Seq<CookieKey>, store: Map<CookieKey, StoredCookie>) -> Seq<
    CookieView,
> {
    Seq::new(keys.len(), |i: int| exported(keys[i], store[keys[i]]))
}

/// A cookie that has not expired: it is for the session, or its expiry is after
/// 1970.
pub open spec fn lasting(cookie: CookieView) -> bool {
    cookie.session || positive(cookie.expires_bits)
}

/// An export tells of every cookie in the store what the store holds of it.
pub proof fn law_exports_tell_the_store(
    items: Vec<Result<RawCookie, String>>,
    keys: Seq<CookieKey>,
    store: Map<CookieKey, StoredCookie>,
)
    requires
        lists(items@, keys, store),
    ensures
        dumped(DumpReply::Listed(items)) == Ok::<Seq<CookieView>, Seq<char>>(export(keys, store)),
{
    law_exports_are_complete(items@);
    assert forall|i: int| 0 <= i < items@.len() implies (#[trigger] items@[i] matches Ok(raw)
        && read_cookie(raw) == Ok::<CookieView, Seq<char>>(exported(keys[i], store[keys[i]]))) by {
        assert(tells(items@[i], keys[i], store[keys[i]]));
    }
    let told = dumped(DumpReply::Listed(items))->Ok_0;
    assert(told =~= export(keys, store));
}

proof fn lemma_export_has_no_duplicates(
    keys: Seq<CookieKey>,
    store: Map<CookieKey, StoredCookie>,
)
    requires
        keys.no_duplicates(),
    ensures
        export(keys, store).no_duplicates(),
{
    let cookies = export(keys, store);
    assert forall|i: int, j: int|
        0 <= i < cookies.len() && 0 <= j < cookies.len() && i != j implies cookies[i]
        != cookies[j] by {
        if cookies[i] == cookies[j] {
            assert(keys[i] == keys[j]);
        }
    }
}

/// Two lists without duplicates and with the same cookies differ in order only.
pub(crate) proof fn lemma_same_cookies(a: Seq<CookieView>, b: Seq<CookieView>)
    requires
        a.no_duplicates(),
        b.no_duplicates(),
        forall|cookie: CookieView| a.contains(cookie) <==> b.contains(cookie),
    ensures
        b.to_multiset() == a.to_multiset(),
{
    assert forall|cookie: CookieView| #[trigger]
        b.to_multiset().count(cookie) == a.to_multiset().count(cookie) by {
        a.to_multiset_ensures();
        b.to_multiset_ensures();
        a.lemma_multiset_has_no_duplicates();
        b.lemma_multiset_has_no_duplicates();
        assert(a.contains(cookie) <==> b.contains(cookie));
    }
    assert(b.to_multiset() =~= a.to_multiset());
}

/// That the writes put the cookies into a store, one after the other, from an
/// empty store on; `conditions` are those that the store goes through.
pub open spec fn restores(
    cookies: Seq<CookieView>,
    write_list: Seq<CookieWrite>,
    conditions: Seq<Map<CookieKey, StoredCookie>>,
) -> bool {
    &&& write_list.len() == cookies.len()
    &&& conditions.len() == cookies.len() + 1
    &&& conditions[0] == Map::<CookieKey, StoredCookie>::empty()
    &&& forall|i: int|
        0 <= i < cookies.len() ==> writes(#[trigger] write_list[i], cookies[i]) && puts(
            conditions[i],
            write_list[i],
            conditions[i + 1],
        )
}

proof fn lemma_restored(
    keys: Seq<CookieKey>,
    store: Map<CookieKey, StoredCookie>,
    write_list: Seq<CookieWrite>,
    conditions: Seq<Map<CookieKey, StoredCookie>>,
    n: int,
)
    requires
        keys.no_duplicates(),
        restores(export(keys, store), write_list, conditions),
        forall|i: int| 0 <= i < keys.len() ==> lasting(#[trigger] export(keys, store)[i]),
        0 <= n <= keys.len(),
    ensures
        forall|key: CookieKey| #[trigger]
            conditions[n].contains_key(key) <==> keys.take(n).contains(key),
        forall|i: int|
            0 <= i < n ==> exported(#[trigger] keys[i], conditions[n][keys[i]]) == export(
                keys,
                store,
            )[i],
    decreases n,
{
    let cookies = export(keys, store);
    if n == 0 {
        assert(keys.take(0) =~= Seq::empty());
    } else {
        lemma_restored(keys, store, write_list, conditions, n - 1);
        let last = n - 1;
        assert(writes(write_list[last], cookies[last]));
        assert(lasting(cookies[last]));
        assert(write_key(write_list[last]) == keys[last]);
        assert(puts(conditions[last], write_list[last], conditions[n]));
        assert(keys.take(n) =~= keys.take(last).push(keys[last]));
        assert forall|key: CookieKey| #[trigger]
            conditions[n].contains_key(key) <==> keys.take(n).contains(key) by {
            if keys.take(n).contains(key) {
                let i = choose|i: int| 0 <= i < n && keys.take(n)[i] == key;
                if i < last {
                    assert(keys.take(last)[i] == key);
                }
            }
            if keys.take(last).contains(key) {
                let i = choose|i: int| 0 <= i < last && keys.take(last)[i] == key;
                assert(keys.take(n)[i] == key);
            }
            assert(keys.take(n)[last] == keys[last]);
        }
        assert forall|i: int| 0 <= i < n implies exported(
            #[trigger] keys[i],
            conditions[n][keys[i]],
        ) == cookies[i] by {
            if i < last {
                assert(keys[i] != keys[last]);
                assert(conditions[n][keys[i]] == conditions[last][keys[i]]);
            }
        }
    }
}

/// A store that was exported, then lost, is recovered in full: once every exported
/// cookie has been put into an empty store, a new export tells the same cookies,
/// flags and expiries included, in whatever order WebView2 lists them. No cookie of
/// the export may have expired meanwhile.
pub proof fn law_lost_cookies_are_recovered(
    store: Map<CookieKey, StoredCookie>,
    keys: Seq<CookieKey>,
    items: Vec<Result<RawCookie, String>>,
    cookies: Seq<CookieView>,
    write_list: Seq<CookieWrite>,
    conditions: Seq<Map<CookieKey, StoredCookie>>,
    new_keys: Seq<CookieKey>,
    new_items: Vec<Result<RawCookie, String>>,
)
    requires
        lists(items@, keys, store),
        dumped(DumpReply::Listed(items)) == Ok::<Seq<CookieView>, Seq<char>>(cookies),
        forall|i: int| 0 <= i < cookies.len() ==> lasting(#[trigger] cookies[i]),
        restores(cookies, write_list, conditions),
        lists(new_items@, new_keys, conditions.last()),
    ensures
        dumped(DumpReply::Listed(new_items)) matches Ok(again) && again.to_multiset()
            == cookies.to_multiset(),
{
    law_exports_tell_the_store(items, keys, store);
    let restored = conditions.last();
    law_exports_tell_the_store(new_items, new_keys, restored);
    let again = export(new_keys, restored);
    let n = keys.len() as int;
    lemma_restored(keys, store, write_list, conditions, n);
    assert(keys.take(n) =~= keys);
    assert(conditions[n] == restored);
    lemma_export_has_no_duplicates(keys, store);
    lemma_export_has_no_duplicates(new_keys, restored);
    assert forall|cookie: CookieView| cookies.contains(cookie) <==> again.contains(cookie) by {
        if cookies.contains(cookie) {
            let i = choose|i: int| 0 <= i < cookies.len() && cookies[i] == cookie;
            assert(keys.contains(keys[i]));
            assert(restored.contains_key(keys[i]));
            assert(new_keys.contains(keys[i]));
            let j = choose|j: int| 0 <= j < new_keys.len() && new_keys[j] == keys[i];
            assert(again[j] == cookie);
        }
        if again.contains(cookie) {
            let j = choose|j: int| 0 <= j < again.len() && again[j] == cookie;
            assert(new_keys.contains(new_keys[j]));
            assert(restored.contains_key(new_keys[j]));
            assert(keys.contains(new_keys[j]));
            let i = choose|i: int| 0 <= i < keys.len() && keys[i] == new_keys[j];
            assert(cookies[i] == cookie);
        }
    }
    lemma_same_cookies(cookies, again);
}

} // verus!
