//! The addresses of pages: what the shell reads of a URL.

use vstd::prelude::*;

verus! {

/// What the shell reads of a URL.
#[derive(Debug)]
pub struct PageUrl {
    /// The URL in its normal form.
    pub href: String,
    /// The scheme, in lower case.
    pub scheme: String,
    /// The host, where the URL has one.
    pub host: Option<String>,
}

/// A [`PageUrl`] as a mathematical value.
pub struct UrlView {
    pub href: Seq<char>,
    pub scheme: Seq<char>,
    pub host: Option<Seq<char>>,
}

impl View for PageUrl {
    type V = UrlView;

    open spec fn view(&self) -> UrlView {
        UrlView {
            href: self.href@,
            scheme: self.scheme@,
            host: match self.host {
                Some(host) => Some(host@),
                None => None,
            },
        }
    }
}

impl UrlView {
    /// The host, or nothing where the URL has none.
    pub open spec fn host_or_empty(self) -> Seq<char> {
        match self.host {
            Some(host) => host,
            None => Seq::empty(),
        }
    }
}

/// The outcome of reading a URL, as a mathematical value.
pub open spec fn url_outcome(outcome: Result<PageUrl, String>) -> Result<UrlView, Seq<char>> {
    match outcome {
        Ok(url) => Ok(url@),
        Err(message) => Err(message@),
    }
}

/// What the URL parser makes of a text: the URL, or the text of its error.
pub uninterp spec fn parsed_url(text: Seq<char>) -> Result<UrlView, Seq<char>>;

/// A lower-case letter of ASCII.
pub open spec fn is_letter(c: char) -> bool {
    'a' <= c <= 'z'
}

/// A scheme of lower-case letters, other than `file`.
pub open spec fn plain_scheme(scheme: Seq<char>) -> bool {
    &&& scheme.len() > 0
    &&& forall|i: int| 0 <= i < scheme.len() ==> is_letter(#[trigger] scheme[i])
    &&& scheme != "file"@
}

/// A host of lower-case letters and dots that starts and ends with a letter.
pub open spec fn plain_host(host: Seq<char>) -> bool {
    &&& host.len() > 0
    &&& is_letter(host.first())
    &&& is_letter(host.last())
    &&& forall|i: int| 0 <= i < host.len() ==> is_letter(#[trigger] host[i]) || host[i] == '.'
}

/// The length in characters up to which the parser can count them.
pub const MAX_URL_LEN: usize = 0x7fff_ffff;

/// A length in characters at which no URL outgrows what the parser can hold.
pub const SAFE_URL_LEN: usize = 0x1000_0000;

/// An address made of a plain scheme, `://`, a plain host, and after it nothing
/// or a path.
pub open spec fn plain_address(
    text: Seq<char>,
    scheme: Seq<char>,
    host: Seq<char>,
    rest: Seq<char>,
) -> bool {
    &&& text == scheme + "://"@ + host + rest
    &&& plain_scheme(scheme)
    &&& plain_host(host)
    &&& rest.len() == 0 || rest.first() == '/'
}

/// That an outcome of parsing `text` is what a plain address calls for: it is
/// accepted unless it is very long, and whenever it is accepted, it is with its
/// scheme and its host as written.
pub open spec fn plain_address_read(
    text: Seq<char>,
    outcome: Result<UrlView, Seq<char>>,
) -> bool {
    forall|scheme: Seq<char>, host: Seq<char>, rest: Seq<char>| #[trigger]
        plain_address(text, scheme, host, rest) ==> {
            &&& text.len() <= SAFE_URL_LEN ==> outcome is Ok
            &&& outcome matches Ok(url) ==> url.scheme == scheme && url.host == Some(host)
        }
}

/// `url::Url::parse`, with the parts of the URL read by `as_str`, `scheme` and
/// `host_str`, and the error by its `Display`.
///
/// What the parser makes of a text is only named ([`parsed_url`]). Beside the
/// name stands that a plain address keeps its scheme and its host as written
/// whenever it is accepted, and that one of up to [`SAFE_URL_LEN`] characters is
/// accepted: the parser lower-cases letters only, passes hosts of `a` to `z` and
/// dots through, has no error for a path, and refuses URLs for their length only
/// from 4 GB on, which so few characters do not reach when each is
/// percent-encoded.
///
/// The parser counts the characters of an authority in a signed 32-bit integer,
/// which more than [`MAX_URL_LEN`] of them could overflow.
#[verifier::external_body]
pub(crate) fn parse_url(text: &str) -> (r: Result<PageUrl, String>)
    requires
        text@.len() <= MAX_URL_LEN,
    ensures
        url_outcome(r) == parsed_url(text@),
        plain_address_read(text@, url_outcome(r)),
{
    match url::Url::parse(text) {
        Ok(url) => Ok(PageUrl {
            href: url.as_str().to_owned(),
            scheme: url.scheme().to_owned(),
            host: url.host_str().map(|host| host.to_owned()),
        }),
        Err(error) => Err(error.to_string()),
    }
}

/// A page's address says its parts as they are, and an outcome says its address or
/// its message.
pub proof fn law_addresses_say_their_parts(page: PageUrl, outcome: Result<PageUrl, String>)
    ensures
        page@.href == page.href@,
        page@.scheme == page.scheme@,
        page.host is None ==> page@.host is None,
        page.host matches Some(host) ==> page@.host == Some(host@),
        outcome matches Ok(read) ==> url_outcome(outcome) == Ok::<UrlView, Seq<char>>(read@),
        outcome matches Err(m) ==> url_outcome(outcome) == Err::<UrlView, Seq<char>>(m@),
{
}

} // verus!
