//! JSON documents, as far as the shell reads them.

use vstd::prelude::*;

use crate::text::same_text;

verus! {

/// A value inside a JSON document.
#[derive(Debug)]
pub enum JsonKind {
    Null,
    Bool,
    Number,
    /// A string, with its text.
    Text(String),
    Array,
    /// An object, with the number of its members.
    Object(usize),
}

/// A JSON document.
#[derive(Debug)]
pub enum JsonDocument {
    /// An object, with its members.
    Object(Vec<(String, JsonKind)>),
    /// Anything but an object.
    Other,
}

/// A [`JsonKind`] as a mathematical value.
pub enum JsonKindView {
    Null,
    Bool,
    Number,
    Text(Seq<char>),
    Array,
    Object(nat),
}

/// A [`JsonDocument`] as a mathematical value.
pub enum JsonView {
    Object(Map<Seq<char>, JsonKindView>),
    Other,
}

impl View for JsonKind {
    type V = JsonKindView;

    open spec fn view(&self) -> JsonKindView {
        match *self {
            JsonKind::Null => JsonKindView::Null,
            JsonKind::Bool => JsonKindView::Bool,
            JsonKind::Number => JsonKindView::Number,
            JsonKind::Text(text) => JsonKindView::Text(text@),
            JsonKind::Array => JsonKindView::Array,
            JsonKind::Object(size) => JsonKindView::Object(size as nat),
        }
    }
}

/// The members of an object by name; of two with one name the later counts.
pub open spec fn members(list: Seq<(String, JsonKind)>) -> Map<Seq<char>, JsonKindView>
    decreases list.len(),
{
    if list.len() == 0 {
        Map::empty()
    } else {
        members(list.drop_last()).insert(list.last().0@, list.last().1@)
    }
}

impl View for JsonDocument {
    type V = JsonView;

    open spec fn view(&self) -> JsonView {
        match *self {
            JsonDocument::Object(list) => JsonView::Object(members(list@)),
            JsonDocument::Other => JsonView::Other,
        }
    }
}

impl JsonView {
    /// The member of this name; only objects have members.
    pub open spec fn member(self, name: Seq<char>) -> Option<JsonKindView> {
        match self {
            JsonView::Object(map) => if map.contains_key(name) {
                Some(map[name])
            } else {
                None
            },
            JsonView::Other => None,
        }
    }
}

/// The outcome of reading a document, as a mathematical value.
pub open spec fn json_outcome(outcome: Result<JsonDocument, String>) -> Result<
    JsonView,
    Seq<char>,
> {
    match outcome {
        Ok(document) => Ok(document@),
        Err(message) => Err(message@),
    }
}

/// White space between the tokens of a JSON document.
pub open spec fn json_space(c: char) -> bool {
    c == ' ' || c == '\t' || c == '\n' || c == '\r'
}

/// A text that has an opening brace, and nothing but JSON white space before it.
pub open spec fn opens_with_brace(text: Seq<char>) -> bool {
    exists|i: int|
        0 <= i < text.len() && #[trigger] text[i] == '{' && forall|j: int|
            0 <= j < i ==> json_space(#[trigger] text[j])
}

/// The length in characters up to which the parser can count the digits of a
/// number.
pub const MAX_JSON_LEN: usize = 0x7fff_ffff;

/// What the JSON parser makes of a text: the document, or the text of its error.
pub uninterp spec fn parsed_json(text: Seq<char>) -> Result<JsonView, Seq<char>>;

/// `serde_json::from_str` into `serde_json::Value`, and the error by its
/// `Display`. Of the members of a top-level object it keeps what kind of value
/// each is, the text of strings and the size of objects.
///
/// What the parser makes of a text is only named ([`parsed_json`]). Beside the
/// name stands that a text which reads as an object opens with a brace.
///
/// The parser counts the digits of a number in a signed 32-bit integer, which more
/// than [`MAX_JSON_LEN`] of them could overflow.
#[verifier::external_body]
pub(crate) fn parse_json(text: &str) -> (r: Result<JsonDocument, String>)
    requires
        text@.len() <= MAX_JSON_LEN,
    ensures
        json_outcome(r) == parsed_json(text@),
        json_outcome(r) matches Ok(JsonView::Object(_)) ==> opens_with_brace(text@),
{
    match serde_json::from_str::<serde_json::Value>(text) {
        Ok(serde_json::Value::Object(map)) => Ok(JsonDocument::Object(map.into_iter().map(|(name, value)| {
            (name, match value {
                serde_json::Value::Null => JsonKind::Null,
                serde_json::Value::Bool(_) => JsonKind::Bool,
                serde_json::Value::Number(_) => JsonKind::Number,
                serde_json::Value::String(text) => JsonKind::Text(text),
                serde_json::Value::Array(_) => JsonKind::Array,
                serde_json::Value::Object(inner) => JsonKind::Object(inner.len()),
            })
        }).collect())),
        Ok(_) => Ok(JsonDocument::Other),
        Err(error) => Err(error.to_string()),
    }
}

impl JsonDocument {
    /// Whether the document is an object.
    pub fn is_object(&self) -> (r: bool)
        ensures
            r == (self@ is Object),
    {
        match self {
            JsonDocument::Object(_) => true,
            JsonDocument::Other => false,
        }
    }

    /// The member of this name.
    pub fn get(&self, name: &str) -> (r: Option<&JsonKind>)
        ensures
            (match r {
                Some(kind) => Some(kind@),
                None => None,
            }) == self@.member(name@),
    {
        match self {
            JsonDocument::Other => None,
            JsonDocument::Object(list) => {
                let mut i: usize = list.len();
                assert(list@.take(i as int) =~= list@);
                while i > 0
                    invariant
                        i <= list.len(),
                        self@ == JsonView::Object(members(list@)),
                        members(list@).contains_key(name@) == members(
                            list@.take(i as int),
                        ).contains_key(name@),
                        members(list@).contains_key(name@) ==> members(list@)[name@] == members(
                            list@.take(i as int),
                        )[name@],
                    decreases i,
                {
                    i = i - 1;
                    assert(list@.take(i + 1).drop_last() =~= list@.take(i as int));
                    if same_text(&list[i].0, name) {
                        return Some(&list[i].1);
                    }
                }
                None
            },
        }
    }
}

/// Of the members of an object, the last one of a name is the member of that name,
/// and there is one if and only if some member has the name.
pub proof fn law_the_last_member_of_a_name_counts(
    list: Seq<(String, JsonKind)>,
    name: Seq<char>,
    at: int,
)
    ensures
        JsonView::Object(members(list)).member(name) is Some <==> exists|i: int|
            0 <= i < list.len() && (#[trigger] list[i]).0@ == name,
        0 <= at < list.len() && list[at].0@ == name && (forall|j: int|
            at < j < list.len() ==> (#[trigger] list[j]).0@ != name) ==> JsonView::Object(
            members(list),
        ).member(name) == Some(list[at].1@),
        JsonView::Other.member(name) is None,
    decreases list.len(),
{
    if list.len() > 0 {
        let before = list.drop_last();
        let n = list.len() - 1;
        law_the_last_member_of_a_name_counts(before, name, at);
        assert(list.last() == list[n]);
        assert(forall|i: int| 0 <= i < n ==> #[trigger] before[i] == list[i]);
        if exists|i: int| 0 <= i < before.len() && (#[trigger] before[i]).0@ == name {
            let i = choose|i: int| 0 <= i < before.len() && (#[trigger] before[i]).0@ == name;
            assert(list[i].0@ == name);
        }
        if exists|i: int| 0 <= i < list.len() && (#[trigger] list[i]).0@ == name {
            let i = choose|i: int| 0 <= i < list.len() && (#[trigger] list[i]).0@ == name;
            if i < n {
                assert(before[i].0@ == name);
            }
        }
        if 0 <= at < n {
            assert(list[n].0@ == name || list[n].0@ != name);
            assert(forall|j: int| at < j < n ==> (#[trigger] before[j]).0@ == list[j].0@);
        }
    }
}

/// Values say of what kind they are, strings with their text and objects with their
/// size; documents say whether they are objects, with their members.
pub proof fn law_documents_say_what_they_hold(
    text: String,
    size: usize,
    list: Vec<(String, JsonKind)>,
    outcome: Result<JsonDocument, String>,
)
    ensures
        JsonKind::Null@ == JsonKindView::Null,
        JsonKind::Bool@ == JsonKindView::Bool,
        JsonKind::Number@ == JsonKindView::Number,
        JsonKind::Text(text)@ == JsonKindView::Text(text@),
        JsonKind::Array@ == JsonKindView::Array,
        JsonKind::Object(size)@ == JsonKindView::Object(size as nat),
        JsonDocument::Object(list)@ == JsonView::Object(members(list@)),
        JsonDocument::Other@ == JsonView::Other,
        outcome matches Ok(document) ==> json_outcome(outcome) == Ok::<JsonView, Seq<char>>(
            document@,
        ),
        outcome matches Err(m) ==> json_outcome(outcome) == Err::<JsonView, Seq<char>>(m@),
{
}

} // verus!
