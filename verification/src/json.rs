//! JSON documents as plain values, and the reading and writing of JSON text.

use vstd::prelude::*;
use vstd::utf8::*;

verus! {

/// `serde_json::Number`, declared so that a document can carry a number
/// through as it was read; nothing is known of what is inside.
#[verifier::external_type_specification]
#[verifier::external_body]
pub struct ExNumber(serde_json::Number);

/// `Clone::clone` of `serde_json::Number`: the copy is the same number.
pub assume_specification[ <serde_json::Number as Clone>::clone ](
    number: &serde_json::Number,
) -> (copy: serde_json::Number)
    ensures
        copy == *number,
;

/// `serde_json::Value`, declared for the two conversions below; nothing is
/// known of what is inside.
#[verifier::external_type_specification]
#[verifier::external_body]
pub struct ExValue(serde_json::Value);

/// One member of a JSON object.
#[derive(Debug, PartialEq, Eq)]
pub struct Member {
    pub key: String,
    pub value: JsonValue,
}

/// A JSON document.
#[derive(Debug, PartialEq, Eq)]
pub enum JsonValue {
    Null,
    Bool(bool),
    Number(serde_json::Number),
    String(String),
    Array(Vec<JsonValue>),
    Object(Vec<Member>),
}

/// The mathematical content of a [`Member`].
pub struct MemberView {
    pub key: Seq<char>,
    pub value: JsonView,
}

/// The mathematical content of a [`JsonValue`].
pub enum JsonView {
    Null,
    Bool(bool),
    Number(serde_json::Number),
    String(Seq<char>),
    Array(Seq<JsonView>),
    Object(Seq<MemberView>),
}

impl View for JsonValue {
    type V = JsonView;

    open spec fn view(&self) -> JsonView
        decreases self,
    {
        match self {
            JsonValue::Null => JsonView::Null,
            JsonValue::Bool(b) => JsonView::Bool(*b),
            JsonValue::Number(n) => JsonView::Number(*n),
            JsonValue::String(s) => JsonView::String(s@),
            JsonValue::Array(items) => JsonView::Array(
                Seq::new(
                    items@.len(),
                    |i: int|
                        if 0 <= i < items@.len() {
                            items[i].view()
                        } else {
                            JsonView::Null
                        },
                ),
            ),
            JsonValue::Object(members) => JsonView::Object(
                Seq::new(
                    members@.len(),
                    |i: int|
                        if 0 <= i < members@.len() {
                            MemberView { key: members[i].key@, value: members[i].value.view() }
                        } else {
                            MemberView { key: Seq::empty(), value: JsonView::Null }
                        },
                ),
            ),
        }
    }
}

/// What the JSON reader makes of a piece of text: the document, or the words
/// in which it refuses the text.
pub uninterp spec fn json_parse(bytes: Seq<u8>) -> Result<JsonView, Seq<char>>;

/// The text that the JSON writer gives for a document.
pub uninterp spec fn json_text(value: JsonView) -> Seq<char>;

/// The words in which the UTF-8 decoder refuses a byte string.
pub uninterp spec fn utf8_fault(bytes: Seq<u8>) -> Seq<char>;

/// Turns a document of `serde_json` into a [`JsonValue`], variant by
/// variant; the members of an object come in the order in which the object
/// hands them out.
#[verifier::external_body]
fn lift(value: serde_json::Value) -> JsonValue {
    match value {
        serde_json::Value::Null => JsonValue::Null,
        serde_json::Value::Bool(b) => JsonValue::Bool(b),
        serde_json::Value::Number(n) => JsonValue::Number(n),
        serde_json::Value::String(s) => JsonValue::String(s),
        serde_json::Value::Array(items) => JsonValue::Array(items.into_iter().map(lift).collect()),
        serde_json::Value::Object(members) => JsonValue::Object(
            members.into_iter().map(|(key, value)| Member { key, value: lift(value) }).collect(),
        ),
    }
}

/// Turns a [`JsonValue`] into a document of `serde_json`, variant by
/// variant; the members of an object are handed to the object one after
/// the other.
#[verifier::external_body]
fn lower(value: &JsonValue) -> serde_json::Value {
    match value {
        JsonValue::Null => serde_json::Value::Null,
        JsonValue::Bool(b) => serde_json::Value::Bool(*b),
        JsonValue::Number(n) => serde_json::Value::Number(n.clone()),
        JsonValue::String(s) => serde_json::Value::String(s.clone()),
        JsonValue::Array(items) => serde_json::Value::Array(items.iter().map(lower).collect()),
        JsonValue::Object(members) => serde_json::Value::Object(
            members.iter().map(|member| (member.key.clone(), lower(&member.value))).collect(),
        ),
    }
}

/// `serde_json::from_slice`, reading a whole document: the result is a
/// function of the bytes alone, the document on success and the reader's
/// message on failure.
#[verifier::external_body]
fn parse_json(bytes: &[u8]) -> (parsed: Result<JsonValue, String>)
    ensures
        match parsed {
            Ok(value) => json_parse(bytes@) == Ok::<JsonView, Seq<char>>(value@),
            Err(detail) => json_parse(bytes@) == Err::<JsonView, Seq<char>>(detail@),
        },
{
    match serde_json::from_slice::<serde_json::Value>(bytes) {
        Ok(value) => Ok(lift(value)),
        Err(error) => Err(error.to_string()),
    }
}

/// `serde_json::to_string` on a document: the text is a function of the
/// document's content alone. Writing a document into memory cannot fail: its
/// keys are strings and its numbers are finite.
#[verifier::external_body]
fn write_json(value: &JsonValue) -> (text: String)
    ensures
        text@ == json_text(value@),
{
    serde_json::to_string(&lower(value)).unwrap()
}

/// `std::str::from_utf8`: the bytes as text if and only if they are valid
/// UTF-8, and the decoder's message otherwise.
#[verifier::external_body]
pub(crate) fn utf8_text(bytes: &[u8]) -> (decoded: Result<&str, String>)
    ensures
        match decoded {
            Ok(text) => valid_utf8(bytes@) && text@ == decode_utf8(bytes@),
            Err(detail) => !valid_utf8(bytes@) && detail@ == utf8_fault(bytes@),
        },
{
    match std::str::from_utf8(bytes) {
        Ok(text) => Ok(text),
        Err(error) => Err(error.to_string()),
    }
}

/// The value that a list of members holds under a key: that of the last
/// member with the key, as in an object that is filled member by member.
pub open spec fn spec_member(members: Seq<MemberView>, key: Seq<char>) -> Option<
    JsonView,
>
    decreases members.len(),
{
    if members.len() == 0 {
        None
    } else if members.last().key == key {
        Some(members.last().value)
    } else {
        spec_member(members.drop_last(), key)
    }
}

/// The member of an object under a key; anything but an object has no
/// members.
pub open spec fn spec_get(value: JsonView, key: Seq<char>) -> Option<JsonView> {
    match value {
        JsonView::Object(members) => spec_member(members, key),
        _ => None,
    }
}

/// The text of a JSON string; anything but a string has none.
pub open spec fn spec_as_text(value: JsonView) -> Option<Seq<char>> {
    match value {
        JsonView::String(text) => Some(text),
        _ => None,
    }
}

/// The text under a key of an object, where the member is a string.
pub open spec fn spec_text_at(value: JsonView, key: Seq<char>) -> Option<Seq<char>> {
    match spec_get(value, key) {
        Some(member) => spec_as_text(member),
        None => None,
    }
}

/// The items of a JSON array; anything but an array has none.
pub open spec fn spec_as_array(value: JsonView) -> Option<Seq<JsonView>> {
    match value {
        JsonView::Array(items) => Some(items),
        _ => None,
    }
}

/// The object with one member.
pub open spec fn spec_single(key: Seq<char>, value: JsonView) -> JsonView {
    JsonView::Object(seq![MemberView { key, value }])
}

/// The views of a list of members.
pub open spec fn spec_members(members: Seq<Member>) -> Seq<MemberView> {
    Seq::new(members.len(), |i: int| MemberView { key: members[i].key@, value: members[i].value@ })
}

/// The views of a list of documents.
pub open spec fn spec_items(items: Seq<JsonValue>) -> Seq<JsonView> {
    Seq::new(items.len(), |i: int| items[i]@)
}

impl Clone for JsonValue {
    fn clone(&self) -> (copy: JsonValue)
        ensures
            copy@ == self@,
        decreases self,
    {
        match self {
            JsonValue::Null => JsonValue::Null,
            JsonValue::Bool(b) => JsonValue::Bool(*b),
            JsonValue::Number(n) => JsonValue::Number(n.clone()),
            JsonValue::String(s) => JsonValue::String(s.clone()),
            JsonValue::Array(items) => {
                let mut copies: Vec<JsonValue> = Vec::new();
                let mut i: usize = 0;
                while i < items.len()
                    invariant
                        i <= items@.len(),
                        copies@.len() == i,
                        self == JsonValue::Array(*items),
                        forall|k: int| 0 <= k < i ==> (#[trigger] copies@[k])@ == items@[k]@,
                    decreases items@.len() - i,
                {
                    proof {
                        vstd::std_specs::vec::axiom_vec_index_decreases(*items, i as int);
                        assert(self is Array && self->Array_0 == *items);
                    }
                    copies.push(items[i].clone());
                    i += 1;
                }
                proof {
                    JsonValue::lemma_array_view(*items);
                    JsonValue::lemma_array_view(copies);
                    assert(spec_items(copies@) =~= spec_items(items@));
                }
                JsonValue::Array(copies)
            },
            JsonValue::Object(members) => {
                let mut copies: Vec<Member> = Vec::new();
                let mut i: usize = 0;
                while i < members.len()
                    invariant
                        i <= members@.len(),
                        copies@.len() == i,
                        self == JsonValue::Object(*members),
                        forall|k: int|
                            0 <= k < i ==> (#[trigger] copies@[k]).key@ == members@[k].key@
                                && copies@[k].value@ == members@[k].value@,
                    decreases members@.len() - i,
                {
                    proof {
                        vstd::std_specs::vec::axiom_vec_index_decreases(*members, i as int);
                        assert(self is Object && self->Object_0 == *members);
                    }
                    copies.push(
                        Member { key: members[i].key.clone(), value: members[i].value.clone() },
                    );
                    i += 1;
                }
                proof {
                    JsonValue::lemma_object_view(*members);
                    JsonValue::lemma_object_view(copies);
                    assert(spec_members(copies@) =~= spec_members(members@));
                }
                JsonValue::Object(copies)
            },
        }
    }
}

impl JsonValue {
    /// The view of an object is the list of the views of its members.
    pub proof fn lemma_object_view(members: Vec<Member>)
        ensures
            JsonValue::Object(members)@ == JsonView::Object(spec_members(members@)),
    {
        assert(JsonValue::Object(members)@->Object_0 =~= spec_members(members@));
    }

    /// The view of an array is the list of the views of its items.
    pub proof fn lemma_array_view(items: Vec<JsonValue>)
        ensures
            JsonValue::Array(items)@ == JsonView::Array(spec_items(items@)),
    {
        assert(JsonValue::Array(items)@->Array_0 =~= spec_items(items@));
    }

    /// The object with the given members.
    pub fn object(members: Vec<Member>) -> (value: JsonValue)
        ensures
            value@ == JsonView::Object(spec_members(members@)),
    {
        proof {
            JsonValue::lemma_object_view(members);
        }
        JsonValue::Object(members)
    }

    /// The array with the given items.
    pub fn array(items: Vec<JsonValue>) -> (value: JsonValue)
        ensures
            value@ == JsonView::Array(spec_items(items@)),
    {
        proof {
            JsonValue::lemma_array_view(items);
        }
        JsonValue::Array(items)
    }

    /// A JSON string with the given text.
    pub fn text(text: &str) -> (value: JsonValue)
        ensures
            value@ == JsonView::String(text@),
    {
        JsonValue::String(text.to_owned())
    }

    /// The member of an object under `key`.
    pub fn get(&self, key: &str) -> (found: Option<&JsonValue>)
        ensures
            match found {
                Some(member) => spec_get(self@, key@) == Some(member@),
                None => spec_get(self@, key@) is None,
            },
    {
        match self {
            JsonValue::Object(members) => {
                proof {
                    JsonValue::lemma_object_view(*members);
                }
                let ghost all = spec_members(members@);
                let mut i: usize = members.len();
                assert(all.take(i as int) =~= all);
                while i > 0
                    invariant
                        i <= members@.len(),
                        all == spec_members(members@),
                        self@ == JsonView::Object(all),
                        spec_member(all, key@) == spec_member(all.take(i as int), key@),
                    decreases i,
                {
                    i -= 1;
                    assert(all.take(i + 1).drop_last() =~= all.take(i as int));
                    assert(all.take(i + 1).last() == all[i as int]);
                    assert(all[i as int].value == members@[i as int].value@);
                    if crate::text::same_text(members[i].key.as_str(), key) {
                        return Some(&members[i].value);
                    }
                }
                assert(all.take(0).len() == 0);
                None
            },
            _ => None,
        }
    }

    /// The text of a JSON string.
    pub fn as_text(&self) -> (found: Option<&str>)
        ensures
            match found {
                Some(text) => spec_as_text(self@) == Some(text@),
                None => spec_as_text(self@) is None,
            },
    {
        match self {
            JsonValue::String(text) => Some(text.as_str()),
            _ => None,
        }
    }

    /// The text under `key` of an object, where the member is a string.
    pub fn text_at(&self, key: &str) -> (found: Option<&str>)
        ensures
            match found {
                Some(text) => spec_text_at(self@, key@) == Some(text@),
                None => spec_text_at(self@, key@) is None,
            },
    {
        match self.get(key) {
            Some(member) => member.as_text(),
            None => None,
        }
    }

    /// The items of a JSON array.
    pub fn as_array(&self) -> (found: Option<&Vec<JsonValue>>)
        ensures
            match found {
                Some(items) => spec_as_array(self@) == Some(spec_items(items@)),
                None => spec_as_array(self@) is None,
            },
    {
        match self {
            JsonValue::Array(items) => {
                proof {
                    JsonValue::lemma_array_view(*items);
                }
                Some(items)
            },
            _ => None,
        }
    }

    /// The object with the one member `key`.
    pub fn single(key: &str, value: JsonValue) -> (object: JsonValue)
        ensures
            object@ == spec_single(key@, value@),
    {
        let mut members: Vec<Member> = Vec::new();
        members.push(Member { key: key.to_owned(), value });
        proof {
            JsonValue::lemma_object_view(members);
            assert(spec_members(members@) =~= seq![MemberView { key: key@, value: value@ }]);
        }
        JsonValue::Object(members)
    }

    /// Reads a JSON document.
    pub fn parse(bytes: &[u8]) -> (parsed: Result<JsonValue, String>)
        ensures
            match parsed {
                Ok(value) => json_parse(bytes@) == Ok::<JsonView, Seq<char>>(value@),
                Err(detail) => json_parse(bytes@) == Err::<JsonView, Seq<char>>(detail@),
            },
    {
        parse_json(bytes)
    }

    /// Writes the document as JSON text.
    pub fn to_text(&self) -> (text: String)
        ensures
            text@ == json_text(self@),
    {
        write_json(self)
    }
}

} // verus!
