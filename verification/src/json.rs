//! JSON documents as plain values.

use vstd::prelude::*;

verus! {

/// A JSON document.
#[derive(Debug, PartialEq, Eq)]
pub enum Json {
    Null,
    Bool(bool),
    /// A number, kept as its decimal text.
    Number(String),
    /// A string.
    Text(String),
    /// An array's items in order.
    Array(Vec<Json>),
    /// An object's members in order.
    Object(Vec<Member>),
}

/// One member of an object.
#[derive(Debug, PartialEq, Eq)]
pub struct Member {
    pub name: String,
    pub value: Json,
}

/// What a [`Json`] stands for.
pub ghost enum JsonValue {
    Null,
    Bool(bool),
    Number(Seq<char>),
    Text(Seq<char>),
    Array(Seq<JsonValue>),
    Object(Seq<MemberValue>),
}

/// What a [`Member`] stands for.
pub ghost struct MemberValue {
    pub name: Seq<char>,
    pub value: JsonValue,
}

impl View for Json {
    type V = JsonValue;

    /// The same document, strings as their characters and `Vec`s as sequences. The bounds
    /// inside the two sequences only show that the view of a part is asked for.
    open spec fn view(&self) -> JsonValue
        decreases self,
    {
        match self {
            Json::Null => JsonValue::Null,
            Json::Bool(b) => JsonValue::Bool(*b),
            Json::Number(digits) => JsonValue::Number(digits@),
            Json::Text(text) => JsonValue::Text(text@),
            Json::Array(items) => JsonValue::Array(
                Seq::new(
                    items.len() as nat,
                    |i: int|
                        if 0 <= i < items.len() {
                            items[i].view()
                        } else {
                            JsonValue::Null
                        },
                ),
            ),
            Json::Object(members) => JsonValue::Object(
                Seq::new(
                    members.len() as nat,
                    |i: int|
                        if 0 <= i < members.len() {
                            MemberValue { name: members[i].name@, value: members[i].value.view() }
                        } else {
                            MemberValue { name: Seq::empty(), value: JsonValue::Null }
                        },
                ),
            ),
        }
    }
}

/// The value of the first of `members`, from position `from` on, that is named `name`.
pub open spec fn named(members: Seq<MemberValue>, name: Seq<char>, from: int) -> Option<JsonValue>
    decreases members.len() - from,
{
    if from < 0 || from >= members.len() {
        None
    } else if members[from].name == name {
        Some(members[from].value)
    } else {
        named(members, name, from + 1)
    }
}

/// What an object stands for: its members in order, each by its name's characters and its
/// value's view.
pub proof fn lemma_object_view(members: Vec<Member>)
    ensures
        Json::Object(members)@ == JsonValue::Object(
            Seq::new(
                members@.len(),
                |k: int| (MemberValue { name: members@[k].name@, value: members@[k].value@ }),
            ),
        ),
{
    let all = Json::Object(members)@->Object_0;
    assert(all =~= Seq::new(
        members@.len(),
        |k: int| MemberValue { name: members@[k].name@, value: members@[k].value@ },
    ));
}

/// What an array stands for: the views of its items in order.
pub proof fn lemma_array_view(items: Vec<Json>)
    ensures
        Json::Array(items)@ == JsonValue::Array(Seq::new(items@.len(), |k: int| items@[k]@)),
{
    let all = Json::Array(items)@->Array_0;
    assert(all =~= Seq::new(items@.len(), |k: int| items@[k]@));
}

impl JsonValue {
    /// The value of the first member named `name`, where this is an object that has one.
    pub open spec fn member(self, name: Seq<char>) -> Option<JsonValue> {
        match self {
            JsonValue::Object(members) => named(members, name, 0),
            _ => None,
        }
    }

    /// The item at `index`, where this is an array that long.
    pub open spec fn element(self, index: int) -> Option<JsonValue> {
        match self {
            JsonValue::Array(items) => if 0 <= index < items.len() {
                Some(items[index])
            } else {
                None
            },
            _ => None,
        }
    }

    /// The member named `name`, or `Null` where there is none.
    pub open spec fn field(self, name: Seq<char>) -> JsonValue {
        match self.member(name) {
            Some(value) => value,
            None => JsonValue::Null,
        }
    }

    /// The item at `index`, or `Null` where there is none.
    pub open spec fn item(self, index: int) -> JsonValue {
        match self.element(index) {
            Some(value) => value,
            None => JsonValue::Null,
        }
    }

    /// The characters, where this is a string.
    pub open spec fn text(self) -> Option<Seq<char>> {
        match self {
            JsonValue::Text(text) => Some(text),
            _ => None,
        }
    }
}

impl Json {
    /// Looks up the first member named `name`. `None` where this is no object or has no
    /// such member.
    pub fn member(&self, name: &str) -> (found: Option<&Json>)
        ensures
            match found {
                Some(value) => self@.member(name@) == Some(value@),
                None => self@.member(name@) is None,
            },
    {
        match self {
            Json::Object(members) => {
                let wanted = name.to_owned();
                let mut i: usize = 0;
                proof {
                    assert(*self == Json::Object(*members));
                    lemma_object_view(*members);
                }
                while i < members.len()
                    invariant
                        i <= members.len(),
                        wanted@ == name@,
                        self@ matches JsonValue::Object(all) && all.len() == members@.len()
                            && named(all, name@, 0) == named(all, name@, i as int)
                            && forall|k: int|
                            0 <= k < members@.len() ==> (#[trigger] all[k]).name
                                == members@[k].name@ && all[k].value == members@[k].value@,
                    decreases members.len() - i,
                {
                    if members[i].name == wanted {
                        return Some(&members[i].value);
                    }
                    i = i + 1;
                }
                None
            },
            _ => None,
        }
    }

    /// Looks up the item at `index`. `None` where this is no array or is too short.
    pub fn element(&self, index: usize) -> (found: Option<&Json>)
        ensures
            match found {
                Some(value) => self@.element(index as int) == Some(value@),
                None => self@.element(index as int) is None,
            },
    {
        match self {
            Json::Array(items) => {
                proof {
                    assert(*self == Json::Array(*items));
                    lemma_array_view(*items);
                }
                if index < items.len() {
                    Some(&items[index])
                } else {
                    None
                }
            },
            _ => None,
        }
    }

    /// The characters of a string. `None` where this is anything else.
    pub fn text(&self) -> (found: Option<&str>)
        ensures
            match found {
                Some(text) => self@.text() == Some(text@),
                None => self@.text() is None,
            },
    {
        match self {
            Json::Text(text) => Some(text.as_str()),
            _ => None,
        }
    }
}

/// `serde_json::Value`, handed on unread.
#[verifier::external_type_specification]
#[verifier::external_body]
pub struct ExValue(serde_json::Value);

/// `serde_json::Error`, handed on unread.
#[verifier::external_type_specification]
#[verifier::external_body]
pub struct ExError(serde_json::Error);

/// The document that `serde_json::from_slice` reads from `text`; `None` where it reads
/// none.
pub uninterp spec fn parsed_json(text: Seq<u8>) -> Option<JsonValue>;

/// The document that a `serde_json::Value` holds.
pub uninterp spec fn json_of(value: serde_json::Value) -> JsonValue;

/// `serde_json::from_slice`, reading a `serde_json::Value`. Nothing is claimed of the
/// grammar: only that what is read, and whether anything is, depends on the bytes alone.
#[verifier::external_body]
fn read_value(text: &[u8]) -> (read: Result<serde_json::Value, serde_json::Error>)
    ensures
        match read {
            Ok(value) => parsed_json(text@) == Some(json_of(value)),
            Err(_) => parsed_json(text@) is None,
        },
{
    serde_json::from_slice::<serde_json::Value>(text)
}

/// Moves a `serde_json::Value` into a [`Json`], variant by variant: a number as the text
/// that `serde_json` prints for it, an object's members in the order in which its map
/// hands them out. Nothing is claimed of the result but that it is the document the value
/// holds.
#[verifier::external_body]
fn from_value(value: serde_json::Value) -> (json: Json)
    ensures
        json@ == json_of(value),
{
    match value {
        serde_json::Value::Null => Json::Null,
        serde_json::Value::Bool(b) => Json::Bool(b),
        serde_json::Value::Number(n) => Json::Number(n.to_string()),
        serde_json::Value::String(s) => Json::Text(s),
        serde_json::Value::Array(items) => Json::Array(items.into_iter().map(from_value).collect()),
        serde_json::Value::Object(members) => Json::Object(
            members.into_iter().map(|(name, v)| Member { name, value: from_value(v) }).collect(),
        ),
    }
}

/// Bytes that are no JSON document.
#[derive(Debug, PartialEq, Eq)]
pub struct Malformed;

/// Reads a JSON document.
pub fn parse(text: &[u8]) -> (read: Result<Json, Malformed>)
    ensures
        match read {
            Ok(json) => parsed_json(text@) == Some(json@),
            Err(_) => parsed_json(text@) is None,
        },
{
    match read_value(text) {
        Ok(value) => Ok(from_value(value)),
        Err(_) => Err(Malformed),
    }
}

} // verus!
