use vstd::prelude::*;

use crate::error::FdwError;

verus! {

/// A JSON value, as the adapter reads it.
///
/// Numbers keep only what the adapter can use of them: their value where it is
/// an integer that fits in `i64`, and `None` for any other number.
/// An object holds each key once; as parsed by [`Json::parse`], its members come
/// sorted by key, and of a key that the text repeats the last value wins.
#[derive(Debug)]
pub enum Json {
    Null,
    Bool(bool),
    Number(Option<i64>),
    Str(String),
    Array(Vec<Json>),
    Object(Vec<(String, Json)>),
}

/// The value of the first member of `members` whose key is `key`.
pub open spec fn member_of(members: Seq<(String, Json)>, key: Seq<char>) -> Option<Json>
    decreases members.len(),
{
    if members.len() == 0 {
        None
    } else if members[0].0@ == key {
        Some(members[0].1)
    } else {
        member_of(members.drop_first(), key)
    }
}

/// The index of the first member of `members` whose key is `key`.
pub open spec fn member_index(members: Seq<(String, Json)>, key: Seq<char>) -> Option<int>
    decreases members.len(),
{
    if members.len() == 0 {
        None
    } else if members[0].0@ == key {
        Some(0)
    } else {
        match member_index(members.drop_first(), key) {
            Some(i) => Some(i + 1),
            None => None,
        }
    }
}

proof fn lemma_member_index(members: Seq<(String, Json)>, key: Seq<char>)
    ensures
        match member_index(members, key) {
            Some(i) => 0 <= i < members.len() && members[i].0@ == key && member_of(members, key)
                == Some(members[i].1) && forall|j: int| 0 <= j < i ==> members[j].0@ != key,
            None => member_of(members, key) is None && forall|j: int|
                0 <= j < members.len() ==> members[j].0@ != key,
        },
    decreases members.len(),
{
    if members.len() > 0 {
        lemma_member_index(members.drop_first(), key);
        if members[0].0@ != key {
            assert forall|j: int| 0 < j < members.len() implies members[j] == members.drop_first()[j
                - 1] by {}
        }
    }
}

/// Where no member before `i` has key `key` and the member at `i` has it, that
/// member's value is the one found.
proof fn lemma_first_member(members: Seq<(String, Json)>, key: Seq<char>, i: int)
    requires
        0 <= i < members.len(),
        members[i].0@ == key,
        forall|j: int| 0 <= j < i ==> members[j].0@ != key,
    ensures
        member_of(members, key) == Some(members[i].1),
{
    lemma_member_index(members, key);
    let k = member_index(members, key);
    if k is Some {
        assert(members[k->Some_0].0@ == key);
    } else {
        assert(members[i].0@ == key);
    }
}

impl Json {
    /// The member `key` of an object; `None` for a missing member or a value that
    /// is not an object.
    pub open spec fn member(self, key: Seq<char>) -> Option<Json> {
        match self {
            Json::Object(members) => member_of(members@, key),
            _ => None,
        }
    }

    /// Looks up the member `key` of an object.
    pub fn get(&self, key: &str) -> (r: Option<&Json>)
        ensures
            match r {
                Some(v) => self.member(key@) == Some(*v),
                None => self.member(key@) is None,
            },
    {
        match self {
            Json::Object(members) => {
                let mut i: usize = 0;
                while i < members.len()
                    invariant
                        i <= members@.len(),
                        self.member(key@) == member_of(members@, key@),
                        forall|j: int| 0 <= j < i ==> members@[j].0@ != key@,
                    decreases members.len() - i,
                {
                    if same_text(&members[i].0, key) {
                        proof {
                            lemma_first_member(members@, key@, i as int);
                        }
                        return Some(&members[i].1);
                    }
                    i = i + 1;
                }
                proof {
                    lemma_member_index(members@, key@);
                }
                None
            },
            _ => None,
        }
    }
}

impl Json {
    /// Moves the member `key` out of an object; `None` for a missing member or a
    /// value that is not an object.
    pub fn take(self, key: &str) -> (r: Option<Json>)
        ensures
            r == self.member(key@),
    {
        let ghost whole = self;
        match self {
            Json::Object(members) => {
                let mut members = members;
                let mut i: usize = 0;
                while i < members.len()
                    invariant
                        i <= members@.len(),
                        whole.member(key@) == member_of(members@, key@),
                        whole == self,
                        forall|j: int| 0 <= j < i ==> members@[j].0@ != key@,
                    decreases members.len() - i,
                {
                    if same_text(&members[i].0, key) {
                        proof {
                            lemma_first_member(members@, key@, i as int);
                        }
                        let ghost found = members@[i as int].1;
                        assert(whole.member(key@) == Some(found));
                        let (_, v) = members.remove(i);
                        assert(v == found);
                        return Some(v);
                    }
                    i = i + 1;
                }
                proof {
                    lemma_member_index(members@, key@);
                }
                None
            },
            _ => None,
        }
    }
}

/// Whether two texts hold the same characters.
pub fn same_text(a: &str, b: &str) -> (r: bool)
    ensures
        r == (a@ == b@),
{
    let a: String = a.to_owned();
    let b: String = b.to_owned();
    a == b
}


#[verifier::external_type_specification]
#[verifier::external_body]
pub struct ExValue(serde_json::Value);

#[verifier::external_type_specification]
#[verifier::external_body]
pub struct ExNumber(serde_json::Number);

/// Relies on serde_json::Number::as_i64: the number's value where it is an
/// integer that fits in `i64`, else `None`.
pub assume_specification[ serde_json::Number::as_i64 ](n: &serde_json::Number) -> Option<i64>;

/// One level of a parsed `serde_json::Value`: its kind, with its contents moved out.
enum Node {
    Null,
    Bool(bool),
    Number(serde_json::Number),
    Str(String),
    Array(Vec<serde_json::Value>),
    Object(Vec<(String, serde_json::Value)>),
}

/// Relies on the variants of serde_json::Value and on serde_json::Map's
/// `into_iter`, which yields each member of an object once, sorted by key.
#[verifier::external_body]
fn node_of(v: serde_json::Value) -> (r: Node) {
    match v {
        serde_json::Value::Null => Node::Null,
        serde_json::Value::Bool(b) => Node::Bool(b),
        serde_json::Value::Number(n) => Node::Number(n),
        serde_json::Value::String(s) => Node::Str(s),
        serde_json::Value::Array(a) => Node::Array(a),
        serde_json::Value::Object(m) => Node::Object(m.into_iter().collect()),
    }
}

/// How deeply the converter follows arrays and objects. The parser refuses
/// documents nested 128 deep, so every document that it accepts fits.
pub const MAX_DEPTH: usize = 130;

/// Moves the elements of `items` out in order, converting each.
fn array_from_values(items: Vec<serde_json::Value>, depth: usize) -> (r: Option<Vec<Json>>)
    requires
        depth > 0,
    ensures
        r matches Some(out) ==> out@.len() == items@.len(),
    decreases depth, 0nat,
{
    let mut rest = items;
    let mut reversed: Vec<Json> = Vec::new();
    while rest.len() > 0
        invariant
            depth > 0,
            reversed@.len() + rest@.len() == items@.len(),
        decreases rest.len(),
    {
        let v = rest.pop().unwrap();
        match from_value(v, depth - 1) {
            Some(j) => reversed.push(j),
            None => return None,
        }
    }
    let mut out: Vec<Json> = Vec::new();
    while reversed.len() > 0
        invariant
            reversed@.len() + out@.len() == items@.len(),
        decreases reversed.len(),
    {
        let j = reversed.pop().unwrap();
        out.push(j);
    }
    Some(out)
}

/// Moves the members of an object out in order, converting each value.
fn object_from_values(members: Vec<(String, serde_json::Value)>, depth: usize) -> (r: Option<
    Vec<(String, Json)>,
>)
    requires
        depth > 0,
    ensures
        r matches Some(out) ==> out@.len() == members@.len(),
    decreases depth, 0nat,
{
    let mut rest = members;
    let mut reversed: Vec<(String, Json)> = Vec::new();
    while rest.len() > 0
        invariant
            depth > 0,
            reversed@.len() + rest@.len() == members@.len(),
        decreases rest.len(),
    {
        let (k, v) = rest.pop().unwrap();
        match from_value(v, depth - 1) {
            Some(j) => reversed.push((k, j)),
            None => return None,
        }
    }
    let mut out: Vec<(String, Json)> = Vec::new();
    while reversed.len() > 0
        invariant
            reversed@.len() + out@.len() == members@.len(),
        decreases reversed.len(),
    {
        let m = reversed.pop().unwrap();
        out.push(m);
    }
    Some(out)
}

/// Converts a parsed value into the library's model, one node for one, following
/// at most `depth` levels; `None` where the value is nested deeper.
fn from_value(v: serde_json::Value, depth: usize) -> (r: Option<Json>)
    ensures
        depth == 0 ==> r is None,
    decreases depth, 1nat,
{
    if depth == 0 {
        return None;
    }
    match node_of(v) {
        Node::Null => Some(Json::Null),
        Node::Bool(b) => Some(Json::Bool(b)),
        Node::Number(n) => Some(Json::Number(n.as_i64())),
        Node::Str(s) => Some(Json::Str(s)),
        Node::Array(items) => match array_from_values(items, depth) {
            Some(out) => Some(Json::Array(out)),
            None => None,
        },
        Node::Object(members) => match object_from_values(members, depth) {
            Some(out) => Some(Json::Object(out)),
            None => None,
        },
    }
}

/// The document that a JSON text holds, as serde_json parses it; `None` for a
/// text that is not JSON.
pub uninterp spec fn json_of(text: Seq<char>) -> Option<Json>;

/// Relies on serde_json::from_str: the parse depends on the text alone, and an
/// error's `Display` says what is wrong. The parsed value is converted one for
/// one into the library's model.
#[verifier::external_body]
fn parse_json(text: &str) -> (r: Result<Json, String>)
    ensures
        match json_of(text@) {
            Some(j) => r matches Ok(v) && v == j,
            None => r is Err,
        },
{
    match serde_json::from_str::<serde_json::Value>(text) {
        Ok(v) => from_value(v, MAX_DEPTH).ok_or_else(|| "nested too deeply".to_string()),
        Err(e) => Err(e.to_string()),
    }
}

impl Json {
    /// Parses a JSON text: the document it holds, or a `DecodeError` for a text
    /// that is not JSON.
    pub fn parse(text: &str) -> (r: Result<Json, FdwError>)
        ensures
            match json_of(text@) {
                Some(j) => r matches Ok(v) && v == j,
                None => r matches Err(FdwError::DecodeError(_)),
            },
    {
        match parse_json(text) {
            Ok(j) => Ok(j),
            Err(m) => Err(FdwError::DecodeError(m)),
        }
    }
}

} // verus!
