//! JSON documents as plain values, read by `serde_json`.

use vstd::prelude::*;
use vstd::utf8::valid_utf8;

verus! {

/// `serde_json::Error`: why a text is no JSON. It is carried as it is.
#[verifier::external_type_specification]
#[verifier::external_body]
pub struct ExJsonError(serde_json::Error);

/// `serde_json::Value`: a JSON document as `serde_json` holds it.
#[verifier::external_type_specification]
#[verifier::external_body]
pub struct ExJsonValue(serde_json::Value);

/// A JSON document.
#[derive(Debug, PartialEq, Eq)]
pub enum Json {
    /// `null`.
    Null,
    /// `true` or `false`.
    Bool(bool),
    /// A number: its value where it is a whole number from 0 to 2^64 - 1,
    /// nothing where it is negative or has a fraction or an exponent.
    Number(Option<u64>),
    /// A string.
    Text(String),
    /// An array, in the order of the document.
    List(Vec<Json>),
    /// An object: its members, in the order of the document.
    Record(Vec<(String, Json)>),
}

/// The document that `serde_json::from_reader` reads from a text, as a
/// `serde_json::Value`; nothing where it rejects the text.
pub uninterp spec fn json_document(text: Seq<u8>) -> Option<Json>;

/// Hands a `serde_json::Value` over as a `Json`, variant by variant. A
/// number is handed over by `serde_json::Number::as_u64`.
#[verifier::external_body]
fn json_of_value(value: serde_json::Value) -> Json {
    match value {
        serde_json::Value::Null => Json::Null,
        serde_json::Value::Bool(b) => Json::Bool(b),
        serde_json::Value::Number(n) => Json::Number(n.as_u64()),
        serde_json::Value::String(s) => Json::Text(s),
        serde_json::Value::Array(items) => Json::List(items.into_iter().map(json_of_value).collect()),
        serde_json::Value::Object(members) => Json::Record(
            members.into_iter().map(|(k, v)| (k, json_of_value(v))).collect(),
        ),
    }
}

/// Calls `serde_json::from_reader` on the text, for a `serde_json::Value`.
/// The contract gives the outcome its name: the document on success, and
/// an error exactly where there is no document.
#[verifier::external_body]
fn read_document(text: &[u8]) -> (r: Result<Json, serde_json::Error>)
    ensures
        match r {
            Ok(doc) => json_document(text@) == Some(doc),
            Err(_) => json_document(text@) is None,
        },
{
    match serde_json::from_reader::<&[u8], serde_json::Value>(text) {
        Ok(value) => Ok(json_of_value(value)),
        Err(err) => Err(err),
    }
}

/// The text that `serde_json::to_writer` writes for the JSON object with
/// these members, each a string, in this order; nothing where it fails,
/// which it does not on a byte vector.
pub uninterp spec fn json_compact(members: Seq<(Seq<char>, Seq<char>)>) -> Option<Seq<u8>>;

/// The text that `serde_json::to_writer_pretty` writes for the JSON object
/// with these members, each a string, in this order; nothing where it
/// fails, which it does not on a byte vector.
pub uninterp spec fn json_pretty(members: Seq<(Seq<char>, Seq<char>)>) -> Option<Seq<u8>>;

/// The members as plain text.
pub open spec fn member_texts(members: Seq<(String, String)>) -> Seq<(Seq<char>, Seq<char>)> {
    Seq::new(members.len(), |i: int| (members[i].0@, members[i].1@))
}

/// Makes the `serde_json::Value` that is the object with these members,
/// each a string, in this order.
#[verifier::external_body]
fn value_of_members(members: &Vec<(String, String)>) -> serde_json::Value {
    serde_json::Value::Object(
        members.iter().map(|m| (m.0.clone(), serde_json::Value::String(m.1.clone()))).collect(),
    )
}

/// Calls `serde_json::to_writer` on an empty byte vector, with the object
/// of these members. The contract gives the text written its name. It also
/// says what the documentation of `to_writer` says: that only valid UTF-8
/// is written, and that writing fails only where a value refuses to be
/// written, a map has a name that is no string, or the writer fails; an
/// object of strings under names that are strings does neither, and a byte
/// vector takes all that is written to it.
#[verifier::external_body]
fn write_compact(members: &Vec<(String, String)>) -> (r: Result<Vec<u8>, serde_json::Error>)
    ensures
        r is Ok,
        r matches Ok(text) ==> json_compact(member_texts(members@)) == Some(text@),
        r matches Ok(text) ==> valid_utf8(text@),
{
    let mut text: Vec<u8> = Vec::new();
    match serde_json::to_writer(&mut text, &value_of_members(members)) {
        Ok(()) => Ok(text),
        Err(err) => Err(err),
    }
}

/// Calls `serde_json::to_writer_pretty` on an empty byte vector, with the
/// object of these members. The contract gives the text written its name,
/// and says of it what the contract of `write_compact` says: it is valid
/// UTF-8, and writing an object of strings to a byte vector does not fail.
#[verifier::external_body]
fn write_pretty(members: &Vec<(String, String)>) -> (r: Result<Vec<u8>, serde_json::Error>)
    ensures
        r is Ok,
        r matches Ok(text) ==> json_pretty(member_texts(members@)) == Some(text@),
        r matches Ok(text) ==> valid_utf8(text@),
{
    let mut text: Vec<u8> = Vec::new();
    match serde_json::to_writer_pretty(&mut text, &value_of_members(members)) {
        Ok(()) => Ok(text),
        Err(err) => Err(err),
    }
}

/// The text of the JSON object with these members.
pub open spec fn json_text(members: Seq<(Seq<char>, Seq<char>)>, pretty: bool) -> Option<Seq<u8>> {
    if pretty {
        json_pretty(members)
    } else {
        json_compact(members)
    }
}

/// Why a document is not what was expected.
#[derive(Debug)]
pub enum DocumentError {
    /// The text is no JSON.
    Syntax { err: serde_json::Error },
    /// The document is no record.
    NotARecord,
    /// The record has no member of this name.
    MissingField { field: String },
    /// The member of this name holds a value of the wrong kind.
    InvalidType { field: String },
    /// The member of this name holds a number above what it may hold.
    OutOfRange { field: String, value: u64 },
    /// The text names no log level.
    UnknownLevel { name: String },
    /// The name of a member is no user identifier.
    InvalidUserId { key: String },
}

/// A `DocumentError` in plain values.
pub enum Problem {
    Syntax,
    NotARecord,
    MissingField { field: Seq<char> },
    InvalidType { field: Seq<char> },
    OutOfRange { field: Seq<char>, value: u64 },
    UnknownLevel { name: Seq<char> },
    InvalidUserId { key: Seq<char> },
}

impl View for DocumentError {
    type V = Problem;

    open spec fn view(&self) -> Problem {
        match *self {
            DocumentError::Syntax { .. } => Problem::Syntax,
            DocumentError::NotARecord => Problem::NotARecord,
            DocumentError::MissingField { field } => Problem::MissingField { field: field@ },
            DocumentError::InvalidType { field } => Problem::InvalidType { field: field@ },
            DocumentError::OutOfRange { field, value } => Problem::OutOfRange { field: field@, value },
            DocumentError::UnknownLevel { name } => Problem::UnknownLevel { name: name@ },
            DocumentError::InvalidUserId { key } => Problem::InvalidUserId { key: key@ },
        }
    }
}

/// The first member called `key` among `members`.
pub open spec fn first_member(members: Seq<(String, Json)>, key: Seq<char>) -> Option<Json>
    decreases members.len(),
{
    if members.len() == 0 {
        None
    } else if members[0].0@ == key {
        Some(members[0].1)
    } else {
        first_member(members.drop_first(), key)
    }
}

/// The first member of a name is the one before which no member has that
/// name.
pub proof fn lemma_first_member_at(members: Seq<(String, Json)>, key: Seq<char>, at: int)
    requires
        0 <= at < members.len(),
        members[at].0@ == key,
        forall|j: int| 0 <= j < at ==> members[j].0@ != key,
    ensures
        first_member(members, key) == Some(members[at].1),
    decreases at,
{
    if at > 0 {
        let rest = members.drop_first();
        assert(rest[at - 1] == members[at]);
        assert forall|j: int| 0 <= j < at - 1 implies rest[j].0@ != key by {
            assert(rest[j] == members[j + 1]);
        }
        lemma_first_member_at(rest, key, at - 1);
    }
}

/// Whether a document is the record of exactly these members, each a
/// string, in this order.
pub open spec fn holds_texts(doc: Json, members: Seq<(Seq<char>, Seq<char>)>) -> bool {
    doc matches Json::Record(found) && found@.len() == members.len() && forall|i: int|
        0 <= i < members.len() ==> (#[trigger] found@[i]).0@ == members[i].0 && (
        found@[i].1 matches Json::Text(text) && text@ == members[i].1)
}

impl Json {
    /// The member called `key` of a record; nothing where the document is no
    /// record or has no such member.
    pub open spec fn member(self, key: Seq<char>) -> Option<Json> {
        match self {
            Json::Record(members) => first_member(members@, key),
            _ => None,
        }
    }

    /// The text that the member called `key` holds.
    pub open spec fn text_member(self, key: Seq<char>) -> Result<Seq<char>, Problem> {
        match self.member(key) {
            None => Err(Problem::MissingField { field: key }),
            Some(Json::Text(text)) => Ok(text@),
            Some(_) => Err(Problem::InvalidType { field: key }),
        }
    }

    /// The whole number that the member called `key` holds.
    pub open spec fn number_member(self, key: Seq<char>) -> Result<u64, Problem> {
        match self.member(key) {
            None => Err(Problem::MissingField { field: key }),
            Some(Json::Number(Some(n))) => Ok(n),
            Some(_) => Err(Problem::InvalidType { field: key }),
        }
    }

    /// Reads a document from JSON text.
    pub fn parse(text: &[u8]) -> (r: Result<Json, serde_json::Error>)
        ensures
            match r {
                Ok(doc) => json_document(text@) == Some(doc),
                Err(_) => json_document(text@) is None,
            },
    {
        read_document(text)
    }

    /// Looks a member of a record up by its name.
    pub fn get(&self, key: &str) -> (r: Option<&Json>)
        ensures
            match r {
                Some(found) => self.member(key@) == Some(*found),
                None => self.member(key@) is None,
            },
    {
        match self {
            Json::Record(members) => {
                let wanted = key.to_owned();
                let mut i: usize = 0;
                assert(members@.skip(0) == members@);
                while i < members.len()
                    invariant
                        i <= members.len(),
                        wanted@ == key@,
                        self.member(key@) == first_member(members@, key@),
                        first_member(members@, key@) == first_member(members@.skip(i as int), key@),
                    decreases members.len() - i,
                {
                    assert(members@.skip(i as int)[0] == members@[i as int]);
                    assert(members@.skip(i as int).drop_first() == members@.skip(i + 1));
                    if members[i].0 == wanted {
                        return Some(&members[i].1);
                    }
                    i += 1;
                }
                None
            },
            _ => None,
        }
    }

    /// Reads the text that a member of a record holds.
    pub fn text_field(&self, key: &str) -> (r: Result<String, DocumentError>)
        ensures
            match r {
                Ok(text) => self.text_member(key@) == Ok::<Seq<char>, Problem>(text@),
                Err(e) => self.text_member(key@) == Err::<Seq<char>, Problem>(e@),
            },
    {
        match self.get(key) {
            None => Err(DocumentError::MissingField { field: key.to_owned() }),
            Some(Json::Text(text)) => Ok(text.clone()),
            Some(_) => Err(DocumentError::InvalidType { field: key.to_owned() }),
        }
    }

    /// Reads the whole number that a member of a record holds.
    pub fn number_field(&self, key: &str) -> (r: Result<u64, DocumentError>)
        ensures
            match r {
                Ok(n) => self.number_member(key@) == Ok::<u64, Problem>(n),
                Err(e) => self.number_member(key@) == Err::<u64, Problem>(e@),
            },
    {
        match self.get(key) {
            None => Err(DocumentError::MissingField { field: key.to_owned() }),
            Some(Json::Number(Some(n))) => Ok(*n),
            Some(_) => Err(DocumentError::InvalidType { field: key.to_owned() }),
        }
    }

    /// Writes the JSON object whose members are these, each a string, in
    /// this order: on one line, or laid out over several where `pretty`.
    /// The text is valid UTF-8, and writing it does not fail.
    pub fn render(members: &Vec<(String, String)>, pretty: bool) -> (r: Result<
        Vec<u8>,
        serde_json::Error,
    >)
        ensures
            r matches Ok(text) && json_text(member_texts(members@), pretty) == Some(text@)
                && valid_utf8(text@),
    {
        if pretty {
            write_pretty(members)
        } else {
            write_compact(members)
        }
    }
}

} // verus!
