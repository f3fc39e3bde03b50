//! The token vocabulary of a tokenizer file: the `model.vocab` object of its
//! JSON document, each token with its integer id.
use vstd::prelude::*;

verus! {

/// A JSON value, holding what the vocabulary reader looks at: a number holds
/// its value when it is an integer within `i64` (what `serde_json`'s
/// `Value::as_i64` gives) and `None` otherwise; an object holds its members
/// in order.
#[derive(Debug)]
pub enum JsonValue {
    Null,
    Bool(bool),
    Number(Option<i64>),
    String(String),
    Array(Vec<JsonValue>),
    Object(Vec<(String, JsonValue)>),
}

/// Why no vocabulary could be read.
#[derive(Clone, Copy, Debug, PartialEq, Eq, Structural)]
pub enum TokenizerError {
    /// The document has no object at `model.vocab`.
    NoVocab,
}

/// Why the vocabulary of a tokenizer file's text could not be read.
#[derive(Debug)]
pub enum TokenizerTextError {
    /// The text is not a JSON document.
    Json(serde_json::Error),
    /// The document has no vocabulary.
    Vocab(TokenizerError),
}

#[verifier::external_type_specification]
#[verifier::external_body]
pub struct ExSerdeJsonError(serde_json::Error);

#[verifier::external_type_specification]
#[verifier::external_body]
pub struct ExSerdeJsonValue(serde_json::Value);

impl TokenizerError {
    /// The message of the error.
    pub fn message(&self) -> (m: &'static str)
        ensures
            m@ == "No vocab found in tokenizer.json"@,
    {
        "No vocab found in tokenizer.json"
    }
}

/// The value of the first member of `members` named `key`, if there is one.
pub open spec fn member(members: Seq<(String, JsonValue)>, key: Seq<char>) -> Option<JsonValue>
    decreases members.len(),
{
    if members.len() == 0 {
        None
    } else if members[0].0@ == key {
        Some(members[0].1)
    } else {
        member(members.drop_first(), key)
    }
}

/// `value[key]`: the member `key` of an object, and `Null` when `value` is
/// not an object or has no such member.
pub open spec fn index_key(value: JsonValue, key: Seq<char>) -> JsonValue {
    match value {
        JsonValue::Object(members) => match member(members@, key) {
            Some(v) => v,
            None => JsonValue::Null,
        },
        _ => JsonValue::Null,
    }
}

/// Whether `value` is an object with a member named `key`.
pub open spec fn has_member(value: JsonValue, key: Seq<char>) -> bool {
    match value {
        JsonValue::Object(members) => member(members@, key) is Some,
        _ => false,
    }
}

/// The id a vocabulary entry gives its token: the integer when it is one
/// within `i64`, and 0 otherwise.
pub open spec fn vocab_id(value: JsonValue) -> i64 {
    match value {
        JsonValue::Number(Some(id)) => id,
        _ => 0,
    }
}

/// Members of an object as tokens with their ids.
pub open spec fn entries_of(members: Seq<(String, JsonValue)>) -> Seq<(Seq<char>, i64)> {
    members.map_values(|m: (String, JsonValue)| (m.0@, vocab_id(m.1)))
}

/// A vocabulary as read: each token's characters with its id.
pub open spec fn vocab_view(vocab: Seq<(String, i64)>) -> Seq<(Seq<char>, i64)> {
    vocab.map_values(|e: (String, i64)| (e.0@, e.1))
}

/// The vocabulary of a tokenizer document: each member of the object at
/// `model.vocab`, in order, as the token and its id; `None` when there is no
/// object there.
pub open spec fn vocabulary(doc: JsonValue) -> Option<Seq<(Seq<char>, i64)>> {
    match index_key(index_key(doc, "model"@), "vocab"@) {
        JsonValue::Object(members) => Some(entries_of(members@)),
        _ => None,
    }
}

/// The value of the first member named `key` of `value` when it is an object
/// that has one (`value[key]` is `Null` otherwise).
pub fn get_member<'a>(value: &'a JsonValue, key: &str) -> (found: Option<&'a JsonValue>)
    ensures
        found is Some <==> has_member(*value, key@),
        match found {
            Some(v) => index_key(*value, key@) == *v,
            None => index_key(*value, key@) == JsonValue::Null,
        },
{
    match value {
        JsonValue::Object(members) => {
            let wanted = String::from_str(key);
            let mut i: usize = 0;
            assert(members@.subrange(0, members@.len() as int) =~= members@);
            while i < members.len()
                invariant
                    wanted@ == key@,
                    i <= members@.len(),
                    index_key(*value, key@) == match member(members@, key@) {
                        Some(v) => v,
                        None => JsonValue::Null,
                    },
                    has_member(*value, key@) == member(members@, key@) is Some,
                    member(members@, key@) == member(members@.subrange(i as int, members@.len() as int), key@),
                decreases members@.len() - i,
            {
                let ghost rest = members@.subrange(i as int, members@.len() as int);
                assert(rest.drop_first() =~= members@.subrange(i + 1, members@.len() as int));
                assert(rest[0] == members@[i as int]);
                if members[i].0 == wanted {
                    assert(rest.len() > 0 && rest[0].0@ == key@);
                    assert(member(rest, key@) == Some(rest[0].1));
                    return Some(&members[i].1);
                }
                i = i + 1;
            }
            assert(members@.subrange(i as int, members@.len() as int) =~= Seq::<(String, JsonValue)>::empty());
            None
        },
        _ => None,
    }
}

/// The id of a vocabulary entry: its integer value, or 0 when it has none.
pub fn entry_id(value: &JsonValue) -> (id: i64)
    ensures
        id == vocab_id(*value),
{
    match value {
        JsonValue::Number(Some(id)) => *id,
        _ => 0,
    }
}

/// Reads the vocabulary of a tokenizer document: every member of the object
/// at `model.vocab`, in order, with its token and id (0 for an id that is
/// not an integer within `i64`). Fails with `NoVocab` exactly when there is no
/// object at `model.vocab`.
pub fn vocab_from_tokenizer_json(doc: &JsonValue) -> (res: Result<Vec<(String, i64)>, TokenizerError>)
    ensures
        vocabulary(*doc) is None ==> res == Err::<Vec<(String, i64)>, TokenizerError>(TokenizerError::NoVocab),
        vocabulary(*doc) matches Some(entries) ==> res matches Ok(v) && vocab_view(v@) == entries,
{
    proof {
        reveal_strlit("model");
        reveal_strlit("vocab");
    }
    let model = match get_member(doc, "model") {
        Some(m) => m,
        None => {
            assert(index_key(JsonValue::Null, "vocab"@) == JsonValue::Null);
            return Err(TokenizerError::NoVocab);
        },
    };
    let members = match get_member(model, "vocab") {
        Some(JsonValue::Object(members)) => members,
        _ => {
            return Err(TokenizerError::NoVocab);
        },
    };
    let mut vocab: Vec<(String, i64)> = Vec::new();
    let mut i: usize = 0;
    while i < members.len()
        invariant
            i <= members@.len(),
            vocab_view(vocab@) == entries_of(members@.subrange(0, i as int)),
        decreases members@.len() - i,
    {
        let token = members[i].0.clone();
        let id = entry_id(&members[i].1);
        let ghost before = vocab@;
        vocab.push((token, id));
        assert(vocab@ == before.push((token, id)));
        let ghost done = members@.subrange(0, i as int);
        assert(members@.subrange(0, i + 1) =~= done.push(members@[i as int]));
        assert(vocab_view(vocab@) =~= vocab_view(before).push((token@, id)));
        assert(entries_of(done.push(members@[i as int])) =~= entries_of(done).push(
            (members@[i as int].0@, vocab_id(members@[i as int].1)),
        ));
        i = i + 1;
    }
    assert(members@.subrange(0, members@.len() as int) =~= members@);
    Ok(vocab)
}

/// The JSON document that `text` holds, as `serde_json` reads it into its
/// `Value` (objects with their members ordered by key, the last of equal keys
/// kept), in the library's terms; `None` when `serde_json` rejects the text.
pub uninterp spec fn json_document(text: Seq<char>) -> Option<JsonValue>;

/// Calls `serde_json::from_str` for a `serde_json::Value` and converts the
/// value into a `JsonValue`, variant by variant (a number as what
/// `Number::as_i64` gives). The grammar that `serde_json` accepts and the
/// document it builds take pages to state: the contract names the outcome
/// `json_document(text)`, a function of the text alone.
#[verifier::external_body]
pub(crate) fn parse_json(text: &str) -> (res: Result<JsonValue, serde_json::Error>)
    ensures
        res is Ok <==> json_document(text@) is Some,
        res matches Ok(doc) ==> json_document(text@) == Some(doc),
{
    serde_json::from_str::<serde_json::Value>(text).map(json_value_from)
}

/// Converts a `serde_json::Value` into a `JsonValue`, one variant for one,
/// the items of an array and the members of an object in their order.
#[verifier::external_body]
fn json_value_from(value: serde_json::Value) -> JsonValue {
    match value {
        serde_json::Value::Null => JsonValue::Null,
        serde_json::Value::Bool(b) => JsonValue::Bool(b),
        serde_json::Value::Number(n) => JsonValue::Number(n.as_i64()),
        serde_json::Value::String(s) => JsonValue::String(s),
        serde_json::Value::Array(items) => JsonValue::Array(items.into_iter().map(json_value_from).collect()),
        serde_json::Value::Object(members) => JsonValue::Object(
            members.into_iter().map(|(k, v)| (k, json_value_from(v))).collect(),
        ),
    }
}

/// Reads the vocabulary of a tokenizer file from its text: the JSON error when
/// the text is no JSON document, `NoVocab` when the document has no object at
/// `model.vocab`, and otherwise every member of that object, in order, with
/// its token and id.
pub fn vocab_from_tokenizer_text(text: &str) -> (res: Result<Vec<(String, i64)>, TokenizerTextError>)
    ensures
        match json_document(text@) {
            None => res matches Err(TokenizerTextError::Json(_)),
            Some(doc) => match vocabulary(doc) {
                None => res matches Err(TokenizerTextError::Vocab(TokenizerError::NoVocab)),
                Some(entries) => res matches Ok(v) && vocab_view(v@) == entries,
            },
        },
{
    match parse_json(text) {
        Err(e) => Err(TokenizerTextError::Json(e)),
        Ok(doc) => match vocab_from_tokenizer_json(&doc) {
            Ok(v) => Ok(v),
            Err(e) => Err(TokenizerTextError::Vocab(e)),
        },
    }
}

/// Every member of the vocabulary object keeps its token and, when its value
/// is an integer within `i64`, exactly that integer as id; any other value
/// gives id 0. The entries come in the order of the members.
pub proof fn vocabulary_keeps_integer_ids(doc: JsonValue, members: Vec<(String, JsonValue)>, i: int)
    requires
        index_key(index_key(doc, "model"@), "vocab"@) == JsonValue::Object(members),
        0 <= i < members@.len(),
    ensures
        vocabulary(doc) matches Some(entries) && entries.len() == members@.len()
            && entries[i].0 == members@[i].0@ && (members@[i].1 matches JsonValue::Number(Some(v))
            ==> entries[i].1 == v) && (!(members@[i].1 matches JsonValue::Number(Some(_)))
            ==> entries[i].1 == 0),
{
}

} // verus!
