//! JSON objects as seen by the relay protocol, read through serde_json.
use vstd::prelude::*;

verus! {

#[verifier::external_type_specification]
#[verifier::external_body]
pub struct ExJsonValue(serde_json::Value);

#[verifier::external_type_specification]
#[verifier::external_body]
#[verifier::reject_recursive_types(K)]
#[verifier::reject_recursive_types(V)]
pub struct ExJsonMap<K, V>(serde_json::Map<K, V>);

/// A decoded JSON object: member names to values.
pub type JsonObject = serde_json::Map<String, serde_json::Value>;

/// Whether the text is a JSON document whose top level is an object.
pub uninterp spec fn json_object_text(s: Seq<char>) -> bool;

/// The member names of an object.
pub uninterp spec fn member_names(m: JsonObject) -> Set<Seq<char>>;

/// The members of an object whose value is a JSON string.
pub uninterp spec fn string_members(m: JsonObject) -> Map<Seq<char>, Seq<char>>;

/// The members of an object whose value is a non-negative integer that fits in 64 bits.
pub uninterp spec fn u64_members(m: JsonObject) -> Map<Seq<char>, u64>;

/// The members of an object whose value is `true` or `false`.
pub uninterp spec fn bool_members(m: JsonObject) -> Map<Seq<char>, bool>;

/// The member names of the object that the text encodes.
pub uninterp spec fn text_member_names(s: Seq<char>) -> Set<Seq<char>>;

/// The string-valued members of the object that the text encodes.
pub uninterp spec fn text_string_members(s: Seq<char>) -> Map<Seq<char>, Seq<char>>;

/// The members of the object that the text encodes whose value is a
/// non-negative integer that fits in 64 bits.
pub uninterp spec fn text_u64_members(s: Seq<char>) -> Map<Seq<char>, u64>;

/// The boolean members of the object that the text encodes.
pub uninterp spec fn text_bool_members(s: Seq<char>) -> Map<Seq<char>, bool>;

/// What an object holds, as plain values.
pub struct Members {
    pub names: Set<Seq<char>>,
    pub strings: Map<Seq<char>, Seq<char>>,
    pub u64s: Map<Seq<char>, u64>,
    pub bools: Map<Seq<char>, bool>,
}

impl Members {
    /// The same members but the one named `k`.
    pub open spec fn without(self, k: Seq<char>) -> Members {
        Members {
            names: self.names.remove(k),
            strings: self.strings.remove(k),
            u64s: self.u64s.remove(k),
            bools: self.bools.remove(k),
        }
    }
}

pub open spec fn members(m: JsonObject) -> Members {
    Members {
        names: member_names(m),
        strings: string_members(m),
        u64s: u64_members(m),
        bools: bool_members(m),
    }
}

/// The members of the object that the text encodes.
pub open spec fn text_members(s: Seq<char>) -> Members {
    Members {
        names: text_member_names(s),
        strings: text_string_members(s),
        u64s: text_u64_members(s),
        bools: text_bool_members(s),
    }
}

/// The JSON string literal that encodes the text, quotes and escapes included.
pub uninterp spec fn json_quote_of(s: Seq<char>) -> Seq<char>;

/// Relies on serde_json::from_str into a serde_json::Map: it succeeds exactly
/// on texts whose top level is a JSON object, and what the object holds
/// depends on the text alone.
#[verifier::external_body]
pub fn parse_object(s: &str) -> (r: Option<JsonObject>)
    ensures
        r is Some <==> json_object_text(s@),
        r matches Some(m) ==> {
            &&& member_names(m) == text_member_names(s@)
            &&& string_members(m) == text_string_members(s@)
            &&& u64_members(m) == text_u64_members(s@)
            &&& bool_members(m) == text_bool_members(s@)
        },
{
    serde_json::from_str::<JsonObject>(s).ok()
}

/// Relies on serde_json::Map::get and serde_json::Value::as_str: the member's
/// text when its value is a JSON string.
#[verifier::external_body]
pub fn string_member(m: &JsonObject, key: &str) -> (r: Option<String>)
    ensures
        r is Some <==> string_members(*m).contains_key(key@),
        r matches Some(v) ==> v@ == string_members(*m)[key@],
{
    m.get(key).and_then(|v| v.as_str()).map(|v| v.to_string())
}

/// Relies on serde_json::Map::get and serde_json::Value::as_u64: the member's
/// value when it is a non-negative integer that fits in 64 bits.
#[verifier::external_body]
pub fn u64_member(m: &JsonObject, key: &str) -> (r: Option<u64>)
    ensures
        r is Some <==> u64_members(*m).contains_key(key@),
        r matches Some(v) ==> v == u64_members(*m)[key@],
{
    m.get(key).and_then(|v| v.as_u64())
}

/// Relies on serde_json::Map::get and serde_json::Value::as_bool: the member's
/// value when it is a boolean.
#[verifier::external_body]
pub fn bool_member(m: &JsonObject, key: &str) -> (r: Option<bool>)
    ensures
        r is Some <==> bool_members(*m).contains_key(key@),
        r matches Some(v) ==> v == bool_members(*m)[key@],
{
    m.get(key).and_then(|v| v.as_bool())
}

/// Relies on serde_json::Map::remove: the member leaves the object and every
/// other member stays as it was.
#[verifier::external_body]
pub fn remove_member(m: &mut JsonObject, key: &str)
    ensures
        member_names(*final(m)) == member_names(*old(m)).remove(key@),
        string_members(*final(m)) == string_members(*old(m)).remove(key@),
        u64_members(*final(m)) == u64_members(*old(m)).remove(key@),
        bool_members(*final(m)) == bool_members(*old(m)).remove(key@),
{
    m.remove(key);
}

/// Relies on serde_json::to_string on a string slice, which writes the quoted
/// and escaped literal into memory and so cannot fail.
#[verifier::external_body]
pub fn quote(s: &str) -> (r: String)
    ensures
        r@ == json_quote_of(s@),
{
    match serde_json::to_string(s) {
        Ok(t) => t,
        Err(_) => String::new(),
    }
}

} // verus!
