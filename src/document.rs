use serde_json::Value;
use vstd::prelude::*;

verus! {

#[verifier::external_type_specification]
#[verifier::external_body]
pub struct ExJsonError(serde_json::Error);

#[verifier::external_type_specification]
#[verifier::external_body]
pub struct ExValue(Value);

/// A JSON value. Numbers keep the text that serde_json writes for them. The
/// objects of a parsed document have distinct member names; where a built
/// object repeats a name, the first member of that name is the one found.
pub enum Json {
    Null,
    Bool(bool),
    Number(String),
    Str(String),
    Array(Vec<Json>),
    Object(Vec<(String, Json)>),
}

/// The document that serde_json reads from `text`, or `None` where `text`
/// is not JSON.
pub uninterp spec fn json_parse_of(text: Seq<char>) -> Option<Json>;

/// Relies on serde_json's `Value` variants: each becomes the variant of the
/// same name, a number its text, an object its members in the map's order.
#[verifier::external_body]
fn json_from_value(v: Value) -> Json {
    match v {
        Value::Null => Json::Null,
        Value::Bool(b) => Json::Bool(b),
        Value::Number(n) => Json::Number(n.to_string()),
        Value::String(s) => Json::Str(s),
        Value::Array(a) => Json::Array(a.into_iter().map(json_from_value).collect()),
        Value::Object(m) => Json::Object(m.into_iter().map(|(k, e)| (k, json_from_value(e))).collect()),
    }
}

/// Relies on serde_json::from_str into a `Value`: whether `text` is JSON,
/// and which document it holds, depend on `text` alone.
#[verifier::external_body]
fn parse_json(text: &str) -> (r: Result<Json, serde_json::Error>)
    ensures
        r is Ok <==> json_parse_of(text@) is Some,
        r matches Ok(doc) ==> json_parse_of(text@) == Some(doc),
{
    serde_json::from_str::<Value>(text).map(json_from_value)
}

/// The value of the first member named `name` among `members`.
pub open spec fn member_of(members: Seq<(String, Json)>, name: Seq<char>) -> Option<Json>
    decreases members.len(),
{
    if members.len() == 0 {
        None
    } else if members[0].0@ == name {
        Some(members[0].1)
    } else {
        member_of(members.drop_first(), name)
    }
}

/// The value of the member named `name` of an object.
pub fn find_member<'a>(members: &'a Vec<(String, Json)>, name: &String) -> (r: Option<&'a Json>)
    ensures
        r matches Some(v) ==> member_of(members@, name@) == Some(*v),
        r is None ==> member_of(members@, name@) is None,
{
    let mut i: usize = 0;
    assert(members@.subrange(0, members@.len() as int) =~= members@);
    while i < members.len()
        invariant
            i <= members@.len(),
            member_of(members@, name@) == member_of(members@.subrange(i as int, members@.len() as int), name@),
        decreases members@.len() - i,
    {
        proof {
            let rest = members@.subrange(i as int, members@.len() as int);
            assert(rest.drop_first() =~= members@.subrange(i + 1, members@.len() as int));
        }
        if members[i].0 == *name {
            return Some(&members[i].1);
        }
        i = i + 1;
    }
    None
}

/// Why no snap name came out of a declaration.
pub enum ExtractError {
    /// The text is not JSON.
    InvalidJson,
    /// The document is not an object with an object-valued `headers` member.
    NoHeaders,
    /// The headers hold no string-valued `snap-name` member.
    NoSnapName,
}

/// The headers of a declaration: the object-valued `headers` member of an
/// object.
pub open spec fn headers_of(doc: Json) -> Option<Seq<(String, Json)>> {
    match doc {
        Json::Object(top) => match member_of(top@, "headers"@) {
            Some(Json::Object(headers)) => Some(headers@),
            _ => None,
        },
        _ => None,
    }
}

/// The snap name in the headers: their string-valued `snap-name` member.
pub open spec fn snap_name_in_headers(headers: Seq<(String, Json)>) -> Option<Seq<char>> {
    match member_of(headers, "snap-name"@) {
        Some(Json::Str(name)) => Some(name@),
        _ => None,
    }
}

/// The snap name of a declaration document: `headers`.`snap-name`.
pub open spec fn snap_name_of(doc: Json) -> Option<Seq<char>> {
    match headers_of(doc) {
        Some(headers) => snap_name_in_headers(headers),
        None => None,
    }
}

/// A document without an object-valued `headers` member at its top level,
/// or whose headers have no string-valued `snap-name` member, has no snap
/// name: extraction fails on it rather than give a partial name.
pub proof fn lemma_malformed_has_no_snap_name(doc: Json)
    requires
        headers_of(doc) is None || snap_name_in_headers(headers_of(doc)->0) is None,
    ensures
        snap_name_of(doc) is None,
{
}

/// Takes the snap name out of a parsed declaration, or says which part of
/// the expected shape is missing.
pub fn snap_name_in(doc: &Json) -> (r: Result<String, ExtractError>)
    ensures
        r is Ok <==> snap_name_of(*doc) is Some,
        r matches Ok(name) ==> snap_name_of(*doc) == Some(name@),
        r matches Err(ExtractError::NoHeaders) <==> headers_of(*doc) is None,
        r matches Err(ExtractError::NoSnapName) <==> (headers_of(*doc) is Some
            && snap_name_of(*doc) is None),
        !(r matches Err(ExtractError::InvalidJson)),
{
    proof {
        reveal_strlit("headers");
        reveal_strlit("snap-name");
    }
    let headers = match doc {
        Json::Object(top) => match find_member(top, &String::from_str("headers")) {
            Some(Json::Object(headers)) => headers,
            _ => {
                return Err(ExtractError::NoHeaders);
            },
        },
        _ => {
            return Err(ExtractError::NoHeaders);
        },
    };
    match find_member(headers, &String::from_str("snap-name")) {
        Some(Json::Str(name)) => Ok(name.clone()),
        _ => Err(ExtractError::NoSnapName),
    }
}

/// The snap name of a declaration that has one.
pub fn snap_name_of_declaration(doc: &Json) -> (r: String)
    requires
        snap_name_of(*doc) is Some,
    ensures
        Some(r@) == snap_name_of(*doc),
{
    match snap_name_in(doc) {
        Ok(name) => name,
        Err(_) => String::new(),
    }
}

/// Reads a declaration from `text` and takes its snap name out of it. The
/// text must hold a JSON object whose object-valued `headers` member has a
/// string-valued `snap-name` member.
pub fn extract_snap_name_from_json(text: &str) -> (r: String)
    requires
        json_parse_of(text@) matches Some(doc) && snap_name_of(doc) is Some,
    ensures
        Some(r@) == snap_name_of(json_parse_of(text@)->0),
{
    match parse_json(text) {
        Ok(doc) => snap_name_of_declaration(&doc),
        Err(_) => String::new(),
    }
}

/// Reads a declaration from `text` and takes its snap name out of it, or
/// says why there is none.
pub fn try_extract_snap_name_from_json(text: &str) -> (r: Result<String, ExtractError>)
    ensures
        r matches Err(ExtractError::InvalidJson) <==> json_parse_of(text@) is None,
        json_parse_of(text@) matches Some(doc) ==> {
            &&& (r is Ok <==> snap_name_of(doc) is Some)
            &&& (r matches Ok(name) ==> snap_name_of(doc) == Some(name@))
            &&& (r matches Err(ExtractError::NoHeaders) <==> headers_of(doc) is None)
            &&& (r matches Err(ExtractError::NoSnapName) <==> (headers_of(doc) is Some
                && snap_name_of(doc) is None))
        },
{
    match parse_json(text) {
        Ok(doc) => match snap_name_in(&doc) {
            Ok(_) => Ok(extract_snap_name_from_json(text)),
            Err(e) => Err(e),
        },
        Err(_) => Err(ExtractError::InvalidJson),
    }
}

} // verus!
