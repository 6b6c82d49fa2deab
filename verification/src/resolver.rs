use vstd::prelude::*;
use vstd::string::*;
use crate::errors::{ErrorKind, UpdateError};

verus! {

#[verifier::external_type_specification]
#[verifier::external_body]
pub struct ExJsonValue(serde_json::Value);

#[verifier::external_type_specification]
#[verifier::external_body]
pub struct ExJsonError(serde_json::Error);

/// The top-level members of the JSON document that `body` parses to:
/// `None` if the body is not parseable at all; otherwise a map from each
/// member name to `Some` of its text when the member is a JSON string and
/// to `None` when it is any other JSON value. A body that parses to a
/// non-object has an empty map.
pub uninterp spec fn spec_json_members(body: Seq<char>) -> Option<Map<Seq<char>, Option<Seq<char>>>>;

/// The same member map, read off a parsed `serde_json::Value`.
pub uninterp spec fn spec_value_members(v: serde_json::Value) -> Map<Seq<char>, Option<Seq<char>>>;

/// The text of a parsed `serde_json::Value` when it is a JSON string,
/// `None` otherwise.
pub uninterp spec fn spec_value_str(v: serde_json::Value) -> Option<Seq<char>>;

/// Relies on serde_json::from_str::<Value>: whether the body parses, and to
/// what, depends on the text alone.
#[verifier::external_body]
fn parse_json(body: &str) -> (r: Result<serde_json::Value, serde_json::Error>)
    ensures
        r matches Ok(v) ==> spec_json_members(body@) == Some(spec_value_members(v)),
        r is Err ==> spec_json_members(body@) is None,
{
    serde_json::from_str(body)
}

/// Relies on serde_json::Value::get: `Some` exactly when the value is an
/// object with that member.
#[verifier::external_body]
fn get_member<'a>(v: &'a serde_json::Value, key: &str) -> (r: Option<&'a serde_json::Value>)
    ensures
        r is Some <==> spec_value_members(*v).contains_key(key@),
        r matches Some(m) ==> spec_value_str(*m) == spec_value_members(*v)[key@],
{
    v.get(key)
}

/// Relies on serde_json::Value::as_str: `Some` of the text exactly when the
/// value is a JSON string.
#[verifier::external_body]
fn value_as_str<'a>(v: &'a serde_json::Value) -> (r: Option<&'a str>)
    ensures
        r matches Some(s) ==> spec_value_str(*v) == Some(s@),
        r is None ==> spec_value_str(*v) is None,
{
    v.as_str()
}

/// The tag the "latest release" response body resolves to: the text of its
/// `tag_name` member, provided the body parses, the member is present, is a
/// string, and is non-empty (a tag is never empty).
pub open spec fn spec_latest_tag(body: Seq<char>) -> Option<Seq<char>> {
    match spec_json_members(body) {
        Option::None => Option::None,
        Option::Some(members) => if members.contains_key("tag_name"@) {
            match members["tag_name"@] {
                Option::None => Option::None,
                Option::Some(t) => if t.len() > 0 {
                    Option::Some(t)
                } else {
                    Option::None
                },
            }
        } else {
            Option::None
        },
    }
}

/// Extract the latest version tag from the "latest release" JSON body.
/// Returns the tag exactly when the body resolves to one; every failure —
/// unparseable body, missing `tag_name`, non-string or empty value — is a
/// parse error.
pub fn parse_latest_tag(body: &str) -> (r: Result<String, UpdateError>)
    ensures
        r matches Ok(t) ==> spec_latest_tag(body@) == Some(t@),
        r matches Err(e) ==> spec_latest_tag(body@) is None && e.kind == ErrorKind::Parse,
{
    match parse_json(body) {
        Err(_) => Err(UpdateError::new(
            ErrorKind::Parse,
            "latest-release response body is not valid JSON".to_owned(),
        )),
        Ok(doc) => match get_member(&doc, "tag_name") {
            Option::None => Err(UpdateError::new(
                ErrorKind::Parse,
                "latest-release response has no tag_name member".to_owned(),
            )),
            Option::Some(member) => match value_as_str(member) {
                Option::None => Err(UpdateError::new(
                    ErrorKind::Parse,
                    "tag_name member is not a string".to_owned(),
                )),
                Option::Some(tag) => {
                    if tag.unicode_len() == 0 {
                        Err(UpdateError::new(
                            ErrorKind::Parse,
                            "tag_name member is empty".to_owned(),
                        ))
                    } else {
                        Ok(tag.to_owned())
                    }
                },
            },
        },
    }
}

} // verus!
