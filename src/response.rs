use vstd::prelude::*;
use crate::errors::{ClientError, MeilisearchCommunicationError, MeilisearchError};

verus! {

/// The members of the JSON object that serde_json reads from a text, in the order of
/// its map: each name with its value when that value is a JSON string, else `None`.
/// `None` as a whole when the text is not a JSON object.
pub uninterp spec fn json_object_members(text: Seq<char>) -> Option<Seq<(Seq<char>, Option<Seq<char>>)>>;

/// The text view of decoded members.
pub open spec fn members_view(m: Seq<(String, Option<String>)>) -> Seq<(Seq<char>, Option<Seq<char>>)> {
    m.map_values(|p: (String, Option<String>)| (p.0@, match p.1 {
        Some(s) => Some(s@),
        None => None,
    }))
}

/// The string value of the member named `key`, the last such member if several.
pub open spec fn member_text(members: Seq<(Seq<char>, Option<Seq<char>>)>, key: Seq<char>) -> Option<Seq<char>>
    decreases members.len(),
{
    if members.len() == 0 {
        None
    } else if members.last().0 == key {
        members.last().1
    } else {
        member_text(members.drop_last(), key)
    }
}

/// The fields of a structured server error (message, code, type, link), when the
/// members hold all four as strings.
pub open spec fn error_fields(members: Seq<(Seq<char>, Option<Seq<char>>)>) -> Option<(Seq<char>, Seq<char>, Seq<char>, Seq<char>)> {
    match (member_text(members, "message"@),
        member_text(members, "code"@),
        member_text(members, "type"@),
        member_text(members, "link"@)) {
        (Some(message), Some(code), Some(kind), Some(link)) => Some((message, code, kind, link)),
        _ => None,
    }
}

/// The fields of the structured server error that a body holds, if it holds one.
pub open spec fn error_fields_of(body: Seq<char>) -> Option<(Seq<char>, Seq<char>, Seq<char>, Seq<char>)> {
    match json_object_members(body) {
        Some(members) => error_fields(members),
        None => None,
    }
}

/// Relies on serde_json::from_str, read as a `serde_json::Map`, and on
/// serde_json::Value::as_str for each member's value.
#[verifier::external_body]
fn decode_object(body: &str) -> (r: Result<Vec<(String, Option<String>)>, serde_json::Error>)
    ensures
        r is Ok <==> json_object_members(body@) is Some,
        r is Ok ==> json_object_members(body@) == Some(members_view(r->Ok_0@)),
{
    serde_json::from_str::<serde_json::Map<String, serde_json::Value>>(body).map(
        |m| m.into_iter().map(|(k, v)| (k, v.as_str().map(String::from))).collect(),
    )
}

/// Relies on serde::de::Error::custom as serde_json::Error implements it, to report
/// an object that lacks one of the fields it needs as strings.
#[verifier::external_body]
fn missing_field_error(field: &str) -> serde_json::Error {
    <serde_json::Error as serde::de::Error>::custom(format!("expected string fields: {}", field))
}

/// The string value of the member named `key`, the last such member if several.
fn find_member(members: &Vec<(String, Option<String>)>, key: &str) -> (r: Option<String>)
    ensures
        match r {
            Some(s) => member_text(members_view(members@), key@) == Some(s@),
            None => member_text(members_view(members@), key@) is None,
        },
{
    let ghost all = members_view(members@);
    let wanted = key.to_owned();
    let mut i: usize = members.len();
    assert(all.take(i as int) =~= all);
    while i > 0
        invariant
            i <= members.len(),
            all == members_view(members@),
            wanted@ == key@,
            member_text(all, key@) == member_text(all.take(i as int), key@),
        decreases i,
    {
        let (name, value) = &members[i - 1];
        assert(all.take(i as int).drop_last() =~= all.take(i - 1));
        assert(all.take(i as int).last() == all[i - 1]);
        if *name == wanted {
            return match value {
                Some(s) => Some(s.clone()),
                None => None,
            };
        }
        i = i - 1;
    }
    None
}

/// Builds a structured server error from the members of a JSON object: its
/// `message`, `code`, `type` and `link` members, when all four are strings.
pub fn meilisearch_error_from_members(members: &Vec<(String, Option<String>)>) -> (r: Option<MeilisearchError>)
    ensures
        r matches Some(e) ==> error_fields(members_view(members@)) == Some(e.fields()),
        r is None <==> error_fields(members_view(members@)) is None,
{
    let message = find_member(members, "message");
    let code = find_member(members, "code");
    let kind = find_member(members, "type");
    let link = find_member(members, "link");
    match (message, code, kind, link) {
        (Some(error_message), Some(error_code), Some(error_type), Some(error_link)) => Some(
            MeilisearchError { error_message, error_code, error_type, error_link },
        ),
        _ => None,
    }
}

/// Reads a structured server error from a body: a JSON object whose `message`, `code`,
/// `type` and `link` members are strings. Other members are ignored.
pub fn decode_meilisearch_error(body: &str) -> (r: Result<MeilisearchError, serde_json::Error>)
    ensures
        match r {
            Ok(e) => error_fields_of(body@) == Some(e.fields()),
            Err(_) => error_fields_of(body@) is None,
        },
{
    let members = match decode_object(body) {
        Ok(members) => members,
        Err(e) => return Err(e),
    };
    match meilisearch_error_from_members(&members) {
        Some(e) => Ok(e),
        None => Err(missing_field_error("message, code, type or link")),
    }
}


/// Interprets a response. On the expected status the body is read with `decode`; on
/// another status it is read as a structured server error, which wins when present;
/// failing that, a status of 400 or more gives a communication error that carries
/// the status and `url`, and a lower one gives the decoding error.
pub fn parse_response<Output, F>(
    status_code: u16,
    expected_status_code: u16,
    body: &str,
    url: String,
    decode: F,
) -> (r: Result<Output, ClientError>)
    where
        F: Fn(&str) -> Result<Output, serde_json::Error>,
    requires
        status_code == expected_status_code ==> decode.requires((body,)),
    ensures
        status_code == expected_status_code ==> match r {
            Ok(output) => decode.ensures((body,), Ok(output)),
            Err(ClientError::ParseError(e)) => decode.ensures((body,), Err(e)),
            Err(_) => false,
        },
        status_code != expected_status_code ==> match error_fields_of(body@) {
            Some(fields) => match r {
                Err(ClientError::Meilisearch(e)) => e.fields() == fields,
                _ => false,
            },
            None => if status_code >= 400 {
                r == Err::<Output, ClientError>(ClientError::MeilisearchCommunication(
                    MeilisearchCommunicationError { status_code, message: None, url },
                ))
            } else {
                r matches Err(ClientError::ParseError(_))
            },
        },
{
    if status_code == expected_status_code {
        return match decode(body) {
            Ok(output) => Ok(output),
            Err(e) => Err(ClientError::ParseError(e)),
        };
    }
    match decode_meilisearch_error(body) {
        Ok(e) => Err(ClientError::Meilisearch(e)),
        Err(e) => {
            if status_code >= 400 {
                Err(
                    ClientError::MeilisearchCommunication(
                        MeilisearchCommunicationError { status_code, message: None, url },
                    ),
                )
            } else {
                Err(ClientError::ParseError(e))
            }
        },
    }
}

} // verus!
