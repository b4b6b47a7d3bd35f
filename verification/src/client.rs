//! The decision logic of the transport layer: the wire body of a request,
//! the classification of HTTP statuses, and the reading of a response
//! envelope.  The POST itself is performed outside the library, which hands
//! back the status, the retry-after header, and the envelope's parts.

use vstd::prelude::*;
use crate::error::Error;
use crate::json::Json;
use crate::json::JsonVal;
use crate::json::jtext;
use crate::json::str_text;
use crate::json::field_text;
use crate::json::fields_text;
use crate::json::push_str_lit;
use crate::text::comma_joined;
use crate::text::join_comma;
use crate::text::parse_u64;
use crate::text::parses_as_u64;
use crate::text::parsed_u64;
use crate::text::push_char;

verus! {

/// A complete GraphQL call: the operation text and its variables.
pub struct GraphQlRequest {
    pub query: String,
    pub variables: Json,
}

/// The model of a request body: an object with the operation text under
/// "query" and the variables under "variables".
pub open spec fn body_val(query: Seq<char>, variables: JsonVal) -> JsonVal {
    JsonVal::Obj(seq![("query"@, JsonVal::Str(query)), ("variables"@, variables)])
}

/// The wire body of a request, as JSON text.
pub fn request_body(query: &str, variables: &Json) -> (r: String)
    ensures
        r@ == jtext(body_val(query@, variables@)),
{
    let mut out = String::new();
    push_char(&mut out, '{');
    push_str_lit("query", &mut out);
    push_char(&mut out, ':');
    push_str_lit(query, &mut out);
    push_char(&mut out, ',');
    push_str_lit("variables", &mut out);
    push_char(&mut out, ':');
    variables.write(&mut out);
    push_char(&mut out, '}');
    proof {
        let fs = seq![("query"@, JsonVal::Str(query@)), ("variables"@, variables@)];
        assert(fs.subrange(1, 2) =~= seq![fs[1]]);
        assert(fields_text(fs.subrange(1, 2)) == field_text(fs[1]));
        assert(fields_text(fs) == field_text(fs[0]) + seq![','] + field_text(fs[1]));
        assert(field_text(fs[0]) == str_text("query"@) + seq![':'] + str_text(query@));
        assert(field_text(fs[1]) == str_text("variables"@) + seq![':'] + jtext(variables@));
        assert(jtext(body_val(query@, variables@)) == seq!['{'] + fields_text(fs) + seq!['}']);
        assert(out@ =~= jtext(body_val(query@, variables@)));
    }
    out
}

impl GraphQlRequest {
    /// The wire body of this request.
    pub fn body(&self) -> (r: String)
        ensures
            r@ == jtext(body_val(self.query@, self.variables@)),
    {
        request_body(self.query.as_str(), &self.variables)
    }
}

/// Seconds to wait after a rate-limit response: the header's decimal value
/// when it is present and parseable, 60 otherwise.
pub open spec fn retry_after_val(h: Option<&str>) -> nat {
    match h {
        Some(s) => if parses_as_u64(s@) {
            parsed_u64(s@)
        } else {
            60
        },
        None => 60,
    }
}

pub fn retry_after_seconds(h: Option<&str>) -> (r: u64)
    ensures
        r as nat == retry_after_val(h),
{
    match h {
        Some(s) => match parse_u64(s) {
            Some(n) => n,
            None => 60,
        },
        None => 60,
    }
}

/// The error an HTTP status maps to, if any: 401 is an authentication
/// failure, 429 a rate limit carrying the retry-after value; every other
/// status is left to the envelope.
pub open spec fn spec_status_error(status: u16, retry_after: Option<&str>) -> Option<Error> {
    if status == 401 {
        Some(Error::Unauthorized)
    } else if status == 429 {
        Some(Error::RateLimited(retry_after_val(retry_after) as u64))
    } else {
        None
    }
}

pub fn status_error(status: u16, retry_after: Option<&str>) -> (r: Option<Error>)
    ensures
        r == spec_status_error(status, retry_after),
{
    if status == 401 {
        Some(Error::Unauthorized)
    } else if status == 429 {
        Some(Error::RateLimited(retry_after_seconds(retry_after)))
    } else {
        None
    }
}

/// What a response envelope without reported errors must yield: the data
/// when it is there, and a failure when it is missing.
pub open spec fn data_outcome(has_data: bool, r: Result<(), Error>) -> bool {
    if has_data {
        r is Ok
    } else {
        r matches Err(Error::GraphQL(m)) && m@ == "no data in response"@
    }
}

/// Reads a response envelope: a non-empty error list always yields a
/// failure carrying the joined messages, even when data is also present;
/// otherwise the data must be present or the envelope is itself an error.
pub fn envelope_outcome(has_data: bool, errors: &Option<Vec<String>>) -> (r: Result<(), Error>)
    ensures
        match errors {
            Some(msgs) => if msgs@.len() > 0 {
                r matches Err(Error::GraphQL(m)) && m@ == comma_joined(msgs@)
            } else {
                data_outcome(has_data, r)
            },
            None => data_outcome(has_data, r),
        },
{
    match errors {
        Some(msgs) => {
            if msgs.len() > 0 {
                Err(Error::GraphQL(join_comma(msgs)))
            } else if has_data {
                Ok(())
            } else {
                Err(Error::GraphQL(String::from_str("no data in response")))
            }
        },
        None => {
            if has_data {
                Ok(())
            } else {
                Err(Error::GraphQL(String::from_str("no data in response")))
            }
        },
    }
}

/// A variables object with no entries, for operations that take none.
pub fn empty_variables() -> (v: Json)
    ensures
        v@ == JsonVal::Obj(Seq::<(Seq<char>, JsonVal)>::empty()),
{
    let fields: Vec<(String, Json)> = Vec::new();
    proof {
        assert(crate::json::seq_obj_view(fields@) =~= Seq::<(Seq<char>, JsonVal)>::empty());
    }
    Json::Obj(fields)
}

} // verus!
