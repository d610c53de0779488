//! The body and the status of the answer to a request.

use crate::error::{Error, ErrorModel};
use crate::json::{json_bytes, lemma_object_view, write_bytes, JsonModel, JsonValue};
use vstd::prelude::*;

verus! {

/// The status of an answer.
#[derive(Debug, Clone, Copy, PartialEq, Eq, Structural)]
pub enum Status {
    Success,
    NoContent,
    BadRequest,
    NotFound,
    MethodNotAllowed,
    InternalServerError,
}

/// The status that an error is answered with: a server error for a failure of the
/// database, not found for a missing table, a bad request for everything else.
pub open spec fn status_of(e: ErrorModel) -> Status {
    match e {
        ErrorModel::InternalError(..) => Status::InternalServerError,
        ErrorModel::NotFound(..) => Status::NotFound,
        _ => Status::BadRequest,
    }
}

/// The status that an error is answered with.
pub fn arrakis_error_to_status_code(ar_err: Error) -> (status: Status)
    ensures
        status == status_of(ar_err@),
{
    match ar_err {
        Error::InternalError(..) => Status::InternalServerError,
        Error::NotFound(..) => Status::NotFound,
        _ => Status::BadRequest,
    }
}

/// The object that holds one value under one key.
pub open spec fn single(key: Seq<char>, value: JsonModel) -> JsonModel {
    JsonModel::Object(seq![(key, value)])
}

/// The body of a success: the value under `data`, as compact JSON.
pub fn make_success_response(value: JsonValue) -> (body: Vec<u8>)
    ensures
        body@ == json_bytes(single("data"@, value@)),
{
    let mut map: Vec<(String, JsonValue)> = Vec::new();
    map.push((String::from_str("data"), value));
    let wrapped = JsonValue::Object(map);
    proof {
        lemma_object_view(wrapped);
        assert(wrapped@->Object_0 =~= seq![("data"@, value@)]);
    }
    write_bytes(&wrapped)
}

/// The body of a failure: the message under `error`, as compact JSON.
pub fn make_error_response(estr: &str) -> (body: Vec<u8>)
    ensures
        body@ == json_bytes(single("error"@, JsonModel::String(estr@))),
{
    let mut map: Vec<(String, JsonValue)> = Vec::new();
    map.push((String::from_str("error"), JsonValue::String(String::from_str(estr))));
    let wrapped = JsonValue::Object(map);
    proof {
        lemma_object_view(wrapped);
        assert(wrapped@->Object_0 =~= seq![("error"@, JsonModel::String(estr@))]);
    }
    write_bytes(&wrapped)
}

/// The body and the status of an answer: the value and success, no body and no content,
/// or the message of the error and its status.
pub open spec fn answer(res: Result<Option<JsonValue>, Error>) -> (Seq<u8>, Status) {
    match res {
        Ok(Some(v)) => (json_bytes(single("data"@, v@)), Status::Success),
        Ok(None) => (Seq::empty(), Status::NoContent),
        Err(e) => (
            json_bytes(single("error"@, JsonModel::String(e@.message()))),
            status_of(e@),
        ),
    }
}

/// The body and the status of the answer to a request.
pub fn make_arrakis_response(ar_res: Result<Option<JsonValue>, Error>) -> (r: (Vec<u8>, Status))
    ensures
        (r.0@, r.1) == answer(ar_res),
{
    match ar_res {
        Ok(jv) => match jv {
            Some(v) => (make_success_response(v), Status::Success),
            None => (Vec::new(), Status::NoContent),
        },
        Err(e) => {
            let message = e.to_string();
            (make_error_response(message.as_str()), arrakis_error_to_status_code(e))
        },
    }
}

} // verus!
