//! Interpretation of endpoint responses: the verified half of issuing a
//! request. The transport hands in the HTTP status and raw body; these
//! functions classify the status, parse the body, and decode it, returning
//! the typed result or the matching error.
use crate::batches::Batch;
use crate::batches::BatchesResults;
use crate::codec::decode_err;
use crate::decode::decode_batch;
use crate::decode::decode_results;
use crate::decode::spec_decode_batch;
use crate::decode::spec_decode_results;
use crate::errors::Error;
use crate::json::json_of;
use crate::json::parse_json_text;
use crate::text::dec_rep_i64;
use crate::text::i64_dec_string;
use vstd::prelude::*;

verus! {

/// The path of the listing endpoint.
pub fn batches_path() -> (r: &'static str)
    ensures
        r@ == "/batches"@,
{
    "/batches"
}

/// The path of the single-batch endpoint for a given identifier.
pub fn batch_path(uid: i64) -> (r: String)
    ensures
        r@ == "/batches/"@ + dec_rep_i64(uid as int),
{
    let mut s = String::from_str("/batches/");
    let t = i64_dec_string(uid);
    s.append(t.as_str());
    s
}

/// Whether an HTTP status reports success.
pub open spec fn spec_is_success(status: u16) -> bool {
    200 <= status < 300
}

/// Interpret a listing response: a non-success status is surfaced with its
/// body; a success body must parse as JSON and decode as a results page,
/// else a decode error is returned.
pub fn interpret_batches_response(status: u16, body: &str) -> (r: Result<BatchesResults, Error>)
    ensures
        !spec_is_success(status) ==> (r matches Result::Err(e) && e matches Error::HttpStatus {
            status: st,
            body: b,
        } && st == status && b@ == body@),
        spec_is_success(status) ==> match json_of(body@) {
            Option::None => r matches Result::Err(e) && e is Decode,
            Option::Some(v) => match spec_decode_results(v) {
                Result::Ok(m) => r matches Result::Ok(page) && page@ == m,
                Result::Err(_) => r matches Result::Err(e) && e is Decode,
            },
        },
{
    if !(200 <= status && status < 300) {
        return Result::Err(Error::HttpStatus { status, body: body.to_owned() });
    }
    match parse_json_text(body) {
        Option::None => Result::Err(decode_err("body")),
        Option::Some(v) => decode_results(&v),
    }
}

/// Interpret a single-batch response: 404 means the batch does not exist;
/// any other non-success status is surfaced with its body; a success body
/// must parse as JSON and decode as a batch record.
pub fn interpret_batch_response(status: u16, body: &str) -> (r: Result<Batch, Error>)
    ensures
        status == 404 ==> (r matches Result::Err(e) && e is NotFound),
        !spec_is_success(status) && status != 404 ==> (r matches Result::Err(e) && e
            matches Error::HttpStatus { status: st, body: b } && st == status && b@ == body@),
        spec_is_success(status) ==> match json_of(body@) {
            Option::None => r matches Result::Err(e) && e is Decode,
            Option::Some(v) => match spec_decode_batch(v) {
                Result::Ok(m) => r matches Result::Ok(b) && b@ == m,
                Result::Err(_) => r matches Result::Err(e) && e is Decode,
            },
        },
{
    if status == 404 {
        return Result::Err(Error::NotFound);
    }
    if !(200 <= status && status < 300) {
        return Result::Err(Error::HttpStatus { status, body: body.to_owned() });
    }
    match parse_json_text(body) {
        Option::None => Result::Err(decode_err("body")),
        Option::Some(v) => decode_batch(&v),
    }
}

} // verus!
