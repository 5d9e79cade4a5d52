//! The readings of [`Response`] as free functions that take the response by
//! value, to be handed to `Option::and_then` and `Result::and_then`.
use vstd::prelude::*;
use crate::json::{bool_of, i64_of, unexpected_of, text, Expected, Json, JsonError, JsonErrorModel};
use crate::response::{Response, response_models, result_model};

verus! {

/// The text of a response (see [`Response::to_string`]).
pub fn to_string(resp: Response) -> (r: Result<String, JsonError>)
    ensures
        r matches Ok(s) && s@ == text(resp@),
{
    resp.to_string()
}

/// The items of an array response (see [`Response::to_vec`]).
pub fn to_vec(resp: Response) -> (r: Result<Vec<Response>, JsonError>)
    ensures
        match resp@ {
            Json::Array(items) => r matches Ok(rs) && response_models(rs@) == items,
            _ => result_model(r) == Err::<Vec<Response>, JsonErrorModel>(
                JsonErrorModel::InvalidType { found: unexpected_of(resp@), expected: Expected::Sequence },
            ),
        },
{
    resp.to_vec()
}

/// A response as an `i64` (see [`Response::to_i64`]).
pub fn to_i64(resp: Response) -> (r: Result<i64, JsonError>)
    ensures
        result_model(r) == i64_of(resp@),
{
    resp.to_i64()
}

/// A response as a `bool` (see [`Response::to_bool`]).
pub fn to_bool(resp: Response) -> (r: Result<bool, JsonError>)
    ensures
        result_model(r) == bool_of(resp@),
{
    resp.to_bool()
}

/// ``key `what` not found in the `from_what` ``
pub open spec fn not_found_message(what: Seq<char>, from_what: Seq<char>) -> Seq<char> {
    seq!['k', 'e', 'y', ' ', '`'] + what + seq![
        '`', ' ', 'n', 'o', 't', ' ', 'f', 'o', 'u', 'n', 'd', ' ', 'i', 'n', ' ', 't', 'h', 'e', ' ', '`',
    ] + from_what + seq!['`']
}

/// The error for a key that a response lacks: the message
/// ``key `what` not found in the `from_what` ``.
pub fn not_found(what: &str, from_what: &str) -> (e: JsonError)
    ensures
        e@ == JsonErrorModel::Custom(not_found_message(what@, from_what@)),
{
    proof {
        reveal_strlit("key `");
        reveal_strlit("` not found in the `");
        reveal_strlit("`");
    }
    let mut m = String::from_str("key `");
    m.append(what);
    m.append("` not found in the `");
    m.append(from_what);
    m.append("`");
    assert(m@ =~= not_found_message(what@, from_what@));
    JsonError::Custom(m)
}

} // verus!
