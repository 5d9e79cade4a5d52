//! An answer of the server, and the ways to read it.
use vstd::prelude::*;
use crate::json::{
    bool_of, i64_of, models, select, text, Expected, Json, JsonError, JsonErrorModel, JsonIndex, Unexpected, UnexpectedModel,
    JsonValue, Number,
};

pub mod closures;
pub mod error;

verus! {

/// A JSON document that the server sent, or a part of one.
#[derive(Debug)]
pub struct Response(pub JsonValue);

impl View for Response {
    type V = Json;

    open spec fn view(&self) -> Json {
        self.0@
    }
}

impl Clone for Response {
    fn clone(&self) -> (r: Self)
        ensures
            r@ == self@,
    {
        Response(self.0.clone())
    }
}

/// The model of an optional response.
pub open spec fn opt_response_model(r: Option<Response>) -> Option<Json> {
    match r {
        Some(resp) => Some(resp@),
        None => None,
    }
}

/// A picked part, unless it is missing or `null`.
pub open spec fn present(r: Option<Json>) -> Option<Json> {
    match r {
        Some(Json::Null) => None,
        _ => r,
    }
}

/// The models of a list of responses.
pub open spec fn response_models(rs: Seq<Response>) -> Seq<Json> {
    Seq::new(rs.len(), |i: int| rs[i]@)
}

/// The model of a result that carries a `JsonError`.
pub open spec fn result_model<T>(r: Result<T, JsonError>) -> Result<T, JsonErrorModel> {
    match r {
        Ok(t) => Ok(t),
        Err(e) => Err(e@),
    }
}

impl Response {
    /// The part of the document that `index` picks: `None` where there is no
    /// such part and where the part is `null`.
    pub fn get<I: JsonIndex>(&self, index: I) -> (r: Option<Response>)
        ensures
            opt_response_model(r) == present(select(self@, index.selector())),
    {
        match index.index_into(&self.0) {
            Some(v) => {
                if v.is_null() {
                    None
                } else {
                    Some(Response(v.clone()))
                }
            },
            None => None,
        }
    }

    /// The text of the document: a JSON string gives its characters, any
    /// other document its compact JSON text. It never fails.
    pub fn to_string(&self) -> (r: Result<String, JsonError>)
        ensures
            r matches Ok(s) && s@ == text(self@),
    {
        match &self.0 {
            JsonValue::String(s) => Ok(s.clone()),
            other => Ok(other.render()),
        }
    }

    /// The text (as [`Response::to_string`] gives it) of the part that
    /// `index` picks. A part that is missing or `null` cannot be read as a
    /// string: the error says that a string was expected where there is
    /// `null`.
    pub fn to_sring<I: JsonIndex>(&self, index: I) -> (r: Result<String, JsonError>)
        ensures
            match present(select(self@, index.selector())) {
                Some(v) => r matches Ok(s) && s@ == text(v),
                None => result_model(r) == Err::<String, JsonErrorModel>(
                    JsonErrorModel::InvalidType { found: UnexpectedModel::Null, expected: Expected::String },
                ),
            },
    {
        match self.get(index) {
            Some(part) => part.to_string(),
            None => Err(JsonError::InvalidType { found: Unexpected::Null, expected: Expected::String }),
        }
    }

    /// The items of a JSON array, each as a response.
    pub fn to_vec(&self) -> (r: Result<Vec<Response>, JsonError>)
        ensures
            match self@ {
                Json::Array(items) => r matches Ok(rs) && response_models(rs@) == items,
                _ => result_model(r) == Err::<Vec<Response>, JsonErrorModel>(
                    JsonErrorModel::InvalidType { found: crate::json::unexpected_of(self@), expected: Expected::Sequence },
                ),
            },
    {
        proof { crate::json::lemma_model_parts(self.0); }
        match &self.0 {
            JsonValue::Array(items) => {
                let mut out: Vec<Response> = Vec::new();
                let mut i: usize = 0;
                while i < items.len()
                    invariant
                        i <= items.len(),
                        out.len() == i,
                        response_models(out@) =~= models(items@).take(i as int),
                    decreases items.len() - i,
                {
                    out.push(Response(items[i].clone()));
                    assert(response_models(out@) =~= models(items@).take(i + 1));
                    i = i + 1;
                }
                assert(response_models(out@) =~= models(items@));
                Ok(out)
            },
            other => Err(JsonError::InvalidType { found: other.unexpected(), expected: Expected::Sequence }),
        }
    }

    /// The document as an `i64`.
    pub fn to_i64(&self) -> (r: Result<i64, JsonError>)
        ensures
            result_model(r) == i64_of(self@),
    {
        match &self.0 {
            JsonValue::Number(Number::PosInt(u)) => {
                if *u <= i64::MAX as u64 {
                    Ok(*u as i64)
                } else {
                    Err(JsonError::OutOfRange(*u))
                }
            },
            JsonValue::Number(Number::NegInt(i)) => Ok(*i),
            other => Err(JsonError::InvalidType { found: other.unexpected(), expected: Expected::I64 }),
        }
    }

    /// The document as a `bool`.
    pub fn to_bool(&self) -> (r: Result<bool, JsonError>)
        ensures
            result_model(r) == bool_of(self@),
    {
        match &self.0 {
            JsonValue::Bool(b) => Ok(*b),
            other => Err(JsonError::InvalidType { found: other.unexpected(), expected: Expected::Bool }),
        }
    }
}

/// Looking further into an optional response.
pub trait AndThenGetting {
    fn and_get<I: JsonIndex>(&self, index: I) -> Option<Response>;
}

impl AndThenGetting for Option<Response> {
    /// `None` stays `None`; a response is looked into as [`Response::get`] does.
    fn and_get<I: JsonIndex>(&self, index: I) -> (r: Option<Response>)
        ensures
            opt_response_model(r) == match self {
                Some(resp) => present(select(resp@, index.selector())),
                None => None,
            },
    {
        match self {
            None => None,
            Some(resp) => resp.get(index),
        }
    }
}

} // verus!
