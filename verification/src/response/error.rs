//! The errors of reading the server's answers.
use vstd::prelude::*;

verus! {

/// Why an answer of the server could not be used.
#[derive(Debug)]
pub enum ResponseError {
    /// A field (the first string) is missing from a JSON document (the second).
    FieldNotFound(String, String),
    /// The server answered neither a response nor an error.
    NoImportantFieldsFound(String),
    /// A JSON document is not of the expected shape.
    InvalidJson(String),
    /// The server answered an error.
    ServerError(String),
}

/// The model of a [`ResponseError`]: its strings taken by their views.
pub enum ResponseErrorModel {
    FieldNotFound(Seq<char>, Seq<char>),
    NoImportantFieldsFound(Seq<char>),
    InvalidJson(Seq<char>),
    ServerError(Seq<char>),
}

impl View for ResponseError {
    type V = ResponseErrorModel;

    open spec fn view(&self) -> ResponseErrorModel {
        match self {
            ResponseError::FieldNotFound(f, j) => ResponseErrorModel::FieldNotFound(f@, j@),
            ResponseError::NoImportantFieldsFound(j) => ResponseErrorModel::NoImportantFieldsFound(j@),
            ResponseError::InvalidJson(j) => ResponseErrorModel::InvalidJson(j@),
            ResponseError::ServerError(j) => ResponseErrorModel::ServerError(j@),
        }
    }
}

/// The message of an error.
pub open spec fn description_of(e: ResponseErrorModel) -> Seq<char> {
    match e {
        ResponseErrorModel::FieldNotFound(field, json) => "field `"@ + field + "` not found in json: "@
            + json,
        ResponseErrorModel::InvalidJson(json) => "Json is not valid and cannot be recognized. Json: "@
            + json,
        ResponseErrorModel::ServerError(json) => "The server returned an error. Error: "@ + json,
        ResponseErrorModel::NoImportantFieldsFound(json) =>
            "Something went wrong. \n\t\t\t\tVK returned data in which there was no response or error: "@
            + json,
    }
}

impl ResponseError {
    /// The message of the error.
    pub fn description(&self) -> (r: String)
        ensures
            r@ == description_of(self@),
    {
        match self {
            ResponseError::FieldNotFound(field, json) => {
                let mut m = String::from_str("field `");
                m.append(field.as_str());
                m.append("` not found in json: ");
                m.append(json.as_str());
                m
            },
            ResponseError::InvalidJson(json) => {
                let m = String::from_str("Json is not valid and cannot be recognized. Json: ");
                m.concat(json.as_str())
            },
            ResponseError::ServerError(json) => {
                let m = String::from_str("The server returned an error. Error: ");
                m.concat(json.as_str())
            },
            ResponseError::NoImportantFieldsFound(json) => {
                let m = String::from_str(
                    "Something went wrong. \n\t\t\t\tVK returned data in which there was no response or error: ",
                );
                m.concat(json.as_str())
            },
        }
    }
}

} // verus!
