//! A small client for the VK API: the parameters of a call, the reading of the
//! server's reply, the JSON documents it sends back and long polling.
use vstd::prelude::*;

pub mod json;
pub mod laws;
pub mod long_polling;
pub mod response;

pub use response::Response;

use crate::json::{render, select, signed_decimal, i64_text, Json, JsonIndex, JsonValue, Selector};
use crate::response::present;

verus! {

/// The model of a list of query parameters.
pub open spec fn pairs_model(ps: Seq<(String, String)>) -> Seq<(Seq<char>, Seq<char>)> {
    Seq::new(ps.len(), |i: int| (ps[i].0@, ps[i].1@))
}

/// Adding `key=value` parameters to a list of them.
pub trait PutInAStrings {
    fn put(&mut self, key: String, val: String);
}

impl PutInAStrings for Vec<(String, String)> {
    /// Appends the pair `(key, val)`; the pairs before it stay as they are.
    fn put(&mut self, key: String, val: String)
        ensures
            final(self)@ == old(self)@.push((key, val)),
    {
        self.push((key, val));
    }
}

/// A request to the API: the address of the method and its query parameters,
/// in order.
#[derive(Debug, Clone)]
pub struct ApiRequest {
    pub url: String,
    pub query: Vec<(String, String)>,
}

/// The address of an API method.
pub open spec fn method_url(method: Seq<char>) -> Seq<char> {
    "https://api.vk.com/method/"@ + method
}

/// The parameters of [`VK::call`]: the caller's, then the token, then the
/// version of the API.
pub open spec fn call_query(vk: VK, parameters: Seq<(Seq<char>, Seq<char>)>) -> Seq<(Seq<char>, Seq<char>)> {
    parameters + seq![("access_token"@, vk.access_token@), ("v"@, vk.version@)]
}

/// The parameters of [`VK::call_gi`]: the caller's, then the group, then those
/// that [`VK::call`] adds.
pub open spec fn call_gi_query(vk: VK, parameters: Seq<(Seq<char>, Seq<char>)>) -> Seq<(Seq<char>, Seq<char>)> {
    parameters + seq![
        ("group_id"@, signed_decimal(vk.group_id as int)),
        ("access_token"@, vk.access_token@),
        ("v"@, vk.version@),
    ]
}

/// A client of the API: the access token, the version of the API (as the text
/// sent in the `v` parameter) and the group the calls act for.
#[derive(Debug, Clone)]
pub struct VK {
    pub access_token: String,
    pub version: String,
    pub group_id: i64,
}

impl VK {
    /// The request that calls `method` with exactly the given parameters.
    pub fn call_without(&self, method: &str, parameters: Vec<(String, String)>) -> (r: ApiRequest)
        ensures
            r.url@ == method_url(method@),
            r.query@ == parameters@,
    {
        let url = String::from_str("https://api.vk.com/method/");
        ApiRequest { url: url.concat(method), query: parameters }
    }

    /// The request that calls `method` with the given parameters followed by
    /// the access token and the version.
    pub fn call(&self, method: &str, parameters: Vec<(String, String)>) -> (r: ApiRequest)
        ensures
            r.url@ == method_url(method@),
            pairs_model(r.query@) == call_query(*self, pairs_model(parameters@)),
    {
        let mut parameters = parameters;
        let ghost given = parameters@;
        parameters.put(String::from_str("access_token"), self.access_token.clone());
        parameters.put(String::from_str("v"), self.version.clone());
        let r = self.call_without(method, parameters);
        assert(pairs_model(r.query@) =~= call_query(*self, pairs_model(given)));
        r
    }

    /// The request that calls `method` with the given parameters followed by
    /// the group, the access token and the version.
    pub fn call_gi(&self, method: &str, parameters: Vec<(String, String)>) -> (r: ApiRequest)
        ensures
            r.url@ == method_url(method@),
            pairs_model(r.query@) == call_gi_query(*self, pairs_model(parameters@)),
    {
        let mut parameters = parameters;
        let ghost given = parameters@;
        parameters.put(String::from_str("group_id"), i64_text(self.group_id));
        let ghost with_group = parameters@;
        let r = self.call(method, parameters);
        assert(pairs_model(with_group) =~= pairs_model(given).push(
            ("group_id"@, signed_decimal(self.group_id as int)),
        ));
        assert(pairs_model(r.query@) =~= call_gi_query(*self, pairs_model(given)));
        r
    }

    /// A client with the given token, version 5.92 of the API and no group.
    pub fn from_token(token: String) -> (r: VK)
        ensures
            r.access_token == token,
            r.version@ == "5.92"@,
            r.group_id == 0,
    {
        VK { access_token: token, version: String::from_str("5.92"), group_id: 0 }
    }

    /// A client made from a login; the login and password are not used yet,
    /// and the token is empty.
    #[allow(dead_code)]
    fn from_login(login: String, password: String) -> (r: VK)
        ensures
            r.access_token@ == Seq::<char>::empty(),
            r.version@ == "5.92"@,
            r.group_id == 0,
    {
        let token = String::new();
        VK::from_token(token)
    }

    /// The same client, acting for `group_id`.
    pub fn with_group_id(self, group_id: i64) -> (r: VK)
        ensures
            r.access_token == self.access_token,
            r.version == self.version,
            r.group_id == group_id,
    {
        let mut vk = self;
        vk.group_id = group_id;
        vk
    }
}

/// What the server's reply to a call means: its `response` field when that is
/// present and not `null`; otherwise the message `Error: ` followed by the
/// compact text of its `error` field when that is present and not `null`;
/// otherwise the message `Unknown json from vk`.
pub open spec fn reply_outcome(data: Json) -> Result<Json, Seq<char>> {
    match present(select(data, Selector::Key("response"@))) {
        Some(r) => Ok(r),
        None => match present(select(data, Selector::Key("error"@))) {
            Some(e) => Err("Error: "@ + render(e)),
            None => Err("Unknown json from vk"@),
        },
    }
}

/// Reads the server's reply to a call (see [`reply_outcome`]).
pub fn read_reply(data: &JsonValue) -> (r: Result<Response, String>)
    ensures
        match (r, reply_outcome(data@)) {
            (Ok(resp), Ok(m)) => resp@ == m,
            (Err(msg), Err(m)) => msg@ == m,
            _ => false,
        },
{
    match "response".index_into(data) {
        Some(resp) if !resp.is_null() => Ok(Response(resp.clone())),
        _ => match "error".index_into(data) {
            Some(err) if !err.is_null() => {
                let m = String::from_str("Error: ");
                Err(m.concat(err.render().as_str()))
            },
            _ => Err(String::from_str("Unknown json from vk")),
        },
    }
}

} // verus!
