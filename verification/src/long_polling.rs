//! Long polling of a group's events: the state of a polling session and what
//! each answer of the long poll server does to it.
use vstd::prelude::*;
use crate::json::{decimal, render, select, text, u64_text, Json, Selector};
use crate::response::{present, response_models, Response};
use crate::response::error::{ResponseError, ResponseErrorModel};

verus! {

/// Asking a long poll server for events, and reading its answers.
pub trait Poll: Sized {
    /// Reads one answer of the long poll server: the events it carries, and
    /// the position to ask from next.
    fn poll(&mut self, reply: &Response) -> Result<Vec<Response>, ResponseError>;

    /// The session that the answer to `groups.getLongPollServer` describes.
    fn get_long_poll_server(reply: &Response) -> Result<Self, ResponseError>;

    /// The same session, with another waiting time.
    fn with_wait(self, wait: u8) -> Self;
}

/// A long polling session of a group: the server's key and address, the
/// position (`ts`) of the next events and how long (in seconds) the server
/// may wait before it answers.
#[derive(Debug, Clone)]
pub struct GroupPolling {
    pub key: String,
    pub server: String,
    pub ts: String,
    pub wait: u8,
}

/// The text of a field of a document, if it is present and not `null`.
pub open spec fn field_text(doc: Json, name: Seq<char>) -> Option<Seq<char>> {
    match present(select(doc, Selector::Key(name))) {
        Some(v) => Some(text(v)),
        None => None,
    }
}

/// The address that asks the server for the events after `ts`.
pub open spec fn poll_url_of(key: Seq<char>, server: Seq<char>, ts: Seq<char>, wait: u8) -> Seq<char> {
    server + "?act=a_check&key="@ + key + "&ts="@ + ts + "&wait="@ + decimal(wait as nat)
}

/// The text of a field that must be there, or the error that names it.
fn required_text(reply: &Response, name: &str) -> (r: Result<String, ResponseError>)
    ensures
        match field_text(reply@, name@) {
            Some(t) => r matches Ok(s) && s@ == t,
            None => r matches Err(e) && e@ == ResponseErrorModel::FieldNotFound(name@, render(reply@)),
        },
{
    match reply.get(name) {
        Some(v) => {
            let r = v.to_string();
            match r {
                Ok(s) => Ok(s),
                Err(_) => Err(ResponseError::FieldNotFound(String::from_str(name), reply.0.render())),
            }
        },
        None => Err(ResponseError::FieldNotFound(String::from_str(name), reply.0.render())),
    }
}

impl GroupPolling {
    /// The address that asks the server for the events after the current
    /// position.
    pub fn poll_url(&self) -> (r: String)
        ensures
            r@ == poll_url_of(self.key@, self.server@, self.ts@, self.wait),
    {
        let mut url = self.server.clone();
        url.append("?act=a_check&key=");
        url.append(self.key.as_str());
        url.append("&ts=");
        url.append(self.ts.as_str());
        url.append("&wait=");
        url.append(u64_text(self.wait as u64).as_str());
        url
    }
}

impl Poll for GroupPolling {
    /// With `updates` an array and `ts` present, the events are the items of
    /// `updates` and the position becomes the text of `ts`; otherwise the
    /// error names what is wrong and the session is left as it was.
    fn poll(&mut self, reply: &Response) -> (r: Result<Vec<Response>, ResponseError>)
        ensures
            match present(select(reply@, Selector::Key("updates"@))) {
                None => r matches Err(e) && e@ == ResponseErrorModel::FieldNotFound(
                    "updates"@,
                    render(reply@),
                ) && *final(self) == *old(self),
                Some(Json::Array(items)) => match field_text(reply@, "ts"@) {
                    None => r matches Err(e) && e@ == ResponseErrorModel::FieldNotFound(
                        "ts"@,
                        render(reply@),
                    ) && *final(self) == *old(self),
                    Some(t) => r matches Ok(events) && response_models(events@) == items
                        && final(self).ts@ == t && final(self).key == old(self).key
                        && final(self).server == old(self).server && final(self).wait == old(
                        self,
                    ).wait,
                },
                Some(_) => r matches Err(e) && e@ == ResponseErrorModel::InvalidJson(render(reply@))
                    && *final(self) == *old(self),
            },
    {
        let updates = match reply.get("updates") {
            Some(u) => u,
            None => {
                return Err(
                    ResponseError::FieldNotFound(String::from_str("updates"), reply.0.render()),
                );
            },
        };
        let events = match updates.to_vec() {
            Ok(events) => events,
            Err(_) => {
                return Err(ResponseError::InvalidJson(reply.0.render()));
            },
        };
        let ts = required_text(reply, "ts")?;
        self.ts = ts;
        Ok(events)
    }

    /// The session made of the `key`, `server` and `ts` fields of the answer,
    /// each by its text, waiting 25 seconds; or the error for the first of
    /// them that is missing.
    fn get_long_poll_server(reply: &Response) -> (r: Result<GroupPolling, ResponseError>)
        ensures
            match (
                field_text(reply@, "key"@),
                field_text(reply@, "server"@),
                field_text(reply@, "ts"@),
            ) {
                (Some(k), Some(s), Some(t)) => r matches Ok(p) && p.key@ == k && p.server@ == s
                    && p.ts@ == t && p.wait == 25,
                (None, _, _) => r matches Err(e) && e@ == ResponseErrorModel::FieldNotFound(
                    "key"@,
                    render(reply@),
                ),
                (Some(_), None, _) => r matches Err(e) && e@ == ResponseErrorModel::FieldNotFound(
                    "server"@,
                    render(reply@),
                ),
                (Some(_), Some(_), None) => r matches Err(e)
                    && e@ == ResponseErrorModel::FieldNotFound("ts"@, render(reply@)),
            },
    {
        let key = required_text(reply, "key")?;
        let server = required_text(reply, "server")?;
        let ts = required_text(reply, "ts")?;
        Ok(GroupPolling { key, server, ts, wait: 25 })
    }

    /// Only the waiting time changes.
    fn with_wait(self, wait: u8) -> (r: GroupPolling)
        ensures
            r.key == self.key,
            r.server == self.server,
            r.ts == self.ts,
            r.wait == wait,
    {
        let mut p = self;
        p.wait = wait;
        p
    }
}

} // verus!
