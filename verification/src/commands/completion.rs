//! The JSON documents the commands build and read: the API self-test, the QR
//! payload, the instance token and the stored settings.

use vstd::prelude::*;
use crate::commands::{QrDataResponse, TestCompletionRequest, TestCompletionResponse};
use crate::error::opt_view;
use crate::json::{follow, json_quote, json_string_text, keyed, pointer_step, with_entry, Json};
use crate::text::{cat2, cat3, cat4, opt_text, owned};
use crate::logging::{new_uuid, uuid_text};

verus! {

broadcast use vstd::string::group_string_axioms;

impl TestCompletionResponse {
    /// A self-test answer with exactly these fields.
    pub open spec fn is(self, success: bool, response: Option<Seq<char>>, error: Option<Seq<char>>) -> bool {
        &&& self.success == success
        &&& opt_view(self.response) == response
        &&& opt_view(self.error) == error
    }

    /// A failed self-test: the prefix, then the reason.
    pub fn failed(prefix: &str, reason: &str) -> (res: Self)
        ensures
            res.is(false, None, Some(prefix@ + reason@)),
    {
        TestCompletionResponse { success: false, response: None, error: Some(cat2(prefix, reason)) }
    }
}

/// Where the self-test request goes: the chat endpoint of the local API, or
/// the failed answer when the API does not serve or has no address.
pub fn completion_endpoint(is_serving: bool, server_url: Option<String>) -> (res: Result<String, TestCompletionResponse>)
    ensures
        !is_serving ==> (res matches Err(r) && r.is(false, None, Some("API server not running"@))),
        is_serving ==> match server_url {
            Some(u) => res matches Ok(t) && t@ == u@ + "/v1/chat/completions"@,
            None => res matches Err(r) && r.is(false, None, Some("Server URL not available"@)),
        },
{
    if !is_serving {
        return Err(TestCompletionResponse { success: false, response: None, error: Some(owned("API server not running")) });
    }
    match server_url {
        Some(u) => Ok(cat2(u.as_str(), "/v1/chat/completions")),
        None => Err(TestCompletionResponse { success: false, response: None, error: Some(owned("Server URL not available")) }),
    }
}

/// Whether member `i` of `entries` is `key` with the text `text`.
pub open spec fn text_member(entries: Seq<(String, Json)>, i: int, key: Seq<char>, text: Seq<char>) -> bool {
    0 <= i < entries.len() && entries[i].0@ == key && entries[i].1.text() == Some(text)
}

/// The body of the self-test request: the model asked for (`gpt-5` by
/// default), one user message, no streaming.
pub fn test_completion_body(request: &TestCompletionRequest) -> (res: Json)
    ensures
        res matches Json::Object(e) && e@.len() == 3
            && text_member(e@, 0, "model"@, match request.model {
                Some(m) => m@,
                None => "gpt-5"@,
            })
            && e@[1].0@ == "messages"@
            && (e@[1].1 matches Json::Array(msgs) && msgs@.len() == 1
                && (msgs@[0] matches Json::Object(m) && m@.len() == 2
                    && text_member(m@, 0, "role"@, "user"@)
                    && text_member(m@, 1, "content"@, request.message@)))
            && e@[2].0@ == "stream"@ && e@[2].1 == Json::Bool(false),
{
    let model = match &request.model {
        Some(m) => Json::text_value(m.as_str()),
        None => Json::text_value("gpt-5"),
    };
    let mut message: Vec<(String, Json)> = Vec::new();
    message.push((owned("role"), Json::text_value("user")));
    message.push((owned("content"), Json::text_value(request.message.as_str())));
    let mut msgs: Vec<Json> = Vec::new();
    msgs.push(Json::Object(message));
    let mut members: Vec<(String, Json)> = Vec::new();
    members.push((owned("model"), model));
    members.push((owned("messages"), Json::Array(msgs)));
    members.push((owned("stream"), Json::Bool(false)));
    Json::Object(members)
}

/// The text at `/choices/0/message/content` of a chat completion answer,
/// or `No response content` when there is none.
pub open spec fn completion_text(answer: Json) -> Seq<char> {
    let found = match pointer_step(answer, "choices"@, None) {
        Some(choices) => match pointer_step(choices, "0"@, Some(0)) {
            Some(first) => match pointer_step(first, "message"@, None) {
                Some(message) => match pointer_step(message, "content"@, None) {
                    Some(content) => content.text(),
                    None => None,
                },
                None => None,
            },
            None => None,
        },
        None => None,
    };
    match found {
        Some(t) => t,
        None => "No response content"@,
    }
}

/// The reply text of a chat completion answer.
pub fn completion_content(answer: &Json) -> (res: String)
    ensures
        res@ == completion_text(*answer),
{
    let found = match follow(answer, "choices", None) {
        Some(choices) => match follow(choices, "0", Some(0)) {
            Some(first) => match follow(first, "message", None) {
                Some(message) => match follow(message, "content", None) {
                    Some(content) => content.as_str(),
                    None => None,
                },
                None => None,
            },
            None => None,
        },
        None => None,
    };
    match found {
        Some(t) => owned(t),
        None => owned("No response content"),
    }
}

/// The self-test answer for a successful chat completion.
pub fn completion_answer(answer: &Json) -> (res: TestCompletionResponse)
    ensures
        res.is(true, Some(completion_text(*answer)), None),
{
    TestCompletionResponse { success: true, response: Some(completion_content(answer)), error: None }
}

/// The QR payload: a compact JSON object holding the token and the tunnel
/// address, or the token and a note that no tunnel is active, with its keys
/// in the sorted order serde_json keeps them in.
pub open spec fn qr_text(tunnel_url: Option<Seq<char>>, token: Seq<char>) -> Seq<char> {
    match tunnel_url {
        Some(u) => "{"@ + json_string_text("token"@) + ":"@ + json_string_text(token) + ","@
            + json_string_text("url"@) + ":"@ + json_string_text(u) + "}"@,
        None => "{"@ + json_string_text("status"@) + ":"@ + json_string_text("No tunnel active"@) + ","@
            + json_string_text("token"@) + ":"@ + json_string_text(token) + "}"@,
    }
}

fn member_text(key: &str, value: &str) -> (res: String)
    ensures
        res@ == json_string_text(key@) + ":"@ + json_string_text(value@),
{
    let k = json_quote(key);
    let v = json_quote(value);
    cat3(k.as_str(), ":", v.as_str())
}

/// The QR payload for the instance token and the tunnel address, if any.
pub fn qr_payload(tunnel_url: &Option<String>, token: &str) -> (res: String)
    ensures
        res@ == qr_text(opt_text(*tunnel_url), token@),
{
    match tunnel_url {
        Some(u) => {
            let a = member_text("token", token);
            let b = member_text("url", u.as_str());
            let mut t = cat4("{", a.as_str(), ",", b.as_str());
            t.append("}");
            t
        },
        None => {
            let a = member_text("status", "No tunnel active");
            let b = member_text("token", token);
            let mut t = cat4("{", a.as_str(), ",", b.as_str());
            t.append("}");
            t
        },
    }
}

impl QrDataResponse {
    /// The QR answer: the payload, or why the token could not be had.
    pub fn from_token(token: Result<String, String>, tunnel_url: &Option<String>) -> (res: Self)
        ensures
            match token {
                Ok(t) => res.success && opt_view(res.qr_data) == Some(qr_text(opt_text(*tunnel_url), t@))
                    && res.error is None,
                Err(e) => !res.success && res.qr_data is None
                    && opt_view(res.error) == Some("Failed to get token: "@ + e@),
            },
    {
        match token {
            Ok(t) => QrDataResponse { success: true, qr_data: Some(qr_payload(tunnel_url, t.as_str())), error: None },
            Err(e) => QrDataResponse { success: false, qr_data: None, error: Some(cat2("Failed to get token: ", e.as_str())) },
        }
    }
}

/// The instance token kept in the configuration, unless it is missing or
/// empty (then a new one is made).
pub fn stored_instance_token(field: Option<String>) -> (res: Option<String>)
    ensures
        match field {
            Some(t) => if t@.len() > 0 { res matches Some(r) && r@ == t@ } else { res is None },
            None => res is None,
        },
{
    match field {
        Some(t) => if t.as_str().unicode_len() > 0 { Some(t) } else { None },
        None => None,
    }
}

/// The instance token: the one kept in the configuration when it holds one,
/// else a fresh random UUID, with whether it is new (and is to be saved).
/// `None` when a new one is needed and the random source fails.
pub fn instance_token_or_new(field: Option<String>) -> (res: Option<(String, bool)>)
    ensures
        match field {
            Some(t) => if t@.len() > 0 {
                res matches Some(r) && r.0@ == t@ && !r.1
            } else {
                res matches Some(r) ==> uuid_text(r.0@) && r.1
            },
            None => res matches Some(r) ==> uuid_text(r.0@) && r.1,
        },
{
    match stored_instance_token(field) {
        Some(t) => Some((t, false)),
        None => match new_uuid() {
            Some(u) => Some((u, true)),
            None => None,
        },
    }
}

/// The configuration as sent to the frontend: its members, then whether the
/// user is logged in and the user's e-mail (null when unknown).
pub fn config_with_auth(config: Json, is_authenticated: bool, user_email: Option<String>) -> (res: Json)
    ensures
        match config {
            Json::Object(entries) => res matches Json::Object(after) && keyed(after@) == with_entry(
                with_entry(keyed(entries@), "is_authenticated"@, Json::Bool(is_authenticated)),
                "user_email"@,
                match user_email {
                    Some(e) => Json::Str(e),
                    None => Json::Null,
                },
            ),
            _ => res == config,
        },
{
    let mut c = config;
    c.set_member(owned("is_authenticated"), Json::Bool(is_authenticated));
    let email = match user_email {
        Some(e) => Json::Str(e),
        None => Json::Null,
    };
    c.set_member(owned("user_email"), email);
    c
}

/// The stored settings document with the setting `key` set to `value`; a
/// missing or unreadable document counts as an empty object, and a document
/// that is not an object is kept as it is.
pub fn with_setting(stored: Option<Json>, key: String, value: Json) -> (res: Json)
    ensures
        match stored {
            Some(Json::Object(entries)) => res matches Json::Object(after)
                && keyed(after@) == with_entry(keyed(entries@), key@, value),
            Some(other) => res == other,
            None => res matches Json::Object(after) && keyed(after@) == seq![(key@, value)],
        },
{
    let mut doc = match stored {
        Some(d) => d,
        None => Json::Object(Vec::new()),
    };
    let ghost before = doc;
    doc.set_member(key, value);
    proof {
        if stored is None {
            assert(before matches Json::Object(e) && e@.len() == 0);
            assert(keyed(Seq::<(String, Json)>::empty()) =~= Seq::<(Seq<char>, Json)>::empty());
        }
    }
    doc
}

} // verus!
