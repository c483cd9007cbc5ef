//! The local OpenAI-compatible API: its address and lifecycle, and how its
//! requests are turned into ChatGPT requests and its answers back.

use vstd::prelude::*;
use crate::error::{opt_view, MindLinkError, MindLinkResult};
use crate::json::{entry_value, follow, pointer_step, Json};
use crate::logging::{new_uuid, uuid_text};
use crate::managers::bifrost_manager::{base_url, base_url_string};
use crate::text::{cat2, cat3, decimal, decimal_string, opt_text, owned, str_eq, views};

verus! {

broadcast use vstd::string::group_string_axioms;

/// A chat message.
pub struct Message {
    pub role: String,
    pub content: String,
}

/// An OpenAI chat completion request.  The sampling temperature, a
/// floating-point number, travels beside it untouched; the members the
/// router does not know are kept in `other`.
pub struct ChatCompletionRequest {
    pub model: String,
    pub messages: Vec<Message>,
    pub max_tokens: Option<u32>,
    pub stream: Option<bool>,
    pub other: Vec<(String, Json)>,
}

/// An OpenAI chat completion answer.
pub struct ChatCompletionResponse {
    pub id: String,
    pub object: String,
    pub created: u64,
    pub model: String,
    pub choices: Vec<Choice>,
    pub usage: Option<Usage>,
}

/// One choice of a chat completion.
pub struct Choice {
    pub index: u32,
    pub message: Option<Message>,
    pub delta: Option<Delta>,
    pub finish_reason: Option<String>,
}

/// A streamed piece of a choice.
pub struct Delta {
    pub role: Option<String>,
    pub content: Option<String>,
}

/// Token counts of a completion.
pub struct Usage {
    pub prompt_tokens: u32,
    pub completion_tokens: u32,
    pub total_tokens: u32,
}

/// The model list of the API.
pub struct ModelList {
    pub object: String,
    pub data: Vec<Model>,
}

/// A model offered by the API.
pub struct Model {
    pub id: String,
    pub object: String,
    pub created: u64,
    pub owned_by: String,
}

/// A message of the ChatGPT backend.
pub struct ChatGptMessage {
    pub id: String,
    pub author: ChatGptAuthor,
    pub content: ChatGptContent,
    pub metadata: Option<Json>,
}

/// The author of a ChatGPT message.
pub struct ChatGptAuthor {
    pub role: String,
    pub name: Option<String>,
}

/// The content of a ChatGPT message.
pub struct ChatGptContent {
    pub content_type: String,
    pub parts: Vec<String>,
}

/// A request to the ChatGPT backend.  The sampling temperature of the
/// incoming request travels beside it untouched.
pub struct ChatGptRequest {
    pub action: String,
    pub messages: Vec<ChatGptMessage>,
    pub parent_message_id: String,
    pub model: String,
    pub stream: Option<bool>,
}

/// The ChatGPT model a requested model is served by.
pub open spec fn mapped_model(model: Seq<char>) -> Seq<char> {
    if model == "codex-mini"@ { "gpt-3.5-turbo"@ } else { "gpt-4"@ }
}

/// The ChatGPT model a requested model is served by: `codex-mini` by
/// `gpt-3.5-turbo`, everything else (`gpt-5` included) by `gpt-4`.
pub fn map_model_name(model: &str) -> (res: String)
    ensures
        res@ == mapped_model(model@),
{
    proof {
        reveal_strlit("gpt-5");
        reveal_strlit("codex-mini");
        assert("gpt-5"@.len() != "codex-mini"@.len());
    }
    if str_eq(model, "gpt-5") {
        owned("gpt-4")
    } else if str_eq(model, "codex-mini") {
        owned("gpt-3.5-turbo")
    } else {
        owned("gpt-4")
    }
}

/// The byte length of a text.
pub open spec fn bytes_of(s: Seq<char>) -> nat {
    (vstd::utf8::encode_utf8(s).len() as usize) as nat
}

/// The estimated tokens of one message: a quarter of its bytes, rounded up.
pub open spec fn message_tokens(m: Message) -> nat {
    (bytes_of(m.content@) + 3) / 4
}

/// The estimated tokens of messages, summed.
pub open spec fn tokens_of(messages: Seq<Message>) -> nat
    decreases messages.len(),
{
    if messages.len() == 0 { 0 } else { tokens_of(messages.drop_last()) + message_tokens(messages.last()) }
}

/// The largest message, in bytes, whose quarter the estimate computes
/// exactly; beyond it the estimate's floating-point arithmetic rounds.
pub const EXACT_ESTIMATE_BYTES: usize = 16777216;

/// The estimated prompt tokens of messages: for each, a quarter of its bytes
/// rounded up, summed.  Each message must be small enough for the estimate to
/// be exact, and the sum must fit the count.
pub fn estimate_tokens(messages: &Vec<Message>) -> (res: u32)
    requires
        forall|i: int| 0 <= i < messages@.len() ==> bytes_of((#[trigger] messages@[i]).content@) <= 16777216,
        tokens_of(messages@) <= u32::MAX,
    ensures
        res == tokens_of(messages@),
{
    let mut total: u32 = 0;
    let mut i: usize = 0;
    while i < messages.len()
        invariant
            i <= messages@.len(),
            forall|k: int| 0 <= k < messages@.len() ==> bytes_of((#[trigger] messages@[k]).content@) <= 16777216,
            tokens_of(messages@) <= u32::MAX,
            total == tokens_of(messages@.take(i as int)),
        decreases messages.len() - i,
    {
        proof {
            lemma_tokens_prefix_bound(messages@, i as int + 1);
            assert(messages@.take(i as int + 1).drop_last() =~= messages@.take(i as int));
            assert(messages@.take(i as int + 1).last() == messages@[i as int]);
        }
        let len: usize = messages[i].content.as_str().len();
        let add: u32 = ((len + 3) / 4) as u32;
        total = total + add;
        i = i + 1;
    }
    assert(messages@.take(messages@.len() as int) =~= messages@);
    total
}

/// The estimate of a prefix is no more than that of the whole.
pub proof fn lemma_tokens_prefix_bound(messages: Seq<Message>, n: int)
    requires
        0 <= n <= messages.len(),
    ensures
        tokens_of(messages.take(n)) <= tokens_of(messages),
    decreases messages.len() - n,
{
    if n < messages.len() {
        lemma_tokens_prefix_bound(messages, n + 1);
        assert(messages.take(n + 1).drop_last() =~= messages.take(n));
    } else {
        assert(messages.take(n) =~= messages);
    }
}

/// The ChatGPT form of one message under the id `id`: the role as author,
/// the content as its one text part.
pub open spec fn converted(m: Message, c: ChatGptMessage, id: Seq<char>) -> bool {
    &&& c.id@ == id
    &&& c.author.role@ == m.role@
    &&& c.author.name is None
    &&& c.content.content_type@ == "text"@
    &&& views(c.content.parts@) == seq![m.content@]
    &&& c.metadata is None
}

/// `r` is the ChatGPT request for `request` with the message ids `ids`, in
/// order: each message converted under its id, the second-to-last message's
/// id as parent (`parent` when there is only one message or none), the
/// mapped model, and the streaming flag asked for.
pub open spec fn request_with_ids(request: ChatCompletionRequest, ids: Seq<Seq<char>>, parent: Seq<char>, r: ChatGptRequest) -> bool {
    &&& r.action@ == "next"@
    &&& r.messages@.len() == ids.len()
    &&& forall|i: int| 0 <= i < ids.len() ==> converted(request.messages@[i], #[trigger] r.messages@[i], ids[i])
    &&& r.parent_message_id@ == (if ids.len() > 1 { ids[ids.len() - 2] } else { parent })
    &&& r.model@ == mapped_model(request.model@)
    &&& r.stream == request.stream
}

/// The ChatGPT request for a chat completion request, with the message ids
/// `ids` (one per message, in order) and `parent` as the parent id when
/// there are fewer than two messages.
pub fn chatgpt_request_with_ids(request: &ChatCompletionRequest, ids: &Vec<String>, parent: &str) -> (res: ChatGptRequest)
    requires
        ids@.len() == request.messages@.len(),
    ensures
        request_with_ids(*request, views(ids@), parent@, res),
{
    let mut out: Vec<ChatGptMessage> = Vec::new();
    let mut i: usize = 0;
    while i < request.messages.len()
        invariant
            i <= request.messages@.len(),
            ids@.len() == request.messages@.len(),
            out@.len() == i,
            forall|k: int| 0 <= k < i ==> converted(request.messages@[k], #[trigger] out@[k], ids@[k]@),
        decreases request.messages.len() - i,
    {
        let m = &request.messages[i];
        let mut parts: Vec<String> = Vec::new();
        parts.push(m.content.clone());
        assert(views(parts@) =~= seq![m.content@]);
        let c = ChatGptMessage {
            id: ids[i].clone(),
            author: ChatGptAuthor { role: m.role.clone(), name: None },
            content: ChatGptContent { content_type: owned("text"), parts },
            metadata: None,
        };
        out.push(c);
        i = i + 1;
    }
    let parent_id = if out.len() > 1 {
        out[out.len() - 2].id.clone()
    } else {
        owned(parent)
    };
    let res = ChatGptRequest {
        action: owned("next"),
        messages: out,
        parent_message_id: parent_id,
        model: map_model_name(request.model.as_str()),
        stream: request.stream,
    };
    assert forall|k: int| 0 <= k < views(ids@).len() implies
        converted(request.messages@[k], #[trigger] res.messages@[k], views(ids@)[k]) by {
        assert(views(ids@)[k] == ids@[k]@);
    }
    proof {
        if ids@.len() > 1 {
            assert(views(ids@)[ids@.len() - 2] == ids@[ids@.len() - 2]@);
        }
    }
    res
}

/// The ChatGPT request for a chat completion request: each message under a
/// fresh random id, and a fresh random parent id when there are fewer than
/// two messages (see `chatgpt_request_with_ids`).  `None` when the random
/// source fails.
pub fn convert_to_chatgpt_format(request: &ChatCompletionRequest) -> (res: Option<ChatGptRequest>)
    ensures
        res matches Some(r) ==> exists|ids: Seq<Seq<char>>, parent: Seq<char>|
            (forall|i: int| 0 <= i < ids.len() ==> uuid_text(#[trigger] ids[i]))
            && (ids.len() <= 1 ==> uuid_text(parent))
            && #[trigger] request_with_ids(*request, ids, parent, r),
{
    let mut ids: Vec<String> = Vec::new();
    let mut i: usize = 0;
    while i < request.messages.len()
        invariant
            i <= request.messages@.len(),
            ids@.len() == i,
            forall|k: int| 0 <= k < i ==> uuid_text(#[trigger] ids@[k]@),
        decreases request.messages.len() - i,
    {
        let id = match new_uuid() {
            Some(u) => u,
            None => return None,
        };
        ids.push(id);
        i = i + 1;
    }
    let parent = if ids.len() > 1 {
        String::new()
    } else {
        match new_uuid() {
            Some(u) => u,
            None => return None,
        }
    };
    let r = chatgpt_request_with_ids(request, &ids, parent.as_str());
    assert forall|k: int| 0 <= k < views(ids@).len() implies uuid_text(#[trigger] views(ids@)[k]) by {
        assert(views(ids@)[k] == ids@[k]@);
    }
    Some(r)
}

/// The reply text in a ChatGPT answer: the first part of `message.content`
/// when it is text, else the text of a top-level `content`.
pub open spec fn reply_text(answer: Json) -> Option<Seq<char>> {
    let first_part = match answer.member("message"@) {
        Some(m) => match m.member("content"@) {
            Some(c) => match c.member("parts"@) {
                Some(p) => match p.items() {
                    Some(items) => if items.len() > 0 { items[0].text() } else { None },
                    None => None,
                },
                None => None,
            },
            None => None,
        },
        None => None,
    };
    match first_part {
        Some(t) => Some(t),
        None => match answer.member("content"@) {
            Some(c) => c.text(),
            None => None,
        },
    }
}

/// The reply text in a ChatGPT answer, when there is one.
pub fn extract_content_from_response(answer: &Json) -> (res: Option<String>)
    ensures
        opt_text(res) == reply_text(*answer),
{
    let mut first: Option<&str> = None;
    if let Some(m) = answer.get("message") {
        if let Some(c) = m.get("content") {
            if let Some(p) = c.get("parts") {
                if let Some(items) = p.as_array() {
                    if items.len() > 0 {
                        first = items[0].as_str();
                    }
                }
            }
        }
    }
    match first {
        Some(t) => Some(owned(t)),
        None => match answer.get("content") {
            Some(c) => match c.as_str() {
                Some(t) => Some(owned(t)),
                None => None,
            },
            None => None,
        },
    }
}

/// The OpenAI answer for a ChatGPT answer: one choice holding the reply (empty
/// when there is none) as the assistant's message, finished with `stop`, and
/// the usage estimate (the prompt's tokens, a hundred completion tokens).
pub fn create_openai_response(
    request: &ChatCompletionRequest,
    answer: &Json,
    completion_id: String,
    created: u64,
) -> (res: ChatCompletionResponse)
    requires
        forall|i: int| 0 <= i < request.messages@.len()
            ==> bytes_of((#[trigger] request.messages@[i]).content@) <= 16777216,
        tokens_of(request.messages@) + 100 <= u32::MAX,
    ensures
        res.id@ == completion_id@,
        res.object@ == "chat.completion"@,
        res.created == created,
        res.model@ == request.model@,
        res.choices@.len() == 1,
        res.choices@[0].index == 0,
        res.choices@[0].message matches Some(m) && m.role@ == "assistant"@ && m.content@ == match reply_text(*answer) {
            Some(t) => t,
            None => Seq::<char>::empty(),
        },
        res.choices@[0].delta is None,
        opt_view(res.choices@[0].finish_reason) == Some("stop"@),
        res.usage matches Some(u) && u.prompt_tokens == tokens_of(request.messages@)
            && u.completion_tokens == 100 && u.total_tokens == tokens_of(request.messages@) + 100,
{
    let content = match extract_content_from_response(answer) {
        Some(t) => t,
        None => String::new(),
    };
    let prompt = estimate_tokens(&request.messages);
    let mut choices: Vec<Choice> = Vec::new();
    choices.push(Choice {
        index: 0,
        message: Some(Message { role: owned("assistant"), content }),
        delta: None,
        finish_reason: Some(owned("stop")),
    });
    ChatCompletionResponse {
        id: completion_id,
        object: owned("chat.completion"),
        created,
        model: request.model.clone(),
        choices,
        usage: Some(Usage { prompt_tokens: prompt, completion_tokens: 100, total_tokens: prompt + 100 }),
    }
}

/// A fresh completion id: `chatcmpl-` and a new UUID; `None` when the random
/// source fails.
pub fn completion_id() -> (res: Option<String>)
    ensures
        res matches Some(c) ==> exists|u: Seq<char>| uuid_text(u) && c@ == "chatcmpl-"@ + u,
{
    match new_uuid() {
        Some(u) => Some(cat2("chatcmpl-", u.as_str())),
        None => None,
    }
}

/// The models the API offers, each created at `created`: `gpt-5` and
/// `codex-mini`, owned by `mindlink`.
pub fn model_list(created: u64) -> (res: ModelList)
    ensures
        res.object@ == "list"@,
        res.data@.len() == 2,
        res.data@[0].id@ == "gpt-5"@,
        res.data@[1].id@ == "codex-mini"@,
        forall|i: int| 0 <= i < 2 ==> (#[trigger] res.data@[i]).object@ == "model"@
            && res.data@[i].created == created && res.data@[i].owned_by@ == "mindlink"@,
{
    let mut data: Vec<Model> = Vec::new();
    data.push(Model { id: owned("gpt-5"), object: owned("model"), created, owned_by: owned("mindlink") });
    data.push(Model { id: owned("codex-mini"), object: owned("model"), created, owned_by: owned("mindlink") });
    ModelList { object: owned("list"), data }
}

fn member(key: &str, value: Json) -> (res: (String, Json))
    ensures
        res.0@ == key@,
        res.1 == value,
{
    (owned(key), value)
}

/// The body of an error answer: `{"error": {"message", "type", "code"}}`
/// with the HTTP status as the code.
pub fn error_body(status: u16, message: &str) -> (res: Json)
    ensures
        res matches Json::Object(e) && e@.len() == 1 && e@[0].0@ == "error"@
            && (e@[0].1 matches Json::Object(f) && f@.len() == 3
                && f@[0].0@ == "message"@ && f@[0].1.text() == Some(message@)
                && f@[1].0@ == "type"@ && f@[1].1.text() == Some("invalid_request_error"@)
                && f@[2].0@ == "code"@ && (f@[2].1 matches Json::Number(n) && n@ == decimal(status as nat))),
{
    let mut inner: Vec<(String, Json)> = Vec::new();
    inner.push(member("message", Json::text_value(message)));
    inner.push(member("type", Json::text_value("invalid_request_error")));
    inner.push(member("code", Json::Number(decimal_string(status as u64))));
    let mut outer: Vec<(String, Json)> = Vec::new();
    outer.push(member("error", Json::Object(inner)));
    Json::Object(outer)
}

/// The body of the health endpoint at `timestamp` (seconds since the epoch).
pub fn health_body(timestamp: i64) -> (res: Json)
    ensures
        res matches Json::Object(e) && e@.len() == 3
            && e@[0].0@ == "status"@ && e@[0].1.text() == Some("healthy"@)
            && e@[1].0@ == "timestamp"@ && (e@[1].1 matches Json::Number(n)
                && n@ == crate::text::signed_decimal(timestamp as int))
            && e@[2].0@ == "service"@ && e@[2].1.text() == Some("MindLink API Server"@),
{
    let mut v: Vec<(String, Json)> = Vec::new();
    v.push(member("status", Json::text_value("healthy")));
    v.push(member("timestamp", Json::Number(crate::text::signed_decimal_string_i64(timestamp))));
    v.push(member("service", Json::text_value("MindLink API Server")));
    Json::Object(v)
}

/// The body of the root endpoint: the service, its version and endpoints.
pub fn root_body() -> (res: Json)
    ensures
        res matches Json::Object(e) && e@.len() == 3
            && e@[0].0@ == "service"@ && e@[0].1.text() == Some("MindLink API Server"@)
            && e@[1].0@ == "version"@ && e@[1].1.text() == Some("1.0.0"@)
            && e@[2].0@ == "endpoints"@ && (e@[2].1 matches Json::Object(f) && f@.len() == 4
                && f@[0].0@ == "models"@ && f@[0].1.text() == Some("/v1/models"@)
                && f@[1].0@ == "chat"@ && f@[1].1.text() == Some("/v1/chat/completions"@)
                && f@[2].0@ == "health"@ && f@[2].1.text() == Some("/health"@)
                && f@[3].0@ == "dashboard"@ && f@[3].1.text() == Some("/dashboard"@)),
{
    let mut endpoints: Vec<(String, Json)> = Vec::new();
    endpoints.push(member("models", Json::text_value("/v1/models")));
    endpoints.push(member("chat", Json::text_value("/v1/chat/completions")));
    endpoints.push(member("health", Json::text_value("/health")));
    endpoints.push(member("dashboard", Json::text_value("/dashboard")));
    let mut v: Vec<(String, Json)> = Vec::new();
    v.push(member("service", Json::text_value("MindLink API Server")));
    v.push(member("version", Json::text_value("1.0.0")));
    v.push(member("endpoints", Json::Object(endpoints)));
    Json::Object(v)
}

/// An answer of the API that is not a completion: its HTTP status and body.
pub struct ErrorAnswer {
    pub status: u16,
    pub message: String,
}

/// The answer to a chat completion request that is refused before it is
/// forwarded: no messages (400).
pub fn validate_chat_request(request: &ChatCompletionRequest) -> (res: Option<ErrorAnswer>)
    ensures
        request.messages@.len() == 0 ==> (res matches Some(a) && a.status == 400
            && a.message@ == "messages array cannot be empty"@),
        request.messages@.len() > 0 ==> res is None,
{
    if request.messages.len() == 0 {
        Some(ErrorAnswer { status: 400, message: owned("messages array cannot be empty") })
    } else {
        None
    }
}

/// The answer for an error that stops a completion: its message for the
/// user, with the given status.
pub fn error_answer(status: u16, error: &MindLinkError) -> (res: ErrorAnswer)
    ensures
        res.status == status,
        res.message@ == error.user_text(),
{
    ErrorAnswer { status, message: error.user_message() }
}

/// The error when the tokens could not be made valid for a completion.
pub fn token_validation_failed() -> (res: MindLinkError)
    ensures
        res.is_auth("Token validation failed"@, None),
{
    MindLinkError::Authentication { message: owned("Token validation failed"), source: None }
}

/// The error when no access token is held for a completion.
pub fn no_access_token() -> (res: MindLinkError)
    ensures
        res.is_auth("No valid access token available"@, None),
{
    MindLinkError::Authentication { message: owned("No valid access token available"), source: None }
}

/// A streaming request is answered in one piece: the forwarded request does
/// not stream.
pub fn without_streaming(request: ChatGptRequest) -> (res: ChatGptRequest)
    ensures
        res.stream == Some(false),
        res.action == request.action,
        res.messages == request.messages,
        res.parent_message_id == request.parent_message_id,
        res.model == request.model,
{
    ChatGptRequest { stream: Some(false), ..request }
}

/// The error of a ChatGPT request answered with an unsuccessful status.
pub fn backend_status_error(status: &str) -> (res: MindLinkError)
    ensures
        res.is_network("ChatGPT API returned status: "@ + status@,
            Some("https://chatgpt.com/backend-api/codex/responses"@), None),
{
    MindLinkError::Network {
        message: cat2("ChatGPT API returned status: ", status),
        url: Some(owned("https://chatgpt.com/backend-api/codex/responses")),
        source: None,
    }
}

/// A network error with an address and a cause.
pub fn network_failure(message: &str, url: &str, source: anyhow::Error) -> (res: MindLinkError)
    ensures
        res.is_network(message@, Some(url@), Some(source)),
{
    MindLinkError::Network { message: owned(message), url: Some(owned(url)), source: Some(source) }
}

/// The local API server: its address and whether it runs.
pub struct ServerManager {
    port: u16,
    host: String,
    is_running: bool,
}

impl ServerManager {
    pub closed spec fn host(&self) -> Seq<char> {
        self.host@
    }

    pub closed spec fn port(&self) -> u16 {
        self.port
    }

    pub closed spec fn running(&self) -> bool {
        self.is_running
    }

    /// The server's address.
    pub open spec fn url(&self) -> Seq<char> {
        base_url(self.host(), self.port())
    }

    /// A stopped server for `127.0.0.1:3001`.
    pub fn new() -> (res: Self)
        ensures
            res.host() == "127.0.0.1"@,
            res.port() == 3001,
            !res.running(),
    {
        ServerManager { port: 3001, host: owned("127.0.0.1"), is_running: false }
    }

    /// Whether the server runs.
    pub fn is_running(&self) -> (res: bool)
        ensures
            res == self.running(),
    {
        self.is_running
    }

    /// The address the server binds to: `host:port`.
    pub fn bind_address(&self) -> (res: String)
        ensures
            res@ == self.host() + ":"@ + decimal(self.port() as nat),
    {
        let p = decimal_string(self.port as u64);
        cat3(self.host.as_str(), ":", p.as_str())
    }

    /// The error when the address could not be bound.
    pub fn bind_failure(&self, source: anyhow::Error) -> (res: MindLinkError)
        ensures
            res.is_network("Failed to bind to "@ + self.host() + ":"@ + decimal(self.port() as nat),
                Some(self.host() + ":"@ + decimal(self.port() as nat)), Some(source)),
    {
        let a = self.bind_address();
        let m = cat2("Failed to bind to ", a.as_str());
        assert(m@ =~= "Failed to bind to "@ + self.host() + ":"@ + decimal(self.port() as nat));
        MindLinkError::Network { message: m, url: Some(a), source: Some(source) }
    }

    /// The server was started: it runs, at its address.
    pub fn started(&mut self) -> (res: String)
        ensures
            final(self).running(),
            final(self).host() == old(self).host(),
            final(self).port() == old(self).port(),
            res@ == old(self).url(),
    {
        self.is_running = true;
        base_url_string(self.host.as_str(), self.port)
    }

    /// Stop the server; whether it was running (and so had to be stopped).
    pub fn stop(&mut self) -> (was_running: bool)
        ensures
            was_running == old(self).running(),
            !final(self).running(),
            final(self).host() == old(self).host(),
            final(self).port() == old(self).port(),
    {
        let was = self.is_running;
        self.is_running = false;
        was
    }

    /// The server's address while it runs.
    pub fn get_local_url(&self) -> (res: Option<String>)
        ensures
            opt_text(res) == (if self.running() { Some(self.url()) } else { None }),
    {
        if self.is_running { Some(base_url_string(self.host.as_str(), self.port)) } else { None }
    }

    /// The health endpoint of the server.
    pub fn health_url(&self) -> (res: String)
        ensures
            res@ == self.url() + "/health"@,
    {
        let u = base_url_string(self.host.as_str(), self.port);
        cat2(u.as_str(), "/health")
    }

    /// Move the server to another address; refused while it runs.
    pub fn configure(&mut self, host: String, port: u16) -> (res: MindLinkResult<()>)
        ensures
            old(self).running() ==> (res matches Err(e) && e.is_config(
                "Cannot change server configuration while running"@, Some("host/port"@), None))
                && final(self).host() == old(self).host() && final(self).port() == old(self).port(),
            !old(self).running() ==> res is Ok && final(self).host() == host@ && final(self).port() == port,
            final(self).running() == old(self).running(),
    {
        if self.is_running {
            return Err(MindLinkError::Configuration {
                message: owned("Cannot change server configuration while running"),
                config_key: Some(owned("host/port")),
                source: None,
            });
        }
        self.host = host;
        self.port = port;
        Ok(())
    }
}

} // verus!
