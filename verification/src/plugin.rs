//! A plugin that conforms to the bridge's contract: it declares two text
//! parameters and answers with the reply of a chat service. The plugin
//! decides what to send and what to make of the reply; sending is the
//! host's part.

use crate::contract::{spec_insert, ParameterMap, PluginMetadata, PluginMetadataView, Type};
use crate::json::{
    json_parse, json_text, spec_as_array, spec_get, spec_items, spec_members, spec_single,
    spec_text_at, utf8_fault, utf8_text, JsonValue, JsonView, Member, MemberView,
};
use vstd::prelude::*;
use vstd::string::*;
use vstd::utf8::*;

verus! {

/// The contract of the chat plugin: the entry point `chatgpt` takes the
/// texts `prompt` and `payload` and returns a text in the field `response`.
pub open spec fn spec_chat_metadata() -> PluginMetadataView {
    PluginMetadataView {
        entry_point: "chatgpt"@,
        parameters: spec_insert(
            spec_insert(Seq::empty(), "prompt"@, Type::String),
            "payload"@,
            Type::String,
        ),
        return_type: Type::String,
        return_field: "response"@,
    }
}

/// The contract that the chat plugin declares.
pub fn metadata() -> (declared: PluginMetadata)
    ensures
        declared@ == spec_chat_metadata(),
{
    let mut parameters = ParameterMap::new();
    parameters.insert("prompt".to_owned(), Type::String);
    parameters.insert("payload".to_owned(), Type::String);
    PluginMetadata {
        entry_point: "chatgpt".to_owned(),
        parameters,
        return_type: Type::String,
        return_field: "response".to_owned(),
    }
}

/// One header of a request.
#[derive(Debug, PartialEq, Eq)]
pub struct Header {
    pub name: String,
    pub value: String,
}

/// A request that the plugin asks its host to send.
#[derive(Debug, PartialEq, Eq)]
pub struct HttpRequest {
    pub url: String,
    pub method: String,
    pub headers: Vec<Header>,
    pub body: String,
}

/// The mathematical content of an [`HttpRequest`].
pub struct HttpRequestView {
    pub url: Seq<char>,
    pub method: Seq<char>,
    pub headers: Seq<(Seq<char>, Seq<char>)>,
    pub body: Seq<char>,
}

impl View for HttpRequest {
    type V = HttpRequestView;

    open spec fn view(&self) -> HttpRequestView {
        HttpRequestView {
            url: self.url@,
            method: self.method@,
            headers: Seq::new(
                self.headers@.len(),
                |i: int| (self.headers@[i].name@, self.headers@[i].value@),
            ),
            body: self.body@,
        }
    }
}

/// Why the chat plugin gives no answer.
#[derive(Debug, PartialEq, Eq)]
pub enum PluginError {
    /// The input is not a JSON object with the texts `prompt` and
    /// `payload`; the text says why.
    BadInput(String),
    /// The host has no key for the chat service.
    MissingKey,
    /// The reply of the chat service cannot be read; the text says why.
    BadResponse(String),
    /// The reply of the chat service holds no choice.
    NoChoice,
}

/// The mathematical content of a [`PluginError`].
pub enum PluginErrorView {
    BadInput(Seq<char>),
    MissingKey,
    BadResponse(Seq<char>),
    NoChoice,
}

impl View for PluginError {
    type V = PluginErrorView;

    open spec fn view(&self) -> PluginErrorView {
        match self {
            PluginError::BadInput(detail) => PluginErrorView::BadInput(detail@),
            PluginError::MissingKey => PluginErrorView::MissingKey,
            PluginError::BadResponse(detail) => PluginErrorView::BadResponse(detail@),
            PluginError::NoChoice => PluginErrorView::NoChoice,
        }
    }
}

/// What happens to the plugin.
#[derive(Debug, PartialEq, Eq)]
pub enum ChatEvent {
    /// The entry point is called with this input; the host holds this key
    /// for the chat service, or none.
    Invoked { input: Vec<u8>, api_key: Option<String> },
    /// The chat service has replied with this body.
    Responded(Vec<u8>),
}

/// What the plugin does next.
#[derive(Debug, PartialEq, Eq)]
pub enum ChatAction {
    /// The host is to send this request and report the reply.
    Send(HttpRequest),
    /// The call returns this text.
    Return(String),
    /// The call fails.
    Fail(PluginError),
}

/// The mathematical content of a [`ChatEvent`].
pub enum ChatEventView {
    Invoked { input: Seq<u8>, api_key: Option<Seq<char>> },
    Responded(Seq<u8>),
}

/// The mathematical content of a [`ChatAction`].
pub enum ChatActionView {
    Send(HttpRequestView),
    Return(Seq<char>),
    Fail(PluginErrorView),
}

impl View for ChatEvent {
    type V = ChatEventView;

    open spec fn view(&self) -> ChatEventView {
        match self {
            ChatEvent::Invoked { input, api_key } => ChatEventView::Invoked {
                input: input@,
                api_key: match api_key {
                    Some(key) => Some(key@),
                    None => None,
                },
            },
            ChatEvent::Responded(body) => ChatEventView::Responded(body@),
        }
    }
}

impl View for ChatAction {
    type V = ChatActionView;

    open spec fn view(&self) -> ChatActionView {
        match self {
            ChatAction::Send(request) => ChatActionView::Send(request@),
            ChatAction::Return(text) => ChatActionView::Return(text@),
            ChatAction::Fail(error) => ChatActionView::Fail(error@),
        }
    }
}

/// The one message of a conversation: the prompt, a space, the payload.
pub open spec fn spec_chat_content(prompt: Seq<char>, payload: Seq<char>) -> Seq<char> {
    prompt + " "@ + payload
}

/// The document that asks the chat service to answer one message of the
/// user.
pub open spec fn spec_chat_body(prompt: Seq<char>, payload: Seq<char>) -> JsonView {
    JsonView::Object(
        seq![
            MemberView { key: "model"@, value: JsonView::String("gpt-3.5-turbo"@) },
            MemberView {
                key: "messages"@,
                value: JsonView::Array(
                    seq![
                        JsonView::Object(
                            seq![
                                MemberView { key: "role"@, value: JsonView::String("user"@) },
                                MemberView {
                                    key: "content"@,
                                    value: JsonView::String(spec_chat_content(prompt, payload)),
                                },
                            ],
                        ),
                    ],
                ),
            },
        ],
    )
}

/// The request to the chat service: the document as JSON text, posted with
/// the key as bearer credential.
pub open spec fn spec_chat_request(prompt: Seq<char>, payload: Seq<char>, api_key: Seq<char>) -> HttpRequestView {
    HttpRequestView {
        url: "https://api.openai.com/v1/chat/completions"@,
        method: "POST"@,
        headers: seq![
            ("Authorization"@, "Bearer "@ + api_key),
            ("Content-Type"@, "application/json"@),
        ],
        body: json_text(spec_chat_body(prompt, payload)),
    }
}

/// What the plugin does when it is called: the input must be a JSON object
/// with the texts `prompt` and `payload`, and the host must hold a key;
/// then the request is sent.
pub open spec fn spec_chat_invoked(input: Seq<u8>, api_key: Option<Seq<char>>) -> ChatActionView {
    match json_parse(input) {
        Err(detail) => ChatActionView::Fail(PluginErrorView::BadInput(detail)),
        Ok(document) => match (
            spec_text_at(document, "prompt"@),
            spec_text_at(document, "payload"@),
        ) {
            (Some(prompt), Some(payload)) => match api_key {
                Some(key) => ChatActionView::Send(spec_chat_request(prompt, payload, key)),
                None => ChatActionView::Fail(PluginErrorView::MissingKey),
            },
            _ => ChatActionView::Fail(
                PluginErrorView::BadInput("`prompt` and `payload` must be strings"@),
            ),
        },
    }
}

/// The text of a choice: the `content` of its `message`.
pub open spec fn spec_choice_content(choice: JsonView) -> Option<Seq<char>> {
    match spec_get(choice, "message"@) {
        Some(message) => spec_text_at(message, "content"@),
        None => None,
    }
}

/// The first of the choices without a text, if there is one.
pub open spec fn spec_first_bad_choice(choices: Seq<JsonView>) -> Option<int> {
    if exists|i: int| 0 <= i < choices.len() && spec_choice_content(#[trigger] choices[i]) is None {
        Some(choose|i: int| 0 <= i < choices.len() && spec_choice_content(#[trigger] choices[i]) is None)
    } else {
        None
    }
}

/// What the plugin does with the reply of the chat service: the reply must
/// be UTF-8 and JSON, an object whose `choices` are an array in which every
/// choice has a text; the text of the first choice is returned as the field
/// `response` of a JSON object.
pub open spec fn spec_chat_responded(body: Seq<u8>) -> ChatActionView {
    if !valid_utf8(body) {
        ChatActionView::Fail(PluginErrorView::BadResponse(utf8_fault(body)))
    } else {
        match json_parse(body) {
            Err(detail) => ChatActionView::Fail(PluginErrorView::BadResponse(detail)),
            Ok(document) => match spec_get(document, "choices"@) {
                Some(JsonView::Array(choices)) => if spec_first_bad_choice(choices) is Some {
                    ChatActionView::Fail(
                        PluginErrorView::BadResponse("a choice has no message with a text"@),
                    )
                } else if choices.len() == 0 {
                    ChatActionView::Fail(PluginErrorView::NoChoice)
                } else {
                    ChatActionView::Return(
                        json_text(
                            spec_single(
                                "response"@,
                                JsonView::String(spec_choice_content(choices[0])->0),
                            ),
                        ),
                    )
                },
                _ => ChatActionView::Fail(
                    PluginErrorView::BadResponse("`choices` is missing or is not an array"@),
                ),
            },
        }
    }
}

/// One step of the chat plugin.
pub open spec fn spec_chatgpt(event: ChatEventView) -> ChatActionView {
    match event {
        ChatEventView::Invoked { input, api_key } => spec_chat_invoked(input, api_key),
        ChatEventView::Responded(body) => spec_chat_responded(body),
    }
}

// The document that asks the chat service to answer one message.
fn chat_body(prompt: &str, payload: &str) -> (body: JsonValue)
    ensures
        body@ == spec_chat_body(prompt@, payload@),
{
    let mut content = prompt.to_owned();
    content.append(" ");
    content.append(payload);
    let mut message: Vec<Member> = Vec::new();
    message.push(Member { key: "role".to_owned(), value: JsonValue::text("user") });
    message.push(Member { key: "content".to_owned(), value: JsonValue::text(content.as_str()) });
    assert(spec_members(message@) =~= seq![
        MemberView { key: "role"@, value: JsonView::String("user"@) },
        MemberView {
            key: "content"@,
            value: JsonView::String(spec_chat_content(prompt@, payload@)),
        },
    ]);
    let mut messages: Vec<JsonValue> = Vec::new();
    messages.push(JsonValue::object(message));
    assert(spec_items(messages@) =~= seq![messages@[0]@]);
    let mut members: Vec<Member> = Vec::new();
    members.push(Member { key: "model".to_owned(), value: JsonValue::text("gpt-3.5-turbo") });
    members.push(Member { key: "messages".to_owned(), value: JsonValue::array(messages) });
    assert(spec_members(members@) =~= seq![
        MemberView { key: "model"@, value: JsonView::String("gpt-3.5-turbo"@) },
        MemberView { key: "messages"@, value: members@[1].value@ },
    ]);
    JsonValue::object(members)
}

/// Writes the request to the chat service for one message.
pub fn chat_request(prompt: &str, payload: &str, api_key: &str) -> (request: HttpRequest)
    ensures
        request@ == spec_chat_request(prompt@, payload@, api_key@),
{
    let mut credential = "Bearer ".to_owned();
    credential.append(api_key);
    let mut headers: Vec<Header> = Vec::new();
    headers.push(Header { name: "Authorization".to_owned(), value: credential });
    headers.push(Header { name: "Content-Type".to_owned(), value: "application/json".to_owned() });
    let request = HttpRequest {
        url: "https://api.openai.com/v1/chat/completions".to_owned(),
        method: "POST".to_owned(),
        headers,
        body: chat_body(prompt, payload).to_text(),
    };
    assert(request@.headers =~= seq![
        ("Authorization"@, "Bearer "@ + api_key@),
        ("Content-Type"@, "application/json"@),
    ]);
    request
}

// What the plugin does when it is called.
fn chat_invoked(input: Vec<u8>, api_key: Option<String>) -> (action: ChatAction)
    ensures
        action@ == spec_chat_invoked(
            input@,
            match api_key {
                Some(key) => Some(key@),
                None => None,
            },
        ),
{
    let document = match JsonValue::parse(input.as_slice()) {
        Ok(document) => document,
        Err(detail) => {
            return ChatAction::Fail(PluginError::BadInput(detail));
        },
    };
    match (document.text_at("prompt"), document.text_at("payload")) {
        (Some(prompt), Some(payload)) => match api_key {
            Some(key) => ChatAction::Send(chat_request(prompt, payload, key.as_str())),
            None => ChatAction::Fail(PluginError::MissingKey),
        },
        _ => ChatAction::Fail(
            PluginError::BadInput("`prompt` and `payload` must be strings".to_owned()),
        ),
    }
}

// The text of a choice.
fn choice_content(choice: &JsonValue) -> (found: Option<&str>)
    ensures
        match found {
            Some(text) => spec_choice_content(choice@) == Some(text@),
            None => spec_choice_content(choice@) is None,
        },
{
    match choice.get("message") {
        Some(message) => message.text_at("content"),
        None => None,
    }
}

// What the plugin does with the reply of the chat service.
fn chat_responded(body: Vec<u8>) -> (action: ChatAction)
    ensures
        action@ == spec_chat_responded(body@),
{
    match utf8_text(body.as_slice()) {
        Err(detail) => {
            return ChatAction::Fail(PluginError::BadResponse(detail));
        },
        Ok(_) => {},
    }
    let document = match JsonValue::parse(body.as_slice()) {
        Ok(document) => document,
        Err(detail) => {
            return ChatAction::Fail(PluginError::BadResponse(detail));
        },
    };
    let choices = match document.get("choices") {
        Some(found) => match found.as_array() {
            Some(choices) => choices,
            None => {
                return ChatAction::Fail(
                    PluginError::BadResponse("`choices` is missing or is not an array".to_owned()),
                );
            },
        },
        None => {
            return ChatAction::Fail(
                PluginError::BadResponse("`choices` is missing or is not an array".to_owned()),
            );
        },
    };
    let ghost all = spec_items(choices@);
    let mut i: usize = 0;
    while i < choices.len()
        invariant
            i <= choices@.len(),
            all == spec_items(choices@),
            spec_get(document@, "choices"@) == Some(JsonView::Array(all)),
            valid_utf8(body@),
            json_parse(body@) == Ok::<JsonView, Seq<char>>(document@),
            forall|k: int| 0 <= k < i ==> spec_choice_content(#[trigger] all[k]) is Some,
        decreases choices@.len() - i,
    {
        assert(all[i as int] == choices@[i as int]@);
        if choice_content(&choices[i]).is_none() {
            return ChatAction::Fail(
                PluginError::BadResponse("a choice has no message with a text".to_owned()),
            );
        }
        i += 1;
    }
    if choices.len() == 0 {
        return ChatAction::Fail(PluginError::NoChoice);
    }
    assert(all[0] == choices@[0]@);
    match choice_content(&choices[0]) {
        Some(text) => ChatAction::Return(
            JsonValue::single("response", JsonValue::text(text)).to_text(),
        ),
        None => ChatAction::Fail(PluginError::NoChoice),
    }
}

/// Takes one step of the chat plugin: called, it says what to send to the
/// chat service; given the reply, it says what the call returns.
pub fn chatgpt(event: ChatEvent) -> (action: ChatAction)
    ensures
        action@ == spec_chatgpt(event@),
{
    match event {
        ChatEvent::Invoked { input, api_key } => chat_invoked(input, api_key),
        ChatEvent::Responded(body) => chat_responded(body),
    }
}

} // verus!
