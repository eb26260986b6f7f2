use pg_extism::contract::Type;
use pg_extism::invocation::{call_envelope, finish_call, prepare_call, returned_value, CallReply};
use pg_extism::json::JsonValue;
use pg_extism::plugin::{chat_request, chatgpt, metadata, ChatAction, ChatEvent, Header, PluginError};
use pg_extism::synthesizer::synthesize;

const REPLY: &str = r#"{"id":"chatcmpl-1","object":"chat.completion","choices":[{"index":0,"message":{"role":"assistant","content":"Hello, world."},"finish_reason":"stop"},{"index":1,"message":{"role":"assistant","content":"Second."}}],"usage":{"total_tokens":9}}"#;

fn invoked(input: &str, api_key: Option<&str>) -> ChatAction {
    chatgpt(ChatEvent::Invoked {
        input: input.as_bytes().to_vec(),
        api_key: api_key.map(|key| key.to_string()),
    })
}

fn responded(body: &[u8]) -> ChatAction {
    chatgpt(ChatEvent::Responded(body.to_vec()))
}

fn bad_response(detail: &str) -> ChatAction {
    ChatAction::Fail(PluginError::BadResponse(detail.to_string()))
}

#[test]
fn the_chat_plugin_declares_its_contract() {
    let declared = metadata();
    assert_eq!(declared.entry_point, "chatgpt");
    assert_eq!(declared.return_type, Type::String);
    assert_eq!(declared.return_field, "response");
    assert_eq!(declared.parameters.len(), 2);
    assert_eq!(declared.parameters.parameter(0).unwrap().name, "payload");
    assert_eq!(declared.parameters.parameter(0).unwrap().value_type, Type::String);
    assert_eq!(declared.parameters.parameter(1).unwrap().name, "prompt");
    assert_eq!(declared.parameters.parameter(1).unwrap().value_type, Type::String);
}

#[test]
fn the_request_to_the_chat_service() {
    let request = chat_request("Summarize:", "hello world", "sk-test");
    assert_eq!(request.url, "https://api.openai.com/v1/chat/completions");
    assert_eq!(request.method, "POST");
    assert_eq!(
        request.headers,
        vec![
            Header { name: "Authorization".to_string(), value: "Bearer sk-test".to_string() },
            Header { name: "Content-Type".to_string(), value: "application/json".to_string() },
        ]
    );
    assert_eq!(
        request.body,
        r#"{"messages":[{"content":"Summarize: hello world","role":"user"}],"model":"gpt-3.5-turbo"}"#
    );
}

#[test]
fn the_message_is_the_prompt_a_space_and_the_payload() {
    assert!(chat_request("", "", "k").body.contains(r#""content":" ""#));
    assert!(chat_request("a", "", "k").body.contains(r#""content":"a ""#));
    assert!(chat_request("say \"hi\"", "now", "k").body.contains(r#""content":"say \"hi\" now""#));
}

#[test]
fn a_call_sends_the_request() {
    let action = invoked(r#"{"prompt":"Summarize:","payload":"hello world"}"#, Some("sk-test"));
    assert_eq!(action, ChatAction::Send(chat_request("Summarize:", "hello world", "sk-test")));
}

#[test]
fn a_call_passes_over_members_it_does_not_know() {
    let action = invoked(r#"{"payload":"b","extra":[1,2],"prompt":"a"}"#, Some("k"));
    assert_eq!(action, ChatAction::Send(chat_request("a", "b", "k")));
}

#[test]
fn a_call_with_an_input_that_is_not_json_fails() {
    assert_eq!(
        invoked("prompt=a", Some("k")),
        ChatAction::Fail(PluginError::BadInput("expected value at line 1 column 1".to_string()))
    );
}

#[test]
fn a_call_without_both_texts_fails() {
    let expected = ChatAction::Fail(PluginError::BadInput(
        "`prompt` and `payload` must be strings".to_string(),
    ));
    assert_eq!(invoked(r#"{"prompt":"a"}"#, Some("k")), expected);
    assert_eq!(invoked(r#"{"payload":"b"}"#, Some("k")), expected);
    assert_eq!(invoked(r#"{"prompt":"a","payload":2}"#, Some("k")), expected);
    assert_eq!(invoked(r#"["a","b"]"#, Some("k")), expected);
    assert_eq!(invoked(r#"{"prompt":"a"}"#, None), expected);
}

#[test]
fn a_call_without_a_key_fails() {
    assert_eq!(
        invoked(r#"{"prompt":"a","payload":"b"}"#, None),
        ChatAction::Fail(PluginError::MissingKey)
    );
}

#[test]
fn the_text_of_the_first_choice_is_returned_as_the_response() {
    assert_eq!(
        responded(REPLY.as_bytes()),
        ChatAction::Return(r#"{"response":"Hello, world."}"#.to_string())
    );
}

#[test]
fn a_reply_that_is_not_utf8_fails() {
    assert_eq!(
        responded(&[b'{', 0xff]),
        bad_response("invalid utf-8 sequence of 1 bytes from index 1")
    );
}

#[test]
fn a_reply_that_is_not_json_fails() {
    assert_eq!(responded(b"<html>"), bad_response("expected value at line 1 column 1"));
}

#[test]
fn a_reply_without_an_array_of_choices_fails() {
    let detail = "`choices` is missing or is not an array";
    assert_eq!(responded(br#"{"error":{"message":"quota"}}"#), bad_response(detail));
    assert_eq!(responded(br#"{"choices":{"0":{}}}"#), bad_response(detail));
    assert_eq!(responded(br#"[]"#), bad_response(detail));
}

#[test]
fn a_reply_with_a_choice_without_text_fails() {
    let detail = "a choice has no message with a text";
    assert_eq!(responded(br#"{"choices":[{"message":{"content":7}}]}"#), bad_response(detail));
    assert_eq!(responded(br#"{"choices":[{"text":"x"}]}"#), bad_response(detail));
    assert_eq!(responded(br#"{"choices":["x"]}"#), bad_response(detail));
    assert_eq!(
        responded(br#"{"choices":[{"message":{"content":"fine"}},{"message":{}}]}"#),
        bad_response(detail)
    );
}

#[test]
fn a_reply_without_choices_fails() {
    assert_eq!(responded(br#"{"choices":[]}"#), ChatAction::Fail(PluginError::NoChoice));
}

#[test]
fn the_chat_plugin_from_end_to_end() {
    // registration
    let declared = metadata();
    let definition = synthesize("/plugins/chatgpt.wasm", "chatgpt", &declared);
    assert!(definition
        .render()
        .starts_with("CREATE OR REPLACE FUNCTION chatgpt(prompt TEXT, payload TEXT) RETURNS TEXT"));
    // the stored function is called with prompt and payload
    let values = vec![JsonValue::text("Summarize:"), JsonValue::text("hello world")];
    let envelope = call_envelope(&definition, &values).unwrap();
    let request = prepare_call(&definition.locator, &definition.entry_point, &envelope, "sk-test");
    assert_eq!(request.function, "chatgpt");
    assert_eq!(request.config.allowed_hosts, vec!["api.openai.com".to_string()]);
    let key = request.config.secrets[0].value.clone();
    // inside the sandbox: one request goes out
    let mut sent = Vec::new();
    let answer = match chatgpt(ChatEvent::Invoked {
        input: request.input.into_bytes(),
        api_key: Some(key),
    }) {
        ChatAction::Send(outbound) => {
            sent.push(outbound);
            match chatgpt(ChatEvent::Responded(REPLY.as_bytes().to_vec())) {
                ChatAction::Return(answer) => answer,
                other => panic!("the plugin failed: {:?}", other),
            }
        }
        other => panic!("the plugin failed: {:?}", other),
    };
    assert_eq!(sent.len(), 1);
    assert!(sent[0].body.contains("Summarize: hello world"));
    assert_eq!(sent[0].url, "https://api.openai.com/v1/chat/completions");
    assert_eq!(sent[0].headers[0].value, "Bearer sk-test");
    // back in the stored function
    let outcome = finish_call(CallReply::Returned(answer.into_bytes()));
    assert_eq!(returned_value(&definition, &outcome), Some(JsonValue::text("Hello, world.")));
}
