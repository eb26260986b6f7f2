use pg_extism::contract::{ParameterMap, PluginMetadata, Type};
use pg_extism::invocation::{
    call_envelope, finish_call, prepare_call, returned_value, CallReply, InvokeError,
};
use pg_extism::json::{JsonValue, Member};
use pg_extism::sandbox::{classify_failure, standard_config, CallError, CallErrorKind, LoadError};
use pg_extism::synthesizer::{synthesize, Argument, FunctionDefinition, SqlParameter};

fn member(key: &str, value: JsonValue) -> Member {
    Member { key: key.to_string(), value }
}

fn definition_with(names: &[&str], return_field: &str) -> FunctionDefinition {
    let mut parameters = ParameterMap::new();
    for name in names.iter() {
        parameters.insert(name.to_string(), Type::String);
    }
    let metadata = PluginMetadata {
        entry_point: "run".to_string(),
        parameters,
        return_type: Type::String,
        return_field: return_field.to_string(),
    };
    synthesize("m.wasm", "f", &metadata)
}

#[test]
fn a_call_is_prepared_with_the_standard_restrictions_and_the_arguments_as_json() {
    let arguments = JsonValue::Object(vec![
        member("prompt", JsonValue::text("a")),
        member("payload", JsonValue::text("b")),
    ]);
    let request = prepare_call("/p.wasm", "chatgpt", &arguments, "sk-1");
    assert_eq!(request.config, standard_config("/p.wasm", "sk-1"));
    assert_eq!(request.function, "chatgpt");
    assert_eq!(request.input, r#"{"payload":"b","prompt":"a"}"#);
}

#[test]
fn a_returned_document_is_handed_on() {
    let reply = CallReply::Returned(br#"{"count": 3}"#.to_vec());
    assert_eq!(
        finish_call(reply),
        Ok(JsonValue::Object(vec![member("count", JsonValue::Number(serde_json::Number::from(3u64)))]))
    );
    assert_eq!(finish_call(CallReply::Returned(b"\"text\"".to_vec())), Ok(JsonValue::text("text")));
}

#[test]
fn a_failed_load_is_a_load_error() {
    let reply = CallReply::LoadFailed(LoadError { detail: "no such file".to_string() });
    assert_eq!(
        finish_call(reply),
        Err(InvokeError::Load(LoadError { detail: "no such file".to_string() }))
    );
}

#[test]
fn a_failed_call_keeps_its_kind_and_detail() {
    for kind in [CallErrorKind::Timeout, CallErrorKind::Trap, CallErrorKind::MissingFunction] {
        let reply = CallReply::CallFailed(CallError { kind, detail: "d".to_string() });
        assert_eq!(
            finish_call(reply),
            Err(InvokeError::Call(CallError { kind, detail: "d".to_string() }))
        );
    }
}

#[test]
fn an_answer_that_is_not_utf8_is_a_decode_error() {
    assert_eq!(
        finish_call(CallReply::Returned(vec![b'"', 0xff, b'"'])),
        Err(InvokeError::Decode("invalid utf-8 sequence of 1 bytes from index 1".to_string()))
    );
    assert_eq!(
        finish_call(CallReply::Returned(vec![b'{', 0xe2, 0x82])),
        Err(InvokeError::Decode("incomplete utf-8 byte sequence from index 1".to_string()))
    );
}

#[test]
fn an_answer_that_is_not_json_is_a_parse_error() {
    assert_eq!(
        finish_call(CallReply::Returned(b"not json".to_vec())),
        Err(InvokeError::Parse("expected ident at line 1 column 2".to_string()))
    );
    assert_eq!(
        finish_call(CallReply::Returned(vec![])),
        Err(InvokeError::Parse("EOF while parsing a value at line 1 column 0".to_string()))
    );
}

#[test]
fn the_envelope_holds_each_value_under_the_name_of_its_parameter() {
    let definition = definition_with(&["prompt", "payload"], "response");
    // the signature is (prompt, payload)
    let values = vec![JsonValue::text("a"), JsonValue::text("b")];
    assert_eq!(
        call_envelope(&definition, &values),
        Some(JsonValue::Object(vec![
            member("payload", JsonValue::text("b")),
            member("prompt", JsonValue::text("a")),
        ]))
    );
}

#[test]
fn the_envelope_of_a_function_without_parameters_is_the_empty_object() {
    let definition = definition_with(&[], "r");
    assert_eq!(call_envelope(&definition, &vec![]), Some(JsonValue::Object(vec![])));
}

#[test]
fn there_is_no_envelope_for_the_wrong_number_of_values() {
    let definition = definition_with(&["prompt", "payload"], "response");
    assert_eq!(call_envelope(&definition, &vec![JsonValue::text("a")]), None);
    assert_eq!(call_envelope(&definition, &vec![]), None);
    assert_eq!(
        call_envelope(
            &definition,
            &vec![JsonValue::Null, JsonValue::Null, JsonValue::Null]
        ),
        None
    );
}

#[test]
fn there_is_no_envelope_when_a_variable_is_not_in_the_signature() {
    let definition = FunctionDefinition {
        name: "f".to_string(),
        parameters: vec![SqlParameter { name: "a".to_string(), column_type: "TEXT".to_string() }],
        return_type: "TEXT".to_string(),
        locator: "m.wasm".to_string(),
        entry_point: "run".to_string(),
        arguments: vec![
            Argument { key: "a".to_string(), variable: "a".to_string() },
            Argument { key: "b".to_string(), variable: "b".to_string() },
        ],
        return_field: "r".to_string(),
    };
    assert_eq!(call_envelope(&definition, &vec![JsonValue::text("x")]), None);
}

#[test]
fn a_variable_may_stand_under_another_key_and_more_than_once() {
    let definition = FunctionDefinition {
        name: "f".to_string(),
        parameters: vec![
            SqlParameter { name: "a".to_string(), column_type: "TEXT".to_string() },
            SqlParameter { name: "b".to_string(), column_type: "JSON".to_string() },
        ],
        return_type: "TEXT".to_string(),
        locator: "m.wasm".to_string(),
        entry_point: "run".to_string(),
        arguments: vec![
            Argument { key: "first".to_string(), variable: "b".to_string() },
            Argument { key: "second".to_string(), variable: "a".to_string() },
            Argument { key: "third".to_string(), variable: "b".to_string() },
        ],
        return_field: "r".to_string(),
    };
    let values = vec![JsonValue::text("x"), JsonValue::Array(vec![JsonValue::Null])];
    assert_eq!(
        call_envelope(&definition, &values),
        Some(JsonValue::Object(vec![
            member("first", JsonValue::Array(vec![JsonValue::Null])),
            member("second", JsonValue::text("x")),
            member("third", JsonValue::Array(vec![JsonValue::Null])),
        ]))
    );
}

#[test]
fn the_named_field_of_the_answer_is_returned() {
    let definition = definition_with(&["text"], "count");
    let outcome = finish_call(CallReply::Returned(br#"{"count":3,"other":"x"}"#.to_vec()));
    assert_eq!(
        returned_value(&definition, &outcome),
        Some(JsonValue::Number(serde_json::Number::from(3u64)))
    );
}

#[test]
fn an_answer_without_the_field_gives_no_result() {
    let definition = definition_with(&["text"], "count");
    for answer in [&br#"{"total":3}"#[..], b"[1,2]", b"3", b"\"count\"", b"null", br#"{"count":null}"#] {
        let outcome = finish_call(CallReply::Returned(answer.to_vec()));
        assert!(outcome.is_ok());
        assert_eq!(returned_value(&definition, &outcome), None);
    }
}

#[test]
fn every_failure_gives_no_result() {
    let definition = definition_with(&["text"], "count");
    let replies = vec![
        CallReply::LoadFailed(LoadError { detail: "missing".to_string() }),
        CallReply::CallFailed(classify_failure(false, "no such function".to_string())),
        CallReply::CallFailed(classify_failure(true, "timeout".to_string())),
        CallReply::CallFailed(classify_failure(true, "trap".to_string())),
        CallReply::Returned(vec![0xc0]),
        CallReply::Returned(b"{".to_vec()),
    ];
    for reply in replies {
        let outcome = finish_call(reply);
        assert!(outcome.is_err());
        assert_eq!(returned_value(&definition, &outcome), None);
    }
}

#[test]
fn a_call_that_times_out_gives_no_result() {
    let definition = definition_with(&["prompt", "payload"], "response");
    let error = classify_failure(true, "timeout".to_string());
    assert_eq!(error.kind, CallErrorKind::Timeout);
    let outcome = finish_call(CallReply::CallFailed(error));
    assert_eq!(
        outcome,
        Err(InvokeError::Call(CallError {
            kind: CallErrorKind::Timeout,
            detail: "timeout".to_string()
        }))
    );
    assert_eq!(returned_value(&definition, &outcome), None);
}

#[test]
fn a_plugin_that_echoes_its_input_has_it_returned_unchanged() {
    let definition = definition_with(&["prompt", "payload"], "response");
    let values = vec![JsonValue::text("a"), JsonValue::text("b")];
    let envelope = call_envelope(&definition, &values).unwrap();
    let request = prepare_call(&definition.locator, &definition.entry_point, &envelope, "");
    assert_eq!(request.input, r#"{"payload":"b","prompt":"a"}"#);
    // the plugin: answers with its input under the return field
    let input = JsonValue::parse(request.input.as_bytes()).unwrap();
    let answer = JsonValue::single("response", input.clone()).to_text();
    let outcome = finish_call(CallReply::Returned(answer.into_bytes()));
    assert_eq!(returned_value(&definition, &outcome), Some(input));
    assert_eq!(returned_value(&definition, &outcome), Some(envelope));
}

#[test]
fn what_the_operator_is_told_of_a_failed_call() {
    assert_eq!(
        InvokeError::Load(LoadError { detail: "no such file".to_string() }).message(),
        "Error while loading plugin: no such file"
    );
    assert_eq!(
        InvokeError::Call(CallError { kind: CallErrorKind::Trap, detail: "oops".to_string() })
            .message(),
        "Error while calling plugin: oops"
    );
    assert_eq!(
        InvokeError::Decode("invalid utf-8 sequence of 1 bytes from index 0".to_string()).message(),
        "Invalid UTF-8 sequence: invalid utf-8 sequence of 1 bytes from index 0"
    );
    assert_eq!(InvokeError::Parse("x".to_string()).message(), "Invalid JSON: x");
}
