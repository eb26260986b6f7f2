use pg_extism::contract::{ParameterMap, PluginMetadata, Type};
use pg_extism::json::JsonValue;
use pg_extism::resolver::{decode_metadata, first_invalid_name, MetadataError};

fn decode(text: &str) -> Result<PluginMetadata, MetadataError> {
    decode_metadata(&JsonValue::parse(text.as_bytes()).unwrap())
}

fn malformed(detail: &str) -> Result<PluginMetadata, MetadataError> {
    Err(MetadataError::Malformed(detail.to_string()))
}

#[test]
fn decodes_the_contract_of_the_chat_plugin() {
    let decoded = decode(
        r#"{"entryPoint":"chatgpt","parameters":{"prompt":"String","payload":"String"},"returnType":"String","returnField":"response"}"#,
    );
    let mut parameters = ParameterMap::new();
    parameters.insert("payload".to_string(), Type::String);
    parameters.insert("prompt".to_string(), Type::String);
    assert_eq!(
        decoded,
        Ok(PluginMetadata {
            entry_point: "chatgpt".to_string(),
            parameters,
            return_type: Type::String,
            return_field: "response".to_string(),
        })
    );
}

#[test]
fn decodes_every_type_tag() {
    let decoded = decode(
        r#"{"entryPoint":"f","parameters":{"a":"String","b":"Number","c":"Json","d":"StringArray","e":"NumberArray","f":"JsonArray"},"returnType":"JsonArray","returnField":"r"}"#,
    )
    .unwrap();
    assert_eq!(decoded.parameters.len(), 6);
    assert_eq!(decoded.parameters.get("a"), Some(Type::String));
    assert_eq!(decoded.parameters.get("b"), Some(Type::Number));
    assert_eq!(decoded.parameters.get("c"), Some(Type::Json));
    assert_eq!(decoded.parameters.get("d"), Some(Type::StringArray));
    assert_eq!(decoded.parameters.get("e"), Some(Type::NumberArray));
    assert_eq!(decoded.parameters.get("f"), Some(Type::JsonArray));
    assert_eq!(decoded.return_type, Type::JsonArray);
}

#[test]
fn passes_over_members_it_does_not_know() {
    let decoded = decode(
        r#"{"entryPoint":"f","parameters":{},"returnType":"Json","returnField":"r","version":2,"author":{"name":"x"}}"#,
    )
    .unwrap();
    assert_eq!(decoded.entry_point, "f");
    assert_eq!(decoded.parameters.len(), 0);
    assert_eq!(decoded.return_field, "r");
}

#[test]
fn decodes_members_built_by_hand_in_any_order() {
    let document = JsonValue::Object(vec![
        pg_extism::json::Member { key: "returnField".to_string(), value: JsonValue::text("r") },
        pg_extism::json::Member {
            key: "parameters".to_string(),
            value: JsonValue::Object(vec![
                pg_extism::json::Member { key: "z".to_string(), value: JsonValue::text("Json") },
                pg_extism::json::Member { key: "a".to_string(), value: JsonValue::text("Number") },
                pg_extism::json::Member { key: "z".to_string(), value: JsonValue::text("String") },
            ]),
        },
        pg_extism::json::Member { key: "returnType".to_string(), value: JsonValue::text("Number") },
        pg_extism::json::Member { key: "entryPoint".to_string(), value: JsonValue::text("f") },
    ]);
    let decoded = decode_metadata(&document).unwrap();
    assert_eq!(decoded.parameters.len(), 2);
    assert_eq!(decoded.parameters.parameter(0).unwrap().name, "a");
    assert_eq!(decoded.parameters.get("z"), Some(Type::String));
}

#[test]
fn a_contract_must_be_an_object() {
    assert_eq!(decode("[]"), malformed("the contract is not an object"));
    assert_eq!(decode("\"chatgpt\""), malformed("the contract is not an object"));
    assert_eq!(decode("null"), malformed("the contract is not an object"));
}

#[test]
fn a_contract_must_name_its_entry_point() {
    let detail = "`entryPoint` is missing or is not a string";
    assert_eq!(decode(r#"{}"#), malformed(detail));
    assert_eq!(
        decode(r#"{"entry_point":"f","parameters":{},"returnType":"Json","returnField":"r"}"#),
        malformed(detail)
    );
    assert_eq!(
        decode(r#"{"entryPoint":7,"parameters":{},"returnType":"Json","returnField":"r"}"#),
        malformed(detail)
    );
}

#[test]
fn a_contract_must_declare_its_parameters_with_known_tags() {
    let detail = "`parameters` is missing or is not an object of type tags";
    assert_eq!(decode(r#"{"entryPoint":"f","returnType":"Json","returnField":"r"}"#), malformed(detail));
    assert_eq!(
        decode(r#"{"entryPoint":"f","parameters":["String"],"returnType":"Json","returnField":"r"}"#),
        malformed(detail)
    );
    assert_eq!(
        decode(r#"{"entryPoint":"f","parameters":{"a":"Text"},"returnType":"Json","returnField":"r"}"#),
        malformed(detail)
    );
    assert_eq!(
        decode(r#"{"entryPoint":"f","parameters":{"a":"String","b":1},"returnType":"Json","returnField":"r"}"#),
        malformed(detail)
    );
    assert_eq!(
        decode(r#"{"entryPoint":"f","parameters":{"a":"Boolean","b":"String"},"returnType":"Json","returnField":"r"}"#),
        malformed(detail)
    );
}

#[test]
fn a_contract_must_declare_its_return_type_with_a_known_tag() {
    let detail = "`returnType` is missing or is not a type tag";
    assert_eq!(decode(r#"{"entryPoint":"f","parameters":{},"returnField":"r"}"#), malformed(detail));
    assert_eq!(
        decode(r#"{"entryPoint":"f","parameters":{},"returnType":"Void","returnField":"r"}"#),
        malformed(detail)
    );
    assert_eq!(
        decode(r#"{"entryPoint":"f","parameters":{},"returnType":null,"returnField":"r"}"#),
        malformed(detail)
    );
}

#[test]
fn a_contract_must_name_its_return_field() {
    let detail = "`returnField` is missing or is not a string";
    assert_eq!(decode(r#"{"entryPoint":"f","parameters":{},"returnType":"Json"}"#), malformed(detail));
    assert_eq!(
        decode(r#"{"entryPoint":"f","parameters":{},"returnType":"Json","returnField":["r"]}"#),
        malformed(detail)
    );
}

#[test]
fn the_first_invalid_name_in_the_order_of_the_names() {
    let mut parameters = ParameterMap::new();
    parameters.insert("ok".to_string(), Type::String);
    parameters.insert("not ok".to_string(), Type::String);
    parameters.insert("9lives".to_string(), Type::String);
    parameters.insert("also_ok".to_string(), Type::String);
    let metadata = PluginMetadata {
        entry_point: "f".to_string(),
        parameters,
        return_type: Type::Json,
        return_field: "r".to_string(),
    };
    assert_eq!(first_invalid_name(&metadata), Some("9lives".to_string()));
}

#[test]
fn no_invalid_name_among_identifiers() {
    let mut parameters = ParameterMap::new();
    parameters.insert("prompt".to_string(), Type::String);
    parameters.insert("_payload2".to_string(), Type::String);
    let metadata = PluginMetadata {
        entry_point: "f".to_string(),
        parameters,
        return_type: Type::Json,
        return_field: "r".to_string(),
    };
    assert_eq!(first_invalid_name(&metadata), None);
    let empty = PluginMetadata {
        entry_point: "f".to_string(),
        parameters: ParameterMap::new(),
        return_type: Type::Json,
        return_field: "r".to_string(),
    };
    assert_eq!(first_invalid_name(&empty), None);
}

#[test]
fn the_empty_name_is_no_identifier() {
    let mut parameters = ParameterMap::new();
    parameters.insert("".to_string(), Type::String);
    parameters.insert("a".to_string(), Type::String);
    let metadata = PluginMetadata {
        entry_point: "f".to_string(),
        parameters,
        return_type: Type::Json,
        return_field: "r".to_string(),
    };
    assert_eq!(first_invalid_name(&metadata), Some("".to_string()));
}

#[test]
fn what_the_operator_is_told_of_a_failed_registration() {
    assert_eq!(MetadataError::NoContract.message(), "Expected a `metadata` function.");
    assert_eq!(
        MetadataError::CallFailed("boom".to_string()).message(),
        "Failed to call metadata function: boom"
    );
    assert_eq!(
        MetadataError::Malformed("expected value at line 1 column 1".to_string()).message(),
        "Failed to deserialize metadata: expected value at line 1 column 1"
    );
    assert_eq!(
        MetadataError::MissingEntryPoint.message(),
        "Expected the entry point to be an exported function."
    );
    assert_eq!(
        MetadataError::InvalidIdentifier("a b".to_string()).message(),
        "Expected an identifier as parameter name: a b"
    );
}
