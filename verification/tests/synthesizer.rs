use pg_extism::contract::{ParameterMap, PluginMetadata, Type};
use pg_extism::synthesizer::generate_dynamic_function;

fn chat_metadata() -> PluginMetadata {
    let mut parameters = ParameterMap::new();
    parameters.insert("prompt".to_string(), Type::String);
    parameters.insert("payload".to_string(), Type::String);
    PluginMetadata {
        entry_point: "chatgpt".to_string(),
        parameters,
        return_type: Type::String,
        return_field: "response".to_string(),
    }
}

#[test]
fn generates_the_statement_for_the_chat_plugin() {
    let sql = generate_dynamic_function("/plugins/chatgpt.wasm", "chatgpt", &chat_metadata());
    let expected = "CREATE OR REPLACE FUNCTION chatgpt(prompt TEXT, payload TEXT) RETURNS TEXT AS $$\n\
DECLARE\n\
\x20   result_json json;\n\
\x20   input_param json;\n\
BEGIN\n\
\x20   -- Construct JSON object from parameters\n\
\x20   input_param := json_build_object(\n\
\t'payload', payload,\n\
\t'prompt', prompt\n\
\t);\n\
\x20   -- Call the extism_define function using the provided parameters\n\
\x20   SELECT extism_call('/plugins/chatgpt.wasm', 'chatgpt', input_param) INTO result_json;\n\
\x20   -- Return the desired field from the result JSON\n\
\x20   RETURN (result_json->>'response')::TEXT;\n\
EXCEPTION\n\
\x20   WHEN others THEN\n\
\x20       -- Handle exceptions if necessary\n\
\x20       RAISE NOTICE 'An error occurred: %', SQLERRM;\n\
\x20       RETURN NULL;\n\
END;\n\
$$ LANGUAGE plpgsql;";
    assert_eq!(sql, expected);
}

#[test]
fn the_definition_of_the_chat_plugin() {
    let definition = pg_extism::synthesizer::synthesize("/plugins/chatgpt.wasm", "ask", &chat_metadata());
    assert_eq!(definition.name, "ask");
    assert_eq!(definition.locator, "/plugins/chatgpt.wasm");
    assert_eq!(definition.entry_point, "chatgpt");
    assert_eq!(definition.return_type, "TEXT");
    assert_eq!(definition.return_field, "response");
    let signature: Vec<(&str, &str)> = definition
        .parameters
        .iter()
        .map(|p| (p.name.as_str(), p.column_type.as_str()))
        .collect();
    assert_eq!(signature, vec![("prompt", "TEXT"), ("payload", "TEXT")]);
    let arguments: Vec<(&str, &str)> =
        definition.arguments.iter().map(|a| (a.key.as_str(), a.variable.as_str())).collect();
    assert_eq!(arguments, vec![("payload", "payload"), ("prompt", "prompt")]);
}

#[test]
fn every_parameter_appears_once_in_the_signature_and_once_in_the_argument_object() {
    let mut parameters = ParameterMap::new();
    let declared = [
        ("delta", Type::Json),
        ("alpha", Type::Number),
        ("echo", Type::StringArray),
        ("bravo", Type::NumberArray),
        ("charlie", Type::JsonArray),
        ("foxtrot", Type::String),
    ];
    for (name, value_type) in declared.iter() {
        parameters.insert(name.to_string(), *value_type);
    }
    let metadata = PluginMetadata {
        entry_point: "run".to_string(),
        parameters,
        return_type: Type::Json,
        return_field: "out".to_string(),
    };
    let definition = pg_extism::synthesizer::synthesize("m.wasm", "f", &metadata);
    assert_eq!(definition.parameters.len(), 6);
    assert_eq!(definition.arguments.len(), 6);
    for (name, value_type) in declared.iter() {
        let in_signature: Vec<_> =
            definition.parameters.iter().filter(|p| p.name == *name).collect();
        assert_eq!(in_signature.len(), 1);
        assert_eq!(in_signature[0].column_type, pg_extism::contract::type_to_sql(value_type));
        let in_object: Vec<_> = definition.arguments.iter().filter(|a| a.key == *name).collect();
        assert_eq!(in_object.len(), 1);
        assert_eq!(in_object[0].variable, *name);
    }
    let sql = definition.render();
    assert!(sql.contains("f(foxtrot TEXT, echo TEXT[], delta JSON, charlie JSON[], bravo NUMERIC[], alpha NUMERIC) RETURNS JSON AS"));
    assert!(sql.contains("\t'alpha', alpha,\n\t'bravo', bravo,\n\t'charlie', charlie,\n\t'delta', delta,\n\t'echo', echo,\n\t'foxtrot', foxtrot\n\t);\n"));
    assert!(sql.contains("RETURN (result_json->>'out')::JSON;\n"));
}

#[test]
fn a_plugin_without_parameters() {
    let metadata = PluginMetadata {
        entry_point: "now".to_string(),
        parameters: ParameterMap::new(),
        return_type: Type::Number,
        return_field: "value".to_string(),
    };
    let definition = pg_extism::synthesizer::synthesize("clock.wasm", "clock_now", &metadata);
    assert!(definition.parameters.is_empty());
    assert!(definition.arguments.is_empty());
    let sql = generate_dynamic_function("clock.wasm", "clock_now", &metadata);
    assert!(sql.starts_with("CREATE OR REPLACE FUNCTION clock_now() RETURNS NUMERIC AS $$\n"));
    assert!(sql.contains("    input_param := json_build_object(\n\n\t);\n"));
    assert!(sql.contains("SELECT extism_call('clock.wasm', 'now', input_param) INTO result_json;\n"));
    assert!(sql.ends_with("        RETURN NULL;\nEND;\n$$ LANGUAGE plpgsql;"));
}

#[test]
fn a_plugin_with_one_parameter() {
    let mut parameters = ParameterMap::new();
    parameters.insert("text".to_string(), Type::String);
    let metadata = PluginMetadata {
        entry_point: "count_vowels".to_string(),
        parameters,
        return_type: Type::Json,
        return_field: "count".to_string(),
    };
    let sql = generate_dynamic_function("/code.wasm", "count_vowels", &metadata);
    assert!(sql.starts_with("CREATE OR REPLACE FUNCTION count_vowels(text TEXT) RETURNS JSON AS $$\n"));
    assert!(sql.contains("json_build_object(\n\t'text', text\n\t);\n"));
}

#[test]
fn the_statement_is_what_the_definition_renders() {
    let metadata = chat_metadata();
    assert_eq!(
        generate_dynamic_function("p.wasm", "f", &metadata),
        pg_extism::synthesizer::synthesize("p.wasm", "f", &metadata).render()
    );
}

#[test]
fn a_second_definition_under_the_same_name_replaces_the_first() {
    let first = chat_metadata();
    let mut parameters = ParameterMap::new();
    parameters.insert("question".to_string(), Type::String);
    let second = PluginMetadata {
        entry_point: "chatgpt".to_string(),
        parameters,
        return_type: Type::String,
        return_field: "response".to_string(),
    };
    let one = generate_dynamic_function("p.wasm", "ask", &first);
    let other = generate_dynamic_function("p.wasm", "ask", &second);
    assert!(one.starts_with("CREATE OR REPLACE FUNCTION ask(prompt TEXT, payload TEXT)"));
    assert!(other.starts_with("CREATE OR REPLACE FUNCTION ask(question TEXT)"));
    assert!(!other.contains("prompt"));
    assert!(!other.contains("payload"));
}
