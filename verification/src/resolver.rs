//! Reads the contract that a plugin declares about itself and checks that a
//! stored function can be written for it.

use crate::contract::{
    spec_from_tag, spec_insert, ParameterMap, PluginMetadata, PluginMetadataView, Type,
};
use crate::json::{
    spec_as_text, spec_get, spec_members, spec_text_at, JsonValue, JsonView, MemberView,
};
use crate::text::{is_identifier, spec_is_identifier};
use vstd::prelude::*;
use vstd::string::*;

verus! {

/// Why no contract could be had from a plugin.
#[derive(Debug, PartialEq, Eq)]
pub enum MetadataError {
    /// The plugin exports no `metadata` function.
    NoContract,
    /// The call of `metadata` failed; the text says how.
    CallFailed(String),
    /// What `metadata` returned is not a contract; the text says why.
    Malformed(String),
    /// The contract names no entry point, or one that the plugin does not
    /// export.
    MissingEntryPoint,
    /// A parameter's name cannot be written as an identifier; the text is
    /// the name.
    InvalidIdentifier(String),
}

/// The mathematical content of a [`MetadataError`].
pub enum MetadataErrorView {
    NoContract,
    CallFailed(Seq<char>),
    Malformed(Seq<char>),
    MissingEntryPoint,
    InvalidIdentifier(Seq<char>),
}

impl View for MetadataError {
    type V = MetadataErrorView;

    open spec fn view(&self) -> MetadataErrorView {
        match self {
            MetadataError::NoContract => MetadataErrorView::NoContract,
            MetadataError::CallFailed(detail) => MetadataErrorView::CallFailed(detail@),
            MetadataError::Malformed(detail) => MetadataErrorView::Malformed(detail@),
            MetadataError::MissingEntryPoint => MetadataErrorView::MissingEntryPoint,
            MetadataError::InvalidIdentifier(name) => MetadataErrorView::InvalidIdentifier(name@),
        }
    }
}

/// What the operator is told of a failed registration.
pub open spec fn spec_metadata_message(error: MetadataErrorView) -> Seq<char> {
    match error {
        MetadataErrorView::NoContract => "Expected a `metadata` function."@,
        MetadataErrorView::CallFailed(detail) => "Failed to call metadata function: "@ + detail,
        MetadataErrorView::Malformed(detail) => "Failed to deserialize metadata: "@ + detail,
        MetadataErrorView::MissingEntryPoint => "Expected the entry point to be an exported function."@,
        MetadataErrorView::InvalidIdentifier(name) => "Expected an identifier as parameter name: "@
            + name,
    }
}

impl MetadataError {
    /// The words in which the registering statement fails.
    pub fn message(&self) -> (text: String)
        ensures
            text@ == spec_metadata_message(self@),
    {
        match self {
            MetadataError::NoContract => "Expected a `metadata` function.".to_owned(),
            MetadataError::CallFailed(detail) => {
                let mut text = "Failed to call metadata function: ".to_owned();
                text.append(detail.as_str());
                text
            },
            MetadataError::Malformed(detail) => {
                let mut text = "Failed to deserialize metadata: ".to_owned();
                text.append(detail.as_str());
                text
            },
            MetadataError::MissingEntryPoint => {
                "Expected the entry point to be an exported function.".to_owned()
            },
            MetadataError::InvalidIdentifier(name) => {
                let mut text = "Expected an identifier as parameter name: ".to_owned();
                text.append(name.as_str());
                text
            },
        }
    }
}

/// The value type that stands as a tag under `key`.
pub open spec fn spec_tag_at(document: JsonView, key: Seq<char>) -> Option<Type> {
    match spec_text_at(document, key) {
        Some(tag) => spec_from_tag(tag),
        None => None,
    }
}

/// The parameters that the members of an object declare, each member's key
/// being a name and its value the tag of a type; a later member replaces an
/// earlier one of the same name. There are none if any value is not a tag.
pub open spec fn spec_decode_parameters(members: Seq<MemberView>) -> Option<Seq<(Seq<char>, Type)>>
    decreases members.len(),
{
    if members.len() == 0 {
        Some(Seq::empty())
    } else {
        match (
            spec_decode_parameters(members.drop_last()),
            spec_as_text(members.last().value),
        ) {
            (Some(earlier), Some(tag)) => match spec_from_tag(tag) {
                Some(value_type) => Some(spec_insert(earlier, members.last().key, value_type)),
                None => None,
            },
            _ => None,
        }
    }
}

/// The parameters declared under `parameters`.
pub open spec fn spec_declared_parameters(document: JsonView) -> Option<Seq<(Seq<char>, Type)>> {
    match spec_get(document, "parameters"@) {
        Some(JsonView::Object(members)) => spec_decode_parameters(members),
        _ => None,
    }
}

/// The contract that a JSON document states, or why it states none. A
/// contract is an object with the strings `entryPoint` and `returnField`,
/// the type tag `returnType`, and the object `parameters` whose members are
/// type tags; other members are passed over.
pub open spec fn spec_decode(document: JsonView) -> Result<PluginMetadataView, Seq<char>> {
    if !(document is Object) {
        Err("the contract is not an object"@)
    } else if spec_text_at(document, "entryPoint"@) is None {
        Err("`entryPoint` is missing or is not a string"@)
    } else if spec_declared_parameters(document) is None {
        Err("`parameters` is missing or is not an object of type tags"@)
    } else if spec_tag_at(document, "returnType"@) is None {
        Err("`returnType` is missing or is not a type tag"@)
    } else if spec_text_at(document, "returnField"@) is None {
        Err("`returnField` is missing or is not a string"@)
    } else {
        Ok(
            PluginMetadataView {
                entry_point: spec_text_at(document, "entryPoint"@)->0,
                parameters: spec_declared_parameters(document)->0,
                return_type: spec_tag_at(document, "returnType"@)->0,
                return_field: spec_text_at(document, "returnField"@)->0,
            },
        )
    }
}

// Reads the type tag under `key`.
fn tag_at(document: &JsonValue, key: &str) -> (found: Option<Type>)
    ensures
        found == spec_tag_at(document@, key@),
{
    match document.text_at(key) {
        Some(tag) => Type::from_tag(tag),
        None => None,
    }
}

// Reads the parameters declared under `parameters`.
fn declared_parameters(document: &JsonValue) -> (found: Option<ParameterMap>)
    ensures
        match found {
            Some(parameters) => spec_declared_parameters(document@) == Some(parameters@),
            None => spec_declared_parameters(document@) is None,
        },
{
    match document.get("parameters") {
        Some(JsonValue::Object(members)) => {
            proof {
                JsonValue::lemma_object_view(*members);
            }
            let ghost all = spec_members(members@);
            let mut parameters = ParameterMap::new();
            let mut i: usize = 0;
            assert(all.take(0) =~= Seq::<MemberView>::empty());
            while i < members.len()
                invariant
                    i <= members@.len(),
                    all == spec_members(members@),
                    spec_decode_parameters(all.take(i as int)) == Some(parameters@),
                    spec_get(document@, "parameters"@) == Some(JsonView::Object(all)),
                ensures
                    i == members@.len(),
                    spec_decode_parameters(all.take(i as int)) == Some(parameters@),
                decreases members@.len() - i,
            {
                proof {
                    assert(all.take(i + 1).drop_last() =~= all.take(i as int));
                    assert(all.take(i + 1).last() == all[i as int]);
                    assert(all[i as int].value == members@[i as int].value@);
                    lemma_decode_parameters_prefix(all, i + 1);
                }
                let value_type = match members[i].value.as_text() {
                    Some(tag) => Type::from_tag(tag),
                    None => None,
                };
                match value_type {
                    Some(value_type) => {
                        parameters.insert(members[i].key.clone(), value_type);
                    },
                    None => {
                        return None;
                    },
                }
                i += 1;
            }
            assert(all.take(i as int) =~= all);
            Some(parameters)
        },
        _ => None,
    }
}

/// A list of members that declares parameters does so with each of its
/// beginnings.
pub proof fn lemma_decode_parameters_prefix(members: Seq<MemberView>, n: int)
    requires
        0 <= n <= members.len(),
    ensures
        spec_decode_parameters(members.take(n)) is None ==> spec_decode_parameters(members) is None,
    decreases members.len() - n,
{
    if n < members.len() {
        assert(members.take(n + 1).drop_last() =~= members.take(n));
        lemma_decode_parameters_prefix(members, n + 1);
    } else {
        assert(members.take(n) =~= members);
    }
}

/// Reads the contract that a JSON document states.
pub fn decode_metadata(document: &JsonValue) -> (decoded: Result<PluginMetadata, MetadataError>)
    ensures
        match decoded {
            Ok(metadata) => spec_decode(document@) == Ok::<PluginMetadataView, Seq<char>>(
                metadata@,
            ),
            Err(error) => spec_decode(document@) is Err && error@ == MetadataErrorView::Malformed(
                spec_decode(document@)->Err_0,
            ),
        },
{
    match document {
        JsonValue::Object(_) => {},
        _ => {
            return Err(MetadataError::Malformed("the contract is not an object".to_owned()));
        },
    }
    let entry_point = match document.text_at("entryPoint") {
        Some(text) => text.to_owned(),
        None => {
            return Err(
                MetadataError::Malformed("`entryPoint` is missing or is not a string".to_owned()),
            );
        },
    };
    let parameters = match declared_parameters(document) {
        Some(parameters) => parameters,
        None => {
            return Err(
                MetadataError::Malformed(
                    "`parameters` is missing or is not an object of type tags".to_owned(),
                ),
            );
        },
    };
    let return_type = match tag_at(document, "returnType") {
        Some(value_type) => value_type,
        None => {
            return Err(
                MetadataError::Malformed("`returnType` is missing or is not a type tag".to_owned()),
            );
        },
    };
    let return_field = match document.text_at("returnField") {
        Some(text) => text.to_owned(),
        None => {
            return Err(
                MetadataError::Malformed("`returnField` is missing or is not a string".to_owned()),
            );
        },
    };
    Ok(PluginMetadata { entry_point, parameters, return_type, return_field })
}

/// The first declared name, in the order of the names, that cannot be
/// written as an identifier.
pub open spec fn spec_first_invalid_name(parameters: Seq<(Seq<char>, Type)>) -> Option<Seq<char>>
    decreases parameters.len(),
{
    if parameters.len() == 0 {
        None
    } else if !spec_is_identifier(parameters[0].0) {
        Some(parameters[0].0)
    } else {
        spec_first_invalid_name(parameters.drop_first())
    }
}

/// There is no invalid name exactly when every declared name can be written
/// as an identifier.
pub proof fn lemma_no_invalid_name(parameters: Seq<(Seq<char>, Type)>)
    ensures
        spec_first_invalid_name(parameters) is None <==> forall|i: int|
            0 <= i < parameters.len() ==> spec_is_identifier((#[trigger] parameters[i]).0),
    decreases parameters.len(),
{
    if parameters.len() > 0 {
        let rest = parameters.drop_first();
        lemma_no_invalid_name(rest);
        if spec_is_identifier(parameters[0].0) {
            if spec_first_invalid_name(rest) is None {
                assert forall|i: int| 0 <= i < parameters.len() implies spec_is_identifier(
                    (#[trigger] parameters[i]).0,
                ) by {
                    if i > 0 {
                        assert(parameters[i] == rest[i - 1]);
                    }
                }
            } else {
                let i = choose|i: int| 0 <= i < rest.len() && !spec_is_identifier((#[trigger] rest[i]).0);
                assert(parameters[i + 1] == rest[i]);
            }
        }
    }
}

/// Finds the first declared name that cannot be written as an identifier.
pub fn first_invalid_name(metadata: &PluginMetadata) -> (found: Option<String>)
    ensures
        match found {
            Some(name) => spec_first_invalid_name(metadata@.parameters) == Some(name@),
            None => spec_first_invalid_name(metadata@.parameters) is None,
        },
{
    let ghost declared = metadata@.parameters;
    let n = metadata.parameters.len();
    let mut i: usize = 0;
    assert(declared.skip(0) =~= declared);
    while i < n
        invariant
            i <= n,
            n == declared.len(),
            declared == metadata.parameters@,
            spec_first_invalid_name(declared) == spec_first_invalid_name(declared.skip(i as int)),
        decreases n - i,
    {
        let parameter = metadata.parameters.entry(i);
        proof {
            assert(declared.skip(i as int)[0] == declared[i as int]);
            assert(declared.skip(i as int).drop_first() =~= declared.skip(i + 1));
        }
        if !is_identifier(parameter.name.as_str()) {
            return Some(parameter.name.clone());
        }
        i += 1;
    }
    None
}

} // verus!
