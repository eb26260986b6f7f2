//! The run-time side of a stored function: what is handed to the sandbox for
//! one call, what the bridge makes of the sandbox's reply, and what the
//! stored function builds and returns around the call.

use crate::json::{
    json_parse, json_text, spec_get, spec_items, spec_members, spec_single, utf8_text, JsonValue,
    JsonView, Member, MemberView,
};
use crate::sandbox::{
    spec_failure_kind, spec_standard_config, standard_config, CallError, CallErrorKind,
    CallErrorView, LoadError, SandboxConfig, SandboxConfigView,
};
use crate::synthesizer::{FunctionDefinition, FunctionDefinitionView};
use crate::text::same_text;
use vstd::prelude::*;
use vstd::string::*;
use vstd::utf8::*;

verus! {

/// Why a call of a plugin gave no JSON document.
#[derive(Debug, PartialEq, Eq)]
pub enum InvokeError {
    /// The module could not be loaded.
    Load(LoadError),
    /// The call failed in the sandbox.
    Call(CallError),
    /// The plugin's answer is not UTF-8; the text says where.
    Decode(String),
    /// The plugin's answer is not JSON; the text says where.
    Parse(String),
}

/// The mathematical content of an [`InvokeError`].
pub enum InvokeErrorView {
    Load(Seq<char>),
    Call(CallErrorView),
    Decode(Seq<char>),
    Parse(Seq<char>),
}

impl View for InvokeError {
    type V = InvokeErrorView;

    open spec fn view(&self) -> InvokeErrorView {
        match self {
            InvokeError::Load(error) => InvokeErrorView::Load(error.detail@),
            InvokeError::Call(error) => InvokeErrorView::Call(error@),
            InvokeError::Decode(detail) => InvokeErrorView::Decode(detail@),
            InvokeError::Parse(detail) => InvokeErrorView::Parse(detail@),
        }
    }
}

/// What the operator is told of a failed call.
pub open spec fn spec_invoke_message(error: InvokeErrorView) -> Seq<char> {
    match error {
        InvokeErrorView::Load(detail) => "Error while loading plugin: "@ + detail,
        InvokeErrorView::Call(error) => "Error while calling plugin: "@ + error.detail,
        InvokeErrorView::Decode(detail) => "Invalid UTF-8 sequence: "@ + detail,
        InvokeErrorView::Parse(detail) => "Invalid JSON: "@ + detail,
    }
}

impl InvokeError {
    /// The words in which the failure is reported to the operator.
    pub fn message(&self) -> (text: String)
        ensures
            text@ == spec_invoke_message(self@),
    {
        let (mut text, detail) = match self {
            InvokeError::Load(error) => ("Error while loading plugin: ".to_owned(), &error.detail),
            InvokeError::Call(error) => ("Error while calling plugin: ".to_owned(), &error.detail),
            InvokeError::Decode(detail) => ("Invalid UTF-8 sequence: ".to_owned(), detail),
            InvokeError::Parse(detail) => ("Invalid JSON: ".to_owned(), detail),
        };
        text.append(detail.as_str());
        text
    }
}

/// What the host is asked to do for one call: load the module under these
/// restrictions and call this function with this input.
#[derive(Debug, PartialEq, Eq)]
pub struct CallRequest {
    pub config: SandboxConfig,
    pub function: String,
    pub input: String,
}

/// The mathematical content of a [`CallRequest`].
pub struct CallRequestView {
    pub config: SandboxConfigView,
    pub function: Seq<char>,
    pub input: Seq<char>,
}

impl View for CallRequest {
    type V = CallRequestView;

    open spec fn view(&self) -> CallRequestView {
        CallRequestView { config: self.config@, function: self.function@, input: self.input@ }
    }
}

/// What the host reports of one call.
#[derive(Debug, PartialEq, Eq)]
pub enum CallReply {
    /// The module could not be loaded.
    LoadFailed(LoadError),
    /// The module was loaded and the call failed.
    CallFailed(CallError),
    /// The call returned these bytes.
    Returned(Vec<u8>),
}

/// The mathematical content of a [`CallReply`].
pub enum CallReplyView {
    LoadFailed(Seq<char>),
    CallFailed(CallErrorView),
    Returned(Seq<u8>),
}

impl View for CallReply {
    type V = CallReplyView;

    open spec fn view(&self) -> CallReplyView {
        match self {
            CallReply::LoadFailed(error) => CallReplyView::LoadFailed(error.detail@),
            CallReply::CallFailed(error) => CallReplyView::CallFailed(error@),
            CallReply::Returned(bytes) => CallReplyView::Returned(bytes@),
        }
    }
}

/// The request for a call of `entry_point` in the module at `locator`: the
/// standard restrictions, and the arguments as JSON text.
pub open spec fn spec_call_request(
    locator: Seq<char>,
    entry_point: Seq<char>,
    arguments: JsonView,
    api_key: Seq<char>,
) -> CallRequestView {
    CallRequestView {
        config: spec_standard_config(locator, api_key),
        function: entry_point,
        input: json_text(arguments),
    }
}

/// Prepares one call of a plugin: the module is to be loaded under the
/// standard restrictions, and the arguments are handed over as JSON text.
/// The key comes from the bridge's own store.
pub fn prepare_call(locator: &str, entry_point: &str, arguments: &JsonValue, api_key: &str) -> (request:
    CallRequest)
    ensures
        request@ == spec_call_request(locator@, entry_point@, arguments@, api_key@),
{
    CallRequest {
        config: standard_config(locator, api_key),
        function: entry_point.to_owned(),
        input: arguments.to_text(),
    }
}

/// What a call comes to. A failed load and a failed call are passed on as
/// they are; bytes that were returned must be UTF-8, and then JSON.
pub open spec fn spec_call_result(reply: CallReplyView) -> Result<JsonView, InvokeErrorView> {
    match reply {
        CallReplyView::LoadFailed(detail) => Err(InvokeErrorView::Load(detail)),
        CallReplyView::CallFailed(error) => Err(InvokeErrorView::Call(error)),
        CallReplyView::Returned(bytes) => if !valid_utf8(bytes) {
            Err(InvokeErrorView::Decode(crate::json::utf8_fault(bytes)))
        } else {
            match json_parse(bytes) {
                Ok(document) => Ok(document),
                Err(detail) => Err(InvokeErrorView::Parse(detail)),
            }
        },
    }
}

/// Turns the host's report of a call into the JSON document that the plugin
/// returned, or into the failure with its kind.
pub fn finish_call(reply: CallReply) -> (result: Result<JsonValue, InvokeError>)
    ensures
        match result {
            Ok(document) => spec_call_result(reply@) == Ok::<JsonView, InvokeErrorView>(document@),
            Err(error) => spec_call_result(reply@) == Err::<JsonView, InvokeErrorView>(error@),
        },
{
    match reply {
        CallReply::LoadFailed(error) => Err(InvokeError::Load(error)),
        CallReply::CallFailed(error) => Err(InvokeError::Call(error)),
        CallReply::Returned(bytes) => {
            match utf8_text(bytes.as_slice()) {
                Err(detail) => Err(InvokeError::Decode(detail)),
                Ok(_) => match JsonValue::parse(bytes.as_slice()) {
                    Ok(document) => Ok(document),
                    Err(detail) => Err(InvokeError::Parse(detail)),
                },
            }
        },
    }
}

/// The value of the variable `name`, when the values stand in the order of
/// the signature.
pub open spec fn spec_variable(
    signature: Seq<(Seq<char>, Seq<char>)>,
    values: Seq<JsonView>,
    name: Seq<char>,
) -> Option<JsonView>
    decreases signature.len(),
{
    if signature.len() == 0 || values.len() == 0 {
        None
    } else if signature[0].0 == name {
        Some(values[0])
    } else {
        spec_variable(signature.drop_first(), values.drop_first(), name)
    }
}

/// The members of the argument object: under each key the value of its
/// variable. There are none if a variable is not in the signature.
pub open spec fn spec_envelope_members(
    signature: Seq<(Seq<char>, Seq<char>)>,
    values: Seq<JsonView>,
    arguments: Seq<(Seq<char>, Seq<char>)>,
) -> Option<Seq<MemberView>>
    decreases arguments.len(),
{
    if arguments.len() == 0 {
        Some(Seq::empty())
    } else {
        match (
            spec_envelope_members(signature, values, arguments.drop_last()),
            spec_variable(signature, values, arguments.last().1),
        ) {
            (Some(earlier), Some(value)) => Some(
                earlier.push(MemberView { key: arguments.last().0, value }),
            ),
            _ => None,
        }
    }
}

/// The JSON object that a stored function hands to its plugin when it is
/// called with `values`, given in the order of its signature. There is none
/// if the number of values is not that of the signature.
pub open spec fn spec_envelope(definition: FunctionDefinitionView, values: Seq<JsonView>) -> Option<
    JsonView,
> {
    if values.len() != definition.parameters.len() {
        None
    } else {
        match spec_envelope_members(definition.parameters, values, definition.arguments) {
            Some(members) => Some(JsonView::Object(members)),
            None => None,
        }
    }
}

// The value of the variable `name`.
fn variable<'a>(definition: &FunctionDefinition, values: &'a Vec<JsonValue>, name: &str) -> (found:
    Option<&'a JsonValue>)
    ensures
        match found {
            Some(value) => spec_variable(definition@.parameters, spec_items(values@), name@)
                == Some(value@),
            None => spec_variable(definition@.parameters, spec_items(values@), name@) is None,
        },
{
    let ghost signature = definition@.parameters;
    let ghost all = spec_items(values@);
    let mut i: usize = 0;
    assert(signature.skip(0) =~= signature && all.skip(0) =~= all);
    while i < definition.parameters.len() && i < values.len()
        invariant
            i <= signature.len(),
            i <= all.len(),
            signature == definition@.parameters,
            signature.len() == definition.parameters@.len(),
            all == spec_items(values@),
            spec_variable(signature, all, name@) == spec_variable(
                signature.skip(i as int),
                all.skip(i as int),
                name@,
            ),
        decreases signature.len() - i,
    {
        proof {
            assert(signature.skip(i as int)[0] == signature[i as int]);
            assert(all.skip(i as int)[0] == all[i as int]);
            assert(signature.skip(i as int).drop_first() =~= signature.skip(i + 1));
            assert(all.skip(i as int).drop_first() =~= all.skip(i + 1));
        }
        if same_text(definition.parameters[i].name.as_str(), name) {
            return Some(&values[i]);
        }
        i += 1;
    }
    None
}

/// Builds the JSON object that the stored function hands to its plugin when
/// it is called with `values`, given in the order of its signature: each
/// value under the name of its parameter.
pub fn call_envelope(definition: &FunctionDefinition, values: &Vec<JsonValue>) -> (envelope: Option<
    JsonValue,
>)
    ensures
        match envelope {
            Some(object) => spec_envelope(definition@, spec_items(values@)) == Some(object@),
            None => spec_envelope(definition@, spec_items(values@)) is None,
        },
{
    if values.len() != definition.parameters.len() {
        return None;
    }
    let ghost signature = definition@.parameters;
    let ghost all = spec_items(values@);
    let ghost arguments = definition@.arguments;
    let mut members: Vec<Member> = Vec::new();
    let mut i: usize = 0;
    assert(arguments.take(0) =~= Seq::<(Seq<char>, Seq<char>)>::empty());
    assert(spec_members(members@) =~= Seq::<MemberView>::empty());
    while i < definition.arguments.len()
        invariant
            i <= arguments.len(),
            signature == definition@.parameters,
            arguments == definition@.arguments,
            arguments.len() == definition.arguments@.len(),
            all == spec_items(values@),
            all.len() == signature.len(),
            spec_envelope_members(signature, all, arguments.take(i as int)) == Some(
                spec_members(members@),
            ),
        decreases arguments.len() - i,
    {
        proof {
            assert(arguments.take(i + 1).drop_last() =~= arguments.take(i as int));
            assert(arguments.take(i + 1).last() == arguments[i as int]);
            lemma_envelope_prefix(signature, all, arguments, i + 1);
        }
        let ghost earlier = spec_members(members@);
        match variable(definition, values, definition.arguments[i].variable.as_str()) {
            Some(value) => {
                members.push(Member { key: definition.arguments[i].key.clone(), value: value.clone() });
                assert(spec_members(members@) =~= earlier.push(
                    MemberView { key: arguments[i as int].0, value: value@ },
                ));
            },
            None => {
                return None;
            },
        }
        i += 1;
    }
    proof {
        assert(arguments.take(i as int) =~= arguments);
        JsonValue::lemma_object_view(members);
    }
    Some(JsonValue::Object(members))
}

/// An argument object that can be built can be built up to each of its
/// members.
pub proof fn lemma_envelope_prefix(
    signature: Seq<(Seq<char>, Seq<char>)>,
    values: Seq<JsonView>,
    arguments: Seq<(Seq<char>, Seq<char>)>,
    n: int,
)
    requires
        0 <= n <= arguments.len(),
    ensures
        spec_envelope_members(signature, values, arguments.take(n)) is None
            ==> spec_envelope_members(signature, values, arguments) is None,
    decreases arguments.len() - n,
{
    if n < arguments.len() {
        assert(arguments.take(n + 1).drop_last() =~= arguments.take(n));
        lemma_envelope_prefix(signature, values, arguments, n + 1);
    } else {
        assert(arguments.take(n) =~= arguments);
    }
}

/// What a stored function returns for the outcome of its call: the member
/// of the plugin's answer that the definition names. A failed call, an
/// answer without that member and a member that is `null` all give no
/// result; no failure is passed on to the caller.
pub open spec fn spec_returned_value(
    definition: FunctionDefinitionView,
    outcome: Result<JsonView, InvokeErrorView>,
) -> Option<JsonView> {
    match outcome {
        Ok(document) => match spec_get(document, definition.return_field) {
            Some(JsonView::Null) => None,
            Some(value) => Some(value),
            None => None,
        },
        Err(_) => None,
    }
}

/// Unwraps the outcome of a call as the stored function does: the named
/// member of the plugin's answer, or no result.
pub fn returned_value(definition: &FunctionDefinition, outcome: &Result<JsonValue, InvokeError>) -> (value:
    Option<JsonValue>)
    ensures
        match value {
            Some(found) => spec_returned_value(definition@, spec_outcome(*outcome)) == Some(found@),
            None => spec_returned_value(definition@, spec_outcome(*outcome)) is None,
        },
{
    match outcome {
        Ok(document) => match document.get(definition.return_field.as_str()) {
            Some(JsonValue::Null) => None,
            Some(value) => Some(value.clone()),
            None => None,
        },
        Err(_) => None,
    }
}

/// The mathematical content of the outcome of a call.
pub open spec fn spec_outcome(outcome: Result<JsonValue, InvokeError>) -> Result<
    JsonView,
    InvokeErrorView,
> {
    match outcome {
        Ok(document) => Ok(document@),
        Err(error) => Err(error@),
    }
}

/// A plugin that answers with an object whose only member is the declared
/// return field has the value of that member returned unchanged, unless the
/// value is `null`.
pub proof fn lemma_answer_is_returned(definition: FunctionDefinitionView, bytes: Seq<u8>, value: JsonView)
    requires
        valid_utf8(bytes),
        json_parse(bytes) == Ok::<JsonView, Seq<char>>(spec_single(definition.return_field, value)),
        !(value is Null),
    ensures
        spec_returned_value(definition, spec_call_result(CallReplyView::Returned(bytes))) == Some(
            value,
        ),
{
    let members = seq![MemberView { key: definition.return_field, value }];
    assert(members.last().key == definition.return_field);
}

/// Whatever goes wrong with a call (the load, a timeout, a fault of the
/// plugin, a function that is not there, an answer that is not UTF-8 or not
/// JSON), the stored function returns no result.
pub proof fn lemma_failure_gives_no_result(definition: FunctionDefinitionView, reply: CallReplyView)
    requires
        spec_call_result(reply) is Err,
    ensures
        spec_returned_value(definition, spec_call_result(reply)) is None,
        reply is LoadFailed || reply is CallFailed || !valid_utf8(reply->Returned_0) || json_parse(
            reply->Returned_0,
        ) is Err,
{
}

/// The restrictions under which a module is loaded depend on the module and
/// on the bridge's own key alone: no entry point and no argument of a caller
/// widens what a plugin may reach.
pub proof fn lemma_restrictions_ignore_the_call(
    locator: Seq<char>,
    api_key: Seq<char>,
    entry_point: Seq<char>,
    arguments: JsonView,
    other_entry_point: Seq<char>,
    other_arguments: JsonView,
)
    ensures
        spec_call_request(locator, entry_point, arguments, api_key).config == spec_call_request(
            locator,
            other_entry_point,
            other_arguments,
            api_key,
        ).config,
        spec_call_request(locator, entry_point, arguments, api_key).config.allowed_hosts
            == seq!["api.openai.com"@],
        spec_call_request(locator, entry_point, arguments, api_key).config.allowed_paths
            == seq![("/"@, "/"@)],
{
}

/// A call that the sandbox stops for running too long is a failed call, of
/// the kind `Timeout`: the stored function returns no result instead of
/// waiting.
pub proof fn lemma_timeout_gives_no_result(definition: FunctionDefinitionView)
    ensures
        spec_failure_kind(true, "timeout"@) == CallErrorKind::Timeout,
        spec_returned_value(
            definition,
            spec_call_result(
                CallReplyView::CallFailed(
                    CallErrorView { kind: CallErrorKind::Timeout, detail: "timeout"@ },
                ),
            ),
        ) is None,
{
}

} // verus!
