//! Registration of a plugin, as a conversation with the host: the bridge
//! says what to ask of the loaded plugin, the host reports what came of it,
//! and at the end the bridge hands over the definition to install or the
//! reason why there is none.

use crate::contract::{PluginMetadata, PluginMetadataView};
use crate::json::{json_parse, JsonValue};
use crate::resolver::{
    decode_metadata, first_invalid_name, spec_decode, spec_first_invalid_name, MetadataError,
    MetadataErrorView,
};
use crate::sandbox::{CallError, CallErrorView};
use crate::synthesizer::{spec_synthesize, synthesize, FunctionDefinition, FunctionDefinitionView};
use vstd::prelude::*;

verus! {

/// How far a registration has come.
#[derive(Debug, PartialEq, Eq)]
pub enum DefineState {
    /// Nothing was asked yet.
    Idle,
    /// The host was asked whether the plugin exports `metadata`.
    ProbingContract,
    /// The host was asked to call `metadata`.
    ReadingContract,
    /// The contract was read, and the host was asked whether the plugin
    /// exports the entry point.
    ProbingEntryPoint(PluginMetadata),
    /// The registration has ended, with a definition or with a failure.
    Finished,
}

/// What the host reports.
#[derive(Debug, PartialEq, Eq)]
pub enum DefineEvent {
    /// The plugin is loaded.
    Started,
    /// Whether the plugin exports the function that was asked about.
    Probed(bool),
    /// The call returned these bytes.
    Returned(Vec<u8>),
    /// The call failed.
    Failed(CallError),
}

/// What the host is to do next.
#[derive(Debug, PartialEq, Eq)]
pub enum DefineAction {
    /// Report whether the plugin exports this function.
    Probe(String),
    /// Call this function with this input and report what it returns.
    Call { function: String, input: Vec<u8> },
    /// Install this definition; the registration has succeeded.
    Install(FunctionDefinition),
    /// Fail the registering statement with this error; nothing is installed.
    Fail(MetadataError),
    /// The report does not answer what was asked; nothing changes.
    Unexpected,
}

/// The mathematical content of a [`DefineState`].
pub enum DefineStateView {
    Idle,
    ProbingContract,
    ReadingContract,
    ProbingEntryPoint(PluginMetadataView),
    Finished,
}

/// The mathematical content of a [`DefineEvent`].
pub enum DefineEventView {
    Started,
    Probed(bool),
    Returned(Seq<u8>),
    Failed(CallErrorView),
}

/// The mathematical content of a [`DefineAction`].
pub enum DefineActionView {
    Probe(Seq<char>),
    Call { function: Seq<char>, input: Seq<u8> },
    Install(FunctionDefinitionView),
    Fail(MetadataErrorView),
    Unexpected,
}

impl View for DefineState {
    type V = DefineStateView;

    open spec fn view(&self) -> DefineStateView {
        match self {
            DefineState::Idle => DefineStateView::Idle,
            DefineState::ProbingContract => DefineStateView::ProbingContract,
            DefineState::ReadingContract => DefineStateView::ReadingContract,
            DefineState::ProbingEntryPoint(metadata) => DefineStateView::ProbingEntryPoint(
                metadata@,
            ),
            DefineState::Finished => DefineStateView::Finished,
        }
    }
}

impl View for DefineEvent {
    type V = DefineEventView;

    open spec fn view(&self) -> DefineEventView {
        match self {
            DefineEvent::Started => DefineEventView::Started,
            DefineEvent::Probed(exported) => DefineEventView::Probed(*exported),
            DefineEvent::Returned(bytes) => DefineEventView::Returned(bytes@),
            DefineEvent::Failed(error) => DefineEventView::Failed(error@),
        }
    }
}

impl View for DefineAction {
    type V = DefineActionView;

    open spec fn view(&self) -> DefineActionView {
        match self {
            DefineAction::Probe(function) => DefineActionView::Probe(function@),
            DefineAction::Call { function, input } => DefineActionView::Call {
                function: function@,
                input: input@,
            },
            DefineAction::Install(definition) => DefineActionView::Install(definition@),
            DefineAction::Fail(error) => DefineActionView::Fail(error@),
            DefineAction::Unexpected => DefineActionView::Unexpected,
        }
    }
}

/// What follows when `metadata` has returned `bytes`: they must be JSON and
/// state a contract with an entry point; then the host is asked whether the
/// plugin exports that entry point.
pub open spec fn spec_contract_read(bytes: Seq<u8>) -> (DefineStateView, DefineActionView) {
    match json_parse(bytes) {
        Err(detail) => (
            DefineStateView::Finished,
            DefineActionView::Fail(MetadataErrorView::Malformed(detail)),
        ),
        Ok(document) => match spec_decode(document) {
            Err(detail) => (
                DefineStateView::Finished,
                DefineActionView::Fail(MetadataErrorView::Malformed(detail)),
            ),
            Ok(metadata) => if metadata.entry_point.len() == 0 {
                (
                    DefineStateView::Finished,
                    DefineActionView::Fail(MetadataErrorView::MissingEntryPoint),
                )
            } else {
                (
                    DefineStateView::ProbingEntryPoint(metadata),
                    DefineActionView::Probe(metadata.entry_point),
                )
            },
        },
    }
}

/// What follows when the plugin exports the entry point of its contract:
/// every parameter's name must be an identifier; then the definition is
/// handed over.
pub open spec fn spec_entry_point_found(
    locator: Seq<char>,
    exposed_name: Seq<char>,
    metadata: PluginMetadataView,
) -> (DefineStateView, DefineActionView) {
    match spec_first_invalid_name(metadata.parameters) {
        Some(name) => (
            DefineStateView::Finished,
            DefineActionView::Fail(MetadataErrorView::InvalidIdentifier(name)),
        ),
        None => (
            DefineStateView::Finished,
            DefineActionView::Install(spec_synthesize(locator, exposed_name, metadata)),
        ),
    }
}

/// One step of a registration: the state that follows a report of the host,
/// and what the host is to do next.
pub open spec fn spec_define_step(
    locator: Seq<char>,
    exposed_name: Seq<char>,
    state: DefineStateView,
    event: DefineEventView,
) -> (DefineStateView, DefineActionView) {
    match (state, event) {
        (DefineStateView::Idle, DefineEventView::Started) => (
            DefineStateView::ProbingContract,
            DefineActionView::Probe("metadata"@),
        ),
        (DefineStateView::ProbingContract, DefineEventView::Probed(exported)) => if exported {
            (
                DefineStateView::ReadingContract,
                DefineActionView::Call { function: "metadata"@, input: Seq::empty() },
            )
        } else {
            (DefineStateView::Finished, DefineActionView::Fail(MetadataErrorView::NoContract))
        },
        (DefineStateView::ReadingContract, DefineEventView::Failed(error)) => (
            DefineStateView::Finished,
            DefineActionView::Fail(MetadataErrorView::CallFailed(error.detail)),
        ),
        (DefineStateView::ReadingContract, DefineEventView::Returned(bytes)) => spec_contract_read(
            bytes,
        ),
        (DefineStateView::ProbingEntryPoint(metadata), DefineEventView::Probed(exported)) => if exported {
            spec_entry_point_found(locator, exposed_name, metadata)
        } else {
            (
                DefineStateView::Finished,
                DefineActionView::Fail(MetadataErrorView::MissingEntryPoint),
            )
        },
        _ => (state, DefineActionView::Unexpected),
    }
}

// What follows when `metadata` has returned `bytes`.
fn contract_read(bytes: Vec<u8>) -> (next: (DefineState, DefineAction))
    ensures
        (next.0@, next.1@) == spec_contract_read(bytes@),
{
    let document = match JsonValue::parse(bytes.as_slice()) {
        Ok(document) => document,
        Err(detail) => {
            return (DefineState::Finished, DefineAction::Fail(MetadataError::Malformed(detail)));
        },
    };
    let metadata = match decode_metadata(&document) {
        Ok(metadata) => metadata,
        Err(error) => {
            return (DefineState::Finished, DefineAction::Fail(error));
        },
    };
    if metadata.entry_point.as_str().is_empty() {
        return (DefineState::Finished, DefineAction::Fail(MetadataError::MissingEntryPoint));
    }
    let entry_point = metadata.entry_point.clone();
    (DefineState::ProbingEntryPoint(metadata), DefineAction::Probe(entry_point))
}

// What follows when the plugin exports the entry point of its contract.
fn entry_point_found(locator: &str, exposed_name: &str, metadata: PluginMetadata) -> (next: (
    DefineState,
    DefineAction,
))
    ensures
        (next.0@, next.1@) == spec_entry_point_found(locator@, exposed_name@, metadata@),
{
    match first_invalid_name(&metadata) {
        Some(name) => (
            DefineState::Finished,
            DefineAction::Fail(MetadataError::InvalidIdentifier(name)),
        ),
        None => (
            DefineState::Finished,
            DefineAction::Install(synthesize(locator, exposed_name, &metadata)),
        ),
    }
}

/// Takes one step of the registration of the plugin at `locator` under
/// `exposed_name`: from the state and the host's report to the next state
/// and the host's next task.
pub fn define_step(locator: &str, exposed_name: &str, state: DefineState, event: DefineEvent) -> (next:
    (DefineState, DefineAction))
    ensures
        (next.0@, next.1@) == spec_define_step(locator@, exposed_name@, state@, event@),
{
    match state {
        DefineState::Idle => match event {
            DefineEvent::Started => (
                DefineState::ProbingContract,
                DefineAction::Probe("metadata".to_owned()),
            ),
            _ => (DefineState::Idle, DefineAction::Unexpected),
        },
        DefineState::ProbingContract => match event {
            DefineEvent::Probed(true) => (
                DefineState::ReadingContract,
                DefineAction::Call { function: "metadata".to_owned(), input: Vec::new() },
            ),
            DefineEvent::Probed(false) => (
                DefineState::Finished,
                DefineAction::Fail(MetadataError::NoContract),
            ),
            _ => (DefineState::ProbingContract, DefineAction::Unexpected),
        },
        DefineState::ReadingContract => match event {
            DefineEvent::Failed(error) => (
                DefineState::Finished,
                DefineAction::Fail(MetadataError::CallFailed(error.detail)),
            ),
            DefineEvent::Returned(bytes) => contract_read(bytes),
            _ => (DefineState::ReadingContract, DefineAction::Unexpected),
        },
        DefineState::ProbingEntryPoint(metadata) => match event {
            DefineEvent::Probed(true) => entry_point_found(locator, exposed_name, metadata),
            DefineEvent::Probed(false) => (
                DefineState::Finished,
                DefineAction::Fail(MetadataError::MissingEntryPoint),
            ),
            _ => (DefineState::ProbingEntryPoint(metadata), DefineAction::Unexpected),
        },
        DefineState::Finished => (DefineState::Finished, DefineAction::Unexpected),
    }
}

/// The tasks that a registration hands to the host, one for each report,
/// when it starts in `state` and the host reports `events` in turn.
pub open spec fn spec_define_run(
    locator: Seq<char>,
    exposed_name: Seq<char>,
    state: DefineStateView,
    events: Seq<DefineEventView>,
) -> Seq<DefineActionView>
    decreases events.len(),
{
    if events.len() == 0 {
        Seq::empty()
    } else {
        let (next, action) = spec_define_step(locator, exposed_name, state, events[0]);
        seq![action] + spec_define_run(locator, exposed_name, next, events.drop_first())
    }
}

/// A registration that has ended asks for nothing more: whatever the host
/// reports, nothing is installed.
pub proof fn lemma_finished_is_final(
    locator: Seq<char>,
    exposed_name: Seq<char>,
    events: Seq<DefineEventView>,
)
    ensures
        spec_define_run(locator, exposed_name, DefineStateView::Finished, events).len()
            == events.len(),
        forall|i: int|
            0 <= i < events.len() ==> (#[trigger] spec_define_run(
                locator,
                exposed_name,
                DefineStateView::Finished,
                events,
            )[i]) is Unexpected,
    decreases events.len(),
{
    if events.len() > 0 {
        lemma_finished_is_final(locator, exposed_name, events.drop_first());
    }
}

/// A plugin that exports no `metadata` function fails the registration with
/// `NoContract`, and whatever the host reports afterwards, no definition is
/// handed over for installing.
pub proof fn lemma_no_contract_installs_nothing(
    locator: Seq<char>,
    exposed_name: Seq<char>,
    later: Seq<DefineEventView>,
)
    ensures
        ({
            let events = seq![DefineEventView::Started, DefineEventView::Probed(false)] + later;
            let tasks = spec_define_run(locator, exposed_name, DefineStateView::Idle, events);
            &&& tasks.len() == events.len()
            &&& tasks[1] == DefineActionView::Fail(MetadataErrorView::NoContract)
            &&& forall|i: int| 0 <= i < tasks.len() ==> !((#[trigger] tasks[i]) is Install)
        }),
{
    let events = seq![DefineEventView::Started, DefineEventView::Probed(false)] + later;
    let after_start = events.drop_first();
    assert(after_start.drop_first() =~= later);
    assert(after_start[0] == DefineEventView::Probed(false));
    lemma_finished_is_final(locator, exposed_name, later);
    let tail = spec_define_run(locator, exposed_name, DefineStateView::Finished, later);
    let middle = spec_define_run(
        locator,
        exposed_name,
        DefineStateView::ProbingContract,
        after_start,
    );
    assert(middle == seq![DefineActionView::Fail(MetadataErrorView::NoContract)] + tail);
    let tasks = spec_define_run(locator, exposed_name, DefineStateView::Idle, events);
    assert(tasks == seq![DefineActionView::Probe("metadata"@)] + middle);
    assert forall|i: int| 0 <= i < tasks.len() implies !((#[trigger] tasks[i]) is Install) by {
        if i >= 2 {
            assert(tasks[i] == tail[i - 2]);
        }
    }
}

/// A definition is handed over for installing only at the last step of a
/// registration: the contract was read, the plugin exports its entry point,
/// and every parameter's name is an identifier. The definition is the one
/// that stands for the contract, under the name that was asked for.
pub proof fn lemma_install_is_checked(
    locator: Seq<char>,
    exposed_name: Seq<char>,
    state: DefineStateView,
    event: DefineEventView,
)
    requires
        spec_define_step(locator, exposed_name, state, event).1 is Install,
    ensures
        state is ProbingEntryPoint,
        event == DefineEventView::Probed(true),
        spec_first_invalid_name(state->ProbingEntryPoint_0.parameters) is None,
        spec_define_step(locator, exposed_name, state, event) == (
            DefineStateView::Finished,
            DefineActionView::Install(
                spec_synthesize(locator, exposed_name, state->ProbingEntryPoint_0),
            ),
        ),
{
}

} // verus!
