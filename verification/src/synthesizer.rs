//! Turns a plugin's declared contract into the definition of a stored
//! function: a typed signature and a body that packages the arguments as one
//! JSON object, calls the plugin through the invocation adapter and unwraps
//! the declared field of the answer.

use crate::contract::{
    spec_lookup, spec_sorted, spec_type_to_sql, type_to_sql, PluginMetadata, PluginMetadataView,
    Type,
};
use crate::text::{join, lemma_name_order, spec_join, spec_texts};
use vstd::prelude::*;
use vstd::string::*;

verus! {

/// One parameter of the stored function's signature.
#[derive(Debug, PartialEq, Eq)]
pub struct SqlParameter {
    pub name: String,
    pub column_type: String,
}

impl View for SqlParameter {
    type V = (Seq<char>, Seq<char>);

    open spec fn view(&self) -> (Seq<char>, Seq<char>) {
        (self.name@, self.column_type@)
    }
}

/// One member of the JSON object that the body builds: the key, and the
/// variable whose value goes under it.
#[derive(Debug, PartialEq, Eq)]
pub struct Argument {
    pub key: String,
    pub variable: String,
}

impl View for Argument {
    type V = (Seq<char>, Seq<char>);

    open spec fn view(&self) -> (Seq<char>, Seq<char>) {
        (self.key@, self.variable@)
    }
}

/// The definition of a stored function that calls a plugin.
#[derive(Debug, PartialEq, Eq)]
pub struct FunctionDefinition {
    /// The name under which the function is installed.
    pub name: String,
    /// The signature, in the order in which it is written.
    pub parameters: Vec<SqlParameter>,
    /// The column type of the result.
    pub return_type: String,
    /// Where the plugin module is found.
    pub locator: String,
    /// The plugin function that the body calls.
    pub entry_point: String,
    /// The JSON object handed to the plugin.
    pub arguments: Vec<Argument>,
    /// The field of the plugin's answer that is returned.
    pub return_field: String,
}

/// The mathematical content of a [`FunctionDefinition`].
pub struct FunctionDefinitionView {
    pub name: Seq<char>,
    pub parameters: Seq<(Seq<char>, Seq<char>)>,
    pub return_type: Seq<char>,
    pub locator: Seq<char>,
    pub entry_point: Seq<char>,
    pub arguments: Seq<(Seq<char>, Seq<char>)>,
    pub return_field: Seq<char>,
}

impl View for FunctionDefinition {
    type V = FunctionDefinitionView;

    open spec fn view(&self) -> FunctionDefinitionView {
        FunctionDefinitionView {
            name: self.name@,
            parameters: Seq::new(self.parameters@.len(), |i: int| self.parameters@[i]@),
            return_type: self.return_type@,
            locator: self.locator@,
            entry_point: self.entry_point@,
            arguments: Seq::new(self.arguments@.len(), |i: int| self.arguments@[i]@),
            return_field: self.return_field@,
        }
    }
}

/// The signature that a list of declared parameters gives: one entry for
/// each, with its column type, from the last name to the first.
pub open spec fn spec_signature(parameters: Seq<(Seq<char>, Type)>) -> Seq<(Seq<char>, Seq<char>)> {
    Seq::new(
        parameters.len(),
        |i: int|
            (
                parameters[parameters.len() - 1 - i].0,
                spec_type_to_sql(parameters[parameters.len() - 1 - i].1),
            ),
    )
}

/// The argument object that a list of declared parameters gives: each
/// parameter's value under the parameter's own name, in the order of the
/// names.
pub open spec fn spec_arguments(parameters: Seq<(Seq<char>, Type)>) -> Seq<(Seq<char>, Seq<char>)> {
    Seq::new(parameters.len(), |i: int| (parameters[i].0, parameters[i].0))
}

/// The definition that stands for a plugin's contract.
pub open spec fn spec_synthesize(
    locator: Seq<char>,
    exposed_name: Seq<char>,
    metadata: PluginMetadataView,
) -> FunctionDefinitionView {
    FunctionDefinitionView {
        name: exposed_name,
        parameters: spec_signature(metadata.parameters),
        return_type: spec_type_to_sql(metadata.return_type),
        locator,
        entry_point: metadata.entry_point,
        arguments: spec_arguments(metadata.parameters),
        return_field: metadata.return_field,
    }
}

/// The signature as it is written: each name, a space, its column type.
pub open spec fn spec_signature_items(parameters: Seq<(Seq<char>, Seq<char>)>) -> Seq<Seq<char>> {
    Seq::new(parameters.len(), |i: int| parameters[i].0 + " "@ + parameters[i].1)
}

/// The members of the argument object as they are written: the key as a
/// quoted literal, a comma, the variable.
pub open spec fn spec_argument_items(arguments: Seq<(Seq<char>, Seq<char>)>) -> Seq<Seq<char>> {
    Seq::new(arguments.len(), |i: int| "\t'"@ + arguments[i].0 + "', "@ + arguments[i].1)
}

/// The first line of the statement: the name, the signature and the type of
/// the result.
pub open spec fn spec_render_head(d: FunctionDefinitionView) -> Seq<char> {
    "CREATE OR REPLACE FUNCTION "@ + d.name + "("@ + spec_join(
        spec_signature_items(d.parameters),
        ", "@,
    ) + ") RETURNS "@ + d.return_type + " AS $$\n"@
}

/// The declarations and the statement that builds the argument object.
pub open spec fn spec_render_envelope(d: FunctionDefinitionView) -> Seq<char> {
    "DECLARE\n    result_json json;\n    input_param json;\nBEGIN\n    -- Construct JSON object from parameters\n    input_param := json_build_object(\n"@
        + spec_join(spec_argument_items(d.arguments), ",\n"@) + "\n\t);\n"@
}

/// The call of the plugin and the unwrapping of its answer.
pub open spec fn spec_render_call(d: FunctionDefinitionView) -> Seq<char> {
    "    -- Call the extism_define function using the provided parameters\n    SELECT extism_call('"@
        + d.locator + "', '"@ + d.entry_point
        + "', input_param) INTO result_json;\n    -- Return the desired field from the result JSON\n    RETURN (result_json->>'"@
        + d.return_field + "')::"@ + d.return_type + ";\n"@
}

/// What the function does when anything in its body fails: it reports the
/// failure as a notice and returns no result.
pub open spec fn spec_render_fallback() -> Seq<char> {
    "EXCEPTION\n    WHEN others THEN\n        -- Handle exceptions if necessary\n        RAISE NOTICE 'An error occurred: %', SQLERRM;\n        RETURN NULL;\nEND;\n$$ LANGUAGE plpgsql;"@
}

/// The statement that installs a definition, replacing any function that is
/// installed under the same name.
pub open spec fn spec_render(d: FunctionDefinitionView) -> Seq<char> {
    spec_render_head(d) + spec_render_envelope(d) + spec_render_call(d) + spec_render_fallback()
}

/// Builds the definition of the stored function that stands for a plugin's
/// contract.
pub fn synthesize(locator: &str, exposed_name: &str, metadata: &PluginMetadata) -> (definition:
    FunctionDefinition)
    ensures
        definition@ == spec_synthesize(locator@, exposed_name@, metadata@),
        definition@.parameters.len() == metadata@.parameters.len(),
        definition@.arguments.len() == metadata@.parameters.len(),
{
    let n = metadata.parameters.len();
    let ghost declared = metadata@.parameters;
    let mut parameters: Vec<SqlParameter> = Vec::new();
    let mut i: usize = n;
    while i > 0
        invariant
            i <= n,
            n == declared.len(),
            declared == metadata.parameters@,
            parameters@.len() == n - i,
            forall|k: int|
                0 <= k < n - i ==> (#[trigger] parameters@[k])@ == spec_signature(declared)[k],
        decreases i,
    {
        i -= 1;
        let declared_parameter = metadata.parameters.entry(i);
        parameters.push(
            SqlParameter {
                name: declared_parameter.name.clone(),
                column_type: type_to_sql(&declared_parameter.value_type),
            },
        );
    }
    let mut arguments: Vec<Argument> = Vec::new();
    let mut j: usize = 0;
    while j < n
        invariant
            j <= n,
            n == declared.len(),
            declared == metadata.parameters@,
            arguments@.len() == j,
            forall|k: int| 0 <= k < j ==> (#[trigger] arguments@[k])@ == spec_arguments(declared)[k],
        decreases n - j,
    {
        let declared_parameter = metadata.parameters.entry(j);
        arguments.push(
            Argument {
                key: declared_parameter.name.clone(),
                variable: declared_parameter.name.clone(),
            },
        );
        j += 1;
    }
    let definition = FunctionDefinition {
        name: exposed_name.to_owned(),
        parameters,
        return_type: type_to_sql(&metadata.return_type),
        locator: locator.to_owned(),
        entry_point: metadata.entry_point.clone(),
        arguments,
        return_field: metadata.return_field.clone(),
    };
    assert(definition@.parameters =~= spec_signature(declared));
    assert(definition@.arguments =~= spec_arguments(declared));
    definition
}

impl FunctionDefinition {
    // The signature as it is written, entry by entry.
    fn signature_items(&self) -> (items: Vec<String>)
        ensures
            spec_texts(items@) == spec_signature_items(self@.parameters),
    {
        let mut items: Vec<String> = Vec::new();
        let mut i: usize = 0;
        while i < self.parameters.len()
            invariant
                i <= self.parameters@.len(),
                items@.len() == i,
                forall|k: int|
                    0 <= k < i ==> (#[trigger] items@[k])@ == spec_signature_items(
                        self@.parameters,
                    )[k],
            decreases self.parameters@.len() - i,
        {
            let mut item = self.parameters[i].name.clone();
            item.append(" ");
            item.append(self.parameters[i].column_type.as_str());
            items.push(item);
            i += 1;
        }
        assert(spec_texts(items@) =~= spec_signature_items(self@.parameters));
        items
    }

    // The members of the argument object as they are written.
    fn argument_items(&self) -> (items: Vec<String>)
        ensures
            spec_texts(items@) == spec_argument_items(self@.arguments),
    {
        let mut items: Vec<String> = Vec::new();
        let mut i: usize = 0;
        while i < self.arguments.len()
            invariant
                i <= self.arguments@.len(),
                items@.len() == i,
                forall|k: int|
                    0 <= k < i ==> (#[trigger] items@[k])@ == spec_argument_items(
                        self@.arguments,
                    )[k],
            decreases self.arguments@.len() - i,
        {
            let mut item = "\t'".to_owned();
            item.append(self.arguments[i].key.as_str());
            item.append("', ");
            item.append(self.arguments[i].variable.as_str());
            items.push(item);
            i += 1;
        }
        assert(spec_texts(items@) =~= spec_argument_items(self@.arguments));
        items
    }

    // The first line of the statement.
    fn render_head(&self) -> (text: String)
        ensures
            text@ == spec_render_head(self@),
    {
        let signature = join(&self.signature_items(), ", ");
        let mut text = "CREATE OR REPLACE FUNCTION ".to_owned();
        text.append(self.name.as_str());
        text.append("(");
        text.append(signature.as_str());
        text.append(") RETURNS ");
        text.append(self.return_type.as_str());
        text.append(" AS $$\n");
        text
    }

    // The declarations and the statement that builds the argument object.
    fn render_envelope(&self) -> (text: String)
        ensures
            text@ == spec_render_envelope(self@),
    {
        let members = join(&self.argument_items(), ",\n");
        let mut text =
            "DECLARE\n    result_json json;\n    input_param json;\nBEGIN\n    -- Construct JSON object from parameters\n    input_param := json_build_object(\n".to_owned();
        text.append(members.as_str());
        text.append("\n\t);\n");
        text
    }

    // The call of the plugin and the unwrapping of its answer.
    fn render_call(&self) -> (text: String)
        ensures
            text@ == spec_render_call(self@),
    {
        let mut text =
            "    -- Call the extism_define function using the provided parameters\n    SELECT extism_call('".to_owned();
        text.append(self.locator.as_str());
        text.append("', '");
        text.append(self.entry_point.as_str());
        text.append(
            "', input_param) INTO result_json;\n    -- Return the desired field from the result JSON\n    RETURN (result_json->>'",
        );
        text.append(self.return_field.as_str());
        text.append("')::");
        text.append(self.return_type.as_str());
        text.append(";\n");
        text
    }

    /// Writes the statement that installs this definition, replacing any
    /// function that is installed under the same name.
    pub fn render(&self) -> (sql: String)
        ensures
            sql@ == spec_render(self@),
    {
        let mut sql = self.render_head();
        sql.append(self.render_envelope().as_str());
        sql.append(self.render_call().as_str());
        sql.append(
            "EXCEPTION\n    WHEN others THEN\n        -- Handle exceptions if necessary\n        RAISE NOTICE 'An error occurred: %', SQLERRM;\n        RETURN NULL;\nEND;\n$$ LANGUAGE plpgsql;",
        );
        sql
    }
}

/// Writes the statement that installs the stored function for a plugin's
/// contract under `name`.
pub fn generate_dynamic_function(path: &str, name: &str, metadata: &PluginMetadata) -> (sql: String)
    ensures
        sql@ == spec_render(spec_synthesize(path@, name@, metadata@)),
{
    synthesize(path, name, metadata).render()
}

/// The statement installs the function under the definition's name and
/// replaces what is installed there: it begins with the words
/// `CREATE OR REPLACE FUNCTION`, the name and the opening bracket of the
/// signature. Definitions under one name therefore replace each other.
pub proof fn lemma_statement_replaces(d: FunctionDefinitionView)
    ensures
        ({
            let opening = "CREATE OR REPLACE FUNCTION "@ + d.name + "("@;
            &&& opening.len() <= spec_render(d).len()
            &&& spec_render(d).subrange(0, opening.len() as int) == opening
        }),
{
    let opening = "CREATE OR REPLACE FUNCTION "@ + d.name + "("@;
    let signature = spec_join(spec_signature_items(d.parameters), ", "@) + ") RETURNS "@
        + d.return_type + " AS $$\n"@;
    let body = spec_render_envelope(d) + spec_render_call(d) + spec_render_fallback();
    assert(spec_render_head(d) =~= opening + signature);
    assert(spec_render(d) =~= opening + (signature + body));
    assert((opening + (signature + body)).subrange(0, opening.len() as int) =~= opening);
}

/// A definition holds the parameters of the contract it was made for and no
/// others: whatever stood in an earlier definition under the same name is
/// gone from the one that replaces it, unless the new contract declares it
/// too.
pub proof fn lemma_definition_holds_only_declared(
    locator: Seq<char>,
    exposed_name: Seq<char>,
    metadata: PluginMetadataView,
)
    ensures
        ({
            let d = spec_synthesize(locator, exposed_name, metadata);
            &&& d.name == exposed_name
            &&& forall|k: int|
                0 <= k < d.parameters.len() ==> spec_lookup(
                    metadata.parameters,
                    (#[trigger] d.parameters[k]).0,
                ) is Some
            &&& forall|k: int|
                0 <= k < d.arguments.len() ==> spec_lookup(
                    metadata.parameters,
                    (#[trigger] d.arguments[k]).0,
                ) is Some
        }),
{
    let d = spec_synthesize(locator, exposed_name, metadata);
    let declared = metadata.parameters;
    assert forall|k: int| 0 <= k < d.parameters.len() implies spec_lookup(
        declared,
        (#[trigger] d.parameters[k]).0,
    ) is Some by {
        assert(declared[declared.len() - 1 - k].0 == d.parameters[k].0);
    }
    assert forall|k: int| 0 <= k < d.arguments.len() implies spec_lookup(
        declared,
        (#[trigger] d.arguments[k]).0,
    ) is Some by {
        assert(declared[k].0 == d.arguments[k].0);
    }
}

/// A definition has one signature entry and one member of the argument
/// object for each declared parameter; when no name is declared twice, each
/// parameter is found at exactly one place of the signature, with its column
/// type, and at exactly one place of the argument object, where its value
/// stands under its own name.
pub proof fn lemma_parameters_appear_once(
    locator: Seq<char>,
    exposed_name: Seq<char>,
    metadata: PluginMetadataView,
)
    requires
        spec_sorted(metadata.parameters),
    ensures
        ({
            let d = spec_synthesize(locator, exposed_name, metadata);
            let declared = metadata.parameters;
            &&& d.parameters.len() == declared.len()
            &&& d.arguments.len() == declared.len()
            &&& forall|i: int|
                0 <= i < declared.len() ==> {
                    let at = declared.len() - 1 - i;
                    &&& d.parameters[at] == ((#[trigger] declared[i]).0, spec_type_to_sql(declared[i].1))
                    &&& forall|k: int|
                        0 <= k < d.parameters.len() && (#[trigger] d.parameters[k]).0
                            == declared[i].0 ==> k == at
                }
            &&& forall|i: int|
                0 <= i < declared.len() ==> {
                    &&& d.arguments[i] == ((#[trigger] declared[i]).0, declared[i].0)
                    &&& forall|k: int|
                        0 <= k < d.arguments.len() && (#[trigger] d.arguments[k]).0
                            == declared[i].0 ==> k == i
                }
        }),
{
    let d = spec_synthesize(locator, exposed_name, metadata);
    let declared = metadata.parameters;
    assert forall|i: int, k: int| 0 <= i < declared.len() && 0 <= k < declared.len() && (
    #[trigger] declared[k]).0 == (#[trigger] declared[i]).0 implies k == i by {
        lemma_name_order(declared[i].0, declared[i].0, declared[i].0);
        if k < i {
            assert(crate::text::spec_name_lt(declared[k].0, declared[i].0));
        } else if i < k {
            assert(crate::text::spec_name_lt(declared[i].0, declared[k].0));
        }
    }
    assert forall|i: int| 0 <= i < declared.len() implies ({
        let at = declared.len() - 1 - i;
        &&& d.parameters[at] == ((#[trigger] declared[i]).0, spec_type_to_sql(declared[i].1))
        &&& forall|k: int|
            0 <= k < d.parameters.len() && (#[trigger] d.parameters[k]).0 == declared[i].0 ==> k
                == at
    }) by {
        let at = declared.len() - 1 - i;
        assert forall|k: int|
            0 <= k < d.parameters.len() && (#[trigger] d.parameters[k]).0
                == declared[i].0 implies k == at by {
            assert(d.parameters[k].0 == declared[declared.len() - 1 - k].0);
        }
    }
    assert forall|i: int| 0 <= i < declared.len() implies ({
        &&& d.arguments[i] == ((#[trigger] declared[i]).0, declared[i].0)
        &&& forall|k: int|
            0 <= k < d.arguments.len() && (#[trigger] d.arguments[k]).0 == declared[i].0 ==> k == i
    }) by {
        assert forall|k: int|
            0 <= k < d.arguments.len() && (#[trigger] d.arguments[k]).0 == declared[i].0 implies k
            == i by {
            assert(d.arguments[k].0 == declared[k].0);
        }
    }
}

} // verus!
