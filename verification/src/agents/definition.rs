//! How a specialist presents itself to the orchestrator as a tool.

use vstd::prelude::*;

verus! {

/// `serde_json::Value`, a JSON document. It is carried through and never read.
#[verifier::external_type_specification]
#[verifier::external_body]
pub struct ExJsonValue(serde_json::Value);

/// `serde_json::Error`, the failure of a conversion to or from JSON.
#[verifier::external_type_specification]
#[verifier::external_body]
pub struct ExJsonError(serde_json::Error);

/// `schemars::Schema`, a JSON schema as schemars generates it for a type.
#[verifier::external_type_specification]
#[verifier::external_body]
pub struct ExSchema(schemars::Schema);

/// A tool as the orchestrator sees it: its name, when to route a request to
/// it, and the JSON schema that the arguments of a call must match.
#[derive(Debug)]
pub struct Definition {
    pub name: String,
    pub description: String,
    pub parameters: serde_json::Value,
}

/// The JSON document that `serde_json::to_value` returns for a schema. It is
/// decided by the schema alone.
pub uninterp spec fn schema_json(schema: schemars::Schema) -> serde_json::Value;

/// Calls `serde_json::to_value` on a schema. The contract claims that the
/// conversion succeeds and gives the schema's JSON document, of which it says
/// no more than the name. `to_value` is documented to fail only where the
/// value's `Serialize` impl decides to fail or a map has a key that is not a
/// string; the impl of `schemars::Schema` writes out the JSON document it
/// holds, keyed by strings, and raises no error of its own.
#[verifier::external_body]
pub(crate) fn schema_to_value(
    schema: schemars::Schema,
) -> (converted: Result<serde_json::Value, serde_json::Error>)
    ensures
        converted is Ok,
        converted->Ok_0 == schema_json(schema),
{
    serde_json::to_value(schema)
}

/// `definition` is what a specialist of that name and description presents
/// for arguments of that schema.
pub open spec fn presents(
    definition: Definition,
    name: Seq<char>,
    description: Seq<char>,
    schema: schemars::Schema,
) -> bool {
    &&& definition.name@ == name
    &&& definition.description@ == description
    &&& definition.parameters == schema_json(schema)
}

/// A specialist's definition is stable: whenever and however often it is made
/// of one schema, it has the same name, the same description and the same
/// parameters.
pub proof fn lemma_definition_is_stable(
    first: Definition,
    second: Definition,
    name: Seq<char>,
    description: Seq<char>,
    schema: schemars::Schema,
)
    requires
        presents(first, name, description, schema),
        presents(second, name, description, schema),
    ensures
        first.name@ == second.name@,
        first.description@ == second.description@,
        first.parameters == second.parameters,
{
}

/// Puts a definition together once the schema of the arguments has been
/// converted to JSON. A failed conversion is handed on as it is.
pub fn assemble(
    name: &str,
    description: &str,
    converted: Result<serde_json::Value, serde_json::Error>,
) -> (definition: Result<Definition, serde_json::Error>)
    ensures
        match converted {
            Ok(parameters) => {
                &&& definition matches Ok(d)
                &&& d.name@ == name@
                &&& d.description@ == description@
                &&& d.parameters == parameters
            },
            Err(failure) => definition == Err::<Definition, serde_json::Error>(failure),
        },
{
    match converted {
        Ok(parameters) => Ok(
            Definition {
                name: name.to_owned(),
                description: description.to_owned(),
                parameters,
            },
        ),
        Err(failure) => Err(failure),
    }
}

} // verus!
