//! The specialist for reports of damaged, broken or faulty articles.

use crate::agents::definition::{assemble, presents, schema_to_value, Definition};
use crate::text::{lemma_occurs_between, occurs_in};
use vstd::prelude::*;
use vstd::string::StringExecFns;

verus! {

/// The name under which the orchestrator finds this specialist.
pub const NAME: &'static str = "damage_specialist";

/// What the orchestrator reads to decide whether a request belongs here.
pub const DESCRIPTION: &'static str =
    "Usa este agente cuando el usuario reporte un artículo dañado, roto o defectuoso.";

/// What a report of damage carries. Nothing is validated here, neither amounts
/// nor business rules: all reasoning is left to the completion backend.
#[derive(Debug)]
pub struct DamageReportArgs {
    /// The name or identifier of the damaged article.
    pub item_name: String,
    /// The damage in detail, as the user saw it.
    pub description_of_damage: String,
}

/// The fields of a [`DamageReportArgs`] as sequences of characters.
pub struct DamageReportArgsView {
    pub item_name: Seq<char>,
    pub description_of_damage: Seq<char>,
}

impl View for DamageReportArgs {
    type V = DamageReportArgsView;

    open spec fn view(&self) -> DamageReportArgsView {
        DamageReportArgsView {
            item_name: self.item_name@,
            description_of_damage: self.description_of_damage@,
        }
    }
}

/// The instruction that stands for a report: two fixed pieces of text, each
/// followed by one field as it was given.
pub open spec fn prompt_text(args: DamageReportArgsView) -> Seq<char> {
    "Reporte de daño para el artículo '"@ + args.item_name + "'. Descripción del daño: "@
        + args.description_of_damage
}

impl DamageReportArgs {
    /// Renders the report as the instruction sent to the completion backend.
    pub fn prompt(&self) -> (text: String)
        ensures
            text@ == prompt_text(self@),
            occurs_in(self.item_name@, text@),
            occurs_in(self.description_of_damage@, text@),
    {
        let mut text = String::from_str("Reporte de daño para el artículo '");
        text.append(self.item_name.as_str());
        text.append("'. Descripción del daño: ");
        text.append(self.description_of_damage.as_str());
        proof {
            lemma_prompt_holds_every_field(self@);
        }
        text
    }
}

/// The instruction holds both fields verbatim, whatever they are.
pub proof fn lemma_prompt_holds_every_field(args: DamageReportArgsView)
    ensures
        occurs_in(args.item_name, prompt_text(args)),
        occurs_in(args.description_of_damage, prompt_text(args)),
{
    let whole = prompt_text(args);
    let lead = "Reporte de daño para el artículo '"@;
    let to_damage = "'. Descripción del daño: "@;

    let after_item = to_damage + args.description_of_damage;
    lemma_occurs_between(lead, args.item_name, after_item);
    assert(whole =~= lead + args.item_name + after_item);

    let before_damage = lead + args.item_name + to_damage;
    lemma_occurs_between(before_damage, args.description_of_damage, Seq::empty());
    assert(whole =~= before_damage + args.description_of_damage + Seq::empty());
}

/// What the specialist answers: the backend's reply, as it came.
#[derive(Debug)]
pub struct DamageResponse {
    pub response: String,
}

impl View for DamageResponse {
    type V = Seq<char>;

    open spec fn view(&self) -> Seq<char> {
        self.response@
    }
}

/// The one way in which the specialist fails: the completion backend failed.
/// It holds the backend's own description of what went wrong.
#[derive(Debug)]
pub struct DamageError(String);

impl View for DamageError {
    type V = Seq<char>;

    closed spec fn view(&self) -> Seq<char> {
        self.0@
    }
}

/// How a failure reads: a fixed label, then the backend's description.
pub open spec fn error_text(description: Seq<char>) -> Seq<char> {
    "DamageSpecialist error: "@ + description
}

impl DamageError {
    /// Wraps the backend's description of a failure.
    pub fn new(description: String) -> (error: DamageError)
        ensures
            error@ == description@,
    {
        DamageError(description)
    }

    /// The backend's description, as it was wrapped.
    pub fn description(&self) -> (description: &String)
        ensures
            description@ == self@,
    {
        &self.0
    }

    /// The failure as a line of text for the caller.
    pub fn message(&self) -> (line: String)
        ensures
            line@ == error_text(self@),
            occurs_in(self@, line@),
    {
        let mut line = String::from_str("DamageSpecialist error: ");
        line.append(self.0.as_str());
        proof {
            lemma_error_text_holds_description(self@);
        }
        line
    }
}

/// A failure's text holds the description it was made from, verbatim.
pub proof fn lemma_error_text_holds_description(description: Seq<char>)
    ensures
        occurs_in(description, error_text(description)),
{
    let label = "DamageSpecialist error: "@;
    lemma_occurs_between(label, description, Seq::empty());
    assert(error_text(description) =~= label + description + Seq::empty());
}

/// Ends an invocation with what the completion backend returned for the
/// prompt: its reply becomes the response unchanged, its failure becomes the
/// specialist's error with the same description. Nothing is tried again.
pub fn respond(backend: Result<String, String>) -> (answer: Result<DamageResponse, DamageError>)
    ensures
        backend matches Ok(reply) ==> answer matches Ok(response) && response@ == reply@,
        backend matches Err(cause) ==> answer matches Err(error) && error@ == cause@
            && occurs_in(cause@, error_text(error@)),
{
    match backend {
        Ok(reply) => Ok(DamageResponse { response: reply }),
        Err(cause) => {
            proof {
                lemma_error_text_holds_description(cause@);
            }
            Err(DamageError::new(cause))
        },
    }
}

/// The specialist as the orchestrator sees it, given the schema that schemars
/// generated for the arguments: its name, its description, and the schema as
/// the JSON document that serde_json makes of it. A definition is always made.
pub fn definition(schema: schemars::Schema) -> (definition: Result<Definition, serde_json::Error>)
    ensures
        definition matches Ok(d) && presents(d, NAME@, DESCRIPTION@, schema),
{
    assemble(NAME, DESCRIPTION, schema_to_value(schema))
}

} // verus!
