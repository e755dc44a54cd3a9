//! A specialist for trying the system out: it asks the backend to process a
//! message at a given level of detail.

use crate::agents::definition::{assemble, presents, schema_to_value, Definition};
use crate::text::{lemma_occurs_between, occurs_in};
use vstd::prelude::*;
use vstd::string::StringExecFns;

verus! {

/// The name under which the orchestrator finds this specialist.
pub const NAME: &'static str = "dummy_specialist";

/// What the orchestrator reads to decide whether a request belongs here.
pub const DESCRIPTION: &'static str =
    "Un agente de prueba para verificar el sistema. Úsalo cuando el usuario quiera probar el sistema, diga 'ping', 'test', o pida una demostración.";

/// What a trial request carries. Nothing is validated here.
#[derive(Debug)]
pub struct DummyArgs {
    /// The message to process.
    pub message: String,
    /// How detailed the answer should be, in free text.
    pub detail_level: String,
}

/// The fields of a [`DummyArgs`] as sequences of characters.
pub struct DummyArgsView {
    pub message: Seq<char>,
    pub detail_level: Seq<char>,
}

impl View for DummyArgs {
    type V = DummyArgsView;

    open spec fn view(&self) -> DummyArgsView {
        DummyArgsView { message: self.message@, detail_level: self.detail_level@ }
    }
}

/// The instruction that stands for a request: two fixed pieces of text, each
/// followed by one field as it was given, the level of detail before the
/// message.
pub open spec fn prompt_text(args: DummyArgsView) -> Seq<char> {
    "Procesa el siguiente mensaje con nivel de detalle '"@ + args.detail_level + "':\n\n"@
        + args.message
}

impl DummyArgs {
    /// Renders the request as the instruction sent to the completion backend.
    pub fn prompt(&self) -> (text: String)
        ensures
            text@ == prompt_text(self@),
            occurs_in(self.message@, text@),
            occurs_in(self.detail_level@, text@),
    {
        let mut text = String::from_str("Procesa el siguiente mensaje con nivel de detalle '");
        text.append(self.detail_level.as_str());
        text.append("':\n\n");
        text.append(self.message.as_str());
        proof {
            lemma_prompt_holds_every_field(self@);
        }
        text
    }
}

/// The instruction holds both fields verbatim, whatever they are.
pub proof fn lemma_prompt_holds_every_field(args: DummyArgsView)
    ensures
        occurs_in(args.message, prompt_text(args)),
        occurs_in(args.detail_level, prompt_text(args)),
{
    let whole = prompt_text(args);
    let lead = "Procesa el siguiente mensaje con nivel de detalle '"@;
    let to_message = "':\n\n"@;

    let after_level = to_message + args.message;
    lemma_occurs_between(lead, args.detail_level, after_level);
    assert(whole =~= lead + args.detail_level + after_level);

    let before_message = lead + args.detail_level + to_message;
    lemma_occurs_between(before_message, args.message, Seq::empty());
    assert(whole =~= before_message + args.message + Seq::empty());
}

/// What the specialist answers: the backend's reply, as it came.
#[derive(Debug)]
pub struct DummyResponse {
    pub response: String,
}

impl View for DummyResponse {
    type V = Seq<char>;

    open spec fn view(&self) -> Seq<char> {
        self.response@
    }
}

/// The one way in which the specialist fails: the completion backend failed.
/// It holds the backend's own description of what went wrong.
#[derive(Debug)]
pub struct DummyError(String);

impl View for DummyError {
    type V = Seq<char>;

    closed spec fn view(&self) -> Seq<char> {
        self.0@
    }
}

/// How a failure reads: a fixed label, then the backend's description.
pub open spec fn error_text(description: Seq<char>) -> Seq<char> {
    "DummySpecialist error: "@ + description
}

impl DummyError {
    /// Wraps the backend's description of a failure.
    pub fn new(description: String) -> (error: DummyError)
        ensures
            error@ == description@,
    {
        DummyError(description)
    }

    /// The backend's description, as it was wrapped.
    pub fn description(&self) -> (description: &String)
        ensures
            description@ == self@,
    {
        &self.0
    }

    /// The failure as a line of text for the caller.
    pub fn message(&self) -> (line: String)
        ensures
            line@ == error_text(self@),
            occurs_in(self@, line@),
    {
        let mut line = String::from_str("DummySpecialist error: ");
        line.append(self.0.as_str());
        proof {
            lemma_error_text_holds_description(self@);
        }
        line
    }
}

/// A failure's text holds the description it was made from, verbatim.
pub proof fn lemma_error_text_holds_description(description: Seq<char>)
    ensures
        occurs_in(description, error_text(description)),
{
    let label = "DummySpecialist error: "@;
    lemma_occurs_between(label, description, Seq::empty());
    assert(error_text(description) =~= label + description + Seq::empty());
}

/// Ends an invocation with what the completion backend returned for the
/// prompt: its reply becomes the response unchanged, its failure becomes the
/// specialist's error with the same description. Nothing is tried again.
pub fn respond(backend: Result<String, String>) -> (answer: Result<DummyResponse, DummyError>)
    ensures
        backend matches Ok(reply) ==> answer matches Ok(response) && response@ == reply@,
        backend matches Err(cause) ==> answer matches Err(error) && error@ == cause@
            && occurs_in(cause@, error_text(error@)),
{
    match backend {
        Ok(reply) => Ok(DummyResponse { response: reply }),
        Err(cause) => {
            proof {
                lemma_error_text_holds_description(cause@);
            }
            Err(DummyError::new(cause))
        },
    }
}

/// The specialist as the orchestrator sees it, given the schema that schemars
/// generated for the arguments: its name, its description, and the schema as
/// the JSON document that serde_json makes of it. A definition is always made.
pub fn definition(schema: schemars::Schema) -> (definition: Result<Definition, serde_json::Error>)
    ensures
        definition matches Ok(d) && presents(d, NAME@, DESCRIPTION@, schema),
{
    assemble(NAME, DESCRIPTION, schema_to_value(schema))
}

} // verus!
