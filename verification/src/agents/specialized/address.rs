//! The specialist for changes of a delivery address.

use crate::agents::definition::{assemble, presents, schema_to_value, Definition};
use crate::text::{lemma_occurs_between, occurs_in};
use vstd::prelude::*;
use vstd::string::StringExecFns;

verus! {

/// The name under which the orchestrator finds this specialist.
pub const NAME: &'static str = "address_specialist";

/// What the orchestrator reads to decide whether a request belongs here.
pub const DESCRIPTION: &'static str =
    "Usa este agente cuando el usuario quiera cambiar su dirección de entrega, modificar datos de envío, o tenga preguntas sobre logística.";

/// What a request for a change of address carries. Nothing is validated here:
/// every judgement on the fields is left to the completion backend.
#[derive(Debug)]
pub struct AddressChangeArgs {
    /// The customer's unique identifier, such as "CLI-12345".
    pub customer_id: String,
    /// The whole new address: street, number, city and postal code.
    pub new_address: String,
    /// Why the address changes, such as "mudanza" or "error en registro".
    pub reason: String,
}

/// The fields of an [`AddressChangeArgs`] as sequences of characters.
pub struct AddressChangeArgsView {
    pub customer_id: Seq<char>,
    pub new_address: Seq<char>,
    pub reason: Seq<char>,
}

impl View for AddressChangeArgs {
    type V = AddressChangeArgsView;

    open spec fn view(&self) -> AddressChangeArgsView {
        AddressChangeArgsView {
            customer_id: self.customer_id@,
            new_address: self.new_address@,
            reason: self.reason@,
        }
    }
}

/// The instruction that stands for a request: three fixed pieces of text, each
/// followed by one field as it was given.
pub open spec fn prompt_text(args: AddressChangeArgsView) -> Seq<char> {
    "Procesa la siguiente solicitud de cambio de dirección:\n- Cliente: "@ + args.customer_id
        + "\n- Nueva dirección: "@ + args.new_address + "\n- Motivo: "@ + args.reason
}

impl AddressChangeArgs {
    /// Renders the request as the instruction sent to the completion backend.
    pub fn prompt(&self) -> (text: String)
        ensures
            text@ == prompt_text(self@),
            occurs_in(self.customer_id@, text@),
            occurs_in(self.new_address@, text@),
            occurs_in(self.reason@, text@),
    {
        let mut text = String::from_str(
            "Procesa la siguiente solicitud de cambio de dirección:\n- Cliente: ",
        );
        text.append(self.customer_id.as_str());
        text.append("\n- Nueva dirección: ");
        text.append(self.new_address.as_str());
        text.append("\n- Motivo: ");
        text.append(self.reason.as_str());
        proof {
            lemma_prompt_holds_every_field(self@);
        }
        text
    }
}

/// The instruction holds each of the three fields verbatim, whatever they are.
pub proof fn lemma_prompt_holds_every_field(args: AddressChangeArgsView)
    ensures
        occurs_in(args.customer_id, prompt_text(args)),
        occurs_in(args.new_address, prompt_text(args)),
        occurs_in(args.reason, prompt_text(args)),
{
    let whole = prompt_text(args);
    let lead = "Procesa la siguiente solicitud de cambio de dirección:\n- Cliente: "@;
    let to_address = "\n- Nueva dirección: "@;
    let to_reason = "\n- Motivo: "@;

    let after_customer = to_address + args.new_address + to_reason + args.reason;
    lemma_occurs_between(lead, args.customer_id, after_customer);
    assert(whole =~= lead + args.customer_id + after_customer);

    let before_address = lead + args.customer_id + to_address;
    let after_address = to_reason + args.reason;
    lemma_occurs_between(before_address, args.new_address, after_address);
    assert(whole =~= before_address + args.new_address + after_address);

    let before_reason = before_address + args.new_address + to_reason;
    lemma_occurs_between(before_reason, args.reason, Seq::empty());
    assert(whole =~= before_reason + args.reason + Seq::empty());
}

/// What the specialist answers: the backend's reply, as it came.
#[derive(Debug)]
pub struct AddressResponse {
    pub response: String,
}

impl View for AddressResponse {
    type V = Seq<char>;

    open spec fn view(&self) -> Seq<char> {
        self.response@
    }
}

/// The one way in which the specialist fails: the completion backend failed.
/// It holds the backend's own description of what went wrong.
#[derive(Debug)]
pub struct AddressError(String);

impl View for AddressError {
    type V = Seq<char>;

    closed spec fn view(&self) -> Seq<char> {
        self.0@
    }
}

/// How a failure reads: a fixed label, then the backend's description.
pub open spec fn error_text(description: Seq<char>) -> Seq<char> {
    "AddressSpecialist error: "@ + description
}

impl AddressError {
    /// Wraps the backend's description of a failure.
    pub fn new(description: String) -> (error: AddressError)
        ensures
            error@ == description@,
    {
        AddressError(description)
    }

    /// The backend's description, as it was wrapped.
    pub fn description(&self) -> (description: &String)
        ensures
            description@ == self@,
    {
        &self.0
    }

    /// The failure as a line of text for the caller.
    pub fn message(&self) -> (line: String)
        ensures
            line@ == error_text(self@),
            occurs_in(self@, line@),
    {
        let mut line = String::from_str("AddressSpecialist error: ");
        line.append(self.0.as_str());
        proof {
            lemma_error_text_holds_description(self@);
        }
        line
    }
}

/// A failure's text holds the description it was made from, verbatim.
pub proof fn lemma_error_text_holds_description(description: Seq<char>)
    ensures
        occurs_in(description, error_text(description)),
{
    let label = "AddressSpecialist error: "@;
    lemma_occurs_between(label, description, Seq::empty());
    assert(error_text(description) =~= label + description + Seq::empty());
}

/// Ends an invocation with what the completion backend returned for the
/// prompt: its reply becomes the response unchanged, its failure becomes the
/// specialist's error with the same description. Nothing is tried again.
pub fn respond(backend: Result<String, String>) -> (answer: Result<AddressResponse, AddressError>)
    ensures
        backend matches Ok(reply) ==> answer matches Ok(response) && response@ == reply@,
        backend matches Err(cause) ==> answer matches Err(error) && error@ == cause@
            && occurs_in(cause@, error_text(error@)),
{
    match backend {
        Ok(reply) => Ok(AddressResponse { response: reply }),
        Err(cause) => {
            proof {
                lemma_error_text_holds_description(cause@);
            }
            Err(AddressError::new(cause))
        },
    }
}

/// The specialist as the orchestrator sees it, given the schema that schemars
/// generated for the arguments: its name, its description, and the schema as
/// the JSON document that serde_json makes of it. A definition is always made.
pub fn definition(schema: schemars::Schema) -> (definition: Result<Definition, serde_json::Error>)
    ensures
        definition matches Ok(d) && presents(d, NAME@, DESCRIPTION@, schema),
{
    assemble(NAME, DESCRIPTION, schema_to_value(schema))
}

} // verus!
