use specialists::agents::specialized::address::{
    respond, AddressChangeArgs, AddressError, AddressResponse, DESCRIPTION, NAME,
};

fn request(customer_id: &str, new_address: &str, reason: &str) -> AddressChangeArgs {
    AddressChangeArgs {
        customer_id: customer_id.to_string(),
        new_address: new_address.to_string(),
        reason: reason.to_string(),
    }
}

#[test]
fn address_name_and_description() {
    assert_eq!(NAME, "address_specialist");
    assert_eq!(
        DESCRIPTION,
        "Usa este agente cuando el usuario quiera cambiar su dirección de entrega, modificar datos de envío, o tenga preguntas sobre logística."
    );
}

#[test]
fn address_prompt_embeds_the_three_fields() {
    let args = request("CLI-12345", "Calle Mayor 1, 28013 Madrid", "mudanza");
    assert_eq!(
        args.prompt(),
        "Procesa la siguiente solicitud de cambio de dirección:\n- Cliente: CLI-12345\n- Nueva dirección: Calle Mayor 1, 28013 Madrid\n- Motivo: mudanza"
    );
}

#[test]
fn address_prompt_with_empty_fields() {
    assert_eq!(
        request("", "", "").prompt(),
        "Procesa la siguiente solicitud de cambio de dirección:\n- Cliente: \n- Nueva dirección: \n- Motivo: "
    );
}

#[test]
fn address_prompt_keeps_fields_verbatim() {
    let customer = "  CLI-{}\t";
    let address = "Avenida de la Constitución 3, 2º B\n41004 Sevilla";
    let reason = "{0} \"temporal\" \\n - Motivo: otro";
    let text = request(customer, address, reason).prompt();
    assert!(text.contains(customer));
    assert!(text.contains(address));
    assert!(text.contains(reason));
    assert_eq!(
        text,
        format!(
            "Procesa la siguiente solicitud de cambio de dirección:\n- Cliente: {}\n- Nueva dirección: {}\n- Motivo: {}",
            customer, address, reason
        )
    );
}

#[test]
fn address_prompt_is_the_same_each_time() {
    let args = request("CLI-1", "Rúa Nova 7, Lugo", "error en registro");
    assert_eq!(args.prompt(), args.prompt());
    assert_eq!(args.prompt(), request("CLI-1", "Rúa Nova 7, Lugo", "error en registro").prompt());
}

#[test]
fn address_reply_is_returned_unchanged() {
    let answer: AddressResponse = respond(Ok("Dirección actualizada.\n".to_string())).unwrap();
    assert_eq!(answer.response, "Dirección actualizada.\n");
    assert_eq!(respond(Ok(String::new())).unwrap().response, "");
}

#[test]
fn address_failure_is_wrapped_with_its_description() {
    let error = respond(Err("CompletionError: connection reset".to_string())).unwrap_err();
    assert_eq!(error.description(), "CompletionError: connection reset");
    assert_eq!(error.message(), "AddressSpecialist error: CompletionError: connection reset");
    assert!(error.message().contains("CompletionError: connection reset"));
}

#[test]
fn address_error_reads_label_then_description() {
    assert_eq!(AddressError::new("x".to_string()).message(), "AddressSpecialist error: x");
    assert_eq!(AddressError::new(String::new()).message(), "AddressSpecialist error: ");
    assert_eq!(AddressError::new("tiempo agotado".to_string()).description(), "tiempo agotado");
}
