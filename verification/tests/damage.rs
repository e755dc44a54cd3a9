use specialists::agents::specialized::damage::{
    respond, DamageError, DamageReportArgs, DamageResponse, DESCRIPTION, NAME,
};

fn report(item_name: &str, description_of_damage: &str) -> DamageReportArgs {
    DamageReportArgs {
        item_name: item_name.to_string(),
        description_of_damage: description_of_damage.to_string(),
    }
}

#[test]
fn damage_name_and_description() {
    assert_eq!(NAME, "damage_specialist");
    assert_eq!(
        DESCRIPTION,
        "Usa este agente cuando el usuario reporte un artículo dañado, roto o defectuoso."
    );
}

#[test]
fn damage_prompt_embeds_both_fields() {
    assert_eq!(
        report("Lámpara de mesa", "La pantalla llegó rota").prompt(),
        "Reporte de daño para el artículo 'Lámpara de mesa'. Descripción del daño: La pantalla llegó rota"
    );
}

#[test]
fn damage_prompt_with_empty_fields() {
    assert_eq!(
        report("", "").prompt(),
        "Reporte de daño para el artículo ''. Descripción del daño: "
    );
}

#[test]
fn damage_prompt_keeps_fields_verbatim() {
    let item = "silla 'plegable' {}";
    let damage = "pata rota;\n\tcoste: 12,50 €. Descripción del daño: ninguna";
    let text = report(item, damage).prompt();
    assert!(text.contains(item));
    assert!(text.contains(damage));
    assert_eq!(
        text,
        format!("Reporte de daño para el artículo '{}'. Descripción del daño: {}", item, damage)
    );
}

#[test]
fn damage_prompt_is_the_same_each_time() {
    let args = report("taza", "asa suelta");
    assert_eq!(args.prompt(), args.prompt());
}

#[test]
fn damage_reply_is_returned_unchanged() {
    let answer: DamageResponse = respond(Ok("Coste estimado: 40 €".to_string())).unwrap();
    assert_eq!(answer.response, "Coste estimado: 40 €");
}

#[test]
fn damage_failure_is_wrapped_with_its_description() {
    let error = respond(Err("ToolCallError: cost database offline".to_string())).unwrap_err();
    assert_eq!(error.description(), "ToolCallError: cost database offline");
    assert_eq!(error.message(), "DamageSpecialist error: ToolCallError: cost database offline");
}

#[test]
fn damage_error_reads_label_then_description() {
    assert_eq!(DamageError::new("x".to_string()).message(), "DamageSpecialist error: x");
    assert_eq!(DamageError::new(String::new()).message(), "DamageSpecialist error: ");
}
