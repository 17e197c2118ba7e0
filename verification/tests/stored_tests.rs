use timbas::models::TimbaType;
use timbas::resolver::ValidationError;
use timbas::stored::{admit_stored, prepare_poll_row, results_from_row};
use timbas::vote::timba_not_found;

fn strings(v: &[&str]) -> Vec<String> {
    v.iter().map(|s| s.to_string()).collect()
}

const NOW_MS: i64 = 1_717_243_200_000;

#[test]
fn prepared_row_encodes_options_as_json() {
    let row = prepare_poll_row(&TimbaType::YN, &strings(&["si", "no"])).unwrap();
    assert_eq!(row.fields, strings(&["si", "no"]));
    assert_eq!(row.fields_json, "[\"si\",\"no\"]");
    assert_eq!(row.type_str, "YN");
}

#[test]
fn prepared_scale_row_embeds_bounds() {
    let row = prepare_poll_row(&TimbaType::Scale(1, 3), &Vec::new()).unwrap();
    assert_eq!(row.fields, strings(&["1", "2", "3"]));
    assert_eq!(row.fields_json, "[\"1\",\"2\",\"3\"]");
    assert_eq!(row.type_str, "Scale(1,3)");
}

#[test]
fn prepared_row_refuses_bad_arity() {
    assert_eq!(
        prepare_poll_row(&TimbaType::YN, &strings(&["solo"])).err(),
        Some(ValidationError::InvalidOptionCount)
    );
    assert_eq!(
        prepare_poll_row(&TimbaType::Scale(4, 4), &Vec::new()).err(),
        Some(ValidationError::InvalidRange)
    );
}

#[test]
fn stored_row_admits_a_valid_single_choice() {
    let verdict = admit_stored(
        "[\"si\",\"no\"]",
        &"Simple".to_string(),
        None,
        false,
        &strings(&["si"]),
        NOW_MS,
    );
    assert!(verdict.success);
    assert_eq!(verdict.message, "Votos aceptados: si");
}

#[test]
fn stored_row_lists_decoded_options_on_invalid_choice() {
    let verdict = admit_stored(
        "[\"si\",\"no\"]",
        &"YN".to_string(),
        None,
        false,
        &strings(&["quizas"]),
        NOW_MS,
    );
    assert!(!verdict.success);
    assert_eq!(verdict.message, "Votos invalidos: quizas. Votos validos: si, no");
}

#[test]
fn stored_type_tag_gates_cardinality() {
    let rejected = admit_stored(
        "[\"a\",\"b\"]",
        &"Simple".to_string(),
        None,
        false,
        &strings(&["a", "b"]),
        NOW_MS,
    );
    assert!(!rejected.success);
    assert_eq!(
        rejected.message,
        "Esta timba es de tipo 'Simple' y solo acepta un voto. Usa 'Multiple' para votos multiples."
    );

    let admitted = admit_stored(
        "[\"a\",\"b\"]",
        &"Multiple".to_string(),
        None,
        false,
        &strings(&["a", "b"]),
        NOW_MS,
    );
    assert!(admitted.success);
    assert_eq!(admitted.message, "Votos aceptados: a, b");
}

#[test]
fn undecodable_row_offers_no_valid_options() {
    let verdict = admit_stored(
        "esto no es json",
        &"Simple".to_string(),
        None,
        false,
        &strings(&["si"]),
        NOW_MS,
    );
    assert!(!verdict.success);
    assert_eq!(verdict.message, "Votos invalidos: si. Votos validos: ");
}

#[test]
fn stored_deadline_in_the_past_closes_the_poll() {
    let deadline = "2020-01-01T00:00:00+00:00".to_string();
    let verdict = admit_stored(
        "[\"si\",\"no\"]",
        &"YN".to_string(),
        Some(&deadline),
        false,
        &strings(&["si"]),
        NOW_MS,
    );
    assert!(!verdict.success);
    assert_eq!(verdict.message, "Esta timba ya cerró. El deadline fue superado.");
}

#[test]
fn stored_duplicate_flag_rejects_the_cast() {
    let verdict = admit_stored(
        "[\"si\",\"no\"]",
        &"YN".to_string(),
        None,
        true,
        &strings(&["si"]),
        NOW_MS,
    );
    assert!(!verdict.success);
    assert_eq!(verdict.message, "Ya votaste en esta timba");
}

#[test]
fn row_results_tally_against_decoded_options() {
    let cast = strings(&["si", "si", "no", "si"]);
    let (fields, entries, total) = results_from_row("[\"si\",\"no\"]", &cast);
    assert_eq!(fields, strings(&["si", "no"]));
    assert_eq!(entries.len(), 2);
    assert_eq!(entries[0].choice, "si");
    assert_eq!(entries[0].count, 3);
    assert_eq!(entries[1].choice, "no");
    assert_eq!(entries[1].count, 1);
    assert_eq!(total, 4);
}

#[test]
fn zero_count_entries_are_injected() {
    let (_, entries, total) = results_from_row("[\"a\",\"b\",\"c\"]", &strings(&["b"]));
    assert_eq!(entries.len(), 3);
    assert_eq!(entries[0].count, 0);
    assert_eq!(entries[1].count, 1);
    assert_eq!(entries[2].count, 0);
    assert_eq!(total, 1);
}

#[test]
fn repeated_option_values_get_one_entry() {
    let (_, entries, total) = results_from_row("[\"a\",\"a\",\"b\"]", &strings(&["a", "b", "a"]));
    assert_eq!(entries.len(), 2);
    assert_eq!(entries[0].choice, "a");
    assert_eq!(entries[0].count, 2);
    assert_eq!(entries[1].choice, "b");
    assert_eq!(entries[1].count, 1);
    assert_eq!(total, 3);
}

#[test]
fn missing_poll_verdict_is_fixed() {
    let verdict = timba_not_found();
    assert!(!verdict.success);
    assert_eq!(verdict.message, "Timba no encontrada");
}
