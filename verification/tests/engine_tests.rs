use timbas::engine::Engine;
use timbas::models::{Timba, TimbaType, VoteRequest};

fn strings(v: &[&str]) -> Vec<String> {
    v.iter().map(|s| s.to_string()).collect()
}

fn yn_poll() -> Timba {
    Timba { fields: strings(&["si", "no"]), ty: TimbaType::YN, deadline: None }
}

fn request(choices: &[&str]) -> VoteRequest {
    VoteRequest { choices: strings(choices) }
}

const NOW: &str = "2024-06-01T12:00:00+00:00";
const NOW_MS: i64 = 1_717_243_200_000;

#[test]
fn first_poll_gets_id_one() {
    let mut engine = Engine::new();
    let id = engine.create_timba("mi timba", &yn_poll(), NOW).unwrap();
    assert_eq!(id, 1);
    let second = engine
        .create_timba("otra", &Timba { fields: strings(&["a", "b"]), ty: TimbaType::Simple, deadline: None }, NOW)
        .unwrap();
    assert_eq!(second, 2);
}

#[test]
fn yn_round_trip_with_duplicate_cast() {
    let mut engine = Engine::new();
    let id = engine.create_timba("mi timba", &yn_poll(), NOW).unwrap();
    assert_eq!(id, 1);

    let voter = "voter-a".to_string();
    let first = engine.cast_vote(1, Some(&voter), &request(&["si"]), NOW_MS, NOW);
    assert!(first.success);
    assert_eq!(first.message, "Votos aceptados: si");

    let second = engine.cast_vote(1, Some(&voter), &request(&["no"]), NOW_MS, NOW);
    assert!(!second.success);
    assert_eq!(second.message, "Ya votaste en esta timba");
    assert_eq!(engine.votes.len(), 1);

    let info = engine.get_timba(1).unwrap();
    assert_eq!(info.id, 1);
    assert_eq!(info.name, "mi timba");
    assert_eq!(info.ty, "YN");
    assert_eq!(info.fields, strings(&["si", "no"]));
    assert_eq!(info.votes.len(), 2);
    assert_eq!(info.votes[0].choice, "si");
    assert_eq!(info.votes[0].count, 1);
    assert_eq!(info.votes[1].choice, "no");
    assert_eq!(info.votes[1].count, 0);
    assert_eq!(info.total_votes, 1);
}

#[test]
fn scale_vote_outside_range_lists_valid_options() {
    let mut engine = Engine::new();
    let poll = Timba { fields: Vec::new(), ty: TimbaType::Scale(1, 5), deadline: None };
    let id = engine.create_timba("escala", &poll, NOW).unwrap();
    assert_eq!(id, 1);

    let voter = "voter-a".to_string();
    let verdict = engine.cast_vote(1, Some(&voter), &request(&["6"]), NOW_MS, NOW);
    assert!(!verdict.success);
    assert_eq!(verdict.message, "Votos invalidos: 6. Votos validos: 1, 2, 3, 4, 5");
    assert_eq!(engine.votes.len(), 0);
}

#[test]
fn deadline_rejects_a_fresh_voter() {
    let mut engine = Engine::new();
    let poll = Timba {
        fields: strings(&["si", "no"]),
        ty: TimbaType::YN,
        deadline: Some("2020-01-01T00:00:00+00:00".to_string()),
    };
    engine.create_timba("cerrada", &poll, NOW).unwrap();

    let voter = "never-voted".to_string();
    let verdict = engine.cast_vote(1, Some(&voter), &request(&["si"]), NOW_MS, NOW);
    assert!(!verdict.success);
    assert_eq!(verdict.message, "Esta timba ya cerró. El deadline fue superado.");
    assert_eq!(engine.votes.len(), 0);
}

#[test]
fn future_deadline_admits_votes() {
    let mut engine = Engine::new();
    let poll = Timba {
        fields: strings(&["si", "no"]),
        ty: TimbaType::YN,
        deadline: Some("2999-01-01T00:00:00+00:00".to_string()),
    };
    engine.create_timba("abierta", &poll, NOW).unwrap();
    let voter = "voter-a".to_string();
    let verdict = engine.cast_vote(1, Some(&voter), &request(&["si"]), NOW_MS, NOW);
    assert!(verdict.success);
}

#[test]
fn malformed_deadline_fails_open() {
    let mut engine = Engine::new();
    let poll = Timba {
        fields: strings(&["si", "no"]),
        ty: TimbaType::YN,
        deadline: Some("no es una fecha".to_string()),
    };
    engine.create_timba("rara", &poll, NOW).unwrap();
    let voter = "voter-a".to_string();
    let verdict = engine.cast_vote(1, Some(&voter), &request(&["no"]), NOW_MS, NOW);
    assert!(verdict.success);
}

#[test]
fn multi_choice_rejected_on_simple_poll() {
    let mut engine = Engine::new();
    let poll = Timba { fields: strings(&["a", "b", "c"]), ty: TimbaType::Simple, deadline: None };
    engine.create_timba("simple", &poll, NOW).unwrap();
    let voter = "voter-a".to_string();
    let verdict = engine.cast_vote(1, Some(&voter), &request(&["a", "b"]), NOW_MS, NOW);
    assert!(!verdict.success);
    assert_eq!(
        verdict.message,
        "Esta timba es de tipo 'Simple' y solo acepta un voto. Usa 'Multiple' para votos multiples."
    );
    assert_eq!(engine.votes.len(), 0);

    let invalid_too = engine.cast_vote(1, Some(&voter), &request(&["x", "y"]), NOW_MS, NOW);
    assert!(!invalid_too.success);
    assert_eq!(
        invalid_too.message,
        "Esta timba es de tipo 'Simple' y solo acepta un voto. Usa 'Multiple' para votos multiples."
    );
}

#[test]
fn multiple_poll_records_one_row_per_choice() {
    let mut engine = Engine::new();
    let poll = Timba { fields: strings(&["a", "b", "c"]), ty: TimbaType::Multiple, deadline: None };
    engine.create_timba("multi", &poll, NOW).unwrap();
    let voter = "voter-a".to_string();
    let verdict = engine.cast_vote(1, Some(&voter), &request(&["a", "c"]), NOW_MS, NOW);
    assert!(verdict.success);
    assert_eq!(verdict.message, "Votos aceptados: a, c");
    assert_eq!(engine.votes.len(), 2);
    assert_eq!(engine.votes[0].vote_choice, "a");
    assert_eq!(engine.votes[1].vote_choice, "c");
    assert_eq!(engine.votes[0].vote_time, engine.votes[1].vote_time);

    let info = engine.get_timba(1).unwrap();
    assert_eq!(info.total_votes, 2);
    assert_eq!(info.votes[0].count, 1);
    assert_eq!(info.votes[1].count, 0);
    assert_eq!(info.votes[2].count, 1);
}

#[test]
fn empty_choices_rejected_without_lookup() {
    let mut engine = Engine::new();
    let voter = "voter-a".to_string();
    let verdict = engine.cast_vote(42, Some(&voter), &request(&[]), NOW_MS, NOW);
    assert!(!verdict.success);
    assert_eq!(verdict.message, "Debes proporcionar al menos una opcion");
}

#[test]
fn unknown_poll_is_not_found() {
    let mut engine = Engine::new();
    let voter = "voter-a".to_string();
    let verdict = engine.cast_vote(99, Some(&voter), &request(&["si"]), NOW_MS, NOW);
    assert!(!verdict.success);
    assert_eq!(verdict.message, "Timba no encontrada");
    assert!(engine.get_timba(99).is_none());
}

#[test]
fn absent_voter_identity_skips_dedup() {
    let mut engine = Engine::new();
    engine.create_timba("anonima", &yn_poll(), NOW).unwrap();
    let first = engine.cast_vote(1, None, &request(&["si"]), NOW_MS, NOW);
    let second = engine.cast_vote(1, None, &request(&["si"]), NOW_MS, NOW);
    assert!(first.success);
    assert!(second.success);
    assert_eq!(engine.votes.len(), 2);
}

#[test]
fn stats_degrade_to_zero_and_absent_on_empty_store() {
    let engine = Engine::new();
    let stats = engine.get_stats();
    assert_eq!(stats.total_timbas, 0);
    assert_eq!(stats.total_votes, 0);
    assert!(stats.oldest_timba.is_none());
    assert!(stats.newest_timba.is_none());
}

#[test]
fn stats_report_counts_and_extremes() {
    let mut engine = Engine::new();
    engine.create_timba("primera", &yn_poll(), "2024-01-01T00:00:00+00:00").unwrap();
    engine.create_timba("segunda", &yn_poll(), "2024-02-01T00:00:00+00:00").unwrap();
    let voter = "voter-a".to_string();
    engine.cast_vote(1, Some(&voter), &request(&["si"]), NOW_MS, NOW);
    let stats = engine.get_stats();
    assert_eq!(stats.total_timbas, 2);
    assert_eq!(stats.total_votes, 1);
    assert_eq!(stats.oldest_timba.as_deref(), Some("2024-01-01T00:00:00+00:00"));
    assert_eq!(stats.newest_timba.as_deref(), Some("2024-02-01T00:00:00+00:00"));
}

#[test]
fn latest_returns_newest_first_capped_at_ten() {
    let mut engine = Engine::new();
    for k in 0..12 {
        let name = format!("timba {}", k);
        engine.create_timba(&name, &yn_poll(), NOW).unwrap();
    }
    let latest = engine.get_latest();
    assert_eq!(latest.len(), 10);
    assert_eq!(latest[0].id, 12);
    assert_eq!(latest[0].name, "timba 11");
    assert_eq!(latest[9].id, 3);
}

#[test]
fn wall_clock_casting_works_without_deadline() {
    let mut engine = Engine::new();
    let id = engine.create_timba_now("ahora", &yn_poll()).unwrap();
    assert_eq!(id, 1);
    let voter = "voter-a".to_string();
    let verdict = engine.cast_vote_now(1, Some(&voter), &request(&["si"]));
    assert!(verdict.success);
    assert_eq!(verdict.message, "Votos aceptados: si");
    let repeat = engine.cast_vote_now(1, Some(&voter), &request(&["si"]));
    assert!(!repeat.success);
}
