use rand_scenario::batch::{collect_batch, draw_seeds};
use rand_scenario::text::{artifact_name, artifact_names, document, parse_seed, seed_text, SeedTextError};

#[test]
fn batch_keeps_task_order() {
    let rs: Vec<Result<u64, String>> = vec![Ok(3), Ok(1), Ok(2)];
    assert_eq!(collect_batch(rs), Ok(vec![3, 1, 2]));
}

#[test]
fn batch_fails_with_first_error() {
    let rs: Vec<Result<u64, String>> =
        vec![Ok(3), Err("estimation failed".to_string()), Ok(2), Err("later".to_string())];
    assert_eq!(collect_batch(rs), Err("estimation failed".to_string()));
}

#[test]
fn empty_batch_is_empty_list() {
    let rs: Vec<Result<u64, String>> = vec![];
    assert_eq!(collect_batch(rs), Ok(vec![]));
}

#[test]
fn draws_requested_number_of_seeds() {
    let seeds = draw_seeds(16);
    assert_eq!(seeds.len(), 16);
    assert!(seeds.iter().any(|s| *s != seeds[0]));
    assert!(draw_seeds(0).is_empty());
}

#[test]
fn seed_text_is_decimal() {
    assert_eq!(seed_text(0), "0");
    assert_eq!(seed_text(42), "42");
    assert_eq!(seed_text(u64::MAX), "18446744073709551615");
}

#[test]
fn seed_text_round_trips() {
    for s in [0u64, 9, 10, 42, 1234567890123, u64::MAX] {
        assert_eq!(parse_seed(&seed_text(s)), Ok(s));
    }
}

#[test]
fn parse_seed_matches_from_str() {
    assert_eq!(parse_seed("+17"), Ok(17));
    assert_eq!(parse_seed("007"), Ok(7));
    assert_eq!(parse_seed(""), Err(SeedTextError::Empty));
    assert_eq!(parse_seed("+"), Err(SeedTextError::Empty));
    assert_eq!(parse_seed("-1"), Err(SeedTextError::InvalidDigit));
    assert_eq!(parse_seed("12a"), Err(SeedTextError::InvalidDigit));
    assert_eq!(parse_seed("18446744073709551616"), Err(SeedTextError::Overflow));
    assert_eq!(parse_seed("18446744073709551615"), Ok(u64::MAX));
}

#[test]
fn artifact_names_count_from_one() {
    assert_eq!(artifact_name("scenario", 12, "csv"), "scenario_12.csv");
    assert_eq!(artifact_names("s", 3, "toml"), vec!["s_1.toml", "s_2.toml", "s_3.toml"]);
}

#[test]
fn document_frames_seed_samples_and_scenario() {
    let d = document(42, "random_variables = [[1.0]]", "n = 5");
    assert_eq!(d, "seed = \"42\"\nrandom_variables = [[1.0]]\n\n[scenario]\nn = 5");
}
