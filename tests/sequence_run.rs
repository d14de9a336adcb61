use rand_scenario::error::{sample_size, GenerationError};
use rand_scenario::scenario::RandomScenario;
use rand_scenario::sequence::SequenceRun;

#[test]
fn sequence_has_one_batch_of_n_per_step() {
    let mut run = SequenceRun::<f64>::new(3, 4);
    let mut drawn = Vec::new();
    while let Some(i) = run.next_step() {
        let b = vec![i as f64; run.n()];
        drawn.push(b.clone());
        run.record(b);
    }
    let rs = RandomScenario::from_sequence_run((), 7, run);
    assert_eq!(rs.rand_vars().len(), 3);
    assert!(rs.rand_vars().iter().all(|b| b.len() == 4));
    assert_eq!(rs.rand_vars(), &drawn);
    assert_eq!(rs.get_seed(), 7);
}

#[test]
fn empty_decomposition_gives_empty_sequence() {
    let run = SequenceRun::<f64>::new(0, 5);
    assert_eq!(run.next_step(), None);
    assert!(run.finish().is_empty());
}

#[test]
fn sample_size_accepts_non_negative() {
    assert_eq!(sample_size(5).ok(), Some(5));
    assert_eq!(sample_size(0).ok(), Some(0));
}

#[test]
fn sample_size_rejects_negative() {
    match sample_size(-1) {
        Err(GenerationError::Decomposition(m)) => assert_eq!(m, "Sample size n doesn't convert to usize."),
        _ => panic!("expected a decomposition error"),
    }
}

#[test]
fn generation_error_keeps_message() {
    let e = GenerationError::Estimation("too few samples".to_string());
    assert_eq!(e.message(), "too few samples");
    assert_eq!(e.into_scenario_error().message, "too few samples");
}
