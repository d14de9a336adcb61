use rand_scenario::chart::{ChartAction, ChartEvent, ChartPhase, ChartRun};
use rand_scenario::error::GenerationError;
use rand_scenario::scenario::RandomScenario;

fn batch(value: f64, n: usize) -> Vec<f64> {
    vec![value; n]
}

fn batches(values: &[f64], n: usize) -> Vec<Vec<f64>> {
    values.iter().map(|v| batch(*v, n)).collect()
}

#[test]
fn rejected_baseline_is_drawn_again_and_never_kept() {
    let (mut run, first) = ChartRun::<f64>::new(2, 1, 3);
    assert!(matches!(first, ChartAction::DrawBaseline));
    let a = run.step(ChartEvent::Baseline { batches: batches(&[9.0, 9.0], 3), all_in_control: false });
    assert!(matches!(a, ChartAction::DrawBaseline));
    assert_eq!(run.retries(), 1);
    assert!(run.batches().is_empty());
    let a = run.step(ChartEvent::Baseline { batches: batches(&[9.5, 9.5], 3), all_in_control: false });
    assert!(matches!(a, ChartAction::DrawBaseline));
    assert_eq!(run.retries(), 2);
    let a = run.step(ChartEvent::Baseline { batches: batches(&[0.1, 0.2], 3), all_in_control: true });
    assert!(matches!(a, ChartAction::DrawPreFinal));
    assert_eq!(run.phase(), ChartPhase::PreFinal);
    assert_eq!(run.batches(), &batches(&[0.1, 0.2], 3));
}

#[test]
fn pre_final_violation_truncates_inclusively() {
    let (mut run, _) = ChartRun::<f64>::new(1, 4, 2);
    run.step(ChartEvent::Baseline { batches: batches(&[0.0], 2), all_in_control: true });
    let a = run.step(ChartEvent::PreFinal {
        batches: batches(&[1.0, 2.0, 3.0, 4.0], 2),
        first_violation: Some(1),
    });
    assert!(matches!(a, ChartAction::Done));
    assert_eq!(run.phase(), ChartPhase::Detected);
    let out = run.finish();
    assert_eq!(out, batches(&[0.0, 1.0, 2.0], 2));
}

#[test]
fn violation_at_first_pre_final_step_keeps_that_step() {
    let (mut run, _) = ChartRun::<f64>::new(2, 3, 1);
    run.step(ChartEvent::Baseline { batches: batches(&[0.0, 0.5], 1), all_in_control: true });
    run.step(ChartEvent::PreFinal { batches: batches(&[7.0, 8.0, 9.0], 1), first_violation: Some(0) });
    assert_eq!(run.finish(), batches(&[0.0, 0.5, 7.0], 1));
}

#[test]
fn post_change_scan_stops_at_first_detection() {
    let (mut run, _) = ChartRun::<f64>::new(1, 1, 2);
    run.step(ChartEvent::Baseline { batches: batches(&[0.0], 2), all_in_control: true });
    let a = run.step(ChartEvent::PreFinal { batches: batches(&[0.3], 2), first_violation: None });
    assert!(matches!(a, ChartAction::DrawPostChange(1)));
    let a = run.step(ChartEvent::PostChange { batch: batch(1.0, 2), out_of_control: false });
    assert!(matches!(a, ChartAction::DrawPostChange(2)));
    let a = run.step(ChartEvent::PostChange { batch: batch(2.0, 2), out_of_control: false });
    assert!(matches!(a, ChartAction::DrawPostChange(3)));
    let a = run.step(ChartEvent::PostChange { batch: batch(6.0, 2), out_of_control: true });
    assert!(matches!(a, ChartAction::Done));
    let out = run.finish();
    assert_eq!(out, batches(&[0.0, 0.3, 1.0, 2.0, 6.0], 2));
    assert_eq!(out.last(), Some(&batch(6.0, 2)));
}

#[test]
fn estimation_failure_aborts_the_run() {
    let (mut run, _) = ChartRun::<f64>::new(1, 1, 2);
    let a = run.step(ChartEvent::Failed(GenerationError::Estimation("degenerate batch".to_string())));
    match a {
        ChartAction::Abort(GenerationError::Estimation(m)) => assert_eq!(m, "degenerate batch"),
        _ => panic!("expected an estimation error"),
    }
    assert_eq!(run.phase(), ChartPhase::Failed);
}

#[test]
fn exhausted_regime_aborts_with_index_range_error() {
    let (mut run, _) = ChartRun::<f64>::new(0, 0, 1);
    run.step(ChartEvent::Baseline { batches: vec![], all_in_control: true });
    run.step(ChartEvent::PreFinal { batches: vec![], first_violation: None });
    let a = run.step(ChartEvent::Failed(GenerationError::IndexRange("index 2 out of range".to_string())));
    assert!(matches!(a, ChartAction::Abort(GenerationError::IndexRange(_))));
}

#[test]
fn concrete_scenario_two_in_control_steps_then_mean_shift() {
    // two in-control steps with n = 5, then the final regime shifts the mean
    // to 5 from step 3 on
    let n = 5;
    let (mut run, _) = ChartRun::<f64>::new(2, 0, n);
    let base = vec![vec![0.1, -0.4, 0.3, 1.2, -0.7], vec![-0.2, 0.5, -1.1, 0.4, 0.0]];
    let a = run.step(ChartEvent::Baseline { batches: base.clone(), all_in_control: true });
    assert!(matches!(a, ChartAction::DrawPreFinal));
    let a = run.step(ChartEvent::PreFinal { batches: vec![], first_violation: None });
    assert!(matches!(a, ChartAction::DrawPostChange(1)));
    let shifted = vec![5.2, 4.6, 5.9, 4.8, 5.1];
    let a = run.step(ChartEvent::PostChange { batch: shifted.clone(), out_of_control: true });
    assert!(matches!(a, ChartAction::Done));
    let rs = RandomScenario::from_chart_run("shift", 42, run);
    assert_eq!(rs.get_seed(), 42);
    assert_eq!(*rs.scenario(), "shift");
    assert_eq!(rs.rand_vars().len(), 3);
    assert_eq!(rs.rand_vars()[..2], base[..]);
    assert_eq!(rs.rand_vars()[2], shifted);
    assert!(rs.rand_vars().iter().all(|b| b.len() == n));
}

#[test]
fn same_events_give_same_sequence() {
    let run_once = || {
        let (mut run, _) = ChartRun::<f64>::new(1, 2, 2);
        run.step(ChartEvent::Baseline { batches: batches(&[0.0], 2), all_in_control: false });
        run.step(ChartEvent::Baseline { batches: batches(&[0.1], 2), all_in_control: true });
        run.step(ChartEvent::PreFinal { batches: batches(&[0.2, 0.3], 2), first_violation: None });
        run.step(ChartEvent::PostChange { batch: batch(3.0, 2), out_of_control: true });
        run.finish()
    };
    assert_eq!(run_once(), run_once());
}

#[test]
fn fits_checks_phase_and_shape() {
    let (mut run, _) = ChartRun::<f64>::new(2, 1, 3);
    assert!(run.fits(&ChartEvent::Baseline { batches: batches(&[0.0, 1.0], 3), all_in_control: true }));
    assert!(!run.fits(&ChartEvent::Baseline { batches: batches(&[0.0], 3), all_in_control: true }));
    assert!(!run.fits(&ChartEvent::Baseline { batches: vec![vec![0.0; 3], vec![0.0; 2]], all_in_control: true }));
    assert!(!run.fits(&ChartEvent::PostChange { batch: batch(0.0, 3), out_of_control: true }));
    assert!(run.fits(&ChartEvent::Failed(GenerationError::Estimation("x".to_string()))));
    run.step(ChartEvent::Baseline { batches: batches(&[0.0, 1.0], 3), all_in_control: true });
    assert!(run.fits(&ChartEvent::PreFinal { batches: batches(&[2.0], 3), first_violation: Some(0) }));
    assert!(!run.fits(&ChartEvent::PreFinal { batches: batches(&[2.0], 3), first_violation: Some(1) }));
    run.step(ChartEvent::PreFinal { batches: batches(&[2.0], 3), first_violation: Some(0) });
    assert!(!run.fits(&ChartEvent::Failed(GenerationError::Estimation("x".to_string()))));
}
