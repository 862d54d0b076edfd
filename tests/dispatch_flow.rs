use mandelbrot::dispatch::{agrees_within_one, select_work_size, Dispatch};
use mandelbrot::error::ComputeError;
use mandelbrot::exchange::{plan, Access, BackendKind, Backing, Command, Operand};

fn run_all_steps(d: &mut Dispatch) -> usize {
    let mut steps = 0;
    while d.current().is_some() {
        d.advance(Ok(())).unwrap();
        steps += 1;
    }
    steps
}

#[test]
fn work_size_defaults_to_grid_length() {
    assert_eq!(select_work_size(600, None), Ok(600));
    assert_eq!(select_work_size(600, Some(600)), Ok(600));
}

#[test]
fn short_work_size_is_configuration_error() {
    assert_eq!(select_work_size(600, Some(599)), Err(ComputeError::ConfigurationError));
    assert_eq!(select_work_size(600, Some(0)), Err(ComputeError::ConfigurationError));
}

#[test]
fn long_work_size_is_configuration_error() {
    assert_eq!(select_work_size(600, Some(601)), Err(ComputeError::ConfigurationError));
}

#[test]
fn start_with_short_work_size_fails() {
    let r = Dispatch::start(BackendKind::DeviceBackendB, 10, 50, Some(599));
    assert!(matches!(r, Err(ComputeError::ConfigurationError)));
    let r = Dispatch::start(BackendKind::SequentialReference, 100, 1000, Some(59999));
    assert!(matches!(r, Err(ComputeError::ConfigurationError)));
}

#[test]
fn start_with_bad_viewport_fails() {
    assert!(matches!(
        Dispatch::start(BackendKind::DeviceBackendA, 0, 50, None),
        Err(ComputeError::ConfigurationError)
    ));
    assert!(matches!(
        Dispatch::start(BackendKind::DeviceBackendA, 10, 0, None),
        Err(ComputeError::ConfigurationError)
    ));
}

#[test]
fn start_holds_grid_and_viewport() {
    let d = Dispatch::start(BackendKind::SequentialReference, 10, 50, Some(600)).unwrap();
    assert_eq!(d.kind(), BackendKind::SequentialReference);
    assert_eq!(d.viewport().resolution, 10);
    assert_eq!(d.viewport().max_iterations, 50);
    assert_eq!(d.grid().xs.len(), 600);
    assert_eq!(d.grid().ys.len(), 600);
    assert!(!d.is_complete());
}

#[test]
fn completed_dispatch_accepts_valid_counts() {
    let mut d = Dispatch::start(BackendKind::DeviceBackendA, 10, 50, None).unwrap();
    assert_eq!(run_all_steps(&mut d), 10);
    assert!(d.is_complete());
    let counts: Vec<i32> = (0..600).map(|k| (k % 51) as i32).collect();
    assert_eq!(d.finish(counts.clone()), Ok(counts));
}

#[test]
fn wrong_length_counts_are_refused() {
    let mut d = Dispatch::start(BackendKind::DeviceBackendB, 10, 50, None).unwrap();
    run_all_steps(&mut d);
    assert_eq!(d.finish(vec![0; 599]), Err(ComputeError::EventWaitFailure));
    assert_eq!(d.finish(vec![0; 601]), Err(ComputeError::EventWaitFailure));
}

#[test]
fn out_of_range_counts_are_refused() {
    let mut d = Dispatch::start(BackendKind::SequentialReference, 10, 50, None).unwrap();
    run_all_steps(&mut d);
    let mut high = vec![50; 600];
    high[599] = 51;
    assert_eq!(d.finish(high), Err(ComputeError::EventWaitFailure));
    let mut low = vec![0; 600];
    low[0] = -1;
    assert_eq!(d.finish(low), Err(ComputeError::EventWaitFailure));
}

#[test]
fn failed_step_aborts_dispatch() {
    let mut d = Dispatch::start(BackendKind::DeviceBackendB, 10, 50, None).unwrap();
    assert!(matches!(d.current(), Some(Command::Acquire)));
    assert_eq!(d.advance(Ok(())), Ok(()));
    assert!(matches!(d.current(), Some(Command::Build)));
    let e = ComputeError::BuildFailure { log: "syntax error".to_string() };
    assert_eq!(d.advance(Err(e.clone())), Err(e));
    assert!(d.current().is_none());
    assert!(!d.is_complete());
}

#[test]
fn each_failure_kind_is_handed_back() {
    let kinds = vec![
        ComputeError::NoDeviceFound,
        ComputeError::AllocationFailure,
        ComputeError::ArgumentBindingFailure,
        ComputeError::EnqueueFailure,
        ComputeError::EventWaitFailure,
    ];
    for e in kinds {
        let mut d = Dispatch::start(BackendKind::DeviceBackendA, 2, 5, None).unwrap();
        assert_eq!(d.advance(Err(e.clone())), Err(e));
        assert!(d.current().is_none());
    }
}

#[test]
fn plan_of_backend_b_blocks_on_real_axis_write() {
    let p = plan(BackendKind::DeviceBackendB, 600);
    assert_eq!(p.len(), 10);
    assert!(matches!(p[0], Command::Acquire));
    assert!(matches!(p[1], Command::Build));
    for (k, op) in [(2, Operand::Xs), (3, Operand::Ys)] {
        match &p[k] {
            Command::Allocate(s) => {
                assert_eq!(s.operand, op);
                assert_eq!(s.access, Access::ReadOnly);
                assert_eq!(s.len, 600);
                assert_eq!(s.backing, Backing::Owned);
            }
            _ => panic!("expected an allocation"),
        }
    }
    match &p[4] {
        Command::Allocate(s) => {
            assert_eq!(s.operand, Operand::Counts);
            assert_eq!(s.access, Access::WriteOnly);
            assert_eq!(s.backing, Backing::Owned);
        }
        _ => panic!("expected an allocation"),
    }
    assert!(matches!(&p[5], Command::Write { target: Operand::Xs, blocking: true, wait } if wait.is_empty()));
    assert!(matches!(&p[6], Command::Write { target: Operand::Ys, blocking: false, wait } if wait.is_empty()));
    assert!(matches!(&p[7], Command::Launch { work_size: 600, wait } if *wait == vec![6]));
    assert!(matches!(&p[8], Command::Read { source: Operand::Counts, blocking: false, wait } if *wait == vec![7]));
    assert!(matches!(p[9], Command::Await { event: 8 }));
}

#[test]
fn plan_of_backend_a_joins_both_writes() {
    let p = plan(BackendKind::DeviceBackendA, 24);
    assert!(matches!(&p[4], Command::Allocate(s) if s.backing == Backing::Borrowed && s.len == 24));
    assert!(matches!(&p[5], Command::Write { target: Operand::Xs, blocking: false, .. }));
    assert!(matches!(&p[7], Command::Launch { work_size: 24, wait } if *wait == vec![5, 6]));
    assert!(matches!(p[9], Command::Await { event: 8 }));
}

#[test]
fn plan_of_sequential_reference() {
    let p = plan(BackendKind::SequentialReference, 6);
    assert_eq!(p.len(), 10);
    assert!(matches!(&p[4], Command::Allocate(s) if s.backing == Backing::Owned));
    assert!(matches!(&p[7], Command::Launch { work_size: 6, wait } if *wait == vec![5, 6]));
}

#[test]
fn agreement_within_one_iteration() {
    assert!(agrees_within_one(&vec![3, 50, 0], &vec![3, 50, 0]));
    assert!(agrees_within_one(&vec![3, 50, 0], &vec![4, 49, 1]));
    assert!(!agrees_within_one(&vec![3, 50, 0], &vec![5, 50, 0]));
    assert!(!agrees_within_one(&vec![3, 50, 0], &vec![3, 50, -2]));
    assert!(!agrees_within_one(&vec![3, 50], &vec![3, 50, 0]));
    assert!(agrees_within_one(&vec![], &vec![]));
}

#[test]
fn agreement_on_extreme_values() {
    assert!(!agrees_within_one(&vec![i32::MAX], &vec![i32::MIN]));
    assert!(agrees_within_one(&vec![i32::MAX], &vec![i32::MAX - 1]));
}

#[test]
fn repeated_starts_give_same_dispatch() {
    let a = Dispatch::start(BackendKind::DeviceBackendB, 5, 30, None).unwrap();
    let b = Dispatch::start(BackendKind::DeviceBackendB, 5, 30, None).unwrap();
    assert_eq!(a.grid().xs, b.grid().xs);
    assert_eq!(a.grid().ys, b.grid().ys);
    assert_eq!(a.viewport(), b.viewport());
}
