use kernel_core::process::ProcessState::{Blocked, New, Ready, Running, Suspended, Terminated};
use kernel_core::process::{
    is_valid_transition, IllegalTransition, Process, ProcessState, Transition, WaitTarget,
};

fn fresh() -> Process {
    let mut name = [0u8; 32];
    name[..4].copy_from_slice(b"init");
    Process::new(1, 0, name, 3, 10, 100)
}

#[test]
fn new_process_starts_fresh() {
    let p = fresh();
    assert_eq!(p.state, ProcessState::New);
    assert_eq!(p.pid, 1);
    assert_eq!(p.ppid, 0);
    assert_eq!(&p.name[..4], b"init");
    assert_eq!(p.priority, 3);
    assert_eq!(p.timeslice, 10);
    assert_eq!(p.created_at, 100);
    assert!(p.exit_code.is_none());
    assert!(p.waiting_on.is_none());
    assert!(p.wakeup_time.is_none());
    assert!(p.file_descriptors.iter().all(|f| f.is_none()));
    assert!(p.is_consistent());
}

#[test]
fn new_cannot_run_directly() {
    let mut p = fresh();
    assert_eq!(
        p.transition(Transition::Dispatch),
        Err(IllegalTransition { from: ProcessState::New, to: ProcessState::Running })
    );
    assert_eq!(p.state, ProcessState::New);
    assert!(!is_valid_transition(ProcessState::New, ProcessState::Running));
}

#[test]
fn full_lifecycle_through_block_and_exit() {
    let mut p = fresh();
    assert_eq!(p.transition(Transition::Admit), Ok(()));
    assert_eq!(p.transition(Transition::Dispatch), Ok(()));
    assert_eq!(p.state, ProcessState::Running);
    let block = Transition::Block { target: WaitTarget::Semaphore(4), wakeup_time: None };
    assert_eq!(p.transition(block), Ok(()));
    assert_eq!(p.state, ProcessState::Blocked);
    assert!(matches!(p.waiting_on, Some(WaitTarget::Semaphore(4))));
    assert!(p.is_consistent());
    assert_eq!(p.transition(Transition::Wake), Ok(()));
    assert_eq!(p.state, ProcessState::Ready);
    assert!(p.waiting_on.is_none());
    assert_eq!(p.transition(Transition::Dispatch), Ok(()));
    assert_eq!(p.transition(Transition::Exit(7)), Ok(()));
    assert_eq!(p.state, ProcessState::Terminated);
    assert_eq!(p.exit_code, Some(7));
    assert!(p.is_consistent());
}

#[test]
fn terminated_has_no_way_out_and_keeps_exit_code() {
    let mut p = fresh();
    p.transition(Transition::Admit).unwrap();
    p.transition(Transition::Dispatch).unwrap();
    p.transition(Transition::Exit(-1)).unwrap();
    for t in [
        Transition::Admit,
        Transition::Dispatch,
        Transition::Preempt,
        Transition::Wake,
        Transition::Suspend,
        Transition::Resume,
        Transition::Exit(5),
    ] {
        assert!(p.transition(t).is_err());
        assert_eq!(p.state, ProcessState::Terminated);
        assert_eq!(p.exit_code, Some(-1));
    }
}

#[test]
fn timer_block_records_wakeup_time() {
    let mut p = fresh();
    p.transition(Transition::Admit).unwrap();
    p.transition(Transition::Dispatch).unwrap();
    let bad = Transition::Block { target: WaitTarget::PID(9), wakeup_time: Some(50) };
    assert_eq!(
        p.transition(bad),
        Err(IllegalTransition { from: ProcessState::Running, to: ProcessState::Blocked })
    );
    assert_eq!(p.state, ProcessState::Running);
    let sleep = Transition::Block { target: WaitTarget::Timer, wakeup_time: Some(50) };
    assert_eq!(p.transition(sleep), Ok(()));
    assert_eq!(p.wakeup_time, Some(50));
    assert_eq!(p.transition(Transition::Suspend), Ok(()));
    assert_eq!(p.state, ProcessState::Suspended);
    assert!(p.waiting_on.is_none());
    assert!(p.wakeup_time.is_none());
    assert!(p.is_consistent());
    assert_eq!(p.transition(Transition::Resume), Ok(()));
    assert_eq!(p.state, ProcessState::Ready);
}

#[test]
fn preempt_and_suspend_from_ready() {
    let mut p = fresh();
    p.transition(Transition::Admit).unwrap();
    assert!(p.transition(Transition::Preempt).is_err());
    p.transition(Transition::Dispatch).unwrap();
    assert_eq!(p.transition(Transition::Preempt), Ok(()));
    assert_eq!(p.state, ProcessState::Ready);
    assert_eq!(p.transition(Transition::Suspend), Ok(()));
    assert_eq!(p.transition(Transition::Exit(0)), Ok(()));
    assert_eq!(p.exit_code, Some(0));
}

#[test]
fn edge_set_matches_lifecycle() {
    let all = [New, Ready, Running, Blocked, Suspended, Terminated];
    let edges = [
        (New, Ready),
        (Ready, Running),
        (Running, Ready),
        (Running, Blocked),
        (Blocked, Ready),
        (Running, Suspended),
        (Ready, Suspended),
        (Blocked, Suspended),
        (Suspended, Ready),
        (Running, Terminated),
        (Blocked, Terminated),
        (Suspended, Terminated),
    ];
    for from in all {
        for to in all {
            assert_eq!(is_valid_transition(from, to), edges.contains(&(from, to)));
        }
    }
}

#[test]
fn inconsistent_process_is_detected() {
    let mut p = fresh();
    p.waiting_on = Some(WaitTarget::IODevice(2));
    assert!(!p.is_consistent());
    let mut q = fresh();
    q.exit_code = Some(1);
    assert!(!q.is_consistent());
}
