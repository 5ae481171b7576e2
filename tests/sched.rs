use tock_core::process::{load_processes, FaultAction, FaultResponse, HEADER_VERSION, RunKind, RunOutcome};
use tock_core::sched::{Kernel, LoopAction};

fn image(total: u32, ram: u32) -> Vec<u8> {
    let mut v = Vec::new();
    for w in [HEADER_VERSION, total, ram, HEADER_VERSION ^ total ^ ram] {
        v.extend_from_slice(&w.to_le_bytes());
    }
    v.resize(total as usize, 0);
    v
}

fn kernel(n: usize, response: FaultResponse) -> Kernel {
    let mut flash = Vec::new();
    for _ in 0..n {
        flash.extend(image(32, 64));
    }
    Kernel::new(load_processes(&flash, 0, 0, 64 * n, n, response))
}

#[test]
fn interrupts_come_first() {
    let k = kernel(2, FaultResponse::Panic);
    assert_eq!(k.next_action(true), LoopAction::ServiceInterrupts);
    assert_eq!(k.next_action(false), LoopAction::Run(0));
}

#[test]
fn round_robin_then_sleep() {
    let mut k = kernel(3, FaultResponse::Panic);
    assert_eq!(k.num_processes(), 3);
    assert_eq!(k.next_action(false), LoopAction::Run(0));
    assert_eq!(k.run(0), RunKind::Start);
    assert_eq!(k.run_stopped(0, RunOutcome::Yielded), None);
    assert_eq!(k.next_action(false), LoopAction::Run(1));
    assert_eq!(k.run(1), RunKind::Start);
    assert_eq!(k.run_stopped(1, RunOutcome::QuantumExpired), None);
    assert_eq!(k.next_action(false), LoopAction::Run(2));
    assert_eq!(k.run(2), RunKind::Start);
    assert_eq!(k.run_stopped(2, RunOutcome::Yielded), None);
    // Slot 1 is still ready after its quantum expired.
    assert_eq!(k.next_action(false), LoopAction::Run(1));
    assert_eq!(k.run(1), RunKind::Continue);
    assert_eq!(k.run_stopped(1, RunOutcome::Yielded), None);
    assert_eq!(k.next_action(false), LoopAction::Sleep);
    // A callback makes a yielded process ready again.
    assert!(k.schedule_callback(0));
    assert_eq!(k.next_action(false), LoopAction::Run(0));
    assert_eq!(k.run(0), RunKind::DeliverCallback);
}

#[test]
fn restart_changes_identity() {
    let mut k = kernel(1, FaultResponse::Restart);
    let before = k.app_id(0);
    assert_eq!(k.run(0), RunKind::Start);
    assert_eq!(k.run_stopped(0, RunOutcome::Faulted), Some(FaultAction::Restarted));
    let after = k.app_id(0);
    assert_eq!(after.index, before.index);
    assert_ne!(after.generation, before.generation);
    assert_eq!(k.next_action(false), LoopAction::Run(0));
    assert_eq!(k.process(0).restart_count(), 1);
}

#[test]
fn empty_table_sleeps() {
    let k = Kernel::new(Vec::new());
    assert_eq!(k.next_action(false), LoopAction::Sleep);
    assert_eq!(k.next_action(true), LoopAction::ServiceInterrupts);
}
