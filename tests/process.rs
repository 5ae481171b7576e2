use tock_core::process::{
    load_processes, parse_image, Access, FaultAction, FaultResponse, ImageHeader, MpuRegion,
    ProcessState, RunKind, RunOutcome, HEADER_VERSION, MAX_TASKS,
};

fn image(total: u32, ram: u32) -> Vec<u8> {
    let mut v = Vec::new();
    for w in [HEADER_VERSION, total, ram, HEADER_VERSION ^ total ^ ram] {
        v.extend_from_slice(&w.to_le_bytes());
    }
    v.resize(total as usize, 0xAB);
    v
}

fn two_images() -> Vec<u8> {
    let mut flash = image(64, 1024);
    flash.extend(image(48, 512));
    flash.extend(vec![0xFF; 32]);
    flash
}

#[test]
fn loads_two_images_when_ram_fits_both() {
    let flash = two_images();
    let procs = load_processes(&flash, 0x30000, 0x20004000, 1536, 4, FaultResponse::Panic);
    assert_eq!(procs.len(), 2);
    assert_eq!(procs[0].flash_window(), (0x30000, 64));
    assert_eq!(procs[0].ram_window(), (0x20004000, 1024));
    assert_eq!(procs[1].flash_window(), (0x30040, 48));
    assert_eq!(procs[1].ram_window(), (0x20004400, 512));
    for p in &procs {
        assert_eq!(p.get_state(), ProcessState::Unstarted);
        assert_eq!(p.restart_count(), 0);
        assert!(p.is_ready());
    }
}

#[test]
fn loading_stops_when_ram_runs_out() {
    let flash = two_images();
    let procs = load_processes(&flash, 0x30000, 0x20004000, 1024, 4, FaultResponse::Panic);
    assert_eq!(procs.len(), 1);
    assert_eq!(procs[0].ram_window(), (0x20004000, 1024));
    let procs = load_processes(&flash, 0x30000, 0x20004000, 1535, 4, FaultResponse::Panic);
    assert_eq!(procs.len(), 1);
    let procs = load_processes(&flash, 0x30000, 0x20004000, 1023, 4, FaultResponse::Panic);
    assert_eq!(procs.len(), 0);
}

#[test]
fn loading_stops_at_slot_count() {
    let flash = two_images();
    let procs = load_processes(&flash, 0, 0, 1 << 20, 1, FaultResponse::Restart);
    assert_eq!(procs.len(), 1);
    let procs = load_processes(&flash, 0, 0, 1 << 20, 0, FaultResponse::Restart);
    assert_eq!(procs.len(), 0);
}

#[test]
fn loading_stops_at_invalid_header() {
    let mut flash = image(32, 100);
    let mut bad = image(32, 100);
    bad[12] ^= 1; // checksum
    flash.extend(bad);
    flash.extend(image(32, 100));
    let procs = load_processes(&flash, 0, 0, 10_000, 8, FaultResponse::Panic);
    assert_eq!(procs.len(), 1);
    assert_eq!(load_processes(&Vec::new(), 0, 0, 100, 2, FaultResponse::Panic).len(), 0);
}

#[test]
fn header_parsing() {
    let img = image(40, 300);
    assert_eq!(
        parse_image(&img, 0),
        Some(ImageHeader { version: 1, total_size: 40, ram_size: 300, checksum: 1 ^ 40 ^ 300 })
    );
    assert_eq!(parse_image(&img, 1), None);
    assert_eq!(parse_image(&img[..15].to_vec(), 0), None);
    assert_eq!(parse_image(&img, 100), None);
    // An image that claims more bytes than the region has.
    let long = image(40, 300)[..39].to_vec();
    assert_eq!(parse_image(&long, 0), None);
    // A size smaller than the header.
    let mut tiny = image(16, 0);
    tiny[4] = 8;
    tiny[12] = (1 ^ 8) as u8;
    assert_eq!(parse_image(&tiny, 0), None);
    // Wrong version.
    let mut v2 = image(32, 0);
    v2[0] = 2;
    v2[12] = (2 ^ 32) as u8;
    assert_eq!(parse_image(&v2, 0), None);
}

#[test]
fn access_checks_and_mpu_regions() {
    let flash = two_images();
    let procs = load_processes(&flash, 0x1000, 0x8000, 1536, 2, FaultResponse::Panic);
    let p = &procs[1];
    // RAM 0x8400..0x8600, flash 0x1040..0x1070
    assert!(p.can_access(0x8400, 4, Access::Write));
    assert!(p.can_access(0x85FC, 4, Access::Read));
    assert!(!p.can_access(0x85FD, 4, Access::Read));
    assert!(!p.can_access(0x83FC, 4, Access::Read));
    assert!(!p.can_access(0x1040, 4, Access::Write));
    assert!(p.can_access(0x1040, 4, Access::Execute));
    assert!(p.can_access(0x1040, 0x30, Access::Read));
    assert!(!p.can_access(0x1040, 0x31, Access::Read));
    assert!(!p.can_access(0x8400, 4, Access::Execute));
    // The other process's memory is out of reach.
    assert!(!p.can_access(0x8000, 4, Access::Read));
    assert!(!p.can_access(0x1000, 4, Access::Execute));
    assert_eq!(
        p.mpu_regions(),
        vec![
            MpuRegion { start: 0x8400, len: 512, read: true, write: true, execute: false },
            MpuRegion { start: 0x1040, len: 48, read: true, write: false, execute: true },
        ]
    );
}

#[test]
fn fault_policies() {
    let flash = two_images();
    let mut procs = load_processes(&flash, 0, 0, 4096, 2, FaultResponse::Restart);
    assert_eq!(procs[0].resume(), RunKind::Start);
    assert_eq!(procs[0].run_stopped(RunOutcome::Faulted), Some(FaultAction::Restarted));
    assert_eq!(procs[0].get_state(), ProcessState::Unstarted);
    assert_eq!(procs[0].restart_count(), 1);
    assert_eq!(procs[0].flash_window(), (0, 64));

    let mut procs = load_processes(&flash, 0, 0, 4096, 2, FaultResponse::Panic);
    assert_eq!(procs[1].fault(), FaultAction::Halt);
    assert_eq!(procs[1].get_state(), ProcessState::Faulted);
    assert!(!procs[1].is_ready());
    assert!(!procs[1].enqueue_task());
}

#[test]
fn run_cycle_and_callbacks() {
    let flash = two_images();
    let mut procs = load_processes(&flash, 0, 0, 4096, 1, FaultResponse::Panic);
    let p = &mut procs[0];
    assert_eq!(p.resume(), RunKind::Start);
    assert_eq!(p.run_stopped(RunOutcome::QuantumExpired), None);
    assert_eq!(p.resume(), RunKind::Continue);
    assert_eq!(p.run_stopped(RunOutcome::Yielded), None);
    assert_eq!(p.get_state(), ProcessState::Yielded);
    assert!(!p.is_ready());
    for _ in 0..MAX_TASKS {
        assert!(p.enqueue_task());
    }
    assert!(!p.enqueue_task());
    assert!(p.is_ready());
    assert_eq!(p.resume(), RunKind::DeliverCallback);
    assert_eq!(p.get_state(), ProcessState::Running);
}
