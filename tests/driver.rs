use tock_core::driver::{driver_kind, Bare, DriverKind};
use tock_core::return_code::ReturnCode;

fn board() -> Bare<&'static str> {
    Bare {
        console: "console",
        gpio: "gpio",
        timer: "timer",
        led: "led",
        crc: "crc",
        ipc: "ipc",
    }
}

#[test]
fn registered_numbers() {
    assert_eq!(driver_kind(0), Some(DriverKind::Console));
    assert_eq!(driver_kind(1), Some(DriverKind::Gpio));
    assert_eq!(driver_kind(3), Some(DriverKind::Timer));
    assert_eq!(driver_kind(8), Some(DriverKind::Led));
    assert_eq!(driver_kind(16), Some(DriverKind::Crc));
    assert_eq!(driver_kind(0xff), Some(DriverKind::Ipc));
    assert_eq!(driver_kind(2), None);
    assert_eq!(driver_kind(99), None);
}

#[test]
fn ipc_number_resolves_to_ipc() {
    let b = board();
    assert_eq!(b.with_driver(0xff, |d| d.copied()), Some("ipc"));
    assert_eq!(b.get_driver(0xff), Some(&"ipc"));
    assert_eq!(b.with_driver(16, |d| d.copied()), Some("crc"));
}

#[test]
fn unregistered_number_runs_no_capsule() {
    let b = board();
    assert_eq!(b.with_driver(99, |d| d.is_none()), true);
    let mut called = false;
    let rc = b.command(99, |_d| {
        called = true;
        ReturnCode::SUCCESS
    });
    assert_eq!(rc, ReturnCode::ENODEVICE);
    assert!(!called);
    let rc = b.command(0, |d| if *d == "console" { ReturnCode::SUCCESS } else { ReturnCode::FAIL });
    assert_eq!(rc, ReturnCode::SUCCESS);
}
