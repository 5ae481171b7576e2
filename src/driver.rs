//! The board's syscall driver table: which capsule serves which driver
//! number. The table is fixed when the board is built.
use vstd::prelude::*;
use crate::return_code::ReturnCode;

verus! {

#[derive(Clone, Copy, Debug, PartialEq, Eq, Structural)]
pub enum DriverKind {
    Console,
    Gpio,
    Timer,
    Led,
    Crc,
    Ipc,
}

/// The capability registered under `driver_num`: 0 console, 1 GPIO, 3 timer,
/// 8 LED, 16 CRC, 0xFF inter-process communication; no other number.
pub open spec fn driver_kind_spec(driver_num: usize) -> Option<DriverKind> {
    if driver_num == 0 {
        Some(DriverKind::Console)
    } else if driver_num == 1 {
        Some(DriverKind::Gpio)
    } else if driver_num == 3 {
        Some(DriverKind::Timer)
    } else if driver_num == 8 {
        Some(DriverKind::Led)
    } else if driver_num == 16 {
        Some(DriverKind::Crc)
    } else if driver_num == 0xff {
        Some(DriverKind::Ipc)
    } else {
        None
    }
}

pub fn driver_kind(driver_num: usize) -> (r: Option<DriverKind>)
    ensures
        r == driver_kind_spec(driver_num),
{
    match driver_num {
        0 => Some(DriverKind::Console),
        1 => Some(DriverKind::Gpio),
        3 => Some(DriverKind::Timer),
        8 => Some(DriverKind::Led),
        16 => Some(DriverKind::Crc),
        0xff => Some(DriverKind::Ipc),
        _ => None,
    }
}

/// Whether a capsule is registered under `driver_num` on every board.
pub open spec fn registered(driver_num: usize) -> bool {
    driver_num == 0 || driver_num == 1 || driver_num == 3 || driver_num == 8 || driver_num == 16
        || driver_num == 0xff
}

/// The board: one capsule for each registered capability.
pub struct Bare<D> {
    pub console: D,
    pub gpio: D,
    pub timer: D,
    pub led: D,
    pub crc: D,
    pub ipc: D,
}

impl<D> Bare<D> {
    /// The capsule registered under `driver_num`.
    pub open spec fn lookup(&self, driver_num: usize) -> Option<D> {
        match driver_kind_spec(driver_num) {
            Some(DriverKind::Console) => Some(self.console),
            Some(DriverKind::Gpio) => Some(self.gpio),
            Some(DriverKind::Timer) => Some(self.timer),
            Some(DriverKind::Led) => Some(self.led),
            Some(DriverKind::Crc) => Some(self.crc),
            Some(DriverKind::Ipc) => Some(self.ipc),
            None => None,
        }
    }

    /// The capsule registered under `driver_num`, or `None` for a number
    /// without one.
    pub fn get_driver(&self, driver_num: usize) -> (r: Option<&D>)
        ensures
            match r {
                Some(d) => self.lookup(driver_num) == Some(*d),
                None => self.lookup(driver_num) is None,
            },
    {
        match driver_kind(driver_num) {
            Some(DriverKind::Console) => Some(&self.console),
            Some(DriverKind::Gpio) => Some(&self.gpio),
            Some(DriverKind::Timer) => Some(&self.timer),
            Some(DriverKind::Led) => Some(&self.led),
            Some(DriverKind::Crc) => Some(&self.crc),
            Some(DriverKind::Ipc) => Some(&self.ipc),
            None => None,
        }
    }

    /// Calls `f` with the capsule registered under `driver_num`, or with
    /// `None` for a number without one, and returns what `f` returns.
    pub fn with_driver<F, R>(&self, driver_num: usize, f: F) -> (r: R) where
        F: FnOnce(Option<&D>) -> R,
        requires
            forall|d: Option<&D>| f.requires((d,)),
        ensures
            exists|d: Option<&D>|
                f.ensures((d,), r) && match d {
                    Some(x) => self.lookup(driver_num) == Some(*x),
                    None => self.lookup(driver_num) is None,
                },
    {
        let d = self.get_driver(driver_num);
        f(d)
    }

    /// Serves a syscall command: runs `f` on the capsule registered under
    /// `driver_num` and returns its status; a number without a capsule
    /// yields `ENODEVICE` and runs nothing.
    pub fn command<F>(&self, driver_num: usize, f: F) -> (r: ReturnCode) where
        F: FnOnce(&D) -> ReturnCode,
        requires
            forall|d: &D| f.requires((d,)),
        ensures
            self.lookup(driver_num) is None ==> r == ReturnCode::ENODEVICE,
            self.lookup(driver_num) matches Some(d) ==> f.ensures((&d,), r),
    {
        match self.get_driver(driver_num) {
            Some(d) => f(d),
            None => ReturnCode::ENODEVICE,
        }
    }
}

/// Driver number 0xFF reaches the board's IPC capsule, whatever the board,
/// and a number outside the table reaches no capsule.
pub proof fn lemma_driver_numbers<D>(board: Bare<D>, driver_num: usize)
    ensures
        board.lookup(0xff) == Some(board.ipc),
        !registered(driver_num) ==> board.lookup(driver_num) is None,
        registered(driver_num) ==> board.lookup(driver_num) is Some,
{
}

} // verus!
