//! Discovery of application images in flash, the process table entries made
//! from them, their memory windows and the fault policy.
//!
//! Images are concatenated in a flash region. Each starts with a header of
//! four little-endian 32-bit words:
//!
//! | offset | word                                                   |
//! |--------|--------------------------------------------------------|
//! | 0      | header version, `HEADER_VERSION`                       |
//! | 4      | total size of the image in bytes, header included      |
//! | 8      | RAM the process needs, in bytes                        |
//! | 12     | checksum: the exclusive or of the three words above    |
//!
//! Loading walks the images from the start of the region and gives each a
//! process slot, a flash window over the image and the next slice of the RAM
//! arena. It stops at the first image whose header does not validate (the end
//! of the images), at the first one whose RAM does not fit in what is left of
//! the arena, or when every slot is taken.
use vstd::prelude::*;

verus! {

pub const HEADER_SIZE: usize = 16;

pub const HEADER_VERSION: u32 = 1;

/// The 32-bit little-endian word at `at`.
pub open spec fn word_at(flash: Seq<u8>, at: int) -> nat {
    flash[at] as nat + flash[at + 1] as nat * 256 + flash[at + 2] as nat * 65536 + flash[at + 3] as nat
        * 16777216
}

#[derive(Clone, Copy, Debug, PartialEq, Eq, Structural)]
pub struct ImageHeader {
    pub version: u32,
    pub total_size: u32,
    pub ram_size: u32,
    pub checksum: u32,
}

/// The header words at `at`, when the region holds them.
pub open spec fn header_at(flash: Seq<u8>, at: nat) -> Option<ImageHeader> {
    if at + HEADER_SIZE <= flash.len() {
        Some(
            ImageHeader {
                version: word_at(flash, at as int) as u32,
                total_size: word_at(flash, at + 4int) as u32,
                ram_size: word_at(flash, at + 8int) as u32,
                checksum: word_at(flash, at + 12int) as u32,
            },
        )
    } else {
        None
    }
}

/// A header describes an image: right version, matching checksum, a size
/// that covers the header and stays within the region.
pub open spec fn header_valid(h: ImageHeader, at: nat, region_len: nat) -> bool {
    &&& h.version == HEADER_VERSION
    &&& h.checksum == h.version ^ h.total_size ^ h.ram_size
    &&& h.total_size >= HEADER_SIZE
    &&& at + h.total_size <= region_len
}

/// The header of the image at `at`, if one valid image starts there.
pub open spec fn image_at(flash: Seq<u8>, at: nat) -> Option<ImageHeader> {
    match header_at(flash, at) {
        Some(h) => if header_valid(h, at, flash.len()) {
            Some(h)
        } else {
            None
        },
        None => None,
    }
}

/// The memory a process may use, as offsets into the flash region and into
/// the RAM arena.
pub struct Windows {
    pub flash_start: nat,
    pub flash_len: nat,
    pub ram_start: nat,
    pub ram_len: nat,
}

/// The windows of the processes that loading creates, in slot order, when
/// images are read from flash offset `at` on, the arena has `ram_left` bytes
/// left from offset `ram_at`, and `slots` slots are free.
pub open spec fn loaded(flash: Seq<u8>, at: nat, ram_at: nat, ram_left: nat, slots: nat) -> Seq<
    Windows,
>
    decreases slots,
{
    if slots == 0 {
        Seq::empty()
    } else {
        match image_at(flash, at) {
            None => Seq::empty(),
            Some(h) => if h.ram_size > ram_left {
                Seq::empty()
            } else {
                seq![
                    Windows {
                        flash_start: at,
                        flash_len: h.total_size as nat,
                        ram_start: ram_at,
                        ram_len: h.ram_size as nat,
                    },
                ] + loaded(
                    flash,
                    (at + h.total_size) as nat,
                    (ram_at + h.ram_size) as nat,
                    (ram_left - h.ram_size) as nat,
                    (slots - 1) as nat,
                )
            },
        }
    }
}

/// Loading isolates processes: at most one per slot, each RAM slice inside
/// the arena and each flash window inside the region, and neither the RAM
/// slices nor the flash windows of two processes overlap (they follow each
/// other in slot order).
pub proof fn lemma_loaded_isolated(flash: Seq<u8>, at: nat, ram_at: nat, ram_left: nat, slots: nat)
    ensures
        loaded(flash, at, ram_at, ram_left, slots).len() <= slots,
        forall|i: int|
            0 <= i < loaded(flash, at, ram_at, ram_left, slots).len() ==> {
                let w = #[trigger] loaded(flash, at, ram_at, ram_left, slots)[i];
                &&& ram_at <= w.ram_start
                &&& w.ram_start + w.ram_len <= ram_at + ram_left
                &&& at <= w.flash_start
                &&& w.flash_start + w.flash_len <= flash.len()
            },
        forall|i: int, j: int|
            0 <= i < j < loaded(flash, at, ram_at, ram_left, slots).len() ==> {
                let a = #[trigger] loaded(flash, at, ram_at, ram_left, slots)[i];
                let b = #[trigger] loaded(flash, at, ram_at, ram_left, slots)[j];
                &&& a.ram_start + a.ram_len <= b.ram_start
                &&& a.flash_start + a.flash_len <= b.flash_start
            },
    decreases slots,
{
    if slots > 0 {
        if let Some(h) = image_at(flash, at) {
            if h.ram_size <= ram_left {
                let next_at = (at + h.total_size) as nat;
                let next_ram = (ram_at + h.ram_size) as nat;
                let next_left = (ram_left - h.ram_size) as nat;
                lemma_loaded_isolated(flash, next_at, next_ram, next_left, (slots - 1) as nat);
                let rest = loaded(flash, next_at, next_ram, next_left, (slots - 1) as nat);
                let all = loaded(flash, at, ram_at, ram_left, slots);
                assert forall|k: int| 0 <= k < rest.len() implies all[k + 1] == rest[k] by {}
            }
        }
    }
}

/// What the kernel does when a process faults; one policy for the board.
#[derive(Clone, Copy, Debug, PartialEq, Eq, Structural)]
pub enum FaultResponse {
    /// Halt the system and report the fault.
    Panic,
    /// Reset the process and run it again from its start.
    Restart,
}

#[derive(Clone, Copy, Debug, PartialEq, Eq, Structural)]
pub enum ProcessState {
    Unstarted,
    Running,
    Yielded,
    Faulted,
}

/// What a fault led to.
#[derive(Clone, Copy, Debug, PartialEq, Eq, Structural)]
pub enum FaultAction {
    /// The system must halt and report.
    Halt,
    /// The process was reset and will start again.
    Restarted,
}

/// How a process is entered when the scheduler runs it.
#[derive(Clone, Copy, Debug, PartialEq, Eq, Structural)]
pub enum RunKind {
    /// From its entry point.
    Start,
    /// Where it was preempted.
    Continue,
    /// In the next waiting callback.
    DeliverCallback,
}

/// Why a running process gave the CPU back.
#[derive(Clone, Copy, Debug, PartialEq, Eq, Structural)]
pub enum RunOutcome {
    Yielded,
    QuantumExpired,
    Faulted,
}

#[derive(Clone, Copy, Debug, PartialEq, Eq, Structural)]
pub enum Access {
    Read,
    Write,
    Execute,
}

/// One region of the memory protection unit.
#[derive(Clone, Copy, Debug, PartialEq, Eq, Structural)]
pub struct MpuRegion {
    pub start: usize,
    pub len: usize,
    pub read: bool,
    pub write: bool,
    pub execute: bool,
}

/// Identity of a process incarnation: its slot, and how often the process in
/// that slot had been restarted. A restart makes a new identity.
#[derive(Clone, Copy, Debug, PartialEq, Eq, Structural)]
pub struct AppId {
    pub index: usize,
    pub generation: u64,
}

/// One loaded application.
#[derive(Debug)]
pub struct Process {
    flash_start: usize,
    flash_len: usize,
    ram_start: usize,
    ram_len: usize,
    state: ProcessState,
    fault_response: FaultResponse,
    restarts: u64,
    tasks: usize,
}

/// The most callbacks that can wait for one process.
pub const MAX_TASKS: usize = 10;

/// `[start, start + len)` lies within `[wstart, wstart + wlen)`.
pub open spec fn within(start: nat, len: nat, wstart: nat, wlen: nat) -> bool {
    wstart <= start && start + len <= wstart + wlen
}

impl Process {
    pub closed spec fn flash_start(&self) -> nat {
        self.flash_start as nat
    }

    pub closed spec fn flash_len(&self) -> nat {
        self.flash_len as nat
    }

    pub closed spec fn ram_start(&self) -> nat {
        self.ram_start as nat
    }

    pub closed spec fn ram_len(&self) -> nat {
        self.ram_len as nat
    }

    pub closed spec fn state(&self) -> ProcessState {
        self.state
    }

    pub closed spec fn fault_response(&self) -> FaultResponse {
        self.fault_response
    }

    /// How often the process has been restarted.
    pub closed spec fn restarts(&self) -> nat {
        self.restarts as nat
    }

    /// Callbacks waiting to be delivered.
    pub closed spec fn tasks(&self) -> nat {
        self.tasks as nat
    }

    pub closed spec fn wf(&self) -> bool {
        &&& self.flash_start + self.flash_len <= usize::MAX
        &&& self.ram_start + self.ram_len <= usize::MAX
        &&& self.tasks <= MAX_TASKS
    }

    /// Whether the process can run now: never started, preempted, or yielded
    /// with a callback waiting.
    pub open spec fn ready(&self) -> bool {
        ||| self.state() == ProcessState::Unstarted
        ||| self.state() == ProcessState::Running
        ||| self.state() == ProcessState::Yielded && self.tasks() > 0
    }

    /// Whether an access of `len` bytes at `addr` is inside the process's
    /// windows for its kind: reads anywhere in its RAM or flash, writes only
    /// in its RAM, instruction fetches only in its flash.
    pub open spec fn allows(&self, addr: nat, len: nat, kind: Access) -> bool {
        let in_ram = within(addr, len, self.ram_start(), self.ram_len());
        let in_flash = within(addr, len, self.flash_start(), self.flash_len());
        match kind {
            Access::Read => in_ram || in_flash,
            Access::Write => in_ram,
            Access::Execute => in_flash,
        }
    }

    pub fn get_state(&self) -> (r: ProcessState)
        ensures
            r == self.state(),
    {
        self.state
    }

    pub fn flash_window(&self) -> (r: (usize, usize))
        ensures
            r.0 == self.flash_start(),
            r.1 == self.flash_len(),
    {
        (self.flash_start, self.flash_len)
    }

    pub fn ram_window(&self) -> (r: (usize, usize))
        ensures
            r.0 == self.ram_start(),
            r.1 == self.ram_len(),
    {
        (self.ram_start, self.ram_len)
    }

    pub fn restart_count(&self) -> (r: u64)
        ensures
            r == self.restarts(),
    {
        self.restarts
    }

    pub fn is_ready(&self) -> (r: bool)
        ensures
            r == self.ready(),
    {
        match self.state {
            ProcessState::Unstarted | ProcessState::Running => true,
            ProcessState::Yielded => self.tasks > 0,
            ProcessState::Faulted => false,
        }
    }

    /// Decides whether the access of `len` bytes at `addr` is allowed; one
    /// that is not traps into the kernel as a fault.
    pub fn can_access(&self, addr: usize, len: usize, kind: Access) -> (r: bool)
        requires
            self.wf(),
        ensures
            r == self.allows(addr as nat, len as nat, kind),
    {
        let in_ram = self.ram_start <= addr && len <= self.ram_len && addr - self.ram_start
            <= self.ram_len - len;
        let in_flash = self.flash_start <= addr && len <= self.flash_len && addr
            - self.flash_start <= self.flash_len - len;
        match kind {
            Access::Read => in_ram || in_flash,
            Access::Write => in_ram,
            Access::Execute => in_flash,
        }
    }

    /// The memory protection regions to program before the process runs: its
    /// RAM, readable and writable, and its flash, readable and executable.
    pub fn mpu_regions(&self) -> (r: Vec<MpuRegion>)
        ensures
            r@ == seq![
                MpuRegion {
                    start: self.ram_start() as usize,
                    len: self.ram_len() as usize,
                    read: true,
                    write: true,
                    execute: false,
                },
                MpuRegion {
                    start: self.flash_start() as usize,
                    len: self.flash_len() as usize,
                    read: true,
                    write: false,
                    execute: true,
                },
            ],
    {
        let mut r: Vec<MpuRegion> = Vec::new();
        r.push(
            MpuRegion {
                start: self.ram_start,
                len: self.ram_len,
                read: true,
                write: true,
                execute: false,
            },
        );
        r.push(
            MpuRegion {
                start: self.flash_start,
                len: self.flash_len,
                read: true,
                write: false,
                execute: true,
            },
        );
        assert(r@ =~= seq![
            MpuRegion {
                start: self.ram_start() as usize,
                len: self.ram_len() as usize,
                read: true,
                write: true,
                execute: false,
            },
            MpuRegion {
                start: self.flash_start() as usize,
                len: self.flash_len() as usize,
                read: true,
                write: false,
                execute: true,
            },
        ]);
        r
    }

    /// Both are the same process: same windows, same fault policy.
    pub open spec fn same_process(&self, other: Process) -> bool {
        &&& self.flash_start() == other.flash_start()
        &&& self.flash_len() == other.flash_len()
        &&& self.ram_start() == other.ram_start()
        &&& self.ram_len() == other.ram_len()
        &&& self.fault_response() == other.fault_response()
    }

    /// This process is `pre` after `enqueue_task` returned `r`: a callback
    /// is queued unless `pre` is faulted or its queue is full.
    pub open spec fn task_queued_from(&self, pre: Process, r: bool) -> bool {
        &&& self.wf()
        &&& r == (pre.state() != ProcessState::Faulted && pre.tasks() < MAX_TASKS)
        &&& r ==> {
            &&& self.same_process(pre)
            &&& self.state() == pre.state()
            &&& self.restarts() == pre.restarts()
            &&& self.tasks() == pre.tasks() + 1
        }
        &&& !r ==> *self == pre
    }

    /// This process is the ready `pre` after `resume` returned `r`.
    pub open spec fn resumed_from(&self, pre: Process, r: RunKind) -> bool {
        &&& self.wf()
        &&& self.same_process(pre)
        &&& self.restarts() == pre.restarts()
        &&& self.state() == ProcessState::Running
        &&& pre.state() == ProcessState::Unstarted ==> r == RunKind::Start && self.tasks() == pre.tasks()
        &&& pre.state() == ProcessState::Running ==> r == RunKind::Continue && self.tasks() == pre.tasks()
        &&& pre.state() == ProcessState::Yielded ==> r == RunKind::DeliverCallback && self.tasks()
            == pre.tasks() - 1
    }

    /// This process is `pre` after `run_stopped(outcome)` returned `r`.
    pub open spec fn stopped_from(&self, pre: Process, outcome: RunOutcome, r: Option<FaultAction>) -> bool {
        &&& self.wf()
        &&& self.same_process(pre)
        &&& outcome == RunOutcome::Yielded ==> {
            &&& r is None
            &&& self.state() == ProcessState::Yielded
            &&& self.tasks() == pre.tasks()
            &&& self.restarts() == pre.restarts()
        }
        &&& outcome == RunOutcome::QuantumExpired ==> r is None && *self == pre
        &&& outcome == RunOutcome::Faulted ==> {
            &&& r == Some(
                match pre.fault_response() {
                    FaultResponse::Panic => FaultAction::Halt,
                    FaultResponse::Restart => FaultAction::Restarted,
                },
            )
            &&& self.fault_applied(pre)
        }
    }

    /// Queues a callback for the process. Refused (`false`, nothing changes)
    /// for a faulted process and when `MAX_TASKS` callbacks already wait.
    pub fn enqueue_task(&mut self) -> (r: bool)
        requires
            old(self).wf(),
        ensures
            final(self).task_queued_from(*old(self), r),
    {
        if self.state == ProcessState::Faulted || self.tasks >= MAX_TASKS {
            return false;
        }
        self.tasks = self.tasks + 1;
        true
    }

    /// Enters a ready process: an unstarted one starts, a preempted one
    /// continues, a yielded one takes its next waiting callback. It is
    /// running afterwards.
    pub fn resume(&mut self) -> (r: RunKind)
        requires
            old(self).wf(),
            old(self).ready(),
        ensures
            final(self).resumed_from(*old(self), r),
    {
        match self.state {
            ProcessState::Unstarted => {
                self.state = ProcessState::Running;
                RunKind::Start
            },
            ProcessState::Running => RunKind::Continue,
            _ => {
                self.tasks = self.tasks - 1;
                self.state = ProcessState::Running;
                RunKind::DeliverCallback
            },
        }
    }

    /// Records why the running process stopped: a yield waits for callbacks,
    /// an expired quantum leaves it ready, a fault applies the fault policy.
    pub fn run_stopped(&mut self, outcome: RunOutcome) -> (r: Option<FaultAction>)
        requires
            old(self).wf(),
            outcome == RunOutcome::Faulted && old(self).fault_response() == FaultResponse::Restart
                ==> old(self).restarts() < u64::MAX,
        ensures
            final(self).stopped_from(*old(self), outcome, r),
    {
        match outcome {
            RunOutcome::Yielded => {
                self.state = ProcessState::Yielded;
                None
            },
            RunOutcome::QuantumExpired => None,
            RunOutcome::Faulted => Some(self.fault()),
        }
    }

    /// This process is `pre` after its fault policy was applied.
    pub open spec fn fault_applied(&self, pre: Process) -> bool {
        match pre.fault_response() {
            FaultResponse::Panic => {
                &&& self.state() == ProcessState::Faulted
                &&& self.restarts() == pre.restarts()
                &&& self.tasks() == pre.tasks()
            },
            FaultResponse::Restart => {
                &&& self.state() == ProcessState::Unstarted
                &&& self.restarts() == pre.restarts() + 1
                &&& self.tasks() == 0
            },
        }
    }

    /// Applies the fault policy after the process faulted. Under `Panic` it
    /// is marked faulted and the system must halt; under `Restart` it is
    /// reset: unstarted, its waiting callbacks dropped, its restart count one
    /// higher, which invalidates the state capsules kept for it.
    pub fn fault(&mut self) -> (r: FaultAction)
        requires
            old(self).wf(),
            old(self).fault_response() == FaultResponse::Restart ==> old(self).restarts() < u64::MAX,
        ensures
            final(self).wf(),
            final(self).flash_start() == old(self).flash_start(),
            final(self).flash_len() == old(self).flash_len(),
            final(self).ram_start() == old(self).ram_start(),
            final(self).ram_len() == old(self).ram_len(),
            final(self).fault_response() == old(self).fault_response(),
            old(self).fault_response() == FaultResponse::Panic ==> {
                &&& r == FaultAction::Halt
                &&& final(self).state() == ProcessState::Faulted
                &&& final(self).restarts() == old(self).restarts()
                &&& final(self).tasks() == old(self).tasks()
            },
            old(self).fault_response() == FaultResponse::Restart ==> {
                &&& r == FaultAction::Restarted
                &&& final(self).state() == ProcessState::Unstarted
                &&& final(self).restarts() == old(self).restarts() + 1
                &&& final(self).tasks() == 0
            },
    {
        match self.fault_response {
            FaultResponse::Panic => {
                self.state = ProcessState::Faulted;
                FaultAction::Halt
            },
            FaultResponse::Restart => {
                self.state = ProcessState::Unstarted;
                self.restarts = self.restarts + 1;
                self.tasks = 0;
                FaultAction::Restarted
            },
        }
    }
}

/// A process's identity changes exactly when it restarts: after a run
/// stops, its restart count differs from before if and only if the run
/// faulted under the `Restart` policy.
pub proof fn lemma_identity_changes_only_on_restart(
    pre: Process,
    post: Process,
    outcome: RunOutcome,
    r: Option<FaultAction>,
)
    requires
        post.stopped_from(pre, outcome, r),
    ensures
        post.restarts() != pre.restarts() <==> (outcome == RunOutcome::Faulted
            && pre.fault_response() == FaultResponse::Restart),
{
}

/// The little-endian word at `at`.
fn read_word(flash: &Vec<u8>, at: usize) -> (r: u32)
    requires
        at + 4 <= flash.len(),
    ensures
        r as nat == word_at(flash@, at as int),
{
    flash[at] as u32 + flash[at + 1] as u32 * 256 + flash[at + 2] as u32 * 65536 + flash[at + 3] as u32
        * 16777216
}

/// Parses and validates the header of the image at flash offset `at`;
/// `None` where no valid image starts.
pub fn parse_image(flash: &Vec<u8>, at: usize) -> (r: Option<ImageHeader>)
    ensures
        r == image_at(flash@, at as nat),
{
    if at > flash.len() || flash.len() - at < HEADER_SIZE {
        return None;
    }
    let h = ImageHeader {
        version: read_word(flash, at),
        total_size: read_word(flash, at + 4),
        ram_size: read_word(flash, at + 8),
        checksum: read_word(flash, at + 12),
    };
    if h.version == HEADER_VERSION && h.checksum == h.version ^ h.total_size ^ h.ram_size
        && h.total_size as usize >= HEADER_SIZE && h.total_size as usize <= flash.len() - at {
        Some(h)
    } else {
        None
    }
}

/// A process of `w`, placed at `flash_base` and `ram_base`, as loading makes it.
pub open spec fn created_from(p: Process, w: Windows, flash_base: nat, ram_base: nat, fault_response: FaultResponse) -> bool {
    &&& p.wf()
    &&& p.flash_start() == flash_base + w.flash_start
    &&& p.flash_len() == w.flash_len
    &&& p.ram_start() == ram_base + w.ram_start
    &&& p.ram_len() == w.ram_len
    &&& p.state() == ProcessState::Unstarted
    &&& p.fault_response() == fault_response
    &&& p.restarts() == 0
    &&& p.tasks() == 0
}

/// Creates the processes of the images in `flash`, the region that starts at
/// address `flash_base`, slicing their RAM off the arena of `ram_size` bytes
/// at `ram_base`, into at most `num_procs` slots. Every process gets the
/// board's `fault_response`. The result holds exactly the processes that
/// `loaded` describes, fully made, in slot order.
pub fn load_processes(
    flash: &Vec<u8>,
    flash_base: usize,
    ram_base: usize,
    ram_size: usize,
    num_procs: usize,
    fault_response: FaultResponse,
) -> (r: Vec<Process>)
    requires
        flash_base + flash.len() <= usize::MAX,
        ram_base + ram_size <= usize::MAX,
    ensures
        r@.len() == loaded(flash@, 0, 0, ram_size as nat, num_procs as nat).len(),
        forall|i: int|
            0 <= i < r@.len() ==> created_from(
                #[trigger] r@[i],
                loaded(flash@, 0, 0, ram_size as nat, num_procs as nat)[i],
                flash_base as nat,
                ram_base as nat,
                fault_response,
            ),
{
    let ghost all = loaded(flash@, 0, 0, ram_size as nat, num_procs as nat);
    let mut procs: Vec<Process> = Vec::new();
    let mut at: usize = 0;
    let mut ram_at: usize = 0;
    let mut i: usize = 0;
    while i < num_procs
        invariant
            flash_base + flash.len() <= usize::MAX,
            ram_base + ram_size <= usize::MAX,
            at <= flash.len(),
            ram_at <= ram_size,
            i <= num_procs,
            procs@.len() == i,
            i <= all.len(),
            all == loaded(flash@, 0, 0, ram_size as nat, num_procs as nat),
            all == all.take(i as int) + loaded(
                flash@,
                at as nat,
                ram_at as nat,
                (ram_size - ram_at) as nat,
                (num_procs - i) as nat,
            ),
            forall|k: int|
                0 <= k < i ==> created_from(
                    #[trigger] procs@[k],
                    all[k],
                    flash_base as nat,
                    ram_base as nat,
                    fault_response,
                ),
        ensures
            all =~= all.take(i as int),
        decreases num_procs - i,
    {
        let ghost rest = loaded(flash@, at as nat, ram_at as nat, (ram_size - ram_at) as nat, (num_procs - i) as nat);
        let h = match parse_image(flash, at) {
            Some(h) => h,
            None => {
                assert(all =~= all.take(i as int));
                break;
            },
        };
        if h.ram_size as usize > ram_size - ram_at {
            assert(all =~= all.take(i as int));
            break;
        }
        let p = Process {
            flash_start: flash_base + at,
            flash_len: h.total_size as usize,
            ram_start: ram_base + ram_at,
            ram_len: h.ram_size as usize,
            state: ProcessState::Unstarted,
            fault_response,
            restarts: 0,
            tasks: 0,
        };
        procs.push(p);
        let ghost next_rest = loaded(
            flash@,
            (at + h.total_size) as nat,
            (ram_at + h.ram_size) as nat,
            (ram_size - ram_at - h.ram_size) as nat,
            (num_procs - i - 1) as nat,
        );
        let ghost w = Windows {
            flash_start: at as nat,
            flash_len: h.total_size as nat,
            ram_start: ram_at as nat,
            ram_len: h.ram_size as nat,
        };
        assert(rest == seq![w] + next_rest);
        assert(all[i as int] == w);
        at = at + h.total_size as usize;
        ram_at = ram_at + h.ram_size as usize;
        i = i + 1;
        assert(all.take(i as int) =~= all.take(i - 1) + seq![all[i - 1]]);
        assert(all =~= all.take(i as int) + next_rest);
        if i == num_procs {
            assert(next_rest =~= Seq::<Windows>::empty());
            assert(all =~= all.take(i as int));
        }
    }
    procs
}

} // verus!
