//! The SAM4L interrupt sources, the bottom-half dispatcher that maps each
//! queued source to its peripheral handler, and the sleep decision.
use vstd::prelude::*;
use crate::ring_buffer::RingBuffer;

verus! {

/// Interrupt lines of the SAM4L's nested vectored interrupt controller.
#[allow(non_camel_case_types)]
#[derive(Clone, Copy, Debug, PartialEq, Eq, Structural)]
pub enum NvicIdx {
    HFLASHC,
    PDCA0,
    PDCA1,
    PDCA2,
    PDCA3,
    PDCA4,
    PDCA5,
    PDCA6,
    PDCA7,
    PDCA8,
    PDCA9,
    PDCA10,
    PDCA11,
    PDCA12,
    PDCA13,
    PDCA14,
    PDCA15,
    CRCCU,
    USBC,
    PEVCTR,
    PEVCOV,
    AESA,
    PM,
    SCIF,
    FREQM,
    GPIO0,
    GPIO1,
    GPIO2,
    GPIO3,
    GPIO4,
    GPIO5,
    GPIO6,
    GPIO7,
    GPIO8,
    GPIO9,
    GPIO10,
    GPIO11,
    BPM,
    BSCIF,
    ASTALARM,
    ASTPER,
    ASTOVF,
    ASTREADY,
    ASTCLKREADY,
    TWIM0,
    TWIS0,
    TWIM1,
    TWIS1,
    IISC,
    SPI,
    TWIM2,
    TWIM3,
    USART0,
    USART1,
    USART2,
    USART3,
    ADCIFE,
    DACC,
    ACIFC,
    ABDACB,
    TRNG,
    PARC,
    CATB,
    LCDCA,
}

/// The three GPIO ports.
#[derive(Clone, Copy, Debug, PartialEq, Eq, Structural)]
pub enum GpioPort {
    PA,
    PB,
    PC,
}

/// A peripheral whose interrupt handler the bottom half runs. Indexed
/// peripherals carry their instance number.
#[derive(Clone, Copy, Debug, PartialEq, Eq, Structural)]
pub enum Peripheral {
    Ast,
    Usart(u8),
    DmaChannel(u8),
    Crccu,
    Gpio(GpioPort),
    Spi,
    I2cMaster(u8),
    I2cSlave(u8),
    FlashController,
    Adc,
    Dac,
    Trng,
    Aes,
}

/// The handler that services `i`; `None` for a line without one, which is
/// only re-enabled.
pub open spec fn handler_spec(i: NvicIdx) -> Option<Peripheral> {
    match i {
        NvicIdx::ASTALARM => Some(Peripheral::Ast),
        NvicIdx::USART0 => Some(Peripheral::Usart(0)),
        NvicIdx::USART1 => Some(Peripheral::Usart(1)),
        NvicIdx::USART2 => Some(Peripheral::Usart(2)),
        NvicIdx::USART3 => Some(Peripheral::Usart(3)),
        NvicIdx::PDCA0 => Some(Peripheral::DmaChannel(0)),
        NvicIdx::PDCA1 => Some(Peripheral::DmaChannel(1)),
        NvicIdx::PDCA2 => Some(Peripheral::DmaChannel(2)),
        NvicIdx::PDCA3 => Some(Peripheral::DmaChannel(3)),
        NvicIdx::PDCA4 => Some(Peripheral::DmaChannel(4)),
        NvicIdx::PDCA5 => Some(Peripheral::DmaChannel(5)),
        NvicIdx::PDCA6 => Some(Peripheral::DmaChannel(6)),
        NvicIdx::PDCA7 => Some(Peripheral::DmaChannel(7)),
        NvicIdx::PDCA8 => Some(Peripheral::DmaChannel(8)),
        NvicIdx::PDCA9 => Some(Peripheral::DmaChannel(9)),
        NvicIdx::PDCA10 => Some(Peripheral::DmaChannel(10)),
        NvicIdx::PDCA11 => Some(Peripheral::DmaChannel(11)),
        NvicIdx::PDCA12 => Some(Peripheral::DmaChannel(12)),
        NvicIdx::PDCA13 => Some(Peripheral::DmaChannel(13)),
        NvicIdx::PDCA14 => Some(Peripheral::DmaChannel(14)),
        NvicIdx::PDCA15 => Some(Peripheral::DmaChannel(15)),
        NvicIdx::CRCCU => Some(Peripheral::Crccu),
        NvicIdx::GPIO0 | NvicIdx::GPIO1 | NvicIdx::GPIO2 | NvicIdx::GPIO3 => Some(
            Peripheral::Gpio(GpioPort::PA),
        ),
        NvicIdx::GPIO4 | NvicIdx::GPIO5 | NvicIdx::GPIO6 | NvicIdx::GPIO7 => Some(
            Peripheral::Gpio(GpioPort::PB),
        ),
        NvicIdx::GPIO8 | NvicIdx::GPIO9 | NvicIdx::GPIO10 | NvicIdx::GPIO11 => Some(
            Peripheral::Gpio(GpioPort::PC),
        ),
        NvicIdx::SPI => Some(Peripheral::Spi),
        NvicIdx::TWIM0 => Some(Peripheral::I2cMaster(0)),
        NvicIdx::TWIM1 => Some(Peripheral::I2cMaster(1)),
        NvicIdx::TWIM2 => Some(Peripheral::I2cMaster(2)),
        NvicIdx::TWIM3 => Some(Peripheral::I2cMaster(3)),
        NvicIdx::TWIS0 => Some(Peripheral::I2cSlave(0)),
        NvicIdx::TWIS1 => Some(Peripheral::I2cSlave(1)),
        NvicIdx::HFLASHC => Some(Peripheral::FlashController),
        NvicIdx::ADCIFE => Some(Peripheral::Adc),
        NvicIdx::DACC => Some(Peripheral::Dac),
        NvicIdx::TRNG => Some(Peripheral::Trng),
        NvicIdx::AESA => Some(Peripheral::Aes),
        _ => None,
    }
}

/// The peripheral handler for interrupt line `i`, if it has one.
pub fn handler_for(i: NvicIdx) -> (r: Option<Peripheral>)
    ensures
        r == handler_spec(i),
{
    match i {
        NvicIdx::ASTALARM => Some(Peripheral::Ast),
        NvicIdx::USART0 => Some(Peripheral::Usart(0)),
        NvicIdx::USART1 => Some(Peripheral::Usart(1)),
        NvicIdx::USART2 => Some(Peripheral::Usart(2)),
        NvicIdx::USART3 => Some(Peripheral::Usart(3)),
        NvicIdx::PDCA0 => Some(Peripheral::DmaChannel(0)),
        NvicIdx::PDCA1 => Some(Peripheral::DmaChannel(1)),
        NvicIdx::PDCA2 => Some(Peripheral::DmaChannel(2)),
        NvicIdx::PDCA3 => Some(Peripheral::DmaChannel(3)),
        NvicIdx::PDCA4 => Some(Peripheral::DmaChannel(4)),
        NvicIdx::PDCA5 => Some(Peripheral::DmaChannel(5)),
        NvicIdx::PDCA6 => Some(Peripheral::DmaChannel(6)),
        NvicIdx::PDCA7 => Some(Peripheral::DmaChannel(7)),
        NvicIdx::PDCA8 => Some(Peripheral::DmaChannel(8)),
        NvicIdx::PDCA9 => Some(Peripheral::DmaChannel(9)),
        NvicIdx::PDCA10 => Some(Peripheral::DmaChannel(10)),
        NvicIdx::PDCA11 => Some(Peripheral::DmaChannel(11)),
        NvicIdx::PDCA12 => Some(Peripheral::DmaChannel(12)),
        NvicIdx::PDCA13 => Some(Peripheral::DmaChannel(13)),
        NvicIdx::PDCA14 => Some(Peripheral::DmaChannel(14)),
        NvicIdx::PDCA15 => Some(Peripheral::DmaChannel(15)),
        NvicIdx::CRCCU => Some(Peripheral::Crccu),
        NvicIdx::GPIO0 | NvicIdx::GPIO1 | NvicIdx::GPIO2 | NvicIdx::GPIO3 => Some(
            Peripheral::Gpio(GpioPort::PA),
        ),
        NvicIdx::GPIO4 | NvicIdx::GPIO5 | NvicIdx::GPIO6 | NvicIdx::GPIO7 => Some(
            Peripheral::Gpio(GpioPort::PB),
        ),
        NvicIdx::GPIO8 | NvicIdx::GPIO9 | NvicIdx::GPIO10 | NvicIdx::GPIO11 => Some(
            Peripheral::Gpio(GpioPort::PC),
        ),
        NvicIdx::SPI => Some(Peripheral::Spi),
        NvicIdx::TWIM0 => Some(Peripheral::I2cMaster(0)),
        NvicIdx::TWIM1 => Some(Peripheral::I2cMaster(1)),
        NvicIdx::TWIM2 => Some(Peripheral::I2cMaster(2)),
        NvicIdx::TWIM3 => Some(Peripheral::I2cMaster(3)),
        NvicIdx::TWIS0 => Some(Peripheral::I2cSlave(0)),
        NvicIdx::TWIS1 => Some(Peripheral::I2cSlave(1)),
        NvicIdx::HFLASHC => Some(Peripheral::FlashController),
        NvicIdx::ADCIFE => Some(Peripheral::Adc),
        NvicIdx::DACC => Some(Peripheral::Dac),
        NvicIdx::TRNG => Some(Peripheral::Trng),
        NvicIdx::AESA => Some(Peripheral::Aes),
        _ => None,
    }
}

/// One serviced interrupt: run `handler` (if any), and only then re-enable
/// the line `interrupt` at the controller.
#[derive(Clone, Copy, Debug, PartialEq, Eq, Structural)]
pub struct Dispatch {
    pub interrupt: NvicIdx,
    pub handler: Option<Peripheral>,
}

pub open spec fn dispatch_spec(i: NvicIdx) -> Dispatch {
    Dispatch { interrupt: i, handler: handler_spec(i) }
}

/// Transfer width of a DMA channel.
#[derive(Clone, Copy, Debug, PartialEq, Eq, Structural)]
pub enum DmaWidth {
    Width8Bit,
    Width16Bit,
}

/// The peripheral that a DMA channel serves at boot, and its width.
#[derive(Clone, Copy, Debug, PartialEq, Eq, Structural)]
pub struct DmaAssignment {
    pub peripheral: Peripheral,
    pub width: DmaWidth,
}

/// Which peripheral each DMA channel serves: two channels for each USART
/// and for SPI, one for each of the first three I2C masters, one for the ADC.
pub open spec fn dma_assignment_spec(channel: usize) -> Option<DmaAssignment> {
    if channel < 8 {
        Some(DmaAssignment { peripheral: Peripheral::Usart((channel / 2) as u8), width: DmaWidth::Width8Bit })
    } else if channel < 10 {
        Some(DmaAssignment { peripheral: Peripheral::Spi, width: DmaWidth::Width8Bit })
    } else if channel < 13 {
        Some(DmaAssignment { peripheral: Peripheral::I2cMaster((channel - 10) as u8), width: DmaWidth::Width8Bit })
    } else if channel == 13 {
        Some(DmaAssignment { peripheral: Peripheral::Adc, width: DmaWidth::Width16Bit })
    } else {
        None
    }
}

/// The boot-time assignment of DMA `channel`, or `None` for a free channel.
pub fn dma_assignment(channel: usize) -> (r: Option<DmaAssignment>)
    ensures
        r == dma_assignment_spec(channel),
{
    if channel < 8 {
        Some(DmaAssignment { peripheral: Peripheral::Usart((channel / 2) as u8), width: DmaWidth::Width8Bit })
    } else if channel < 10 {
        Some(DmaAssignment { peripheral: Peripheral::Spi, width: DmaWidth::Width8Bit })
    } else if channel < 13 {
        Some(DmaAssignment { peripheral: Peripheral::I2cMaster((channel - 10) as u8), width: DmaWidth::Width8Bit })
    } else if channel == 13 {
        Some(DmaAssignment { peripheral: Peripheral::Adc, width: DmaWidth::Width16Bit })
    } else {
        None
    }
}

/// How deeply the CPU may sleep.
#[derive(Clone, Copy, Debug, PartialEq, Eq, Structural)]
pub enum SleepMode {
    Sleep,
    DeepSleep,
}

/// Deep sleep when the power manager reports that no clock needed in deep
/// sleep is running; plain sleep otherwise.
pub fn sleep_mode(deep_sleep_ready: bool) -> (r: SleepMode)
    ensures
        deep_sleep_ready ==> r == SleepMode::DeepSleep,
        !deep_sleep_ready ==> r == SleepMode::Sleep,
{
    if deep_sleep_ready {
        SleepMode::DeepSleep
    } else {
        SleepMode::Sleep
    }
}

/// Room in the pending interrupt queue.
pub const IQ_SIZE: usize = 100;

/// The chip's kernel-side state: the queue of interrupts that the top halves
/// have recorded and the bottom half has yet to service.
pub struct Sam4l {
    queue: RingBuffer<NvicIdx>,
}

impl Sam4l {
    pub closed spec fn wf(&self) -> bool {
        self.queue.wf()
    }

    /// The pending interrupts, oldest first.
    pub closed spec fn view(&self) -> Seq<NvicIdx> {
        self.queue@
    }

    pub closed spec fn capacity(&self) -> nat {
        self.queue.capacity()
    }

    /// A chip with an empty pending queue of room `IQ_SIZE`.
    pub fn new() -> (r: Sam4l)
        ensures
            r.wf(),
            r@ == Seq::<NvicIdx>::empty(),
            r.capacity() == IQ_SIZE,
    {
        let storage = vec![NvicIdx::HFLASHC; IQ_SIZE];
        Sam4l { queue: RingBuffer::new(storage) }
    }

    /// Records interrupt `i` as the top half does. On a full queue the
    /// interrupt is dropped and the result is `false`.
    pub fn interrupt_fired(&mut self, i: NvicIdx) -> (r: bool)
        requires
            old(self).wf(),
        ensures
            final(self).wf(),
            final(self).capacity() == old(self).capacity(),
            r == (old(self)@.len() < old(self).capacity()),
            final(self)@ == crate::ring_buffer::enqueue_spec(old(self)@, old(self).capacity(), i),
    {
        self.queue.enqueue(i)
    }

    /// Drains the pending queue to empty. The result lists, oldest first, one
    /// `Dispatch` for each drained interrupt: its handler, then its line to
    /// re-enable. Lines without a handler are re-enabled only.
    pub fn service_pending_interrupts(&mut self) -> (r: Vec<Dispatch>)
        requires
            old(self).wf(),
        ensures
            final(self).wf(),
            final(self).capacity() == old(self).capacity(),
            final(self)@ == Seq::<NvicIdx>::empty(),
            r@ == old(self)@.map_values(|i: NvicIdx| dispatch_spec(i)),
    {
        let ghost pending = self@;
        let mut out: Vec<Dispatch> = Vec::new();
        while self.queue.has_elements()
            invariant
                self.wf(),
                self.capacity() == old(self).capacity(),
                out@ + self@.map_values(|i: NvicIdx| dispatch_spec(i)) == pending.map_values(
                    |i: NvicIdx| dispatch_spec(i),
                ),
            decreases self@.len(),
        {
            let ghost before = self@;
            match self.queue.dequeue() {
                Some(i) => {
                    let d = Dispatch { interrupt: i, handler: handler_for(i) };
                    out.push(d);
                    assert(before.map_values(|i: NvicIdx| dispatch_spec(i)) =~= seq![d]
                        + self@.map_values(|i: NvicIdx| dispatch_spec(i)));
                },
                None => {},
            }
        }
        assert(self@.map_values(|i: NvicIdx| dispatch_spec(i)) =~= Seq::<Dispatch>::empty());
        assert(out@ =~= out@ + Seq::<Dispatch>::empty());
        out
    }

    /// Whether any interrupt waits for the bottom half.
    pub fn has_pending_interrupts(&self) -> (r: bool)
        requires
            self.wf(),
        ensures
            r == (self@.len() > 0),
            !r <==> self@ == Seq::<NvicIdx>::empty(),
    {
        let r = self.queue.has_elements();
        assert(self@.len() == 0 ==> self@ =~= Seq::<NvicIdx>::empty());
        r
    }
}

} // verus!
