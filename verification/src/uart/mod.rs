//! The serial port as the buffered driver sees it: the faults it reports, the
//! flags and FIFOs of its register block, its interrupt line, and the
//! [`Instance`] trait through which the driver reaches them.
use vstd::prelude::*;

pub mod bridge;
pub mod buffered;
pub mod sim;
pub mod state;

verus! {

/// Line status flag: noise was detected on the pending byte.
pub const RXE_NOISE: u32 = 0x8000;

/// Line status flag: the pending byte has a parity error.
pub const RXE_PARITYERR: u32 = 0x4000;

/// Line status flag: the pending byte has a framing error.
pub const RXE_FRAMERR: u32 = 0x2000;

/// Line status flag: a break is in progress on the receive line.
pub const RXE_BREAK: u32 = 0x0400;

/// All four fault flags of the line status word.
pub const RXE_MASK: u32 = 0xe400;

/// Serial port error.
#[derive(Clone, Copy, Debug, PartialEq, Eq, Structural)]
pub enum Error {
    /// The receive FIFO reported an error and was emptied.
    Read,
    /// Noise was detected on the line.
    Noise,
    /// A received byte had a parity error.
    Parity,
    /// A received byte had a framing error.
    Framing,
    /// A break was seen on the receive line.
    Break,
    /// The peripheral setup rejected the pins or the configuration.
    UnsupportedConfiguration,
}

/// Whether a line status word reports a fault.
pub open spec fn is_fault(status: u32) -> bool {
    status & RXE_MASK != 0
}

/// The one fault that a word of latched fault flags stands for: the first
/// that is set of noise, parity, framing and break, in this order.
pub open spec fn fault_of(bits: u32) -> Option<Error> {
    if bits & RXE_NOISE != 0 {
        Some(Error::Noise)
    } else if bits & RXE_PARITYERR != 0 {
        Some(Error::Parity)
    } else if bits & RXE_FRAMERR != 0 {
        Some(Error::Framing)
    } else if bits & RXE_BREAK != 0 {
        Some(Error::Break)
    } else {
        None
    }
}

/// A word stands for a fault exactly if one of the four fault flags is set
/// in it; flags outside the four do not matter.
pub proof fn lemma_fault_of(bits: u32)
    ensures
        RXE_MASK == RXE_NOISE | RXE_PARITYERR | RXE_FRAMERR | RXE_BREAK,
        fault_of(bits) is Some <==> is_fault(bits),
        fault_of(bits & RXE_MASK) == fault_of(bits),
        fault_of(0) is None,
{
    assert(0xe400u32 == 0x8000u32 | 0x4000u32 | 0x2000u32 | 0x0400u32) by (bit_vector);
    assert((bits & 0x8000 != 0 || bits & 0x4000 != 0 || bits & 0x2000 != 0 || bits & 0x0400 != 0)
        <==> bits & 0xe400 != 0) by (bit_vector);
    assert((bits & 0xe400) & 0x8000 == bits & 0x8000) by (bit_vector);
    assert((bits & 0xe400) & 0x4000 == bits & 0x4000) by (bit_vector);
    assert((bits & 0xe400) & 0x2000 == bits & 0x2000) by (bit_vector);
    assert((bits & 0xe400) & 0x0400 == bits & 0x0400) by (bit_vector);
    assert(0u32 & 0x8000 == 0 && 0u32 & 0x4000 == 0 && 0u32 & 0x2000 == 0 && 0u32 & 0x0400 == 0)
        by (bit_vector);
}

/// Decodes a word of latched fault flags into the fault it stands for.
pub fn decode_fault(bits: u32) -> (r: Option<Error>)
    ensures
        r == fault_of(bits),
{
    if bits & RXE_NOISE != 0 {
        Some(Error::Noise)
    } else if bits & RXE_PARITYERR != 0 {
        Some(Error::Parity)
    } else if bits & RXE_FRAMERR != 0 {
        Some(Error::Framing)
    } else if bits & RXE_BREAK != 0 {
        Some(Error::Break)
    } else {
        None
    }
}

/// Parity of the serial frames.
#[derive(Clone, Copy, Debug, PartialEq, Eq, Structural)]
pub enum Parity {
    /// No parity bit.
    ParityNone,
    /// Even parity.
    ParityEven,
    /// Odd parity.
    ParityOdd,
}

/// Stop bits of the serial frames.
#[derive(Clone, Copy, Debug, PartialEq, Eq, Structural)]
pub enum StopBits {
    /// One stop bit.
    Stop1,
    /// Two stop bits.
    Stop2,
}

/// Line configuration. The buffered driver does not look inside: it hands
/// the value to the peripheral setup.
#[derive(Clone, Copy, Debug, PartialEq, Eq, Structural)]
pub struct Config {
    /// Baud rate.
    pub baudrate: u32,
    /// Parity.
    pub parity: Parity,
    /// Stop bits.
    pub stop_bits: StopBits,
}

/// Which signals of the port are routed to pins.
#[derive(Clone, Copy, Debug, PartialEq, Eq, Structural)]
pub struct Pins {
    /// Transmit data.
    pub tx: bool,
    /// Receive data.
    pub rx: bool,
    /// Request to send.
    pub rts: bool,
    /// Clear to send.
    pub cts: bool,
}

/// The interrupt sources of the line logic that software has to
/// acknowledge.
#[derive(Clone, Copy, Debug, PartialEq, Eq, Structural)]
pub struct IntFlags {
    /// The transmitter has gone idle.
    pub tx_idle: bool,
    /// Framing error.
    pub framing: bool,
    /// Parity error.
    pub parity: bool,
    /// Noise on the line.
    pub noise: bool,
    /// The break state of the receive line has changed.
    pub rx_break: bool,
}

impl IntFlags {
    /// No source.
    pub open spec fn none() -> IntFlags {
        IntFlags { tx_idle: false, framing: false, parity: false, noise: false, rx_break: false }
    }

    /// The four fault sources.
    pub open spec fn faults() -> IntFlags {
        IntFlags { tx_idle: false, framing: true, parity: true, noise: true, rx_break: true }
    }

    /// Whether any source is in the set.
    pub open spec fn any(self) -> bool {
        self.tx_idle || self.framing || self.parity || self.noise || self.rx_break
    }

    /// The sources that are in both sets.
    pub open spec fn and(self, other: IntFlags) -> IntFlags {
        IntFlags {
            tx_idle: self.tx_idle && other.tx_idle,
            framing: self.framing && other.framing,
            parity: self.parity && other.parity,
            noise: self.noise && other.noise,
            rx_break: self.rx_break && other.rx_break,
        }
    }

    /// The sources that are in either set.
    pub open spec fn or(self, other: IntFlags) -> IntFlags {
        IntFlags {
            tx_idle: self.tx_idle || other.tx_idle,
            framing: self.framing || other.framing,
            parity: self.parity || other.parity,
            noise: self.noise || other.noise,
            rx_break: self.rx_break || other.rx_break,
        }
    }

    /// The sources of this set that are not in `other`.
    pub open spec fn without(self, other: IntFlags) -> IntFlags {
        IntFlags {
            tx_idle: self.tx_idle && !other.tx_idle,
            framing: self.framing && !other.framing,
            parity: self.parity && !other.parity,
            noise: self.noise && !other.noise,
            rx_break: self.rx_break && !other.rx_break,
        }
    }

    /// Whether any source is in the set.
    pub fn is_any(self) -> (r: bool)
        ensures
            r == self.any(),
    {
        self.tx_idle || self.framing || self.parity || self.noise || self.rx_break
    }

    /// The sources that are in both sets.
    pub fn intersection(self, other: IntFlags) -> (r: IntFlags)
        ensures
            r == self.and(other),
    {
        IntFlags {
            tx_idle: self.tx_idle && other.tx_idle,
            framing: self.framing && other.framing,
            parity: self.parity && other.parity,
            noise: self.noise && other.noise,
            rx_break: self.rx_break && other.rx_break,
        }
    }

    /// The sources that are in either set.
    pub fn union(self, other: IntFlags) -> (r: IntFlags)
        ensures
            r == self.or(other),
    {
        IntFlags {
            tx_idle: self.tx_idle || other.tx_idle,
            framing: self.framing || other.framing,
            parity: self.parity || other.parity,
            noise: self.noise || other.noise,
            rx_break: self.rx_break || other.rx_break,
        }
    }

    /// The sources of this set that are not in `other`.
    pub fn difference(self, other: IntFlags) -> (r: IntFlags)
        ensures
            r == self.without(other),
    {
        IntFlags {
            tx_idle: self.tx_idle && !other.tx_idle,
            framing: self.framing && !other.framing,
            parity: self.parity && !other.parity,
            noise: self.noise && !other.noise,
            rx_break: self.rx_break && !other.rx_break,
        }
    }
}

/// The interrupt sources of the FIFO controller.
#[derive(Clone, Copy, Debug, PartialEq, Eq, Structural)]
pub struct FifoFlags {
    /// The receive FIFO has reached its trigger level.
    pub rx_level: bool,
    /// The transmit FIFO has fallen to its trigger level.
    pub tx_level: bool,
    /// Receive FIFO error.
    pub rx_error: bool,
    /// Transmit FIFO error.
    pub tx_error: bool,
}

impl FifoFlags {
    /// No source.
    pub open spec fn none() -> FifoFlags {
        FifoFlags { rx_level: false, tx_level: false, rx_error: false, tx_error: false }
    }

    /// The receive level source alone.
    pub open spec fn rx_level_only() -> FifoFlags {
        FifoFlags { rx_level: true, tx_level: false, rx_error: false, tx_error: false }
    }

    /// The two level sources.
    pub open spec fn levels() -> FifoFlags {
        FifoFlags { rx_level: true, tx_level: true, rx_error: false, tx_error: false }
    }

    /// The sources that are in both sets.
    pub open spec fn and(self, other: FifoFlags) -> FifoFlags {
        FifoFlags {
            rx_level: self.rx_level && other.rx_level,
            tx_level: self.tx_level && other.tx_level,
            rx_error: self.rx_error && other.rx_error,
            tx_error: self.tx_error && other.tx_error,
        }
    }

    /// The sources that are in either set.
    pub open spec fn or(self, other: FifoFlags) -> FifoFlags {
        FifoFlags {
            rx_level: self.rx_level || other.rx_level,
            tx_level: self.tx_level || other.tx_level,
            rx_error: self.rx_error || other.rx_error,
            tx_error: self.tx_error || other.tx_error,
        }
    }

    /// The sources of this set that are not in `other`.
    pub open spec fn without(self, other: FifoFlags) -> FifoFlags {
        FifoFlags {
            rx_level: self.rx_level && !other.rx_level,
            tx_level: self.tx_level && !other.tx_level,
            rx_error: self.rx_error && !other.rx_error,
            tx_error: self.tx_error && !other.tx_error,
        }
    }

    /// Whether any source is in the set.
    pub open spec fn any(self) -> bool {
        self.rx_level || self.tx_level || self.rx_error || self.tx_error
    }

    /// Whether any source is in the set.
    pub fn is_any(self) -> (r: bool)
        ensures
            r == self.any(),
    {
        self.rx_level || self.tx_level || self.rx_error || self.tx_error
    }

    /// The sources that are in both sets.
    pub fn intersection(self, other: FifoFlags) -> (r: FifoFlags)
        ensures
            r == self.and(other),
    {
        FifoFlags {
            rx_level: self.rx_level && other.rx_level,
            tx_level: self.tx_level && other.tx_level,
            rx_error: self.rx_error && other.rx_error,
            tx_error: self.tx_error && other.tx_error,
        }
    }

    /// The sources that are in either set.
    pub fn union(self, other: FifoFlags) -> (r: FifoFlags)
        ensures
            r == self.or(other),
    {
        FifoFlags {
            rx_level: self.rx_level || other.rx_level,
            tx_level: self.tx_level || other.tx_level,
            rx_error: self.rx_error || other.rx_error,
            tx_error: self.tx_error || other.tx_error,
        }
    }

    /// The sources of this set that are not in `other`.
    pub fn difference(self, other: FifoFlags) -> (r: FifoFlags)
        ensures
            r == self.without(other),
    {
        FifoFlags {
            rx_level: self.rx_level && !other.rx_level,
            tx_level: self.tx_level && !other.tx_level,
            rx_error: self.rx_error && !other.rx_error,
            tx_error: self.tx_error && !other.tx_error,
        }
    }
}

/// One entry of the receive FIFO: a byte, and the line status word that the
/// port shows while this byte is the next to be read.
#[derive(Clone, Copy, Debug, PartialEq, Eq, Structural)]
pub struct RxEntry {
    /// The received byte.
    pub data: u8,
    /// The line status word shown with it.
    pub status: u32,
}

/// An operation of software on the interrupt line.
#[derive(Clone, Copy, Debug, PartialEq, Eq, Structural)]
pub enum LineOp {
    /// Lets the line through to the processor.
    Enable,
    /// Blocks the line.
    Disable,
    /// Makes the line pending by hand.
    Pend,
    /// Takes a pending request back.
    Unpend,
}

/// How often `op` occurs in a record of line operations.
pub open spec fn count_ops(ops: Seq<LineOp>, op: LineOp) -> nat
    decreases ops.len(),
{
    if ops.len() == 0 {
        0
    } else {
        count_ops(ops.drop_last(), op) + if ops.last() == op {
            1nat
        } else {
            0nat
        }
    }
}

/// The interrupt line of the port at the interrupt controller.
pub struct Line {
    /// Whether the controller lets the line through.
    pub enabled: bool,
    /// Whether the line is pending.
    pub pending: bool,
    /// Every operation of software on the line so far, oldest first.
    pub ops: Seq<LineOp>,
}

impl Line {
    /// The line after `op`.
    pub open spec fn apply(self, op: LineOp) -> Line {
        Line {
            enabled: match op {
                LineOp::Enable => true,
                LineOp::Disable => false,
                _ => self.enabled,
            },
            pending: match op {
                LineOp::Pend => true,
                LineOp::Unpend => false,
                _ => self.pending,
            },
            ops: self.ops.push(op),
        }
    }
}

/// The state of a port, as far as the buffered driver deals with it.
pub struct Device {
    /// The receive FIFO, oldest entry first.
    pub rx_fifo: Seq<RxEntry>,
    /// The error flag of the receive FIFO.
    pub rx_error: bool,
    /// The transmit FIFO, oldest byte first.
    pub tx_fifo: Seq<u8>,
    /// The number of bytes that the transmit FIFO holds at most.
    pub tx_depth: nat,
    /// Whether the transmitter is idle.
    pub tx_idle: bool,
    /// The line sources whose condition is raised.
    pub raised: IntFlags,
    /// The line sources that may interrupt.
    pub enabled: IntFlags,
    /// The FIFO sources whose condition is raised.
    pub fifo_raised: FifoFlags,
    /// The FIFO sources that may interrupt.
    pub fifo_enabled: FifoFlags,
    /// Whether the receive FIFO compares its fill with a trigger level.
    pub rx_trigger: bool,
    /// Whether the transmit FIFO compares its fill with a trigger level.
    pub tx_trigger: bool,
    /// The interrupt line.
    pub line: Line,
    /// The pins and the configuration of the last successful setup.
    pub setup: Option<(Pins, Config)>,
}

impl Device {
    /// The line sources that ask for an interrupt: raised and enabled.
    pub open spec fn int_status(self) -> IntFlags {
        self.raised.and(self.enabled)
    }

    /// The FIFO sources that ask for an interrupt: raised and enabled.
    pub open spec fn fifo_int_status(self) -> FifoFlags {
        self.fifo_raised.and(self.fifo_enabled)
    }

    /// The line status word: that of the next entry of the receive FIFO, or
    /// zero when the FIFO is empty.
    pub open spec fn line_status(self) -> u32 {
        if self.rx_fifo.len() > 0 {
            self.rx_fifo[0].status
        } else {
            0
        }
    }

    /// The number of bytes that the transmit FIFO still takes.
    pub open spec fn tx_room(self) -> nat {
        if self.tx_fifo.len() < self.tx_depth {
            (self.tx_depth - self.tx_fifo.len()) as nat
        } else {
            0
        }
    }

    /// The device after software has operated the interrupt line.
    pub open spec fn line_op(self, op: LineOp) -> Device {
        Device { line: self.line.apply(op), ..self }
    }

    /// The device after line sources were enabled.
    pub open spec fn int_enable(self, flags: IntFlags) -> Device {
        Device { enabled: self.enabled.or(flags), ..self }
    }

    /// The device after line sources were disabled.
    pub open spec fn int_disable(self, flags: IntFlags) -> Device {
        Device { enabled: self.enabled.without(flags), ..self }
    }

    /// The device after FIFO sources were enabled.
    pub open spec fn fifo_int_enable(self, flags: FifoFlags) -> Device {
        Device { fifo_enabled: self.fifo_enabled.or(flags), ..self }
    }

    /// The device after FIFO sources were disabled.
    pub open spec fn fifo_int_disable(self, flags: FifoFlags) -> Device {
        Device { fifo_enabled: self.fifo_enabled.without(flags), ..self }
    }

    /// The device after the trigger levels were switched on.
    pub open spec fn trigger_enable(self, rx: bool, tx: bool) -> Device {
        Device { rx_trigger: self.rx_trigger || rx, tx_trigger: self.tx_trigger || tx, ..self }
    }

    /// The device after software has read the first `n` entries of the
    /// receive FIFO.
    pub open spec fn rx_taken(self, n: nat) -> Device {
        Device { rx_fifo: self.rx_fifo.skip(n as int), ..self }
    }

    /// The device after software has written `bytes` to the transmit FIFO.
    pub open spec fn tx_given(self, bytes: Seq<u8>) -> Device {
        if bytes.len() == 0 {
            self
        } else {
            Device { tx_fifo: self.tx_fifo + bytes, tx_idle: false, ..self }
        }
    }

    /// The device after software has emptied the receive FIFO and cleared
    /// its error flag.
    pub open spec fn rx_flushed(self) -> Device {
        Device { rx_fifo: Seq::empty(), rx_error: false, ..self }
    }

    /// The device after software has cleared `bits` in the line status word.
    pub open spec fn status_cleared(self, bits: u32) -> Device {
        if self.rx_fifo.len() > 0 {
            Device {
                rx_fifo: self.rx_fifo.update(
                    0,
                    RxEntry { status: self.rx_fifo[0].status & !bits, ..self.rx_fifo[0] },
                ),
                ..self
            }
        } else {
            self
        }
    }
}

/// A serial port: its register block and its interrupt line.
///
/// The buffered driver reaches the hardware through this trait and through
/// nothing else. What it proves of itself, it proves of every port that
/// behaves as the contracts below say.
pub trait Instance: Sized {
    /// The state of the port. It exists for contracts and proofs: an
    /// implementation for hardware gives it a body that nothing runs.
    spec fn view(&self) -> Device;

    /// What the peripheral setup answers to these pins and this
    /// configuration: the error with which it rejects them, if it does.
    spec fn rejects(&self, pins: Pins, config: Config) -> Option<Error>;

    /// Sets the peripheral up: clocks, pins, baud rate and frame format.
    /// A rejected setup changes nothing.
    fn init(&mut self, pins: Pins, config: Config) -> (r: Result<(), Error>)
        ensures
            old(self).rejects(pins, config) matches Some(e) ==> r == Err::<(), Error>(e)
                && final(self)@ == old(self)@,
            old(self).rejects(pins, config) is None ==> r is Ok && final(self)@ == (Device {
                setup: Some((pins, config)),
                ..old(self)@
            }),
    ;

    /// Reads which line sources ask for an interrupt.
    fn int_status(&self) -> (r: IntFlags)
        ensures
            r == self@.int_status(),
    ;

    /// Enables line sources.
    fn int_enable(&mut self, flags: IntFlags)
        ensures
            final(self)@ == old(self)@.int_enable(flags),
    ;

    /// Disables line sources.
    fn int_disable(&mut self, flags: IntFlags)
        ensures
            final(self)@ == old(self)@.int_disable(flags),
    ;

    /// Reads which FIFO sources ask for an interrupt.
    fn fifo_int_status(&self) -> (r: FifoFlags)
        ensures
            r == self@.fifo_int_status(),
    ;

    /// Enables FIFO sources.
    fn fifo_int_enable(&mut self, flags: FifoFlags)
        ensures
            final(self)@ == old(self)@.fifo_int_enable(flags),
    ;

    /// Disables FIFO sources.
    fn fifo_int_disable(&mut self, flags: FifoFlags)
        ensures
            final(self)@ == old(self)@.fifo_int_disable(flags),
    ;

    /// Switches the trigger levels of the FIFOs on.
    fn trigger_enable(&mut self, rx: bool, tx: bool)
        ensures
            final(self)@ == old(self)@.trigger_enable(rx, tx),
    ;

    /// Whether the receive FIFO holds an entry.
    fn rx_not_empty(&self) -> (r: bool)
        ensures
            r == (self@.rx_fifo.len() > 0),
    ;

    /// Whether the transmit FIFO takes another byte.
    fn tx_not_full(&self) -> (r: bool)
        ensures
            r == (self@.tx_room() > 0),
    ;

    /// Whether the receive FIFO reports an error.
    fn rx_error(&self) -> (r: bool)
        ensures
            r == self@.rx_error,
    ;

    /// Whether the transmitter is idle.
    fn tx_idle(&self) -> (r: bool)
        ensures
            r == self@.tx_idle,
    ;

    /// Reads the line status word.
    fn line_status(&self) -> (r: u32)
        ensures
            r == self@.line_status(),
    ;

    /// Reads the next byte from the receive FIFO.
    fn read_rx(&mut self) -> (r: u8)
        requires
            old(self)@.rx_fifo.len() > 0,
        ensures
            r == old(self)@.rx_fifo[0].data,
            final(self)@ == old(self)@.rx_taken(1),
    ;

    /// Writes a byte to the transmit FIFO.
    fn write_tx(&mut self, byte: u8)
        requires
            old(self)@.tx_room() > 0,
        ensures
            final(self)@ == old(self)@.tx_given(seq![byte]),
    ;

    /// Empties the receive FIFO and clears its error flag.
    fn flush_rx(&mut self)
        ensures
            final(self)@ == old(self)@.rx_flushed(),
    ;

    /// Clears flags of the line status word.
    fn clear_status(&mut self, bits: u32)
        ensures
            final(self)@ == old(self)@.status_cleared(bits),
    ;

    /// Operates the interrupt line: lets it through, blocks it, pends it by
    /// hand or takes a pending request back.
    fn line(&mut self, op: LineOp)
        ensures
            final(self)@ == old(self)@.line_op(op),
    ;
}

} // verus!
