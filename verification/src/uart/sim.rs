//! A serial port in software.
//!
//! [`SimUart`] keeps the FIFOs, the flags and the interrupt line of a port in
//! ordinary memory and implements [`Instance`] over them, so that the driver
//! can run without hardware. Beside the register side, which the driver
//! uses, it has a line side, by which a bench plays the part of the wire: it
//! lets bytes arrive, shifts bytes out and raises interrupt conditions.
use vstd::prelude::*;
use std::collections::VecDeque;
use super::{
    count_ops, Config, Device, Error, FifoFlags, Instance, IntFlags, Line, LineOp, Pins, RxEntry,
};

verus! {

/// A serial port in software.
pub struct SimUart {
    rx_fifo: VecDeque<RxEntry>,
    rx_error: bool,
    tx_fifo: VecDeque<u8>,
    tx_depth: usize,
    tx_idle: bool,
    raised: IntFlags,
    enabled: IntFlags,
    fifo_raised: FifoFlags,
    fifo_enabled: FifoFlags,
    rx_trigger: bool,
    tx_trigger: bool,
    line_enabled: bool,
    line_pending: bool,
    line_ops: Vec<LineOp>,
    setup: Option<(Pins, Config)>,
    reject: Option<Error>,
}

impl Instance for SimUart {
    closed spec fn view(&self) -> Device {
        Device {
            rx_fifo: self.rx_fifo@,
            rx_error: self.rx_error,
            tx_fifo: self.tx_fifo@,
            tx_depth: self.tx_depth as nat,
            tx_idle: self.tx_idle,
            raised: self.raised,
            enabled: self.enabled,
            fifo_raised: self.fifo_raised,
            fifo_enabled: self.fifo_enabled,
            rx_trigger: self.rx_trigger,
            tx_trigger: self.tx_trigger,
            line: Line {
                enabled: self.line_enabled,
                pending: self.line_pending,
                ops: self.line_ops@,
            },
            setup: self.setup,
        }
    }

    closed spec fn rejects(&self, pins: Pins, config: Config) -> Option<Error> {
        self.reject
    }

    fn init(&mut self, pins: Pins, config: Config) -> (r: Result<(), Error>) {
        match self.reject {
            Some(e) => Err(e),
            None => {
                self.setup = Some((pins, config));
                Ok(())
            },
        }
    }

    fn int_status(&self) -> (r: IntFlags) {
        self.raised.intersection(self.enabled)
    }

    fn int_enable(&mut self, flags: IntFlags) {
        self.enabled = self.enabled.union(flags);
    }

    fn int_disable(&mut self, flags: IntFlags) {
        self.enabled = self.enabled.difference(flags);
    }

    fn fifo_int_status(&self) -> (r: FifoFlags) {
        self.fifo_raised.intersection(self.fifo_enabled)
    }

    fn fifo_int_enable(&mut self, flags: FifoFlags) {
        self.fifo_enabled = self.fifo_enabled.union(flags);
    }

    fn fifo_int_disable(&mut self, flags: FifoFlags) {
        self.fifo_enabled = self.fifo_enabled.difference(flags);
    }

    fn trigger_enable(&mut self, rx: bool, tx: bool) {
        self.rx_trigger = self.rx_trigger || rx;
        self.tx_trigger = self.tx_trigger || tx;
    }

    fn rx_not_empty(&self) -> (r: bool) {
        self.rx_fifo.len() > 0
    }

    fn tx_not_full(&self) -> (r: bool) {
        self.tx_fifo.len() < self.tx_depth
    }

    fn rx_error(&self) -> (r: bool) {
        self.rx_error
    }

    fn tx_idle(&self) -> (r: bool) {
        self.tx_idle
    }

    fn line_status(&self) -> (r: u32) {
        if self.rx_fifo.len() > 0 {
            self.rx_fifo[0].status
        } else {
            0
        }
    }

    fn read_rx(&mut self) -> (r: u8) {
        let head = self.rx_fifo.pop_front();
        match head {
            Some(entry) => entry.data,
            None => 0,
        }
    }

    fn write_tx(&mut self, byte: u8) {
        self.tx_fifo.push_back(byte);
        self.tx_idle = false;
        assert(self.tx_fifo@ =~= old(self).tx_fifo@ + seq![byte]);
    }

    fn flush_rx(&mut self) {
        self.rx_fifo.clear();
        self.rx_error = false;
    }

    fn clear_status(&mut self, bits: u32) {
        let head = self.rx_fifo.pop_front();
        match head {
            Some(entry) => {
                self.rx_fifo.push_front(RxEntry { data: entry.data, status: entry.status & !bits });
                assert(self.rx_fifo@ =~= old(self).rx_fifo@.update(
                    0,
                    RxEntry { status: old(self).rx_fifo@[0].status & !bits, ..old(self).rx_fifo@[0] },
                ));
            },
            None => {},
        }
    }

    fn line(&mut self, op: LineOp) {
        match op {
            LineOp::Enable => {
                self.line_enabled = true;
            },
            LineOp::Disable => {
                self.line_enabled = false;
            },
            LineOp::Pend => {
                self.line_pending = true;
            },
            LineOp::Unpend => {
                self.line_pending = false;
            },
        }
        self.line_ops.push(op);
    }
}

impl SimUart {
    /// Create a port after reset: both FIFOs empty, the transmitter idle,
    /// nothing raised, nothing enabled, the interrupt line blocked. The
    /// transmit FIFO holds `tx_depth` bytes; the receive FIFO is as deep as
    /// the bench makes it.
    pub fn new(tx_depth: usize) -> (r: Self)
        ensures
            r@ == (Device {
                rx_fifo: Seq::empty(),
                rx_error: false,
                tx_fifo: Seq::empty(),
                tx_depth: tx_depth as nat,
                tx_idle: true,
                raised: IntFlags::none(),
                enabled: IntFlags::none(),
                fifo_raised: FifoFlags::none(),
                fifo_enabled: FifoFlags::none(),
                rx_trigger: false,
                tx_trigger: false,
                line: Line { enabled: false, pending: false, ops: Seq::empty() },
                setup: None,
            }),
            forall|pins: Pins, config: Config| r.rejects(pins, config) is None,
    {
        let none = IntFlags {
            tx_idle: false,
            framing: false,
            parity: false,
            noise: false,
            rx_break: false,
        };
        let fifo_none = FifoFlags {
            rx_level: false,
            tx_level: false,
            rx_error: false,
            tx_error: false,
        };
        SimUart {
            rx_fifo: VecDeque::new(),
            rx_error: false,
            tx_fifo: VecDeque::new(),
            tx_depth,
            tx_idle: true,
            raised: none,
            enabled: none,
            fifo_raised: fifo_none,
            fifo_enabled: fifo_none,
            rx_trigger: false,
            tx_trigger: false,
            line_enabled: false,
            line_pending: false,
            line_ops: Vec::new(),
            setup: None,
            reject: None,
        }
    }

    /// Line side: makes the setup reject every request with `error`, or
    /// accept every request.
    pub fn set_reject(&mut self, error: Option<Error>)
        ensures
            final(self)@ == old(self)@,
            forall|pins: Pins, config: Config| final(self).rejects(pins, config) == error,
    {
        self.reject = error;
    }

    /// Line side: a byte arrives, with the line status that the port will
    /// show for it. The receive level condition is raised.
    pub fn receive(&mut self, data: u8, status: u32)
        ensures
            final(self)@ == (Device {
                rx_fifo: old(self)@.rx_fifo.push(RxEntry { data, status }),
                fifo_raised: old(self)@.fifo_raised.or(FifoFlags::rx_level_only()),
                ..old(self)@
            }),
            forall|pins: Pins, config: Config|
                final(self).rejects(pins, config) == old(self).rejects(pins, config),
    {
        self.rx_fifo.push_back(RxEntry { data, status });
        self.fifo_raised.rx_level = true;
    }

    /// Line side: the transmitter shifts out up to `count` bytes, which are
    /// returned in the order in which they leave. The transmit level
    /// condition is raised if a byte left; the transmitter is idle afterwards
    /// exactly if its FIFO is empty.
    pub fn shift_out(&mut self, count: usize) -> (wire: Vec<u8>)
        ensures
            wire@ == old(self)@.tx_fifo.take(wire@.len() as int),
            wire@.len() == if count <= old(self)@.tx_fifo.len() {
                count as nat
            } else {
                old(self)@.tx_fifo.len()
            },
            final(self)@ == (Device {
                tx_fifo: old(self)@.tx_fifo.skip(wire@.len() as int),
                tx_idle: old(self)@.tx_fifo.len() == wire@.len(),
                fifo_raised: FifoFlags {
                    tx_level: old(self)@.fifo_raised.tx_level || wire@.len() > 0,
                    ..old(self)@.fifo_raised
                },
                ..old(self)@
            }),
            forall|pins: Pins, config: Config|
                final(self).rejects(pins, config) == old(self).rejects(pins, config),
    {
        let mut wire: Vec<u8> = Vec::new();
        while wire.len() < count && self.tx_fifo.len() > 0
            invariant
                wire@.len() <= count,
                wire@.len() <= old(self)@.tx_fifo.len(),
                wire@ == old(self)@.tx_fifo.take(wire@.len() as int),
                self.tx_fifo@ == old(self)@.tx_fifo.skip(wire@.len() as int),
                self.tx_depth == old(self).tx_depth,
                self@ == (Device { tx_fifo: self.tx_fifo@, ..old(self)@ }),
                self.reject == old(self).reject,
            decreases self.tx_fifo@.len(),
        {
            let head = self.tx_fifo.pop_front();
            match head {
                Some(byte) => {
                    wire.push(byte);
                },
                None => {},
            }
        }
        self.tx_idle = self.tx_fifo.len() == 0;
        if wire.len() > 0 {
            self.fifo_raised.tx_level = true;
        }
        wire
    }

    /// Line side: raises conditions of the line logic.
    pub fn raise(&mut self, flags: IntFlags)
        ensures
            final(self)@ == (Device { raised: old(self)@.raised.or(flags), ..old(self)@ }),
            forall|pins: Pins, config: Config|
                final(self).rejects(pins, config) == old(self).rejects(pins, config),
    {
        self.raised = self.raised.union(flags);
    }

    /// Line side: raises conditions of the FIFO controller.
    pub fn raise_fifo(&mut self, flags: FifoFlags)
        ensures
            final(self)@ == (Device {
                fifo_raised: old(self)@.fifo_raised.or(flags),
                ..old(self)@
            }),
            forall|pins: Pins, config: Config|
                final(self).rejects(pins, config) == old(self).rejects(pins, config),
    {
        self.fifo_raised = self.fifo_raised.union(flags);
    }

    /// Line side: sets or clears the error flag of the receive FIFO.
    pub fn set_rx_error(&mut self, on: bool)
        ensures
            final(self)@ == (Device { rx_error: on, ..old(self)@ }),
            forall|pins: Pins, config: Config|
                final(self).rejects(pins, config) == old(self).rejects(pins, config),
    {
        self.rx_error = on;
    }

    /// Whether the port asks for its interrupt handler: the line is let
    /// through, and it is pending or an enabled source is raised.
    pub fn interrupt_requested(&self) -> (r: bool)
        ensures
            r == (self@.line.enabled && (self@.line.pending || self@.int_status().any()
                || self@.fifo_int_status().any())),
    {
        self.line_enabled && (self.line_pending || self.raised.intersection(
            self.enabled,
        ).is_any() || self.fifo_raised.intersection(self.fifo_enabled).is_any())
    }

    /// The number of entries in the receive FIFO.
    pub fn rx_len(&self) -> (r: usize)
        ensures
            r == self@.rx_fifo.len(),
    {
        self.rx_fifo.len()
    }

    /// The number of bytes in the transmit FIFO.
    pub fn tx_len(&self) -> (r: usize)
        ensures
            r == self@.tx_fifo.len(),
    {
        self.tx_fifo.len()
    }

    /// The line sources that may interrupt.
    pub fn enabled(&self) -> (r: IntFlags)
        ensures
            r == self@.enabled,
    {
        self.enabled
    }

    /// The FIFO sources that may interrupt.
    pub fn fifo_enabled(&self) -> (r: FifoFlags)
        ensures
            r == self@.fifo_enabled,
    {
        self.fifo_enabled
    }

    /// Whether the trigger levels of the receive and of the transmit FIFO
    /// are switched on.
    pub fn triggers(&self) -> (r: (bool, bool))
        ensures
            r == (self@.rx_trigger, self@.tx_trigger),
    {
        (self.rx_trigger, self.tx_trigger)
    }

    /// Whether the interrupt line is let through.
    pub fn line_enabled(&self) -> (r: bool)
        ensures
            r == self@.line.enabled,
    {
        self.line_enabled
    }

    /// Whether the interrupt line is pending.
    pub fn line_pending(&self) -> (r: bool)
        ensures
            r == self@.line.pending,
    {
        self.line_pending
    }

    /// How often software has operated the interrupt line with `op`.
    pub fn line_count(&self, op: LineOp) -> (r: usize)
        ensures
            r == count_ops(self@.line.ops, op),
    {
        let mut n: usize = 0;
        let mut i: usize = 0;
        while i < self.line_ops.len()
            invariant
                i <= self.line_ops@.len(),
                n == count_ops(self.line_ops@.take(i as int), op),
                n <= i,
            decreases self.line_ops@.len() - i,
        {
            assert(self.line_ops@.take(i + 1).drop_last() =~= self.line_ops@.take(i as int));
            if self.line_ops[i] == op {
                n = n + 1;
            }
            i = i + 1;
        }
        assert(self.line_ops@.take(i as int) =~= self.line_ops@);
        n
    }

    /// The pins and the configuration of the last successful setup.
    pub fn setup(&self) -> (r: Option<(Pins, Config)>)
        ensures
            r == self@.setup,
    {
        self.setup
    }
}

} // verus!
