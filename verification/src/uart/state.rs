//! The state that the interrupt handler and the endpoints of one port share:
//! a ring buffer and a waker slot for each direction, and the latched fault
//! flags of the receiver.
use vstd::prelude::*;
use crate::ring::{RingBuffer, RingModel};

verus! {

/// A slot for the one task that waits on a direction.
///
/// Registering overwrites what was registered before; waking empties the
/// slot and hands out what was in it, for the caller to notify.
pub struct WakerSlot<W> {
    waker: Option<W>,
}

impl<W> View for WakerSlot<W> {
    type V = Option<W>;

    closed spec fn view(&self) -> Option<W> {
        self.waker
    }
}

impl<W> WakerSlot<W> {
    /// Create an empty slot.
    pub fn new() -> (r: Self)
        ensures
            r@ is None,
    {
        WakerSlot { waker: None }
    }

    /// Registers `waker`. A waker registered before is dropped unnotified.
    pub fn register(&mut self, waker: W)
        ensures
            final(self)@ == Some(waker),
    {
        self.waker = Some(waker);
    }

    /// Takes the registered waker out, for the caller to notify. With none
    /// registered this does nothing.
    pub fn wake(&mut self) -> (woken: Option<W>)
        ensures
            woken == old(self)@,
            final(self)@ is None,
    {
        let mut taken: Option<W> = None;
        core::mem::swap(&mut self.waker, &mut taken);
        taken
    }

    /// Whether a waker is registered.
    pub fn is_registered(&self) -> (r: bool)
        ensures
            r == self@ is Some,
    {
        self.waker.is_some()
    }
}

/// The latched fault flags of the receiver: the interrupt handler ORs flags
/// in, the consumer reads and clears them.
pub struct ErrorLatch {
    bits: u32,
}

impl View for ErrorLatch {
    type V = u32;

    closed spec fn view(&self) -> u32 {
        self.bits
    }
}

impl ErrorLatch {
    /// Create a latch with no flag set.
    pub fn new() -> (r: Self)
        ensures
            r@ == 0,
    {
        ErrorLatch { bits: 0 }
    }

    /// ORs `bits` into the latch.
    pub fn latch(&mut self, bits: u32)
        ensures
            final(self)@ == old(self)@ | bits,
    {
        self.bits = self.bits | bits;
    }

    /// Reads the latch without resetting it.
    pub fn peek(&self) -> (bits: u32)
        ensures
            bits == self@,
    {
        self.bits
    }

    /// Reads the latch and resets it to zero.
    pub fn take(&mut self) -> (bits: u32)
        ensures
            bits == old(self)@,
            final(self)@ == 0,
    {
        let bits: u32 = self.bits;
        self.bits = 0;
        bits
    }
}

/// What the shared state of a port is, apart from how it is stored.
pub struct StateModel<W> {
    /// The receive ring buffer.
    pub rx: RingModel,
    /// The transmit ring buffer.
    pub tx: RingModel,
    /// The waker of the task that waits for received bytes.
    pub rx_waker: Option<W>,
    /// The waker of the task that waits for the transmit ring to drain.
    pub tx_waker: Option<W>,
    /// The latched fault flags.
    pub rx_error: u32,
}

impl<W> StateModel<W> {
    /// Both ring buffers are well formed.
    pub open spec fn wf(self) -> bool {
        self.rx.wf() && self.tx.wf()
    }

    /// The state of a port that no endpoint has been built for.
    pub open spec fn idle() -> StateModel<W> {
        StateModel {
            rx: RingModel::detached(),
            tx: RingModel::detached(),
            rx_waker: None,
            tx_waker: None,
            rx_error: 0,
        }
    }
}

/// Buffered UART state
pub struct State<W> {
    pub tx_waker: WakerSlot<W>,
    pub tx_buf: RingBuffer,
    pub rx_waker: WakerSlot<W>,
    pub rx_buf: RingBuffer,
    pub rx_error: ErrorLatch,
}

impl<W> View for State<W> {
    type V = StateModel<W>;

    open spec fn view(&self) -> StateModel<W> {
        StateModel {
            rx: self.rx_buf@,
            tx: self.tx_buf@,
            rx_waker: self.rx_waker@,
            tx_waker: self.tx_waker@,
            rx_error: self.rx_error@,
        }
    }
}

impl<W> State<W> {
    /// Create a new state instance
    pub fn new() -> (r: Self)
        ensures
            r@ == StateModel::<W>::idle(),
    {
        State {
            rx_buf: RingBuffer::new(),
            tx_buf: RingBuffer::new(),
            rx_waker: WakerSlot::new(),
            tx_waker: WakerSlot::new(),
            rx_error: ErrorLatch::new(),
        }
    }
}

} // verus!
