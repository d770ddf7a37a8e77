//! Buffered UART driver.
//!
//! The endpoints are the task side of the driver. An endpoint is a token: it
//! stands for the right to use one direction of a port, and every operation
//! takes the port and its shared state beside it. No operation waits. Where
//! the caller would have to wait, an operation answers [`Poll::Pending`]; a
//! blocking caller then tries again, and a suspending caller goes to sleep on
//! the waker that it has handed in and tries again when it is woken.
use vstd::prelude::*;
use super::bridge::{after_rx, lemma_rx_run, rx_bytes, rx_faulted, rx_run};
use super::state::{State, StateModel};
use super::{
    decode_fault, fault_of, is_fault, Config, Device, Error, FifoFlags, Instance, IntFlags,
    LineOp, Pins, RXE_FRAMERR, RXE_MASK, RXE_NOISE, RXE_PARITYERR,
};

verus! {

/// The answer of an operation that may have to be tried again.
#[derive(Debug, PartialEq, Eq)]
pub enum Poll<T> {
    /// The operation is complete.
    Ready(T),
    /// Nothing could be done yet.
    Pending,
}

/// The port after it was armed for the buffered driver: the four fault
/// sources and the two FIFO level sources enabled, both trigger levels
/// switched on, a stale interrupt request taken back, and then the interrupt
/// line let through.
pub open spec fn armed(device: Device) -> Device {
    device.int_enable(IntFlags::faults()).fifo_int_enable(FifoFlags::levels()).trigger_enable(
        true,
        true,
    ).line_op(LineOp::Unpend).line_op(LineOp::Enable)
}

/// The shared state after the given arrays were attached.
pub open spec fn attached<W>(
    state: StateModel<W>,
    tx_buffer: Option<Seq<u8>>,
    rx_buffer: Option<Seq<u8>>,
) -> StateModel<W> {
    StateModel {
        tx: match tx_buffer {
            Some(b) => crate::ring::RingModel::attached(b.len()),
            None => state.tx,
        },
        rx: match rx_buffer {
            Some(b) => crate::ring::RingModel::attached(b.len()),
            None => state.rx,
        },
        ..state
    }
}

/// The answer of one attempt to read into a destination of `room` bytes.
pub open spec fn read_result<W>(state: StateModel<W>, room: nat) -> Poll<Result<usize, Error>> {
    if room == 0 {
        Poll::Ready(Ok(0))
    } else if state.rx.yields(room) > 0 {
        Poll::Ready(Ok(state.rx.yields(room) as usize))
    } else {
        match fault_of(state.rx_error) {
            Some(e) => Poll::Ready(Err(e)),
            None => Poll::Pending,
        }
    }
}

/// The shared state after one attempt to read into a destination of `room`
/// bytes.
///
/// A destination without room changes nothing. Else, bytes that were
/// delivered have left the ring buffer; if none was there to deliver, the
/// latch was read and cleared.
pub open spec fn read_state<W>(state: StateModel<W>, room: nat) -> StateModel<W> {
    if room == 0 {
        state
    } else if state.rx.yields(room) > 0 {
        StateModel { rx: state.rx.pop_into(room), ..state }
    } else {
        StateModel { rx_error: 0, ..state }
    }
}

/// The shared state and the port after one attempt to read into a
/// destination of `room` bytes: whenever the attempt delivered bytes or a
/// fault, the receive level source is armed again.
pub open spec fn after_read<W>(state: StateModel<W>, device: Device, room: nat) -> (
    StateModel<W>,
    Device,
) {
    (
        read_state(state, room),
        if read_result(state, room) is Ready && room > 0 {
            device.fifo_int_enable(FifoFlags::rx_level_only())
        } else {
            device
        },
    )
}

/// What a run of read attempts has brought when it stops at the first fault
/// that an attempt reports.
pub struct ReadTrace<W> {
    /// The shared state after the last attempt.
    pub state: StateModel<W>,
    /// All bytes delivered, in order.
    pub delivered: Seq<u8>,
    /// The fault reported by the last attempt, if it reported one.
    pub fault: Option<Error>,
}

/// Runs read attempts with destinations of the given sizes, one after the
/// other with no interrupt between them, up to the first one that reports a
/// fault.
pub open spec fn read_until_fault<W>(state: StateModel<W>, rooms: Seq<nat>) -> ReadTrace<W>
    decreases rooms.len(),
{
    if rooms.len() == 0 {
        ReadTrace { state, delivered: Seq::empty(), fault: None }
    } else {
        let before = read_until_fault(state, rooms.drop_last());
        if before.fault is Some {
            before
        } else {
            let room = rooms.last();
            ReadTrace {
                state: read_state(before.state, room),
                delivered: before.delivered + before.state.rx.data.take(
                    before.state.rx.yields(room) as int,
                ),
                fault: match read_result(before.state, room) {
                    Poll::Ready(Err(e)) => Some(e),
                    _ => None,
                },
            }
        }
    }
}

/// A request for nothing is answered at once and changes nothing: a read
/// into a destination without room and a write of no bytes complete with 0
/// bytes, whatever is queued or latched.
pub proof fn lemma_empty_request<W>(state: StateModel<W>, device: Device)
    requires
        state.wf(),
    ensures
        read_result(state, 0) == Poll::Ready(Ok::<usize, Error>(0)),
        after_read(state, device, 0) == (state, device),
        write_result(state, Seq::<u8>::empty()) == Poll::Ready(Ok::<usize, Error>(0)),
        after_write(state, device, Seq::<u8>::empty()) == (state, device),
{
}

/// A read reports a fault only when no byte is queued: while bytes are
/// queued, an attempt with room delivers at least the oldest of them and
/// leaves the latch alone.
pub proof fn lemma_read_prefers_data<W>(state: StateModel<W>, room: nat)
    requires
        state.rx.wf(),
    ensures
        read_result(state, room) matches Poll::Ready(Err(e)) ==> state.rx.data.len() == 0
            && fault_of(state.rx_error) == Some(e) && read_state(state, room).rx_error == 0,
        state.rx.data.len() > 0 && room > 0 ==> state.rx.yields(room) > 0 && read_result(
            state,
            room,
        ) == Poll::Ready(Ok::<usize, Error>(state.rx.yields(room) as usize)) && read_state(
            state,
            room,
        ).rx_error == state.rx_error,
{
}

/// Faults keep their place in the stream. Over any run of read attempts
/// between two interrupts, what was delivered followed by what is still
/// queued is what was queued at the start; and when an attempt reports the
/// latched fault, every byte that was queued has been delivered before it.
pub proof fn lemma_fault_after_queued_bytes<W>(state: StateModel<W>, rooms: Seq<nat>)
    requires
        state.rx.wf(),
    ensures
        ({
            let t = read_until_fault(state, rooms);
            &&& t.state.rx.wf()
            &&& t.delivered + t.state.rx.data == state.rx.data
            &&& t.fault is Some ==> t.delivered == state.rx.data && t.fault == fault_of(
                state.rx_error,
            )
            &&& t.fault is None ==> fault_of(t.state.rx_error) == fault_of(state.rx_error)
        }),
    decreases rooms.len(),
{
    if rooms.len() > 0 {
        lemma_fault_after_queued_bytes(state, rooms.drop_last());
        let before = read_until_fault(state, rooms.drop_last());
        if before.fault is None {
            let room = rooms.last();
            super::lemma_fault_of(0);
        }
    }
}

/// A fault that the interrupt handler meets in the receive FIFO keeps its
/// place in the stream that the consumer sees. The pass that stops at the
/// faulty entry queues the bytes before it, in order, leaves the entry in the
/// FIFO, latches its fault and switches the receive level source off. The
/// read attempts that follow deliver what was queued before the pass and then
/// those bytes, and only then does one of them report the fault.
pub proof fn lemma_fault_keeps_its_place<W>(
    state: StateModel<W>,
    device: Device,
    rooms: Seq<nat>,
)
    requires
        state.rx.wf(),
        state.rx.is_available(),
        rx_faulted(device.rx_fifo, state.rx.writable()),
    ensures
        ({
            let n = rx_run(device.rx_fifo, state.rx.writable());
            let (s1, d1) = after_rx(state, device);
            let t = read_until_fault(s1, rooms);
            &&& forall|i: int| 0 <= i < n ==> !is_fault(#[trigger] device.rx_fifo[i].status)
            &&& s1.rx.data == state.rx.data + rx_bytes(device.rx_fifo, n)
            &&& d1.rx_fifo.len() > 0 && d1.rx_fifo[0] == device.rx_fifo[n as int]
            &&& fault_of(s1.rx_error) is Some
            &&& !d1.fifo_enabled.rx_level
            &&& t.fault is Some ==> t.delivered == state.rx.data + rx_bytes(device.rx_fifo, n)
                && t.fault == fault_of(s1.rx_error)
        }),
{
    let room = state.rx.writable();
    let n = rx_run(device.rx_fifo, room);
    let s1 = after_rx(state, device).0;
    lemma_rx_run(device.rx_fifo, room);
    let stat = device.rx_fifo[n as int].status;
    let old_bits = state.rx_error;
    assert((old_bits | (stat & RXE_MASK)) & RXE_MASK != 0) by (bit_vector)
        requires
            stat & RXE_MASK != 0,
    ;
    super::lemma_fault_of(s1.rx_error);
    lemma_fault_after_queued_bytes(s1, rooms);
}

/// Whether a write of `src` has to start the transmission by hand: it got a
/// byte accepted, the transmit ring buffer was empty before, and the port
/// reports its transmitter idle. Then no byte is on its way whose leaving
/// would raise the transmit interrupt, so the interrupt is pended.
pub open spec fn write_primes<W>(state: StateModel<W>, device: Device, src: Seq<u8>) -> bool {
    state.tx.accepts(src) > 0 && state.tx.is_empty() && device.tx_idle
}

/// The answer of one attempt to write `src`.
pub open spec fn write_result<W>(state: StateModel<W>, src: Seq<u8>) -> Poll<Result<usize, Error>> {
    if src.len() == 0 {
        Poll::Ready(Ok(0))
    } else if state.tx.accepts(src) > 0 {
        Poll::Ready(Ok(state.tx.accepts(src) as usize))
    } else {
        Poll::Pending
    }
}

/// The shared state and the port after one attempt to write `src`.
pub open spec fn after_write<W>(state: StateModel<W>, device: Device, src: Seq<u8>) -> (
    StateModel<W>,
    Device,
) {
    (
        StateModel { tx: state.tx.push_from(src), ..state },
        if write_primes(state, device, src) {
            device.line_op(LineOp::Pend)
        } else {
            device
        },
    )
}

/// The answer of one attempt to flush: complete exactly if the transmit
/// ring buffer is empty.
pub open spec fn flush_result<W>(state: StateModel<W>) -> Poll<Result<(), Error>> {
    if state.tx.is_empty() {
        Poll::Ready(Ok(()))
    } else {
        Poll::Pending
    }
}

/// The answer of one read straight from the receive FIFO.
pub open spec fn nb_read_result(device: Device) -> Poll<Result<u8, Error>> {
    if device.rx_fifo.len() == 0 {
        Poll::Pending
    } else if device.rx_error {
        Poll::Ready(Err(Error::Read))
    } else if device.rx_fifo[0].status & RXE_PARITYERR != 0 {
        Poll::Ready(Err(Error::Parity))
    } else if device.rx_fifo[0].status & RXE_FRAMERR != 0 {
        Poll::Ready(Err(Error::Framing))
    } else if device.rx_fifo[0].status & RXE_NOISE != 0 {
        Poll::Ready(Err(Error::Noise))
    } else {
        Poll::Ready(Ok(device.rx_fifo[0].data))
    }
}

/// The port after one read straight from the receive FIFO.
pub open spec fn after_nb_read(device: Device) -> Device {
    if device.rx_fifo.len() == 0 {
        device
    } else if device.rx_error {
        device.rx_flushed()
    } else if device.rx_fifo[0].status & RXE_PARITYERR != 0 {
        device.status_cleared(RXE_PARITYERR)
    } else if device.rx_fifo[0].status & RXE_FRAMERR != 0 {
        device.status_cleared(RXE_FRAMERR)
    } else if device.rx_fifo[0].status & RXE_NOISE != 0 {
        device.status_cleared(RXE_NOISE)
    } else {
        device.rx_taken(1)
    }
}

/// The shared state and the port after the receive endpoint was given up:
/// the receive ring buffer is detached, and the interrupt line is blocked if
/// the transmit ring buffer is not available either.
pub open spec fn after_release_rx<W>(state: StateModel<W>, device: Device) -> (
    StateModel<W>,
    Device,
) {
    (
        StateModel { rx: crate::ring::RingModel::detached(), ..state },
        if state.tx.is_available() {
            device
        } else {
            device.line_op(LineOp::Disable)
        },
    )
}

/// The shared state and the port after the transmit endpoint was given up:
/// the transmit ring buffer is detached, and the interrupt line is blocked
/// if the receive ring buffer is not available either.
pub open spec fn after_release_tx<W>(state: StateModel<W>, device: Device) -> (
    StateModel<W>,
    Device,
) {
    (
        StateModel { tx: crate::ring::RingModel::detached(), ..state },
        if state.rx.is_available() {
            device
        } else {
            device.line_op(LineOp::Disable)
        },
    )
}

/// Giving up one endpoint while the other direction is in use does not
/// touch the interrupt line, nor anything else of the port.
pub proof fn lemma_release_one_keeps_line<W>(state: StateModel<W>, device: Device)
    ensures
        state.tx.is_available() ==> after_release_rx(state, device).1 == device,
        state.rx.is_available() ==> after_release_tx(state, device).1 == device,
{
}

/// When both endpoints of a port in use are given up, the interrupt line is
/// blocked exactly once, by the second of them, whichever goes first: both
/// orders leave the same state and the same port, with one more blocking of
/// the line on record and nothing else changed.
pub proof fn lemma_release_both_disables_once<W>(state: StateModel<W>, device: Device)
    requires
        state.rx.is_available(),
        state.tx.is_available(),
    ensures
        ({
            let rx_first = after_release_rx(state, device);
            let tx_first = after_release_tx(state, device);
            let a = after_release_tx(rx_first.0, rx_first.1);
            let b = after_release_rx(tx_first.0, tx_first.1);
            &&& rx_first.1 == device
            &&& tx_first.1 == device
            &&& a == b
            &&& !a.0.rx.is_available() && !a.0.tx.is_available()
            &&& a.1 == device.line_op(LineOp::Disable)
            &&& !a.1.line.enabled
            &&& super::count_ops(a.1.line.ops, LineOp::Disable) == super::count_ops(
                device.line.ops,
                LineOp::Disable,
            ) + 1
        }),
{
    let ops = device.line.ops.push(LineOp::Disable);
    assert(ops.drop_last() =~= device.line.ops);
}


/// Attaches the given arrays to the shared state and arms the port.
pub fn init_buffers<T: Instance, W>(
    regs: &mut T,
    state: &mut State<W>,
    tx_buffer: Option<Vec<u8>>,
    rx_buffer: Option<Vec<u8>>,
)
    ensures
        final(state)@ == attached(
            old(state)@,
            views(tx_buffer, rx_buffer).0,
            views(tx_buffer, rx_buffer).1,
        ),
        final(regs)@ == armed(old(regs)@),
{
    if let Some(tx_buffer) = tx_buffer {
        state.tx_buf.attach(tx_buffer);
    }
    if let Some(rx_buffer) = rx_buffer {
        state.rx_buf.attach(rx_buffer);
    }
    // The transmit interrupt follows a transition through a level, not the
    // level itself: it is raised only after written data has left the
    // transmit FIFO. So it can stay enabled the whole time, as long as it is
    // acknowledged when it comes; in exchange the handler has to be pended by
    // hand when a transmission is to start.
    regs.int_enable(
        IntFlags { tx_idle: false, framing: true, parity: true, noise: true, rx_break: true },
    );
    regs.fifo_int_enable(
        FifoFlags { rx_level: true, tx_level: true, rx_error: false, tx_error: false },
    );
    regs.trigger_enable(true, true);
    regs.line(LineOp::Unpend);
    regs.line(LineOp::Enable);
}

/// The views of two optional arrays.
pub open spec fn views(tx_buffer: Option<Vec<u8>>, rx_buffer: Option<Vec<u8>>) -> (
    Option<Seq<u8>>,
    Option<Seq<u8>>,
) {
    (
        match tx_buffer {
            Some(b) => Some(b@),
            None => None,
        },
        match rx_buffer {
            Some(b) => Some(b@),
            None => None,
        },
    )
}

/// What building an endpoint leaves, given what the peripheral setup
/// answers: after a rejection, the state and the port as they were; else the
/// arrays attached, the setup recorded and the port armed.
pub open spec fn after_build<W>(
    state: StateModel<W>,
    device: Device,
    verdict: Option<Error>,
    pins: Pins,
    config: Config,
    tx_buffer: Option<Seq<u8>>,
    rx_buffer: Option<Seq<u8>>,
) -> (StateModel<W>, Device) {
    if verdict is Some {
        (state, device)
    } else {
        (
            attached(state, tx_buffer, rx_buffer),
            armed(Device { setup: Some((pins, config)), ..device }),
        )
    }
}

/// Sets the port up for `pins` and, if the setup accepts them, attaches the
/// given arrays and arms the port. The answer is the error of the setup, if
/// it rejects.
pub fn build<T: Instance, W>(
    regs: &mut T,
    state: &mut State<W>,
    pins: Pins,
    tx_buffer: Option<Vec<u8>>,
    rx_buffer: Option<Vec<u8>>,
    config: Config,
) -> (r: Result<(), Error>)
    ensures
        r == (match old(regs).rejects(pins, config) {
            Some(e) => Err::<(), Error>(e),
            None => Ok::<(), Error>(()),
        }),
        (final(state)@, final(regs)@) == after_build(
            old(state)@,
            old(regs)@,
            old(regs).rejects(pins, config),
            pins,
            config,
            views(tx_buffer, rx_buffer).0,
            views(tx_buffer, rx_buffer).1,
        ),
{
    match regs.init(pins, config) {
        Err(e) => Err(e),
        Ok(()) => {
            init_buffers(regs, state, tx_buffer, rx_buffer);
            Ok(())
        },
    }
}

/// Buffered UART RX handle.
pub struct BufferedUartRx {
    _private: (),
}

/// Buffered UART TX handle.
pub struct BufferedUartTx {
    _private: (),
}

/// Buffered UART driver.
pub struct BufferedUart {
    pub rx: BufferedUartRx,
    pub tx: BufferedUartTx,
}

impl BufferedUartRx {
    /// Create a new buffered UART RX.
    ///
    /// Fails, and changes nothing, if the peripheral setup rejects the
    /// configuration. Else `rx_buffer` is attached as the receive ring buffer
    /// and the port is armed.
    pub fn new<T: Instance, W>(
        regs: &mut T,
        state: &mut State<W>,
        rx_buffer: Vec<u8>,
        config: Config,
    ) -> (r: Result<Self, Error>)
        ensures
            old(regs).rejects(Self::pins(false), config) matches Some(e) ==> r matches Err(f) && f
                == e,
            old(regs).rejects(Self::pins(false), config) is None ==> r is Ok,
            (final(state)@, final(regs)@) == after_build(
                old(state)@,
                old(regs)@,
                old(regs).rejects(Self::pins(false), config),
                Self::pins(false),
                config,
                None,
                Some(rx_buffer@),
            ),
    {
        let pins = Pins { tx: false, rx: true, rts: false, cts: false };
        match build(regs, state, pins, None, Some(rx_buffer), config) {
            Err(e) => Err(e),
            Ok(()) => Ok(BufferedUartRx { _private: () }),
        }
    }

    /// Create a new buffered UART RX with flow control.
    pub fn new_with_rts<T: Instance, W>(
        regs: &mut T,
        state: &mut State<W>,
        rx_buffer: Vec<u8>,
        config: Config,
    ) -> (r: Result<Self, Error>)
        ensures
            old(regs).rejects(Self::pins(true), config) matches Some(e) ==> r matches Err(f) && f
                == e,
            old(regs).rejects(Self::pins(true), config) is None ==> r is Ok,
            (final(state)@, final(regs)@) == after_build(
                old(state)@,
                old(regs)@,
                old(regs).rejects(Self::pins(true), config),
                Self::pins(true),
                config,
                None,
                Some(rx_buffer@),
            ),
    {
        let pins = Pins { tx: false, rx: true, rts: true, cts: false };
        match build(regs, state, pins, None, Some(rx_buffer), config) {
            Err(e) => Err(e),
            Ok(()) => Ok(BufferedUartRx { _private: () }),
        }
    }

    /// The pins of a receive endpoint, without or with flow control.
    pub open spec fn pins(rts: bool) -> Pins {
        Pins { tx: false, rx: true, rts, cts: false }
    }

    /// Reads the latched fault flags, clears them, and decodes them: of
    /// several latched faults the one of highest priority is reported, and
    /// the others are forgotten with it.
    pub fn get_rx_error<W>(state: &mut State<W>) -> (r: Option<Error>)
        ensures
            r == fault_of(old(state)@.rx_error),
            final(state)@ == (StateModel { rx_error: 0, ..old(state)@ }),
    {
        let errs: u32 = state.rx_error.take();
        decode_fault(errs)
    }

    /// One attempt to read into `buf`.
    ///
    /// A `buf` without room is answered with 0 bytes at once. Else the
    /// oldest queued bytes are copied to the front of `buf`, as far as they
    /// lie in a row in the ring buffer and `buf` has room. If no byte is
    /// queued, a latched fault is reported, once; without one the answer is
    /// `Pending`.
    pub fn try_read<T: Instance, W>(regs: &mut T, state: &mut State<W>, buf: &mut [u8]) -> (r:
        Poll<Result<usize, Error>>)
        ensures
            r == read_result(old(state)@, old(buf)@.len()),
            (final(state)@, final(regs)@) == after_read(old(state)@, old(regs)@, old(buf)@.len()),
            final(buf)@ == old(state)@.rx.data.take(
                old(state)@.rx.yields(old(buf)@.len()) as int,
            ) + old(buf)@.skip(old(state)@.rx.yields(old(buf)@.len()) as int),
    {
        if buf.len() == 0 {
            return Poll::Ready(Ok(0));
        }
        proof {
            use_type_invariant(&state.rx_buf);
            state.rx_buf.lemma_wf();
        }
        let n: usize = state.rx_buf.pop_into(buf);
        let result = if n == 0 {
            match Self::get_rx_error(state) {
                None => {
                    return Poll::Pending;
                },
                Some(e) => Err(e),
            }
        } else {
            Ok(n)
        };
        // (Re-)Enable the interrupt to receive more data in case it was
        // disabled because the buffer was full or errors were detected.
        regs.fifo_int_enable(
            FifoFlags { rx_level: true, tx_level: false, rx_error: false, tx_error: false },
        );
        Poll::Ready(result)
    }

    /// One poll of a suspending read: one attempt to read, and if it has to
    /// be tried again, `waker` is registered to be notified when the
    /// interrupt handler has queued bytes or latched a fault.
    pub fn poll_read<T: Instance, W>(
        &mut self,
        regs: &mut T,
        state: &mut State<W>,
        buf: &mut [u8],
        waker: W,
    ) -> (r: Poll<Result<usize, Error>>)
        ensures
            r == read_result(old(state)@, old(buf)@.len()),
            r is Ready ==> (final(state)@, final(regs)@) == after_read(
                old(state)@,
                old(regs)@,
                old(buf)@.len(),
            ),
            r is Pending ==> final(regs)@ == old(regs)@ && final(state)@ == (StateModel {
                rx_error: 0,
                rx_waker: Some(waker),
                ..old(state)@
            }),
            final(buf)@ == old(state)@.rx.data.take(
                old(state)@.rx.yields(old(buf)@.len()) as int,
            ) + old(buf)@.skip(old(state)@.rx.yields(old(buf)@.len()) as int),
    {
        match Self::try_read(regs, state, buf) {
            Poll::Ready(r) => Poll::Ready(r),
            Poll::Pending => {
                state.rx_waker.register(waker);
                Poll::Pending
            },
        }
    }

    /// Read from UART RX buffer blocking execution until done.
    ///
    /// This is one turn of the blocking read: the caller repeats it for as
    /// long as the answer is `Pending`. Each turn decides as a poll of the
    /// suspending read does.
    pub fn blocking_read<T: Instance, W>(
        &mut self,
        regs: &mut T,
        state: &mut State<W>,
        buf: &mut [u8],
    ) -> (r: Poll<Result<usize, Error>>)
        ensures
            r == read_result(old(state)@, old(buf)@.len()),
            (final(state)@, final(regs)@) == after_read(old(state)@, old(regs)@, old(buf)@.len()),
            final(buf)@ == old(state)@.rx.data.take(
                old(state)@.rx.yields(old(buf)@.len()) as int,
            ) + old(buf)@.skip(old(state)@.rx.yields(old(buf)@.len()) as int),
    {
        Self::try_read(regs, state, buf)
    }

    /// One poll of a suspending fill: shows the oldest queued bytes, as far
    /// as they lie in a row in the ring buffer, without copying or removing
    /// them. If no byte is queued, a latched fault is reported, once; without
    /// one, `waker` is registered and the answer is `Pending`.
    ///
    /// What was shown stays queued until `consume` releases it.
    pub fn poll_fill_buf<'a, W>(&mut self, state: &'a mut State<W>, waker: W) -> (r: Poll<
        Result<&'a [u8], Error>,
    >)
        ensures
            !old(state)@.rx.is_empty() ==> final(state)@ == old(state)@ && (r matches Poll::Ready(
                Ok(run),
            ) && run@ == old(state)@.rx.data.take(old(state)@.rx.readable() as int) && run@.len()
                > 0),
            old(state)@.rx.is_empty() ==> (match fault_of(old(state)@.rx_error) {
                Some(e) => r == Poll::Ready(Err::<&[u8], Error>(e)) && final(state)@ == (
                StateModel { rx_error: 0, ..old(state)@ }),
                None => r is Pending && final(state)@ == (StateModel {
                    rx_error: 0,
                    rx_waker: Some(waker),
                    ..old(state)@
                }),
            }),
    {
        proof {
            use_type_invariant(&state.rx_buf);
            state.rx_buf.lemma_wf();
        }
        if state.rx_buf.readable() == 0 {
            match Self::get_rx_error(state) {
                None => {
                    state.rx_waker.register(waker);
                    Poll::Pending
                },
                Some(e) => Poll::Ready(Err(e)),
            }
        } else {
            Poll::Ready(Ok(state.rx_buf.peek_contiguous()))
        }
    }

    /// Releases `amt` bytes of what a fill has shown, and arms the receive
    /// level source again: the room that this makes is the reason to let the
    /// port interrupt for more.
    pub fn consume<T: Instance, W>(&mut self, regs: &mut T, state: &mut State<W>, amt: usize)
        requires
            amt <= old(state)@.rx.readable(),
        ensures
            final(state)@ == (StateModel {
                rx: old(state)@.rx.consume(amt as nat),
                ..old(state)@
            }),
            final(regs)@ == old(regs)@.fifo_int_enable(FifoFlags::rx_level_only()),
    {
        state.rx_buf.commit_consumed(amt);
        // (Re-)Enable the interrupt to receive more data in case it was
        // disabled because the buffer was full or errors were detected.
        regs.fifo_int_enable(
            FifoFlags { rx_level: true, tx_level: false, rx_error: false, tx_error: false },
        );
    }

    /// we are ready to read if there is data in the buffer
    pub fn read_ready<W>(&mut self, state: &State<W>) -> (r: Result<bool, Error>)
        ensures
            r == Ok::<bool, Error>(!state@.rx.is_empty()),
    {
        Ok(!state.rx_buf.is_empty())
    }

    /// Reads one byte straight from the receive FIFO, past the ring buffer.
    ///
    /// `Pending` says that the FIFO is empty. A FIFO error empties the FIFO
    /// and is reported as a read error. A parity, framing or noise flag of
    /// the line status is cleared and reported, the first that is set in
    /// this order; the byte stays in the FIFO for the next call.
    pub fn nb_read<T: Instance>(&mut self, regs: &mut T) -> (r: Poll<Result<u8, Error>>)
        ensures
            r == nb_read_result(old(regs)@),
            final(regs)@ == after_nb_read(old(regs)@),
    {
        if !regs.rx_not_empty() {
            Poll::Pending
        } else if regs.rx_error() {
            regs.flush_rx();
            Poll::Ready(Err(Error::Read))
        } else {
            let stat: u32 = regs.line_status();
            if stat & RXE_PARITYERR != 0 {
                regs.clear_status(RXE_PARITYERR);
                Poll::Ready(Err(Error::Parity))
            } else if stat & RXE_FRAMERR != 0 {
                regs.clear_status(RXE_FRAMERR);
                Poll::Ready(Err(Error::Framing))
            } else if stat & RXE_NOISE != 0 {
                regs.clear_status(RXE_NOISE);
                Poll::Ready(Err(Error::Noise))
            } else {
                let byte: u8 = regs.read_rx();
                Poll::Ready(Ok(byte))
            }
        }
    }

    /// Gives the endpoint up: detaches the receive ring buffer and hands its
    /// array back. If the transmit direction is not in use either, the
    /// interrupt line of the port is blocked.
    pub fn release<T: Instance, W>(self, regs: &mut T, state: &mut State<W>) -> (storage: Vec<u8>)
        ensures
            (final(state)@, final(regs)@) == after_release_rx(old(state)@, old(regs)@),
            crate::ring::holds(storage@, old(state)@.rx),
    {
        let storage = state.rx_buf.detach();
        // TX is inactive if the buffer is not available.
        // We can now unregister the interrupt handler
        if !state.tx_buf.is_available() {
            regs.line(LineOp::Disable);
        }
        storage
    }
}

impl BufferedUartTx {
    /// The pins of a transmit endpoint, without or with flow control.
    pub open spec fn pins(cts: bool) -> Pins {
        Pins { tx: true, rx: false, rts: false, cts }
    }

    /// Create a new buffered UART TX.
    ///
    /// Fails, and changes nothing, if the peripheral setup rejects the
    /// configuration. Else `tx_buffer` is attached as the transmit ring
    /// buffer and the port is armed.
    pub fn new<T: Instance, W>(
        regs: &mut T,
        state: &mut State<W>,
        tx_buffer: Vec<u8>,
        config: Config,
    ) -> (r: Result<Self, Error>)
        ensures
            old(regs).rejects(Self::pins(false), config) matches Some(e) ==> r matches Err(f) && f
                == e,
            old(regs).rejects(Self::pins(false), config) is None ==> r is Ok,
            (final(state)@, final(regs)@) == after_build(
                old(state)@,
                old(regs)@,
                old(regs).rejects(Self::pins(false), config),
                Self::pins(false),
                config,
                Some(tx_buffer@),
                None,
            ),
    {
        let pins = Pins { tx: true, rx: false, rts: false, cts: false };
        match build(regs, state, pins, Some(tx_buffer), None, config) {
            Err(e) => Err(e),
            Ok(()) => Ok(BufferedUartTx { _private: () }),
        }
    }

    /// Create a new buffered UART TX with flow control.
    pub fn new_with_cts<T: Instance, W>(
        regs: &mut T,
        state: &mut State<W>,
        tx_buffer: Vec<u8>,
        config: Config,
    ) -> (r: Result<Self, Error>)
        ensures
            old(regs).rejects(Self::pins(true), config) matches Some(e) ==> r matches Err(f) && f
                == e,
            old(regs).rejects(Self::pins(true), config) is None ==> r is Ok,
            (final(state)@, final(regs)@) == after_build(
                old(state)@,
                old(regs)@,
                old(regs).rejects(Self::pins(true), config),
                Self::pins(true),
                config,
                Some(tx_buffer@),
                None,
            ),
    {
        let pins = Pins { tx: true, rx: false, rts: false, cts: true };
        match build(regs, state, pins, Some(tx_buffer), None, config) {
            Err(e) => Err(e),
            Ok(()) => Ok(BufferedUartTx { _private: () }),
        }
    }

    /// One attempt to write `buf`.
    ///
    /// An empty `buf` is answered with 0 bytes at once. Else bytes from the
    /// front of `buf` are queued, as far as they fit the run of free slots of
    /// the ring buffer. If none fits, the answer is `Pending`. If this was
    /// the first byte into an empty buffer while the transmitter is idle, the
    /// interrupt is pended, once, to start the transmission.
    pub fn try_write<T: Instance, W>(regs: &mut T, state: &mut State<W>, buf: &[u8]) -> (r: Poll<
        Result<usize, Error>,
    >)
        ensures
            r == write_result(old(state)@, buf@),
            (final(state)@, final(regs)@) == after_write(old(state)@, old(regs)@, buf@),
    {
        proof {
            use_type_invariant(&state.tx_buf);
            state.tx_buf.lemma_wf();
        }
        if buf.len() == 0 {
            return Poll::Ready(Ok(0));
        }
        let first: bool = state.tx_buf.is_empty();
        let n: usize = state.tx_buf.push_from(buf);
        if n == 0 {
            return Poll::Pending;
        }
        // The transmit interrupt comes only when bytes leave the FIFO. With
        // nothing on its way, nothing would ever call the handler: pend it by
        // hand to move the queued bytes into the FIFO.
        if first && regs.tx_idle() {
            regs.line(LineOp::Pend);
        }
        Poll::Ready(Ok(n))
    }

    /// One poll of a suspending write: one attempt to write, and if it has
    /// to be tried again, `waker` is registered to be notified when the
    /// interrupt handler has made room.
    pub fn poll_write<T: Instance, W>(
        &mut self,
        regs: &mut T,
        state: &mut State<W>,
        buf: &[u8],
        waker: W,
    ) -> (r: Poll<Result<usize, Error>>)
        ensures
            r == write_result(old(state)@, buf@),
            r is Ready ==> (final(state)@, final(regs)@) == after_write(
                old(state)@,
                old(regs)@,
                buf@,
            ),
            r is Pending ==> final(regs)@ == old(regs)@ && final(state)@ == (StateModel {
                tx_waker: Some(waker),
                ..old(state)@
            }),
    {
        proof {
            use_type_invariant(&state.tx_buf);
            state.tx_buf.lemma_wf();
        }
        match Self::try_write(regs, state, buf) {
            Poll::Ready(r) => Poll::Ready(r),
            Poll::Pending => {
                state.tx_waker.register(waker);
                Poll::Pending
            },
        }
    }

    /// Write to UART TX buffer blocking execution until done.
    ///
    /// This is one turn of the blocking write: the caller repeats it for as
    /// long as the answer is `Pending`. Each turn decides as a poll of the
    /// suspending write does.
    pub fn blocking_write<T: Instance, W>(
        &mut self,
        regs: &mut T,
        state: &mut State<W>,
        buf: &[u8],
    ) -> (r: Poll<Result<usize, Error>>)
        ensures
            r == write_result(old(state)@, buf@),
            (final(state)@, final(regs)@) == after_write(old(state)@, old(regs)@, buf@),
    {
        Self::try_write(regs, state, buf)
    }

    /// One poll of a suspending flush: complete when the transmit ring
    /// buffer is empty; else `waker` is registered to be notified when the
    /// interrupt handler has moved bytes out of it. That the ring buffer is
    /// empty does not say that the FIFO of the port is.
    pub fn poll_flush<W>(&mut self, state: &mut State<W>, waker: W) -> (r: Poll<Result<(), Error>>)
        ensures
            r == flush_result(old(state)@),
            r is Ready ==> final(state)@ == old(state)@,
            r is Pending ==> final(state)@ == (StateModel {
                tx_waker: Some(waker),
                ..old(state)@
            }),
    {
        if !state.tx_buf.is_empty() {
            state.tx_waker.register(waker);
            return Poll::Pending;
        }
        Poll::Ready(Ok(()))
    }

    /// Flush UART TX blocking execution until done.
    ///
    /// This is one turn of the blocking flush: the caller repeats it for as
    /// long as the answer is `Pending`.
    pub fn blocking_flush<W>(&mut self, state: &State<W>) -> (r: Poll<Result<(), Error>>)
        ensures
            r == flush_result(state@),
    {
        if state.tx_buf.is_empty() {
            Poll::Ready(Ok(()))
        } else {
            Poll::Pending
        }
    }

    /// Check if UART is busy.
    pub fn busy<T: Instance>(&self, regs: &T) -> (r: bool)
        ensures
            r == !regs@.tx_idle,
    {
        !regs.tx_idle()
    }

    /// Gives the endpoint up: detaches the transmit ring buffer and hands
    /// its array back. If the receive direction is not in use either, the
    /// interrupt line of the port is blocked.
    pub fn release<T: Instance, W>(self, regs: &mut T, state: &mut State<W>) -> (storage: Vec<u8>)
        ensures
            (final(state)@, final(regs)@) == after_release_tx(old(state)@, old(regs)@),
            crate::ring::holds(storage@, old(state)@.tx),
    {
        let storage = state.tx_buf.detach();
        // RX is inactive if the buffer is not available.
        // We can now unregister the interrupt handler
        if !state.rx_buf.is_available() {
            regs.line(LineOp::Disable);
        }
        storage
    }
}

impl BufferedUart {
    /// The pins of a combined endpoint, without or with flow control.
    pub open spec fn pins(rtscts: bool) -> Pins {
        Pins { tx: true, rx: true, rts: rtscts, cts: rtscts }
    }

    /// Create a buffered UART instance.
    ///
    /// Fails, and changes nothing, if the peripheral setup rejects the
    /// configuration. Else the two arrays are attached as the ring buffers
    /// and the port is armed.
    pub fn new<T: Instance, W>(
        regs: &mut T,
        state: &mut State<W>,
        tx_buffer: Vec<u8>,
        rx_buffer: Vec<u8>,
        config: Config,
    ) -> (r: Result<Self, Error>)
        ensures
            old(regs).rejects(Self::pins(false), config) matches Some(e) ==> r matches Err(f) && f
                == e,
            old(regs).rejects(Self::pins(false), config) is None ==> r is Ok,
            (final(state)@, final(regs)@) == after_build(
                old(state)@,
                old(regs)@,
                old(regs).rejects(Self::pins(false), config),
                Self::pins(false),
                config,
                Some(tx_buffer@),
                Some(rx_buffer@),
            ),
    {
        let pins = Pins { tx: true, rx: true, rts: false, cts: false };
        match build(regs, state, pins, Some(tx_buffer), Some(rx_buffer), config) {
            Err(e) => Err(e),
            Ok(()) => Ok(
                BufferedUart {
                    rx: BufferedUartRx { _private: () },
                    tx: BufferedUartTx { _private: () },
                },
            ),
        }
    }

    /// Create a buffered UART instance with flow control.
    pub fn new_with_rtscts<T: Instance, W>(
        regs: &mut T,
        state: &mut State<W>,
        tx_buffer: Vec<u8>,
        rx_buffer: Vec<u8>,
        config: Config,
    ) -> (r: Result<Self, Error>)
        ensures
            old(regs).rejects(Self::pins(true), config) matches Some(e) ==> r matches Err(f) && f
                == e,
            old(regs).rejects(Self::pins(true), config) is None ==> r is Ok,
            (final(state)@, final(regs)@) == after_build(
                old(state)@,
                old(regs)@,
                old(regs).rejects(Self::pins(true), config),
                Self::pins(true),
                config,
                Some(tx_buffer@),
                Some(rx_buffer@),
            ),
    {
        let pins = Pins { tx: true, rx: true, rts: true, cts: true };
        match build(regs, state, pins, Some(tx_buffer), Some(rx_buffer), config) {
            Err(e) => Err(e),
            Ok(()) => Ok(
                BufferedUart {
                    rx: BufferedUartRx { _private: () },
                    tx: BufferedUartTx { _private: () },
                },
            ),
        }
    }

    /// Write to UART TX buffer blocking execution until done.
    ///
    /// One turn of the blocking write of the transmit endpoint.
    pub fn blocking_write<T: Instance, W>(
        &mut self,
        regs: &mut T,
        state: &mut State<W>,
        buffer: &[u8],
    ) -> (r: Poll<Result<usize, Error>>)
        ensures
            r == write_result(old(state)@, buffer@),
            (final(state)@, final(regs)@) == after_write(old(state)@, old(regs)@, buffer@),
            *final(self) == *old(self),
    {
        self.tx.blocking_write(regs, state, buffer)
    }

    /// Flush UART TX blocking execution until done.
    ///
    /// One turn of the blocking flush of the transmit endpoint.
    pub fn blocking_flush<W>(&mut self, state: &State<W>) -> (r: Poll<Result<(), Error>>)
        ensures
            r == flush_result(state@),
            *final(self) == *old(self),
    {
        self.tx.blocking_flush(state)
    }

    /// Read from UART RX buffer blocking execution until done.
    ///
    /// One turn of the blocking read of the receive endpoint.
    pub fn blocking_read<T: Instance, W>(
        &mut self,
        regs: &mut T,
        state: &mut State<W>,
        buffer: &mut [u8],
    ) -> (r: Poll<Result<usize, Error>>)
        ensures
            r == read_result(old(state)@, old(buffer)@.len()),
            (final(state)@, final(regs)@) == after_read(
                old(state)@,
                old(regs)@,
                old(buffer)@.len(),
            ),
            final(buffer)@ == old(state)@.rx.data.take(
                old(state)@.rx.yields(old(buffer)@.len()) as int,
            ) + old(buffer)@.skip(old(state)@.rx.yields(old(buffer)@.len()) as int),
            *final(self) == *old(self),
    {
        self.rx.blocking_read(regs, state, buffer)
    }

    /// Check if UART is busy transmitting.
    pub fn busy<T: Instance>(&self, regs: &T) -> (r: bool)
        ensures
            r == !regs@.tx_idle,
    {
        self.tx.busy(regs)
    }

    /// Split into separate RX and TX handles.
    pub fn split(self) -> (r: (BufferedUartTx, BufferedUartRx))
        ensures
            r == (self.tx, self.rx),
    {
        (self.tx, self.rx)
    }

    /// Split the Uart into a transmitter and receiver by mutable reference,
    /// which is particularly useful when having two tasks correlating to
    /// transmitting and receiving.
    pub fn split_ref(&mut self) -> (r: (&mut BufferedUartTx, &mut BufferedUartRx))
        ensures
            *r.0 == old(self).tx,
            *r.1 == old(self).rx,
            *final(self) == (BufferedUart { tx: *final(r.0), rx: *final(r.1) }),
    {
        (&mut self.tx, &mut self.rx)
    }

    /// Joins a transmit and a receive endpoint of one port.
    pub fn join(tx: BufferedUartTx, rx: BufferedUartRx) -> (r: Self)
        ensures
            r == (BufferedUart { rx, tx }),
    {
        BufferedUart { rx, tx }
    }
}

} // verus!
