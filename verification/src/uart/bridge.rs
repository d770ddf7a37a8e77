//! The interrupt handler of the buffered driver: it acknowledges what the
//! port has raised, moves received bytes from the receive FIFO into the
//! receive ring buffer, latches faults, and moves queued bytes from the
//! transmit ring buffer into the transmit FIFO.
use vstd::prelude::*;
use core::marker::PhantomData;
use super::state::{State, StateModel};
use super::{is_fault, Device, FifoFlags, Instance, IntFlags, RxEntry, RXE_MASK};

verus! {

/// The FIFO sources that one pass switches off for the FIFO sources that ask
/// for an interrupt: a level source together with the error source of its
/// direction.
pub open spec fn fifo_ack(asking: FifoFlags) -> FifoFlags {
    FifoFlags {
        rx_level: asking.rx_level || asking.rx_error,
        rx_error: asking.rx_level || asking.rx_error,
        tx_level: asking.tx_level || asking.tx_error,
        tx_error: asking.tx_level || asking.tx_error,
    }
}

/// The port after the handler has acknowledged what asked for the
/// interrupt: each line source that asks is disabled, and so is each FIFO
/// source that asks, together with the other source of its direction.
pub open spec fn acknowledged(device: Device) -> Device {
    device.int_disable(device.int_status()).fifo_int_disable(fifo_ack(device.fifo_int_status()))
}

/// How many entries one pass takes from the front of the receive FIFO when
/// the receive ring buffer has `room` slots in a row: it stops at the first
/// entry that shows a fault, at the end of the FIFO, and when the slots are
/// used up.
pub open spec fn rx_run(fifo: Seq<RxEntry>, room: nat) -> nat
    decreases room,
{
    if room == 0 || fifo.len() == 0 || is_fault(fifo[0].status) {
        0
    } else {
        1 + rx_run(fifo.skip(1), (room - 1) as nat)
    }
}

/// Whether one pass stops at an entry that shows a fault.
pub open spec fn rx_faulted(fifo: Seq<RxEntry>, room: nat) -> bool {
    let n = rx_run(fifo, room);
    n < room && n < fifo.len() && is_fault(fifo[n as int].status)
}

/// The data bytes of the first `n` entries of the receive FIFO.
pub open spec fn rx_bytes(fifo: Seq<RxEntry>, n: nat) -> Seq<u8> {
    fifo.take(n as int).map_values(|e: RxEntry| e.data)
}

/// What `rx_run` counts: the entries it takes show no fault and fit the
/// room, and it stops only for one of its three reasons.
pub proof fn lemma_rx_run(fifo: Seq<RxEntry>, room: nat)
    ensures
        rx_run(fifo, room) <= room,
        rx_run(fifo, room) <= fifo.len(),
        forall|i: int| 0 <= i < rx_run(fifo, room) ==> !is_fault(#[trigger] fifo[i].status),
        rx_run(fifo, room) == room || rx_run(fifo, room) == fifo.len() || rx_faulted(fifo, room),
    decreases room,
{
    if room > 0 && fifo.len() > 0 && !is_fault(fifo[0].status) {
        let rest = fifo.skip(1);
        lemma_rx_run(rest, (room - 1) as nat);
        assert forall|i: int| 0 <= i < rx_run(fifo, room) implies !is_fault(
            #[trigger] fifo[i].status,
        ) by {
            if i > 0 {
                assert(fifo[i] == rest[i - 1]);
            }
        }
    }
}

/// The shared state and the port after the receive part of one pass.
///
/// Nothing happens unless the receive ring buffer is available. Else the
/// pass takes `rx_run` entries and queues their bytes in order. If it stopped
/// at a fault, the fault flags of that entry are latched and the entry stays
/// in the FIFO. If it queued a byte or stopped at a fault, the waiting task
/// is woken. If the ring buffer is now full, or the pass stopped at a fault,
/// the receive level source is switched off.
pub open spec fn after_rx<W>(state: StateModel<W>, device: Device) -> (StateModel<W>, Device) {
    if !state.rx.is_available() {
        (state, device)
    } else {
        let room = state.rx.writable();
        let n = rx_run(device.rx_fifo, room);
        let fault = rx_faulted(device.rx_fifo, room);
        let rx = state.rx.produce(rx_bytes(device.rx_fifo, n));
        let taken = device.rx_taken(n);
        (
            StateModel {
                rx,
                rx_error: if fault {
                    state.rx_error | (device.rx_fifo[n as int].status & RXE_MASK)
                } else {
                    state.rx_error
                },
                rx_waker: if n > 0 || fault {
                    None
                } else {
                    state.rx_waker
                },
                ..state
            },
            if rx.is_full() || fault {
                taken.fifo_int_disable(FifoFlags::rx_level_only())
            } else {
                taken
            },
        )
    }
}

/// The waker that the receive part of one pass hands out to be notified.
pub open spec fn rx_woken<W>(state: StateModel<W>, device: Device) -> Option<W> {
    let room = state.rx.writable();
    if state.rx.is_available() && (rx_run(device.rx_fifo, room) > 0 || rx_faulted(
        device.rx_fifo,
        room,
    )) {
        state.rx_waker
    } else {
        None
    }
}

/// How many bytes the transmit part of one pass moves: as many as lie in a
/// row at the front of the transmit ring buffer and the transmit FIFO takes.
pub open spec fn tx_run<W>(state: StateModel<W>, device: Device) -> nat {
    if state.tx.readable() <= device.tx_room() {
        state.tx.readable()
    } else {
        device.tx_room()
    }
}

/// The shared state and the port after the transmit part of one pass.
///
/// Nothing happens unless the transmit ring buffer is available. Else the
/// pass moves the `tx_run` oldest queued bytes into the transmit FIFO, in
/// order, and wakes the waiting task if it moved a byte.
pub open spec fn after_tx<W>(state: StateModel<W>, device: Device) -> (StateModel<W>, Device) {
    if !state.tx.is_available() {
        (state, device)
    } else {
        let n = tx_run(state, device);
        (
            StateModel {
                tx: state.tx.consume(n),
                tx_waker: if n > 0 {
                    None
                } else {
                    state.tx_waker
                },
                ..state
            },
            device.tx_given(state.tx.data.take(n as int)),
        )
    }
}

/// The waker that the transmit part of one pass hands out to be notified.
pub open spec fn tx_woken<W>(state: StateModel<W>, device: Device) -> Option<W> {
    if state.tx.is_available() && tx_run(state, device) > 0 {
        state.tx_waker
    } else {
        None
    }
}

/// The receive part of a pass keeps the order of the stream: the queued
/// bytes followed by the bytes still in the receive FIFO are after the pass
/// what they were before it. No byte is lost, doubled or moved past another.
pub proof fn lemma_rx_keeps_order<W>(state: StateModel<W>, device: Device)
    ensures
        ({
            let (s1, d1) = after_rx(state, device);
            s1.rx.data + rx_bytes(d1.rx_fifo, d1.rx_fifo.len()) == state.rx.data + rx_bytes(
                device.rx_fifo,
                device.rx_fifo.len(),
            )
        }),
{
    lemma_rx_run(device.rx_fifo, state.rx.writable());
}

/// The transmit part of a pass keeps the order of the stream: the bytes in
/// the transmit FIFO followed by the queued bytes are after the pass what
/// they were before it, and the FIFO never holds more than its depth.
pub proof fn lemma_tx_keeps_order<W>(state: StateModel<W>, device: Device)
    requires
        state.tx.wf(),
    ensures
        ({
            let (s1, d1) = after_tx(state, device);
            &&& d1.tx_fifo + s1.tx.data == device.tx_fifo + state.tx.data
            &&& device.tx_fifo.len() <= device.tx_depth ==> d1.tx_fifo.len() <= d1.tx_depth
            &&& s1.tx.wf()
        }),
{
}

/// What one pass of the interrupt handler hands back to its caller.
pub struct Serviced<W> {
    /// The waker of the receiving task, which the caller is to notify.
    pub rx: Option<W>,
    /// The waker of the transmitting task, which the caller is to notify.
    pub tx: Option<W>,
    /// The fault sources that asked for this interrupt, for a diagnostic.
    pub faults: IntFlags,
}

/// Interrupt handler.
pub struct BufferedInterruptHandler<T: Instance> {
    _uart: PhantomData<T>,
}

/// Acknowledges what asked for the interrupt and returns the line sources
/// that did.
pub fn acknowledge<T: Instance>(regs: &mut T) -> (asking: IntFlags)
    ensures
        asking == old(regs)@.int_status(),
        final(regs)@ == acknowledged(old(regs)@),
{
    let stat = regs.int_status();
    if stat.is_any() {
        regs.int_disable(stat);
    }
    let fifo = regs.fifo_int_status();
    if fifo.tx_level || fifo.tx_error {
        regs.fifo_int_disable(
            FifoFlags { rx_level: false, rx_error: false, tx_level: true, tx_error: true },
        );
    }
    let fifo = regs.fifo_int_status();
    if fifo.rx_level || fifo.rx_error {
        regs.fifo_int_disable(
            FifoFlags { rx_level: true, rx_error: true, tx_level: false, tx_error: false },
        );
    }
    stat
}

/// The receive part of one pass: drains the receive FIFO into the receive
/// ring buffer, as far as the run of free slots reaches and no entry shows a
/// fault. Returns the waker to notify, if the pass gives reason to.
pub fn drain_rx<T: Instance, W>(regs: &mut T, state: &mut State<W>) -> (woken: Option<W>)
    ensures
        (final(state)@, final(regs)@) == after_rx(old(state)@, old(regs)@),
        woken == rx_woken(old(state)@, old(regs)@),
{
    if !state.rx_buf.is_available() {
        return None;
    }
    proof {
        use_type_invariant(&state.rx_buf);
        state.rx_buf.lemma_wf();
    }
    let ghost fifo = regs@.rx_fifo;
    let room: usize = state.rx_buf.writable();
    let mut n_read: usize = 0;
    let mut error: bool = false;
    let mut more: bool = true;
    proof {
        assert(fifo.skip(0) =~= fifo);
    }
    while more && n_read < room
        invariant
            n_read <= room,
            room == old(state)@.rx.writable(),
            old(state)@.rx.wf(),
            fifo == old(regs)@.rx_fifo,
            n_read <= fifo.len(),
            regs@ == old(regs)@.rx_taken(n_read as nat),
            state@ == (StateModel {
                rx: old(state)@.rx.produce(rx_bytes(fifo, n_read as nat)),
                rx_error: if error {
                    old(state)@.rx_error | (fifo[n_read as int].status & RXE_MASK)
                } else {
                    old(state)@.rx_error
                },
                ..old(state)@
            }),
            rx_run(fifo, room as nat) == n_read + rx_run(
                fifo.skip(n_read as int),
                (room - n_read) as nat,
            ),
            error ==> !more && n_read < room && n_read < fifo.len() && is_fault(
                fifo[n_read as int].status,
            ),
            !more ==> rx_run(fifo.skip(n_read as int), (room - n_read) as nat) == 0,
            !more && !error ==> n_read == fifo.len(),
        decreases (if more { 1int } else { 0int }) + room - n_read,
    {
        if !regs.rx_not_empty() {
            // RX FIFO is empty, stop.
            more = false;
        } else {
            let stat: u32 = regs.line_status();
            if stat & RXE_MASK != 0 {
                // Only valid bytes go into the buffer. The faulty entry stays
                // in the FIFO: queued behind the bytes before it, the fault
                // would be reported one byte late.
                state.rx_error.latch(stat & RXE_MASK);
                error = true;
                more = false;
            } else {
                let byte: u8 = regs.read_rx();
                state.rx_buf.push_one(byte);
                proof {
                    assert(fifo.skip(n_read as int).skip(1) =~= fifo.skip(n_read + 1));
                    assert(state.rx_buf@.data =~= old(state)@.rx.data + rx_bytes(
                        fifo,
                        (n_read + 1) as nat,
                    ));
                }
                n_read = n_read + 1;
            }
        }
    }
    let woken = if n_read > 0 || error {
        state.rx_waker.wake()
    } else {
        None
    };
    // No further receive interrupts once the buffer is full or a fault has
    // occurred: the consumer arms the source again when it has made room.
    if state.rx_buf.is_full() || error {
        regs.fifo_int_disable(
            FifoFlags { rx_level: true, tx_level: false, rx_error: false, tx_error: false },
        );
    }
    woken
}

/// The transmit part of one pass: moves queued bytes from the transmit ring
/// buffer into the transmit FIFO, as far as the run of queued bytes reaches
/// and the FIFO takes them. Returns the waker to notify, if a byte moved.
pub fn drain_tx<T: Instance, W>(regs: &mut T, state: &mut State<W>) -> (woken: Option<W>)
    ensures
        (final(state)@, final(regs)@) == after_tx(old(state)@, old(regs)@),
        woken == tx_woken(old(state)@, old(regs)@),
{
    if !state.tx_buf.is_available() {
        return None;
    }
    proof {
        use_type_invariant(&state.tx_buf);
        state.tx_buf.lemma_wf();
    }
    let run: usize = state.tx_buf.readable();
    let mut n_written: usize = 0;
    let mut more: bool = true;
    proof {
        assert(state@.tx.data.skip(0) =~= state@.tx.data);
    }
    while more && n_written < run
        invariant
            n_written <= run,
            run == old(state)@.tx.readable(),
            old(state)@.tx.wf(),
            n_written <= old(regs)@.tx_room(),
            regs@ == old(regs)@.tx_given(old(state)@.tx.data.take(n_written as int)),
            state@ == (StateModel {
                tx: old(state)@.tx.consume(n_written as nat),
                ..old(state)@
            }),
            !more ==> n_written == old(regs)@.tx_room(),
        decreases (if more { 1int } else { 0int }) + run - n_written,
    {
        if !regs.tx_not_full() {
            // FIFO is full, stop.
            more = false;
        } else {
            let popped = state.tx_buf.pop_one();
            let byte: u8 = match popped {
                Some(b) => b,
                None => 0,
            };
            regs.write_tx(byte);
            proof {
                assert((old(regs)@.tx_fifo + old(state)@.tx.data.take(n_written as int)) + seq![
                    byte,
                ] =~= old(regs)@.tx_fifo + old(state)@.tx.data.take(n_written + 1));
                assert(old(state)@.tx.data.take(n_written as int) + seq![byte] =~= old(
                    state,
                )@.tx.data.take(n_written + 1));
                assert(state.tx_buf@.data =~= old(state)@.tx.data.skip(n_written + 1));
            }
            n_written = n_written + 1;
        }
    }
    // The transmit level source fires once when the threshold is crossed
    // and need not be switched off when the buffer runs empty.
    if n_written > 0 {
        state.tx_waker.wake()
    } else {
        None
    }
}

impl<T: Instance> BufferedInterruptHandler<T> {
    /// The shared state and the port after one pass of the handler:
    /// acknowledged, then the receive part, then the transmit part.
    pub open spec fn after_pass<W>(state: StateModel<W>, device: Device) -> (
        StateModel<W>,
        Device,
    ) {
        let (s1, d1) = after_rx(state, acknowledged(device));
        after_tx(s1, d1)
    }

    /// What one pass of the handler hands back.
    pub open spec fn serviced<W>(state: StateModel<W>, device: Device) -> Serviced<W> {
        let (s1, d1) = after_rx(state, acknowledged(device));
        Serviced {
            rx: rx_woken(state, acknowledged(device)),
            tx: tx_woken(s1, d1),
            faults: device.int_status().and(IntFlags::faults()),
        }
    }

    /// Services one interrupt of the port.
    ///
    /// The pass acknowledges what asked for the interrupt, drains the receive
    /// FIFO into the receive ring buffer and the transmit ring buffer into
    /// the transmit FIFO, each only if its buffer is available, and hands
    /// back the wakers of the tasks that have something to look at. It never
    /// waits and never fails.
    pub fn on_interrupt<W>(regs: &mut T, state: &mut State<W>) -> (r: Serviced<W>)
        ensures
            (final(state)@, final(regs)@) == Self::after_pass(old(state)@, old(regs)@),
            r == Self::serviced(old(state)@, old(regs)@),
    {
        let asking = acknowledge(regs);
        let faults = asking.intersection(
            IntFlags { tx_idle: false, framing: true, parity: true, noise: true, rx_break: true },
        );
        let rx = drain_rx(regs, state);
        let tx = drain_tx(regs, state);
        Serviced { rx, tx, faults }
    }
}

} // verus!
