use imxrt_core::uart::bridge::{acknowledge, drain_rx, drain_tx, BufferedInterruptHandler};
use imxrt_core::uart::buffered::{
    build, init_buffers, BufferedUart, BufferedUartRx, BufferedUartTx, Poll,
};
use imxrt_core::uart::sim::SimUart;
use imxrt_core::uart::state::{ErrorLatch, State, WakerSlot};
use imxrt_core::uart::{
    decode_fault, Config, Error, FifoFlags, Instance, IntFlags, LineOp, Parity, Pins, StopBits,
    RXE_BREAK, RXE_FRAMERR, RXE_MASK, RXE_NOISE, RXE_PARITYERR,
};

type Handler = BufferedInterruptHandler<SimUart>;

fn config() -> Config {
    Config { baudrate: 115_200, parity: Parity::ParityNone, stop_bits: StopBits::Stop1 }
}

/// A port with a transmit FIFO of `tx_depth` bytes and a combined endpoint
/// with ring buffers of the given sizes.
fn open(tx_depth: usize, tx_len: usize, rx_len: usize) -> (SimUart, State<u32>, BufferedUart) {
    let mut regs = SimUart::new(tx_depth);
    let mut state: State<u32> = State::new();
    let uart =
        BufferedUart::new(&mut regs, &mut state, vec![0u8; tx_len], vec![0u8; rx_len], config())
            .unwrap();
    (regs, state, uart)
}

fn receive_all(regs: &mut SimUart, bytes: &[u8]) {
    for b in bytes {
        regs.receive(*b, 0);
    }
}

const NO_INT: IntFlags =
    IntFlags { tx_idle: false, framing: false, parity: false, noise: false, rx_break: false };
const FAULT_INTS: IntFlags =
    IntFlags { tx_idle: false, framing: true, parity: true, noise: true, rx_break: true };
const NO_FIFO: FifoFlags =
    FifoFlags { rx_level: false, tx_level: false, rx_error: false, tx_error: false };
const LEVELS: FifoFlags =
    FifoFlags { rx_level: true, tx_level: true, rx_error: false, tx_error: false };

// ---- fault flags ----

#[test]
fn fault_flags_sit_where_the_status_register_has_them() {
    assert_eq!(RXE_NOISE, 1 << 15);
    assert_eq!(RXE_PARITYERR, 1 << 14);
    assert_eq!(RXE_FRAMERR, 1 << 13);
    assert_eq!(RXE_BREAK, 1 << 10);
    assert_eq!(RXE_MASK, RXE_NOISE | RXE_PARITYERR | RXE_FRAMERR | RXE_BREAK);
}

#[test]
fn decode_fault_gives_each_fault_for_its_flag() {
    assert_eq!(decode_fault(0), None);
    assert_eq!(decode_fault(RXE_NOISE), Some(Error::Noise));
    assert_eq!(decode_fault(RXE_PARITYERR), Some(Error::Parity));
    assert_eq!(decode_fault(RXE_FRAMERR), Some(Error::Framing));
    assert_eq!(decode_fault(RXE_BREAK), Some(Error::Break));
}

#[test]
fn decode_fault_follows_the_priority_order() {
    assert_eq!(decode_fault(RXE_MASK), Some(Error::Noise));
    assert_eq!(decode_fault(RXE_PARITYERR | RXE_FRAMERR | RXE_BREAK), Some(Error::Parity));
    assert_eq!(decode_fault(RXE_FRAMERR | RXE_BREAK), Some(Error::Framing));
    assert_eq!(decode_fault(RXE_NOISE | RXE_BREAK), Some(Error::Noise));
}

#[test]
fn decode_fault_ignores_other_bits() {
    assert_eq!(decode_fault(!RXE_MASK), None);
    assert_eq!(decode_fault(0x0000_0008), None);
    assert_eq!(decode_fault(!RXE_MASK | RXE_BREAK), Some(Error::Break));
}

// ---- shared state ----

#[test]
fn new_state_is_idle() {
    let state: State<u32> = State::new();
    assert!(!state.rx_buf.is_available());
    assert!(!state.tx_buf.is_available());
    assert!(!state.rx_waker.is_registered());
    assert!(!state.tx_waker.is_registered());
    assert_eq!(state.rx_error.peek(), 0);
}

#[test]
fn waker_slot_keeps_the_last_registration() {
    let mut slot: WakerSlot<u32> = WakerSlot::new();
    assert_eq!(slot.wake(), None);
    slot.register(1);
    slot.register(2);
    assert!(slot.is_registered());
    assert_eq!(slot.wake(), Some(2));
    assert!(!slot.is_registered());
    assert_eq!(slot.wake(), None);
}

#[test]
fn error_latch_accumulates_until_taken() {
    let mut latch = ErrorLatch::new();
    latch.latch(RXE_FRAMERR);
    latch.latch(RXE_NOISE);
    assert_eq!(latch.peek(), RXE_FRAMERR | RXE_NOISE);
    assert_eq!(latch.take(), RXE_FRAMERR | RXE_NOISE);
    assert_eq!(latch.take(), 0);
}

// ---- construction ----

#[test]
fn new_attaches_both_buffers_and_arms_the_port() {
    let (regs, state, _uart) = open(8, 32, 16);
    assert_eq!(state.tx_buf.capacity(), 32);
    assert_eq!(state.rx_buf.capacity(), 16);
    assert!(state.tx_buf.is_empty());
    assert!(state.rx_buf.is_empty());
    assert_eq!(regs.enabled(), FAULT_INTS);
    assert_eq!(regs.fifo_enabled(), LEVELS);
    assert_eq!(regs.triggers(), (true, true));
    assert!(regs.line_enabled());
    assert!(!regs.line_pending());
    assert_eq!(regs.line_count(LineOp::Unpend), 1);
    assert_eq!(regs.line_count(LineOp::Enable), 1);
    assert_eq!(regs.line_count(LineOp::Pend), 0);
    assert_eq!(regs.line_count(LineOp::Disable), 0);
    assert_eq!(
        regs.setup(),
        Some((Pins { tx: true, rx: true, rts: false, cts: false }, config()))
    );
}

#[test]
fn construction_takes_a_stale_request_back_before_it_lets_the_line_through() {
    let mut regs = SimUart::new(8);
    regs.line(LineOp::Pend);
    assert!(regs.line_pending());
    let mut state: State<u32> = State::new();
    let _rx = BufferedUartRx::new(&mut regs, &mut state, vec![0u8; 4], config()).unwrap();
    assert!(!regs.line_pending());
    assert!(regs.line_enabled());
    assert!(!regs.interrupt_requested());
}

#[test]
fn each_constructor_routes_its_pins() {
    let mut regs = SimUart::new(8);
    let mut state: State<u32> = State::new();
    BufferedUartRx::new(&mut regs, &mut state, vec![0u8; 4], config()).unwrap();
    assert_eq!(regs.setup().unwrap().0, Pins { tx: false, rx: true, rts: false, cts: false });
    let mut regs = SimUart::new(8);
    let mut state: State<u32> = State::new();
    BufferedUartRx::new_with_rts(&mut regs, &mut state, vec![0u8; 4], config()).unwrap();
    assert_eq!(regs.setup().unwrap().0, Pins { tx: false, rx: true, rts: true, cts: false });
    let mut regs = SimUart::new(8);
    let mut state: State<u32> = State::new();
    BufferedUartTx::new(&mut regs, &mut state, vec![0u8; 4], config()).unwrap();
    assert_eq!(regs.setup().unwrap().0, Pins { tx: true, rx: false, rts: false, cts: false });
    let mut regs = SimUart::new(8);
    let mut state: State<u32> = State::new();
    BufferedUartTx::new_with_cts(&mut regs, &mut state, vec![0u8; 4], config()).unwrap();
    assert_eq!(regs.setup().unwrap().0, Pins { tx: true, rx: false, rts: false, cts: true });
    let mut regs = SimUart::new(8);
    let mut state: State<u32> = State::new();
    BufferedUart::new_with_rtscts(&mut regs, &mut state, vec![0u8; 4], vec![0u8; 4], config())
        .unwrap();
    assert_eq!(regs.setup().unwrap().0, Pins { tx: true, rx: true, rts: true, cts: true });
    assert!(state.tx_buf.is_available());
    assert!(state.rx_buf.is_available());
}

#[test]
fn rx_constructor_leaves_the_transmit_side_alone() {
    let mut regs = SimUart::new(8);
    let mut state: State<u32> = State::new();
    BufferedUartRx::new(&mut regs, &mut state, vec![0u8; 4], config()).unwrap();
    assert!(state.rx_buf.is_available());
    assert!(!state.tx_buf.is_available());
}

#[test]
fn rejected_setup_fails_and_changes_nothing() {
    let mut regs = SimUart::new(8);
    regs.set_reject(Some(Error::UnsupportedConfiguration));
    let mut state: State<u32> = State::new();
    let r = BufferedUart::new(&mut regs, &mut state, vec![0u8; 8], vec![0u8; 8], config());
    assert_eq!(r.err(), Some(Error::UnsupportedConfiguration));
    assert!(!state.rx_buf.is_available());
    assert!(!state.tx_buf.is_available());
    assert_eq!(regs.enabled(), NO_INT);
    assert_eq!(regs.fifo_enabled(), NO_FIFO);
    assert_eq!(regs.triggers(), (false, false));
    assert!(!regs.line_enabled());
    assert_eq!(regs.setup(), None);
    assert_eq!(regs.line_count(LineOp::Enable), 0);

    let r = BufferedUartRx::new(&mut regs, &mut state, vec![0u8; 8], config());
    assert_eq!(r.err(), Some(Error::UnsupportedConfiguration));
    let r = BufferedUartTx::new_with_cts(&mut regs, &mut state, vec![0u8; 8], config());
    assert_eq!(r.err(), Some(Error::UnsupportedConfiguration));
    assert!(!state.tx_buf.is_available());
}

#[test]
fn build_answers_what_the_setup_answers() {
    let pins = Pins { tx: true, rx: false, rts: false, cts: false };
    let mut regs = SimUart::new(8);
    let mut state: State<u32> = State::new();
    assert_eq!(build(&mut regs, &mut state, pins, Some(vec![0u8; 4]), None, config()), Ok(()));
    assert!(state.tx_buf.is_available());
    let mut regs = SimUart::new(8);
    regs.set_reject(Some(Error::Read));
    let mut state: State<u32> = State::new();
    assert_eq!(
        build(&mut regs, &mut state, pins, Some(vec![0u8; 4]), None, config()),
        Err(Error::Read)
    );
    assert!(!state.tx_buf.is_available());
}

#[test]
fn init_buffers_attaches_only_what_it_is_given() {
    let mut regs = SimUart::new(8);
    let mut state: State<u32> = State::new();
    init_buffers(&mut regs, &mut state, None, Some(vec![0u8; 5]));
    assert!(!state.tx_buf.is_available());
    assert_eq!(state.rx_buf.capacity(), 5);
    assert!(regs.line_enabled());
    init_buffers(&mut regs, &mut state, Some(vec![0u8; 7]), None);
    assert_eq!(state.tx_buf.capacity(), 7);
    assert_eq!(state.rx_buf.capacity(), 5);
}

// ---- the interrupt handler ----

#[test]
fn acknowledge_disables_exactly_the_line_sources_that_ask() {
    let (mut regs, _state, _uart) = open(8, 8, 8);
    regs.int_enable(IntFlags { tx_idle: true, ..NO_INT });
    regs.raise(IntFlags { tx_idle: true, framing: true, ..NO_INT });
    let asking = acknowledge(&mut regs);
    assert_eq!(asking, IntFlags { tx_idle: true, framing: true, ..NO_INT });
    assert_eq!(regs.enabled(), IntFlags { parity: true, noise: true, rx_break: true, ..NO_INT });
    assert_eq!(regs.int_status(), NO_INT);
}

#[test]
fn acknowledge_ignores_sources_that_are_not_enabled() {
    let mut regs = SimUart::new(8);
    regs.raise(FAULT_INTS);
    regs.raise_fifo(LEVELS);
    assert_eq!(acknowledge(&mut regs), NO_INT);
    assert_eq!(regs.enabled(), NO_INT);
    assert_eq!(regs.fifo_enabled(), NO_FIFO);
}

#[test]
fn acknowledge_disables_a_fifo_level_with_the_error_of_its_direction() {
    let (mut regs, _state, _uart) = open(8, 8, 8);
    regs.fifo_int_enable(FifoFlags { rx_error: true, tx_error: true, ..NO_FIFO });
    regs.raise_fifo(FifoFlags { tx_level: true, ..NO_FIFO });
    acknowledge(&mut regs);
    assert_eq!(regs.fifo_enabled(), FifoFlags { rx_level: true, rx_error: true, ..NO_FIFO });
    regs.raise_fifo(FifoFlags { rx_error: true, ..NO_FIFO });
    acknowledge(&mut regs);
    assert_eq!(regs.fifo_enabled(), NO_FIFO);
}

#[test]
fn handler_reports_the_fault_sources_that_asked() {
    let (mut regs, mut state, _uart) = open(8, 8, 8);
    regs.int_enable(IntFlags { tx_idle: true, ..NO_INT });
    regs.raise(IntFlags { tx_idle: true, parity: true, rx_break: true, ..NO_INT });
    let serviced = Handler::on_interrupt(&mut regs, &mut state);
    assert_eq!(serviced.faults, IntFlags { parity: true, rx_break: true, ..NO_INT });
    assert_eq!(serviced.rx, None);
    assert_eq!(serviced.tx, None);
}

#[test]
fn handler_moves_received_bytes_and_wakes_the_reader() {
    let (mut regs, mut state, _uart) = open(8, 8, 8);
    state.rx_waker.register(11);
    state.tx_waker.register(22);
    receive_all(&mut regs, &[1, 2, 3]);
    let serviced = Handler::on_interrupt(&mut regs, &mut state);
    assert_eq!(serviced.rx, Some(11));
    assert_eq!(serviced.tx, None);
    assert!(!state.rx_waker.is_registered());
    assert!(state.tx_waker.is_registered());
    assert_eq!(state.rx_buf.peek_contiguous(), &[1, 2, 3]);
    assert_eq!(regs.rx_len(), 0);
}

#[test]
fn handler_without_work_wakes_nobody() {
    let (mut regs, mut state, _uart) = open(8, 8, 8);
    state.rx_waker.register(11);
    state.tx_waker.register(22);
    let serviced = Handler::on_interrupt(&mut regs, &mut state);
    assert_eq!(serviced.rx, None);
    assert_eq!(serviced.tx, None);
    assert!(state.rx_waker.is_registered());
    assert!(state.tx_waker.is_registered());
    assert!(regs.fifo_enabled().rx_level);
}

#[test]
fn handler_leaves_an_unavailable_direction_alone() {
    let mut regs = SimUart::new(8);
    let mut state: State<u32> = State::new();
    let _tx = BufferedUartTx::new(&mut regs, &mut state, vec![0u8; 8], config()).unwrap();
    state.rx_waker.register(11);
    receive_all(&mut regs, &[1, 2, 3]);
    let woken = drain_rx(&mut regs, &mut state);
    assert_eq!(woken, None);
    assert_eq!(regs.rx_len(), 3);
    assert!(state.rx_waker.is_registered());
    assert!(regs.fifo_enabled().rx_level);

    let mut regs = SimUart::new(8);
    let mut state: State<u32> = State::new();
    let _rx = BufferedUartRx::new(&mut regs, &mut state, vec![0u8; 8], config()).unwrap();
    state.tx_waker.register(22);
    assert_eq!(drain_tx(&mut regs, &mut state), None);
    assert_eq!(regs.tx_len(), 0);
    assert!(state.tx_waker.is_registered());
}

#[test]
fn rx_drain_masks_the_level_source_when_the_ring_is_full() {
    let (mut regs, mut state, _uart) = open(8, 8, 4);
    receive_all(&mut regs, &[1, 2, 3, 4, 5, 6]);
    let woken = drain_rx(&mut regs, &mut state);
    assert_eq!(woken, None);
    assert!(state.rx_buf.is_full());
    assert_eq!(regs.rx_len(), 2);
    assert!(!regs.fifo_enabled().rx_level);
    assert!(regs.fifo_enabled().tx_level);
    assert_eq!(state.rx_error.peek(), 0);
}

#[test]
fn rx_drain_stops_at_a_fault_and_latches_only_fault_flags() {
    let (mut regs, mut state, _uart) = open(8, 8, 8);
    state.rx_waker.register(11);
    receive_all(&mut regs, &[1, 2]);
    regs.receive(3, RXE_PARITYERR | 0x0000_000a);
    regs.receive(4, 0);
    let woken = drain_rx(&mut regs, &mut state);
    assert_eq!(woken, Some(11));
    assert_eq!(state.rx_buf.peek_contiguous(), &[1, 2]);
    assert_eq!(state.rx_error.peek(), RXE_PARITYERR);
    assert_eq!(regs.rx_len(), 2);
    assert_eq!(regs.line_status(), RXE_PARITYERR | 0x0000_000a);
    assert!(!regs.fifo_enabled().rx_level);
}

#[test]
fn rx_drain_wakes_for_a_fault_without_data() {
    let (mut regs, mut state, _uart) = open(8, 8, 8);
    state.rx_waker.register(11);
    regs.receive(9, RXE_BREAK);
    let woken = drain_rx(&mut regs, &mut state);
    assert_eq!(woken, Some(11));
    assert!(state.rx_buf.is_empty());
    assert_eq!(state.rx_error.peek(), RXE_BREAK);
    assert_eq!(regs.rx_len(), 1);
}

#[test]
fn rx_drain_takes_bytes_with_status_bits_that_are_no_faults() {
    let (mut regs, mut state, _uart) = open(8, 8, 8);
    regs.receive(1, !RXE_MASK);
    regs.receive(2, 0x0000_0002);
    drain_rx(&mut regs, &mut state);
    assert_eq!(state.rx_buf.peek_contiguous(), &[1, 2]);
    assert_eq!(state.rx_error.peek(), 0);
}

#[test]
fn faults_accumulate_in_the_latch_across_passes() {
    let (mut regs, mut state, _uart) = open(8, 8, 8);
    regs.receive(1, RXE_FRAMERR);
    drain_rx(&mut regs, &mut state);
    regs.clear_status(RXE_FRAMERR);
    regs.receive(2, RXE_NOISE);
    drain_rx(&mut regs, &mut state);
    assert_eq!(state.rx_buf.peek_contiguous(), &[1]);
    assert_eq!(state.rx_error.peek(), RXE_FRAMERR | RXE_NOISE);
    let mut buf = [0u8; 4];
    assert_eq!(
        BufferedUartRx::try_read(&mut regs, &mut state, &mut buf),
        Poll::Ready(Ok(1))
    );
    // Of the two latched faults one is reported, and both are cleared.
    assert_eq!(
        BufferedUartRx::try_read(&mut regs, &mut state, &mut buf),
        Poll::Ready(Err(Error::Noise))
    );
    assert_eq!(state.rx_error.peek(), 0);
}

#[test]
fn tx_drain_fills_the_fifo_and_wakes_the_writer() {
    let (mut regs, mut state, _uart) = open(4, 8, 8);
    assert_eq!(state.tx_buf.push_from(&[1, 2, 3, 4, 5, 6]), 6);
    state.tx_waker.register(22);
    let woken = drain_tx(&mut regs, &mut state);
    assert_eq!(woken, Some(22));
    assert_eq!(regs.tx_len(), 4);
    assert_eq!(state.tx_buf.available(), 2);
    assert!(!regs.tx_idle());
    // The FIFO is full: nothing moves, nobody is woken.
    state.tx_waker.register(23);
    assert_eq!(drain_tx(&mut regs, &mut state), None);
    assert_eq!(state.tx_buf.available(), 2);
    assert_eq!(regs.shift_out(10), vec![1, 2, 3, 4]);
    assert!(regs.tx_idle());
    assert_eq!(drain_tx(&mut regs, &mut state), Some(23));
    assert_eq!(regs.shift_out(10), vec![5, 6]);
    assert!(state.tx_buf.is_empty());
}

#[test]
fn tx_drain_keeps_the_level_source_enabled() {
    let (mut regs, mut state, _uart) = open(4, 8, 8);
    assert_eq!(state.tx_buf.push_from(&[1, 2]), 2);
    drain_tx(&mut regs, &mut state);
    assert!(state.tx_buf.is_empty());
    assert!(regs.fifo_enabled().tx_level);
}

// ---- reading ----

#[test]
fn read_into_an_empty_destination_completes_at_once() {
    let (mut regs, mut state, mut uart) = open(8, 8, 8);
    state.rx_error.latch(RXE_NOISE);
    let mut empty: [u8; 0] = [];
    assert_eq!(
        uart.rx.poll_read(&mut regs, &mut state, &mut empty, 1),
        Poll::Ready(Ok(0))
    );
    assert_eq!(uart.blocking_read(&mut regs, &mut state, &mut empty), Poll::Ready(Ok(0)));
    // Nothing was touched: no waker, the latch as it was.
    assert!(!state.rx_waker.is_registered());
    assert_eq!(state.rx_error.peek(), RXE_NOISE);
}

#[test]
fn read_without_data_or_fault_is_pending_and_registers_the_waker() {
    let (mut regs, mut state, mut uart) = open(8, 8, 8);
    let mut buf = [0u8; 4];
    assert_eq!(uart.rx.poll_read(&mut regs, &mut state, &mut buf, 5), Poll::Pending);
    assert!(state.rx_waker.is_registered());
    assert_eq!(uart.rx.poll_read(&mut regs, &mut state, &mut buf, 6), Poll::Pending);
    assert_eq!(state.rx_waker.wake(), Some(6));
    assert_eq!(buf, [0, 0, 0, 0]);
}

#[test]
fn blocking_read_turn_is_pending_without_registering() {
    let (mut regs, mut state, mut uart) = open(8, 8, 8);
    let mut buf = [0u8; 4];
    assert_eq!(uart.rx.blocking_read(&mut regs, &mut state, &mut buf), Poll::Pending);
    assert!(!state.rx_waker.is_registered());
}

#[test]
fn read_delivers_data_and_rearms_the_receive_source() {
    let (mut regs, mut state, mut uart) = open(8, 8, 4);
    receive_all(&mut regs, &[1, 2, 3, 4]);
    Handler::on_interrupt(&mut regs, &mut state);
    assert!(!regs.fifo_enabled().rx_level);
    let mut buf = [0u8; 3];
    assert_eq!(uart.rx.poll_read(&mut regs, &mut state, &mut buf, 5), Poll::Ready(Ok(3)));
    assert_eq!(buf, [1, 2, 3]);
    assert!(regs.fifo_enabled().rx_level);
    assert!(!state.rx_waker.is_registered());
}

#[test]
fn spurious_wake_finds_nothing_and_waits_again() {
    let (mut regs, mut state, mut uart) = open(8, 8, 8);
    let mut buf = [0u8; 4];
    assert_eq!(uart.rx.poll_read(&mut regs, &mut state, &mut buf, 5), Poll::Pending);
    assert_eq!(state.rx_waker.wake(), Some(5));
    assert_eq!(uart.rx.poll_read(&mut regs, &mut state, &mut buf, 5), Poll::Pending);
    assert!(state.rx_waker.is_registered());
}

#[test]
fn blocking_and_suspending_read_answer_alike() {
    let script: [(u8, u32); 6] =
        [(1, 0), (2, 0), (3, RXE_NOISE), (4, 0), (5, RXE_BREAK | RXE_FRAMERR), (6, 0)];
    let mut answers: Vec<Vec<(Poll<Result<usize, Error>>, [u8; 2])>> = Vec::new();
    for blocking in [false, true] {
        let (mut regs, mut state, mut uart) = open(8, 8, 8);
        for (data, status) in script {
            regs.receive(data, status);
        }
        let mut seen = Vec::new();
        for _ in 0..12 {
            Handler::on_interrupt(&mut regs, &mut state);
            let mut buf = [0u8; 2];
            let r = if blocking {
                uart.rx.blocking_read(&mut regs, &mut state, &mut buf)
            } else {
                uart.rx.poll_read(&mut regs, &mut state, &mut buf, 1)
            };
            if let Poll::Ready(Err(_)) = r {
                // The application gives the faulty byte up.
                regs.read_rx();
            }
            seen.push((r, buf));
        }
        answers.push(seen);
    }
    assert_eq!(answers[0], answers[1]);
    assert_eq!(answers[0][0], (Poll::Ready(Ok(2)), [1, 2]));
    assert_eq!(answers[0][1], (Poll::Ready(Err(Error::Noise)), [0, 0]));
    assert_eq!(answers[0][2], (Poll::Ready(Ok(1)), [4, 0]));
    assert_eq!(answers[0][3], (Poll::Ready(Err(Error::Framing)), [0, 0]));
    assert_eq!(answers[0][4], (Poll::Ready(Ok(1)), [6, 0]));
    assert_eq!(answers[0][5], (Poll::Pending, [0, 0]));
}

#[test]
fn get_rx_error_reports_once() {
    let mut state: State<u32> = State::new();
    state.rx_error.latch(RXE_BREAK);
    assert_eq!(BufferedUartRx::get_rx_error(&mut state), Some(Error::Break));
    assert_eq!(BufferedUartRx::get_rx_error(&mut state), None);
}

#[test]
fn read_ready_says_whether_data_is_queued() {
    let (mut regs, mut state, mut uart) = open(8, 8, 8);
    assert_eq!(uart.rx.read_ready(&state), Ok(false));
    regs.receive(1, RXE_FRAMERR);
    Handler::on_interrupt(&mut regs, &mut state);
    // A latched fault alone does not make the endpoint ready.
    assert_eq!(uart.rx.read_ready(&state), Ok(false));
    regs.clear_status(RXE_FRAMERR);
    Handler::on_interrupt(&mut regs, &mut state);
    assert_eq!(uart.rx.read_ready(&state), Ok(true));
}

// ---- fill and consume ----

#[test]
fn fill_shows_data_without_consuming_it() {
    let (mut regs, mut state, mut uart) = open(8, 8, 8);
    receive_all(&mut regs, &[1, 2, 3]);
    Handler::on_interrupt(&mut regs, &mut state);
    assert_eq!(uart.rx.poll_fill_buf(&mut state, 5), Poll::Ready(Ok(&[1u8, 2, 3][..])));
    assert_eq!(uart.rx.poll_fill_buf(&mut state, 5), Poll::Ready(Ok(&[1u8, 2, 3][..])));
    assert!(!state.rx_waker.is_registered());
    uart.rx.consume(&mut regs, &mut state, 2);
    assert_eq!(uart.rx.poll_fill_buf(&mut state, 5), Poll::Ready(Ok(&[3u8][..])));
    uart.rx.consume(&mut regs, &mut state, 1);
    assert_eq!(uart.rx.poll_fill_buf(&mut state, 5), Poll::Pending);
    assert_eq!(state.rx_waker.wake(), Some(5));
}

#[test]
fn fill_reports_a_fault_once_when_nothing_is_queued() {
    let (mut regs, mut state, mut uart) = open(8, 8, 8);
    regs.receive(1, 0);
    regs.receive(2, RXE_PARITYERR);
    Handler::on_interrupt(&mut regs, &mut state);
    assert_eq!(uart.rx.poll_fill_buf(&mut state, 5), Poll::Ready(Ok(&[1u8][..])));
    uart.rx.consume(&mut regs, &mut state, 1);
    assert_eq!(uart.rx.poll_fill_buf(&mut state, 5), Poll::Ready(Err(Error::Parity)));
    assert!(!state.rx_waker.is_registered());
    assert_eq!(uart.rx.poll_fill_buf(&mut state, 5), Poll::Pending);
    assert!(state.rx_waker.is_registered());
}

#[test]
fn consume_of_nothing_still_rearms() {
    let (mut regs, mut state, mut uart) = open(8, 8, 2);
    receive_all(&mut regs, &[1, 2]);
    Handler::on_interrupt(&mut regs, &mut state);
    assert!(!regs.fifo_enabled().rx_level);
    uart.rx.consume(&mut regs, &mut state, 0);
    assert!(regs.fifo_enabled().rx_level);
    assert_eq!(state.rx_buf.available(), 2);
}

// ---- writing ----

#[test]
fn write_of_nothing_completes_at_once() {
    let (mut regs, mut state, mut uart) = open(8, 8, 8);
    assert_eq!(uart.tx.poll_write(&mut regs, &mut state, &[], 7), Poll::Ready(Ok(0)));
    assert_eq!(uart.blocking_write(&mut regs, &mut state, &[]), Poll::Ready(Ok(0)));
    assert!(!state.tx_waker.is_registered());
    assert_eq!(regs.line_count(LineOp::Pend), 0);
}

#[test]
fn write_into_a_full_ring_is_pending_and_registers_the_waker() {
    let (mut regs, mut state, mut uart) = open(8, 4, 8);
    assert_eq!(
        uart.tx.poll_write(&mut regs, &mut state, &[1, 2, 3, 4, 5], 7),
        Poll::Ready(Ok(4))
    );
    assert_eq!(uart.tx.poll_write(&mut regs, &mut state, &[5], 7), Poll::Pending);
    assert!(state.tx_waker.is_registered());
    assert_eq!(uart.tx.blocking_write(&mut regs, &mut state, &[5]), Poll::Pending);
    assert_eq!(state.tx_buf.available(), 4);
    assert_eq!(regs.line_count(LineOp::Pend), 1);
    // The handler makes room and wakes the writer.
    let serviced = Handler::on_interrupt(&mut regs, &mut state);
    assert_eq!(serviced.tx, Some(7));
    assert_eq!(uart.tx.poll_write(&mut regs, &mut state, &[5], 7), Poll::Ready(Ok(1)));
}

#[test]
fn write_into_an_empty_idle_buffer_pends_the_interrupt_exactly_once() {
    let (mut regs, mut state, mut uart) = open(8, 32, 8);
    assert!(regs.tx_idle());
    assert_eq!(regs.line_count(LineOp::Pend), 0);
    assert_eq!(
        uart.tx.poll_write(&mut regs, &mut state, &[1, 2, 3], 7),
        Poll::Ready(Ok(3))
    );
    assert_eq!(regs.line_count(LineOp::Pend), 1);
    assert!(regs.line_pending());
    assert!(regs.interrupt_requested());
    // More bytes behind queued ones: the transmission is already primed.
    assert_eq!(uart.tx.poll_write(&mut regs, &mut state, &[4, 5], 7), Poll::Ready(Ok(2)));
    assert_eq!(uart.tx.blocking_write(&mut regs, &mut state, &[6]), Poll::Ready(Ok(1)));
    assert_eq!(regs.line_count(LineOp::Pend), 1);
}

#[test]
fn write_does_not_pend_while_the_transmitter_is_busy() {
    let (mut regs, mut state, mut uart) = open(8, 32, 8);
    assert_eq!(uart.tx.blocking_write(&mut regs, &mut state, &[1, 2]), Poll::Ready(Ok(2)));
    regs.line(LineOp::Unpend);
    Handler::on_interrupt(&mut regs, &mut state);
    assert!(state.tx_buf.is_empty());
    assert!(uart.busy(&regs));
    // The ring is empty again, but bytes are still on their way out.
    assert_eq!(uart.tx.blocking_write(&mut regs, &mut state, &[3]), Poll::Ready(Ok(1)));
    assert_eq!(regs.line_count(LineOp::Pend), 1);
    assert!(!regs.line_pending());
    Handler::on_interrupt(&mut regs, &mut state);
    assert_eq!(regs.shift_out(8), vec![1, 2, 3]);
    assert!(!uart.busy(&regs));
    // Idle and empty: the next write has to prime again.
    assert_eq!(uart.tx.blocking_write(&mut regs, &mut state, &[4]), Poll::Ready(Ok(1)));
    assert_eq!(regs.line_count(LineOp::Pend), 2);
}

#[test]
fn flush_waits_for_the_ring_not_for_the_fifo() {
    let (mut regs, mut state, mut uart) = open(8, 8, 8);
    assert_eq!(uart.tx.poll_flush(&mut state, 7), Poll::Ready(Ok(())));
    assert!(!state.tx_waker.is_registered());
    assert_eq!(uart.blocking_write(&mut regs, &mut state, &[1, 2, 3]), Poll::Ready(Ok(3)));
    assert_eq!(uart.tx.poll_flush(&mut state, 7), Poll::Pending);
    assert!(state.tx_waker.is_registered());
    assert_eq!(uart.blocking_flush(&state), Poll::Pending);
    let serviced = Handler::on_interrupt(&mut regs, &mut state);
    assert_eq!(serviced.tx, Some(7));
    assert_eq!(regs.tx_len(), 3);
    assert_eq!(uart.tx.poll_flush(&mut state, 7), Poll::Ready(Ok(())));
    assert_eq!(uart.tx.blocking_flush(&state), Poll::Ready(Ok(())));
}

#[test]
fn busy_follows_the_transmitter() {
    let (mut regs, _state, uart) = open(8, 8, 8);
    assert!(!uart.busy(&regs));
    regs.write_tx(1);
    assert!(uart.busy(&regs));
    assert!(uart.tx.busy(&regs));
    regs.shift_out(1);
    assert!(!uart.busy(&regs));
}

// ---- the direct read ----

#[test]
fn nb_read_would_block_on_an_empty_fifo() {
    let (mut regs, _state, mut uart) = open(8, 8, 8);
    assert_eq!(uart.rx.nb_read(&mut regs), Poll::Pending);
}

#[test]
fn nb_read_reads_a_byte() {
    let (mut regs, _state, mut uart) = open(8, 8, 8);
    receive_all(&mut regs, &[0x41, 0x42]);
    assert_eq!(uart.rx.nb_read(&mut regs), Poll::Ready(Ok(0x41)));
    assert_eq!(uart.rx.nb_read(&mut regs), Poll::Ready(Ok(0x42)));
    assert_eq!(uart.rx.nb_read(&mut regs), Poll::Pending);
}

#[test]
fn nb_read_reports_a_fifo_error_and_empties_the_fifo() {
    let (mut regs, _state, mut uart) = open(8, 8, 8);
    receive_all(&mut regs, &[1, 2, 3]);
    regs.set_rx_error(true);
    assert_eq!(uart.rx.nb_read(&mut regs), Poll::Ready(Err(Error::Read)));
    assert_eq!(regs.rx_len(), 0);
    assert!(!regs.rx_error());
    assert_eq!(uart.rx.nb_read(&mut regs), Poll::Pending);
}

#[test]
fn nb_read_reports_line_faults_one_by_one_then_the_byte() {
    let (mut regs, _state, mut uart) = open(8, 8, 8);
    regs.receive(0x55, RXE_NOISE | RXE_FRAMERR | RXE_PARITYERR);
    assert_eq!(uart.rx.nb_read(&mut regs), Poll::Ready(Err(Error::Parity)));
    assert_eq!(regs.line_status(), RXE_NOISE | RXE_FRAMERR);
    assert_eq!(uart.rx.nb_read(&mut regs), Poll::Ready(Err(Error::Framing)));
    assert_eq!(uart.rx.nb_read(&mut regs), Poll::Ready(Err(Error::Noise)));
    assert_eq!(regs.line_status(), 0);
    assert_eq!(uart.rx.nb_read(&mut regs), Poll::Ready(Ok(0x55)));
}

// ---- giving endpoints up ----

#[test]
fn dropping_rx_then_tx_disables_the_line_once() {
    let (mut regs, mut state, uart) = open(8, 8, 4);
    let (tx, rx) = uart.split();
    let storage = rx.release(&mut regs, &mut state);
    assert_eq!(storage.len(), 4);
    assert!(!state.rx_buf.is_available());
    assert!(state.tx_buf.is_available());
    assert!(regs.line_enabled());
    assert_eq!(regs.line_count(LineOp::Disable), 0);
    let storage = tx.release(&mut regs, &mut state);
    assert_eq!(storage.len(), 8);
    assert!(!state.tx_buf.is_available());
    assert!(!regs.line_enabled());
    assert_eq!(regs.line_count(LineOp::Disable), 1);
}

#[test]
fn dropping_tx_then_rx_disables_the_line_once() {
    let (mut regs, mut state, uart) = open(8, 8, 4);
    let (tx, rx) = uart.split();
    tx.release(&mut regs, &mut state);
    assert!(regs.line_enabled());
    assert_eq!(regs.line_count(LineOp::Disable), 0);
    rx.release(&mut regs, &mut state);
    assert!(!regs.line_enabled());
    assert_eq!(regs.line_count(LineOp::Disable), 1);
}

#[test]
fn dropping_the_only_endpoint_disables_the_line() {
    let mut regs = SimUart::new(8);
    let mut state: State<u32> = State::new();
    let rx = BufferedUartRx::new(&mut regs, &mut state, vec![0u8; 4], config()).unwrap();
    assert!(regs.line_enabled());
    rx.release(&mut regs, &mut state);
    assert!(!regs.line_enabled());
    assert_eq!(regs.line_count(LineOp::Disable), 1);
}

#[test]
fn the_other_direction_keeps_working_after_one_is_dropped() {
    let (mut regs, mut state, uart) = open(8, 8, 4);
    let (mut tx, rx) = uart.split();
    rx.release(&mut regs, &mut state);
    receive_all(&mut regs, &[1, 2]);
    assert_eq!(tx.blocking_write(&mut regs, &mut state, &[9, 8]), Poll::Ready(Ok(2)));
    assert!(regs.interrupt_requested());
    Handler::on_interrupt(&mut regs, &mut state);
    assert_eq!(regs.shift_out(8), vec![9, 8]);
    // Nothing is received into a detached buffer.
    assert_eq!(regs.rx_len(), 2);
}

#[test]
fn split_ref_and_join_give_the_same_endpoints() {
    let (mut regs, mut state, mut uart) = open(8, 8, 8);
    {
        let (tx, rx) = uart.split_ref();
        assert_eq!(tx.blocking_write(&mut regs, &mut state, &[1]), Poll::Ready(Ok(1)));
        let mut buf = [0u8; 1];
        assert_eq!(rx.blocking_read(&mut regs, &mut state, &mut buf), Poll::Pending);
    }
    let (tx, rx) = uart.split();
    let mut uart = BufferedUart::join(tx, rx);
    assert_eq!(uart.blocking_flush(&state), Poll::Pending);
}

// ---- scenarios ----

#[test]
fn thirty_one_bytes_leave_the_ring_in_four_passes() {
    let (mut regs, mut state, mut uart) = open(8, 32, 8);
    let message: Vec<u8> = (1..=31).collect();
    assert_eq!(
        uart.tx.poll_write(&mut regs, &mut state, &message, 7),
        Poll::Ready(Ok(31))
    );
    assert_eq!(uart.tx.poll_flush(&mut state, 9), Poll::Pending);
    let mut wire: Vec<u8> = Vec::new();
    let left = [23usize, 15, 7, 0];
    for pass in 0..4 {
        let serviced = Handler::on_interrupt(&mut regs, &mut state);
        assert_eq!(state.tx_buf.available(), left[pass]);
        if pass == 0 {
            assert_eq!(serviced.tx, Some(9));
        }
        if pass < 3 {
            assert_eq!(uart.tx.poll_flush(&mut state, 9), Poll::Pending);
        }
        // The hardware sends what the pass has given it.
        wire.extend(regs.shift_out(8));
    }
    assert!(state.tx_buf.is_empty());
    assert_eq!(uart.tx.poll_flush(&mut state, 9), Poll::Ready(Ok(())));
    assert_eq!(wire, message);
}

#[test]
fn second_burst_is_absorbed_only_after_the_consumer_made_room() {
    let (mut regs, mut state, mut uart) = open(8, 8, 32);
    let first: Vec<u8> = (0..24).collect();
    let second: Vec<u8> = (100..124).collect();
    receive_all(&mut regs, &first);
    Handler::on_interrupt(&mut regs, &mut state);
    assert_eq!(state.rx_buf.available(), 24);
    assert_eq!(regs.rx_len(), 0);

    receive_all(&mut regs, &second);
    Handler::on_interrupt(&mut regs, &mut state);
    // Eight bytes of the second burst fit; the buffer is full and the
    // receive source is masked.
    assert!(state.rx_buf.is_full());
    assert_eq!(regs.rx_len(), 16);
    assert!(!regs.fifo_enabled().rx_level);
    Handler::on_interrupt(&mut regs, &mut state);
    assert_eq!(regs.rx_len(), 16);
    assert!(!regs.fifo_enabled().rx_level);

    // The consumer takes fifteen bytes: one byte too few.
    match uart.rx.poll_fill_buf(&mut state, 1) {
        Poll::Ready(Ok(run)) => {
            assert_eq!(run.len(), 32);
            assert_eq!(&run[..24], &first[..]);
            assert_eq!(&run[24..], &second[..8]);
        },
        other => panic!("unexpected answer {:?}", other),
    }
    uart.rx.consume(&mut regs, &mut state, 15);
    assert!(regs.fifo_enabled().rx_level);
    Handler::on_interrupt(&mut regs, &mut state);
    assert_eq!(regs.rx_len(), 1);
    assert!(state.rx_buf.is_full());
    assert!(!regs.fifo_enabled().rx_level);

    // With the sixteenth byte consumed the rest of the burst is absorbed.
    uart.rx.consume(&mut regs, &mut state, 1);
    assert!(regs.fifo_enabled().rx_level);
    Handler::on_interrupt(&mut regs, &mut state);
    assert_eq!(regs.rx_len(), 0);

    let mut rest: Vec<u8> = Vec::new();
    loop {
        let mut buf = [0u8; 7];
        match uart.rx.blocking_read(&mut regs, &mut state, &mut buf) {
            Poll::Ready(Ok(n)) => rest.extend_from_slice(&buf[..n]),
            Poll::Pending => break,
            other => panic!("unexpected answer {:?}", other),
        }
    }
    let mut expected: Vec<u8> = first[16..].to_vec();
    expected.extend_from_slice(&second);
    assert_eq!(rest, expected);
}

#[test]
fn framing_fault_on_the_sixth_byte_is_reported_after_five_bytes() {
    let (mut regs, mut state, mut uart) = open(8, 8, 32);
    receive_all(&mut regs, &[10, 11, 12, 13, 14]);
    regs.receive(0xff, RXE_FRAMERR);
    let mut buf = [0u8; 16];
    assert_eq!(uart.rx.poll_read(&mut regs, &mut state, &mut buf, 3), Poll::Pending);
    let serviced = Handler::on_interrupt(&mut regs, &mut state);
    assert_eq!(serviced.rx, Some(3));

    assert_eq!(uart.rx.poll_read(&mut regs, &mut state, &mut buf, 3), Poll::Ready(Ok(5)));
    assert_eq!(&buf[..5], &[10, 11, 12, 13, 14]);
    assert_eq!(
        uart.rx.poll_read(&mut regs, &mut state, &mut buf, 3),
        Poll::Ready(Err(Error::Framing))
    );
    // The fault is delivered once.
    assert_eq!(uart.rx.poll_read(&mut regs, &mut state, &mut buf, 3), Poll::Pending);

    // The application gives the faulty byte up; the stream goes on.
    assert_eq!(regs.read_rx(), 0xff);
    receive_all(&mut regs, &[20, 21, 22]);
    assert!(regs.interrupt_requested());
    let serviced = Handler::on_interrupt(&mut regs, &mut state);
    assert_eq!(serviced.rx, Some(3));
    assert_eq!(uart.rx.poll_read(&mut regs, &mut state, &mut buf, 3), Poll::Ready(Ok(3)));
    assert_eq!(&buf[..3], &[20, 21, 22]);
}

#[test]
fn fault_in_the_middle_of_a_drain_does_not_overtake_queued_bytes() {
    let (mut regs, mut state, mut uart) = open(8, 8, 8);
    receive_all(&mut regs, &[1, 2, 3]);
    Handler::on_interrupt(&mut regs, &mut state);
    receive_all(&mut regs, &[4, 5]);
    regs.receive(6, RXE_NOISE);
    regs.receive(7, 0);
    Handler::on_interrupt(&mut regs, &mut state);
    let mut got: Vec<u8> = Vec::new();
    let fault;
    loop {
        let mut buf = [0u8; 2];
        match uart.rx.blocking_read(&mut regs, &mut state, &mut buf) {
            Poll::Ready(Ok(n)) => got.extend_from_slice(&buf[..n]),
            Poll::Ready(Err(e)) => {
                fault = e;
                break;
            },
            Poll::Pending => panic!("the fault was lost"),
        }
    }
    assert_eq!(got, vec![1, 2, 3, 4, 5]);
    assert_eq!(fault, Error::Noise);
    assert_eq!(regs.rx_len(), 2);
}
