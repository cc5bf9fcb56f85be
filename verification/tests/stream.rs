use std::cell::{Cell, RefCell};

use hackrf::{
    buffer_capacity, callback_status, close, delivery_context, hackrf_device, hackrf_transfer,
    is_streaming, open, rx_cb, set_freq, set_sample_rate, start, start_rx, start_tx, stop,
    stop_rx, stop_tx, streaming_status, tx_cb, Callback, CallbackContext, Direction, HackRFDevice,
    HackRFError, Native, NativeCall, NativeReply, RealHz, StreamingSession, CALLBACK_CONTINUE,
    CALLBACK_STOP, HACKRF_ERROR_STREAMING_EXIT_CALLED, HACKRF_ERROR_STREAMING_STOPPED,
    HACKRF_ERROR_STREAMING_THREAD_ERR, HACKRF_SUCCESS, HACKRF_TRUE,
};

const RADIO: hackrf_device = hackrf_device { addr: 0x5000 };

/// A native library that is not there. It records each call, answers the
/// status it was told to answer, and keeps the state that the streaming
/// query reads.
struct Fake {
    calls: RefCell<Vec<NativeCall>>,
    status: Cell<i32>,
    streaming: Cell<i32>,
}

impl Fake {
    fn new() -> Fake {
        Fake {
            calls: RefCell::new(Vec::new()),
            status: Cell::new(HACKRF_SUCCESS),
            streaming: Cell::new(HACKRF_ERROR_STREAMING_THREAD_ERR),
        }
    }

    fn answer(&self, call: NativeCall) -> NativeReply {
        self.calls.borrow_mut().push(call);
        let mut reply = NativeReply::with_status(self.status.get());
        match call {
            NativeCall::Open => reply.device = RADIO,
            NativeCall::StartRx { .. } | NativeCall::StartTx { .. } => {
                if reply.status == HACKRF_SUCCESS {
                    self.streaming.set(HACKRF_TRUE);
                }
            }
            NativeCall::StopRx { .. } | NativeCall::StopTx { .. } => {
                self.streaming.set(HACKRF_ERROR_STREAMING_STOPPED)
            }
            NativeCall::IsStreaming { .. } => reply.status = self.streaming.get(),
            NativeCall::ErrorName { errcode } => reply.name = format!("native text {}", errcode),
            _ => {}
        }
        reply
    }

    fn opened(&self) -> HackRFDevice {
        let device = open(&mut Native::new(|call| self.answer(call))).unwrap();
        self.calls.borrow_mut().clear();
        device
    }

    fn calls(&self) -> Vec<NativeCall> {
        self.calls.borrow().clone()
    }
}

fn busy() -> HackRFError {
    HackRFError { errno: -6, errstr: "stream already running".to_string() }
}

fn not_streaming() -> HackRFError {
    HackRFError { errno: -1003, errstr: "stream not running".to_string() }
}

fn delivery(buffer_length: i32, valid_length: i32) -> hackrf_transfer {
    hackrf_transfer { device: RADIO, buffer_length, valid_length, rx_ctx: 0x100, tx_ctx: 0x200 }
}

#[test]
fn start_registers_the_context_with_the_native_library() {
    let fake = Fake::new();
    let mut device = fake.opened();
    let mut native = Native::new(|call| fake.answer(call));
    assert_eq!(start_rx(&mut native, &mut device, CallbackContext { addr: 0x100 }), Ok(()));
    assert_eq!(start_tx(&mut native, &mut device, CallbackContext { addr: 0x200 }), Ok(()));
    assert_eq!(
        fake.calls(),
        vec![
            NativeCall::StartRx { device: RADIO, rx_ctx: 0x100 },
            NativeCall::StartTx { device: RADIO, tx_ctx: 0x200 },
        ]
    );
    assert_eq!(
        device.session(Direction::Rx),
        Some(StreamingSession {
            direction: Direction::Rx,
            context: CallbackContext { addr: 0x100 }
        })
    );
    assert_eq!(
        device.session(Direction::Tx),
        Some(StreamingSession {
            direction: Direction::Tx,
            context: CallbackContext { addr: 0x200 }
        })
    );
}

#[test]
fn second_rx_start_is_refused() {
    let fake = Fake::new();
    let mut device = fake.opened();
    let mut native = Native::new(|call| fake.answer(call));
    assert_eq!(start_rx(&mut native, &mut device, CallbackContext { addr: 0x100 }), Ok(()));
    assert_eq!(start_rx(&mut native, &mut device, CallbackContext { addr: 0x300 }), Err(busy()));
    assert_eq!(start_rx(&mut native, &mut device, CallbackContext { addr: 0x100 }), Err(busy()));
    assert_eq!(fake.calls(), vec![NativeCall::StartRx { device: RADIO, rx_ctx: 0x100 }]);
    assert_eq!(
        device.session(Direction::Rx).map(|session| session.context),
        Some(CallbackContext { addr: 0x100 })
    );
}

#[test]
fn second_tx_start_is_refused() {
    let fake = Fake::new();
    let mut device = fake.opened();
    let mut native = Native::new(|call| fake.answer(call));
    assert_eq!(start_tx(&mut native, &mut device, CallbackContext { addr: 0x200 }), Ok(()));
    assert_eq!(start_tx(&mut native, &mut device, CallbackContext { addr: 0x400 }), Err(busy()));
    assert_eq!(fake.calls(), vec![NativeCall::StartTx { device: RADIO, tx_ctx: 0x200 }]);
}

#[test]
fn the_two_directions_do_not_block_each_other() {
    let fake = Fake::new();
    let mut device = fake.opened();
    let mut native = Native::new(|call| fake.answer(call));
    assert_eq!(start(&mut native, &mut device, Direction::Rx, CallbackContext { addr: 8 }), Ok(()));
    assert_eq!(start(&mut native, &mut device, Direction::Tx, CallbackContext { addr: 8 }), Ok(()));
    assert_eq!(stop(&mut native, &mut device, Direction::Rx), Ok(()));
    assert!(device.session(Direction::Rx).is_none());
    assert!(device.session(Direction::Tx).is_some());
}

#[test]
fn null_context_is_refused_locally() {
    let fake = Fake::new();
    let mut device = fake.opened();
    let mut native = Native::new(|call| fake.answer(call));
    let invalid = HackRFError { errno: -2, errstr: "invalid parameter".to_string() };
    assert_eq!(
        start_rx(&mut native, &mut device, CallbackContext { addr: 0 }),
        Err(invalid.clone())
    );
    assert_eq!(start_tx(&mut native, &mut device, CallbackContext { addr: 0 }), Err(invalid));
    assert!(fake.calls().is_empty());
    assert!(device.session(Direction::Rx).is_none());
    assert!(device.session(Direction::Tx).is_none());
}

#[test]
fn failed_start_leaves_no_session() {
    let fake = Fake::new();
    let mut device = fake.opened();
    let mut native = Native::new(|call| fake.answer(call));
    fake.status.set(-1001);
    assert_eq!(
        start_rx(&mut native, &mut device, CallbackContext { addr: 0x100 }),
        Err(HackRFError { errno: -1001, errstr: "native text -1001".to_string() })
    );
    assert!(device.session(Direction::Rx).is_none());
    fake.status.set(HACKRF_SUCCESS);
    assert_eq!(start_rx(&mut native, &mut device, CallbackContext { addr: 0x100 }), Ok(()));
    assert!(device.session(Direction::Rx).is_some());
}

#[test]
fn stop_without_start_is_an_error() {
    let fake = Fake::new();
    let mut device = fake.opened();
    let mut native = Native::new(|call| fake.answer(call));
    assert_eq!(stop_rx(&mut native, &mut device), Err(not_streaming()));
    assert_eq!(stop_tx(&mut native, &mut device), Err(not_streaming()));
    assert!(fake.calls().is_empty());
}

#[test]
fn stop_ends_the_session_and_a_second_stop_is_an_error() {
    let fake = Fake::new();
    let mut device = fake.opened();
    let mut native = Native::new(|call| fake.answer(call));
    start_rx(&mut native, &mut device, CallbackContext { addr: 0x100 }).unwrap();
    fake.calls.borrow_mut().clear();
    assert_eq!(stop_rx(&mut native, &mut device), Ok(()));
    assert!(device.session(Direction::Rx).is_none());
    assert_eq!(stop_rx(&mut native, &mut device), Err(not_streaming()));
    assert_eq!(fake.calls(), vec![NativeCall::StopRx { device: RADIO }]);
}

#[test]
fn failed_stop_still_ends_the_session() {
    let fake = Fake::new();
    let mut device = fake.opened();
    let mut native = Native::new(|call| fake.answer(call));
    start_tx(&mut native, &mut device, CallbackContext { addr: 0x200 }).unwrap();
    fake.status.set(-1000);
    assert_eq!(
        stop_tx(&mut native, &mut device),
        Err(HackRFError { errno: -1000, errstr: "native text -1000".to_string() })
    );
    assert!(device.session(Direction::Tx).is_none());
}

#[test]
fn start_after_stop_is_accepted() {
    let fake = Fake::new();
    let mut device = fake.opened();
    let mut native = Native::new(|call| fake.answer(call));
    start_rx(&mut native, &mut device, CallbackContext { addr: 0x100 }).unwrap();
    stop_rx(&mut native, &mut device).unwrap();
    assert_eq!(start_rx(&mut native, &mut device, CallbackContext { addr: 0x300 }), Ok(()));
    assert_eq!(
        device.session(Direction::Rx).map(|session| session.context.addr),
        Some(0x300)
    );
}

#[test]
fn streaming_status_has_three_readings() {
    assert_eq!(streaming_status(HACKRF_TRUE), Some(true));
    assert_eq!(streaming_status(HACKRF_ERROR_STREAMING_STOPPED), Some(false));
    assert_eq!(streaming_status(HACKRF_ERROR_STREAMING_EXIT_CALLED), Some(false));
    assert_eq!(streaming_status(HACKRF_ERROR_STREAMING_THREAD_ERR), None);
    assert_eq!(streaming_status(HACKRF_SUCCESS), None);
    assert_eq!(streaming_status(-9999), None);
    assert_eq!(streaming_status(2), None);
}

#[test]
fn is_streaming_reads_the_native_status() {
    let fake = Fake::new();
    let mut device = fake.opened();
    let mut native = Native::new(|call| fake.answer(call));
    fake.streaming.set(HACKRF_TRUE);
    assert_eq!(is_streaming(&mut native, &mut device), Ok(true));
    fake.streaming.set(HACKRF_ERROR_STREAMING_STOPPED);
    assert_eq!(is_streaming(&mut native, &mut device), Ok(false));
    fake.streaming.set(HACKRF_ERROR_STREAMING_EXIT_CALLED);
    assert_eq!(is_streaming(&mut native, &mut device), Ok(false));
    fake.streaming.set(HACKRF_ERROR_STREAMING_THREAD_ERR);
    assert_eq!(
        is_streaming(&mut native, &mut device),
        Err(HackRFError { errno: -1002, errstr: "native text -1002".to_string() })
    );
    fake.streaming.set(HACKRF_SUCCESS);
    assert_eq!(
        is_streaming(&mut native, &mut device),
        Err(HackRFError { errno: 0, errstr: "native text 0".to_string() })
    );
    assert_eq!(fake.calls()[0], NativeCall::IsStreaming { device: RADIO });
}

#[test]
fn callback_codes() {
    assert_eq!(CALLBACK_CONTINUE, 0);
    assert_eq!(CALLBACK_STOP, 1);
    assert_eq!(callback_status(Some(true)), 0);
    assert_eq!(callback_status(Some(false)), 1);
    assert_eq!(callback_status(None), 1);
}

#[test]
fn delivery_context_is_taken_from_the_delivery() {
    let transfer = delivery(16, 16);
    assert_eq!(
        delivery_context(&transfer, Direction::Rx),
        Some(CallbackContext { addr: 0x100 })
    );
    assert_eq!(
        delivery_context(&transfer, Direction::Tx),
        Some(CallbackContext { addr: 0x200 })
    );
    let stray = hackrf_transfer { rx_ctx: 0, tx_ctx: 0, ..transfer };
    assert_eq!(delivery_context(&stray, Direction::Rx), None);
    assert_eq!(delivery_context(&stray, Direction::Tx), None);
}

#[test]
fn buffer_capacity_rejects_negative_lengths() {
    assert_eq!(buffer_capacity(&delivery(262_144, 0)), Some(262_144));
    assert_eq!(buffer_capacity(&delivery(0, 0)), Some(0));
    assert_eq!(buffer_capacity(&delivery(i32::MAX, 0)), Some(i32::MAX as usize));
    assert_eq!(buffer_capacity(&delivery(-1, 0)), None);
    assert_eq!(buffer_capacity(&delivery(i32::MIN, 0)), None);
}

#[test]
fn rx_closure_sees_the_valid_bytes_only() {
    let buffer = [1u8, 2, 3, 4, 5, 6, 7, 8];
    let seen: RefCell<Vec<Vec<u8>>> = RefCell::new(Vec::new());
    let mut cb = Callback::new(|view: &[u8]| {
        seen.borrow_mut().push(view.to_vec());
        true
    });
    assert_eq!(rx_cb(&mut cb, &delivery(8, 5), &buffer), CALLBACK_CONTINUE);
    assert_eq!(rx_cb(&mut cb, &delivery(8, 8), &buffer), CALLBACK_CONTINUE);
    assert_eq!(rx_cb(&mut cb, &delivery(8, 0), &buffer), CALLBACK_CONTINUE);
    assert_eq!(*seen.borrow(), vec![vec![1, 2, 3, 4, 5], vec![1, 2, 3, 4, 5, 6, 7, 8], vec![]]);
}

#[test]
fn rx_length_varies_from_delivery_to_delivery() {
    let lengths = RefCell::new(Vec::new());
    let mut cb = Callback::new(|view: &[u8]| {
        lengths.borrow_mut().push(view.len());
        true
    });
    let long = [0u8; 32];
    let short = [0u8; 4];
    rx_cb(&mut cb, &delivery(32, 32), &long);
    rx_cb(&mut cb, &delivery(4, 3), &short);
    rx_cb(&mut cb, &delivery(32, 7), &long);
    assert_eq!(*lengths.borrow(), vec![32, 3, 7]);
}

#[test]
fn rx_with_lengths_that_disagree_stops_without_the_closure() {
    let buffer = [0u8; 8];
    let invoked = Cell::new(0);
    let mut cb = Callback::new(|_: &[u8]| {
        invoked.set(invoked.get() + 1);
        true
    });
    assert_eq!(rx_cb(&mut cb, &delivery(8, 9), &buffer), CALLBACK_STOP);
    assert_eq!(rx_cb(&mut cb, &delivery(8, -1), &buffer), CALLBACK_STOP);
    assert_eq!(rx_cb(&mut cb, &delivery(-8, -8), &buffer), CALLBACK_STOP);
    assert_eq!(rx_cb(&mut cb, &delivery(16, 4), &buffer), CALLBACK_STOP);
    assert_eq!(rx_cb(&mut cb, &delivery(4, 4), &buffer), CALLBACK_STOP);
    assert_eq!(invoked.get(), 0);
}

#[test]
fn rx_closure_answer_becomes_the_code() {
    let buffer = [0u8; 4];
    let mut stay = Callback::new(|_: &[u8]| true);
    let mut leave = Callback::new(|_: &[u8]| false);
    assert_eq!(rx_cb(&mut stay, &delivery(4, 4), &buffer), 0);
    assert_eq!(rx_cb(&mut leave, &delivery(4, 4), &buffer), 1);
}

#[test]
fn rx_closure_is_called_once_per_delivery() {
    let buffer = [0u8; 4];
    let invoked = Cell::new(0);
    let mut cb = Callback::new(|_: &[u8]| {
        invoked.set(invoked.get() + 1);
        true
    });
    for delivered in 1..=7 {
        rx_cb(&mut cb, &delivery(4, 2), &buffer);
        assert_eq!(invoked.get(), delivered);
    }
}

#[test]
fn continue_maps_to_continue_on_every_delivery() {
    let buffer = [0u8; 16];
    let invoked = Cell::new(0);
    let mut cb = Callback::new(|_: &[u8]| {
        invoked.set(invoked.get() + 1);
        true
    });
    for _ in 0..1000 {
        assert_eq!(rx_cb(&mut cb, &delivery(16, 16), &buffer), CALLBACK_CONTINUE);
    }
    assert_eq!(invoked.get(), 1000);
}

/// Delivers buffers the way the native worker does: one after the other,
/// until a delivery is answered with a code that is not "continue".
fn drive_rx<F: FnMut(&[u8]) -> bool>(cb: &mut Callback<F>, buffers: usize) -> Vec<i32> {
    let buffer = [0u8; 16];
    let mut codes = Vec::new();
    for _ in 0..buffers {
        let code = rx_cb(cb, &delivery(16, 16), &buffer);
        codes.push(code);
        if code != CALLBACK_CONTINUE {
            break;
        }
    }
    codes
}

#[test]
fn stop_maps_to_stop_and_ends_the_deliveries() {
    let invoked = Cell::new(0);
    let mut cb = Callback::new(|_: &[u8]| {
        invoked.set(invoked.get() + 1);
        invoked.get() < 5
    });
    let codes = drive_rx(&mut cb, 100);
    assert_eq!(codes, vec![0, 0, 0, 0, 1]);
    assert_eq!(invoked.get(), 5);
}

#[test]
fn closure_with_state_of_its_own() {
    let buffer = [7u8; 16];
    let mut total: u64 = 0;
    {
        let mut cb = Callback::new(|view: &[u8]| {
            total += view.iter().map(|&byte| byte as u64).sum::<u64>();
            true
        });
        rx_cb(&mut cb, &delivery(16, 16), &buffer);
        rx_cb(&mut cb, &delivery(16, 4), &buffer);
    }
    assert_eq!(total, 7 * 20);
}

#[test]
fn tx_closure_fills_the_whole_buffer() {
    let mut buffer = [0xAAu8; 6];
    let mut cb = Callback::new(|view: &mut [u8]| {
        for (i, byte) in view.iter_mut().enumerate() {
            *byte = i as u8 + 1;
        }
        true
    });
    assert_eq!(tx_cb(&mut cb, &delivery(6, 0), &mut buffer), CALLBACK_CONTINUE);
    assert_eq!(buffer, [1, 2, 3, 4, 5, 6]);
}

#[test]
fn tx_buffer_is_cleared_before_the_closure_runs() {
    let mut buffer = [0xAAu8; 6];
    let seen = RefCell::new(Vec::new());
    let mut cb = Callback::new(|view: &mut [u8]| {
        *seen.borrow_mut() = view.to_vec();
        view[0] = 9;
        false
    });
    assert_eq!(tx_cb(&mut cb, &delivery(6, 6), &mut buffer), CALLBACK_STOP);
    assert_eq!(*seen.borrow(), vec![0, 0, 0, 0, 0, 0]);
    assert_eq!(buffer, [9, 0, 0, 0, 0, 0]);
}

#[test]
fn tx_with_a_length_that_disagrees_leaves_the_buffer() {
    let mut buffer = [0xAAu8; 6];
    let invoked = Cell::new(0);
    let mut cb = Callback::new(|_: &mut [u8]| {
        invoked.set(invoked.get() + 1);
        true
    });
    assert_eq!(tx_cb(&mut cb, &delivery(7, 0), &mut buffer), CALLBACK_STOP);
    assert_eq!(tx_cb(&mut cb, &delivery(-6, 0), &mut buffer), CALLBACK_STOP);
    assert_eq!(tx_cb(&mut cb, &delivery(5, 0), &mut buffer), CALLBACK_STOP);
    assert_eq!(invoked.get(), 0);
    assert_eq!(buffer, [0xAA; 6]);
}

#[test]
fn tx_with_an_empty_buffer_still_asks_the_closure() {
    let mut buffer: [u8; 0] = [];
    let invoked = Cell::new(0);
    let mut cb = Callback::new(|view: &mut [u8]| {
        invoked.set(invoked.get() + 1);
        view.is_empty()
    });
    assert_eq!(tx_cb(&mut cb, &delivery(0, 0), &mut buffer), CALLBACK_CONTINUE);
    assert_eq!(invoked.get(), 1);
}

#[test]
fn receive_three_buffers_end_to_end() {
    let fake = Fake::new();
    let mut native = Native::new(|call| fake.answer(call));
    let live_contexts = Cell::new(0);

    let mut device = open(&mut native).unwrap();
    assert_eq!(set_freq(&mut native, &mut device, 434_000_000), Ok(()));
    let rate = RealHz { bits: 8_000_000f64.to_bits() };
    assert_eq!(set_sample_rate(&mut native, &mut device, rate), Ok(()));

    let invoked = Cell::new(0);
    let mut closure = Callback::new(|_: &[u8]| {
        invoked.set(invoked.get() + 1);
        invoked.get() < 3
    });
    live_contexts.set(live_contexts.get() + 1);
    let context = CallbackContext { addr: 0x100 };
    assert_eq!(start_rx(&mut native, &mut device, context), Ok(()));
    assert_eq!(is_streaming(&mut native, &mut device), Ok(true));

    let codes = drive_rx(&mut closure, 10);
    fake.streaming.set(HACKRF_ERROR_STREAMING_STOPPED);
    assert_eq!(codes, vec![CALLBACK_CONTINUE, CALLBACK_CONTINUE, CALLBACK_STOP]);
    assert_eq!(invoked.get(), 3);
    assert_eq!(is_streaming(&mut native, &mut device), Ok(false));

    let held = device.session(Direction::Rx).map(|session| session.context);
    assert_eq!(held, Some(context));
    assert_eq!(close(&mut native, device), Ok(()));
    if held.is_some() {
        live_contexts.set(live_contexts.get() - 1);
    }
    assert_eq!(live_contexts.get(), 0);

    assert_eq!(
        fake.calls(),
        vec![
            NativeCall::Open,
            NativeCall::SetFreq { device: RADIO, freq_hz: 434_000_000 },
            NativeCall::SetSampleRate { device: RADIO, rate },
            NativeCall::StartRx { device: RADIO, rx_ctx: 0x100 },
            NativeCall::IsStreaming { device: RADIO },
            NativeCall::IsStreaming { device: RADIO },
            NativeCall::StopRx { device: RADIO },
            NativeCall::Close { device: RADIO },
        ]
    );
}
