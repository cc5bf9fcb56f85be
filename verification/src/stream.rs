//! The streaming bridge: starting and stopping sessions, the streaming
//! query, and what happens on each buffer delivery.
//!
//! Once a session is started the native library calls back on a thread of its
//! own, once per buffer, with the context that the session registered. The
//! foreign entry point recovers the closure from that context and the buffer
//! from its raw address, and then calls [`rx_cb`] or [`tx_cb`]. Those two
//! decide whether the closure is called, which bytes it may see and which
//! code goes back to the native library. A closure therefore runs on a
//! foreign thread, at any time between the start of its session and the
//! return of the stop: it has to be fit to move to another thread, and what
//! it shares with the rest of the program it has to guard itself.

use vstd::prelude::*;

use crate::device::{CallbackContext, DeviceState, Direction, HackRFDevice};
use crate::error::{
    busy_value, fails, fails_with, hackrf_error, invalid_param_value, not_streaming_value,
    perform, performs, ErrorValue, HackRFError,
};
use crate::native::{
    hackrf_device, hackrf_transfer, Exchange, Native, NativeCall, NativeReply,
    HACKRF_ERROR_STREAMING_EXIT_CALLED, HACKRF_ERROR_STREAMING_STOPPED, HACKRF_SUCCESS,
    HACKRF_TRUE,
};

verus! {

/// What a delivery callback returns to keep the stream running.
pub const CALLBACK_CONTINUE: i32 = 0;

/// What a delivery callback returns to end the stream.
pub const CALLBACK_STOP: i32 = 1;

/// Why a session cannot be started, if it cannot: a null context is not a
/// context, and a direction carries one session at a time.
pub open spec fn start_refusal(
    state: DeviceState,
    direction: Direction,
    context: CallbackContext,
) -> Option<ErrorValue> {
    if context.addr == 0 {
        Some(invalid_param_value())
    } else if state.slot(direction) is Some {
        Some(busy_value())
    } else {
        None
    }
}

/// The native call that starts a session.
pub open spec fn start_call(
    device: hackrf_device,
    direction: Direction,
    context: CallbackContext,
) -> NativeCall {
    match direction {
        Direction::Rx => NativeCall::StartRx { device, rx_ctx: context.addr },
        Direction::Tx => NativeCall::StartTx { device, tx_ctx: context.addr },
    }
}

/// The state of a handle after the native start call returned `status`: the
/// session exists if and only if the call succeeded.
pub open spec fn after_start(
    state: DeviceState,
    direction: Direction,
    context: CallbackContext,
    status: i32,
) -> DeviceState {
    if status == HACKRF_SUCCESS {
        state.with_slot(direction, Some(context))
    } else {
        state
    }
}

/// Whether starting a session on a handle in state `before` can leave the
/// handle in state `after`, the exchanges `added` and the outcome `result`.
/// A start that is refused reaches neither the handle nor the native library.
pub open spec fn starts(
    before: DeviceState,
    direction: Direction,
    context: CallbackContext,
    after: DeviceState,
    added: Seq<Exchange>,
    result: Result<(), HackRFError>,
) -> bool {
    match start_refusal(before, direction, context) {
        Some(value) => after == before && added.len() == 0 && fails_with(result, value),
        None => performs(added, start_call(before.ptr, direction, context), result) && after
            == after_start(before, direction, context, added[0].reply.status),
    }
}

/// Why a session cannot be stopped, if it cannot: there is none to stop.
pub open spec fn stop_refusal(state: DeviceState, direction: Direction) -> Option<ErrorValue> {
    if state.slot(direction) is None {
        Some(not_streaming_value())
    } else {
        None
    }
}

/// The native call that stops a session.
pub open spec fn stop_call(device: hackrf_device, direction: Direction) -> NativeCall {
    match direction {
        Direction::Rx => NativeCall::StopRx { device },
        Direction::Tx => NativeCall::StopTx { device },
    }
}

/// Whether stopping a session on a handle in state `before` can leave the
/// handle in state `after`, the exchanges `added` and the outcome `result`.
/// A stop that is refused reaches neither the handle nor the native library.
/// Once the native call has been made the session is over, whatever the call
/// answered.
pub open spec fn stops(
    before: DeviceState,
    direction: Direction,
    after: DeviceState,
    added: Seq<Exchange>,
    result: Result<(), HackRFError>,
) -> bool {
    match stop_refusal(before, direction) {
        Some(value) => after == before && added.len() == 0 && fails_with(result, value),
        None => performs(added, stop_call(before.ptr, direction), result) && after
            == before.with_slot(direction, None),
    }
}

/// Starts a session in `direction` whose deliveries carry `context`.
///
/// The context is the address of the boxed closure; it must stay valid until
/// the session is stopped or the handle closed. On an error no session
/// exists and the context may be freed at once. A session whose closure has
/// asked to stop no longer streams, but it keeps its direction until it is
/// stopped.
pub fn start<N: Fn(NativeCall) -> NativeReply>(
    native: &mut Native<N>,
    device: &mut HackRFDevice,
    direction: Direction,
    context: CallbackContext,
) -> (result: Result<(), HackRFError>)
    ensures
        final(native).continues(old(native)),
        starts(
            old(device)@,
            direction,
            context,
            final(device)@,
            final(native).since(old(native)),
            result,
        ),
{
    proof {
        native.lemma_continues_self();
    }
    if context.addr == 0 {
        return Err(HackRFError::invalid_param());
    }
    if device.session(direction).is_some() {
        return Err(HackRFError::busy());
    }
    let call = match direction {
        Direction::Rx => NativeCall::StartRx { device: device.ptr(), rx_ctx: context.addr },
        Direction::Tx => NativeCall::StartTx { device: device.ptr(), tx_ctx: context.addr },
    };
    let result = perform(native, call);
    if result.is_ok() {
        device.attach(direction, context);
    }
    result
}

/// Stops the session that runs in `direction`.
///
/// When this returns after a native call the session is over, with either
/// outcome, and the direction is free again. The context may be freed once
/// the native library has acknowledged the stop, that is on success: from
/// then on it delivers no further buffer. After a failure the worker thread
/// may still deliver, and the context has to stay allocated.
pub fn stop<N: Fn(NativeCall) -> NativeReply>(
    native: &mut Native<N>,
    device: &mut HackRFDevice,
    direction: Direction,
) -> (result: Result<(), HackRFError>)
    ensures
        final(native).continues(old(native)),
        stops(old(device)@, direction, final(device)@, final(native).since(old(native)), result),
{
    proof {
        native.lemma_continues_self();
    }
    if device.session(direction).is_none() {
        return Err(HackRFError::not_streaming());
    }
    let call = match direction {
        Direction::Rx => NativeCall::StopRx { device: device.ptr() },
        Direction::Tx => NativeCall::StopTx { device: device.ptr() },
    };
    let result = perform(native, call);
    device.detach(direction);
    result
}

/// Starts reception. See [`start`].
pub fn start_rx<N: Fn(NativeCall) -> NativeReply>(
    native: &mut Native<N>,
    device: &mut HackRFDevice,
    context: CallbackContext,
) -> (result: Result<(), HackRFError>)
    ensures
        final(native).continues(old(native)),
        starts(
            old(device)@,
            Direction::Rx,
            context,
            final(device)@,
            final(native).since(old(native)),
            result,
        ),
{
    start(native, device, Direction::Rx, context)
}

/// Stops reception. See [`stop`].
pub fn stop_rx<N: Fn(NativeCall) -> NativeReply>(
    native: &mut Native<N>,
    device: &mut HackRFDevice,
) -> (result: Result<(), HackRFError>)
    ensures
        final(native).continues(old(native)),
        stops(
            old(device)@,
            Direction::Rx,
            final(device)@,
            final(native).since(old(native)),
            result,
        ),
{
    stop(native, device, Direction::Rx)
}

/// Starts transmission. See [`start`].
pub fn start_tx<N: Fn(NativeCall) -> NativeReply>(
    native: &mut Native<N>,
    device: &mut HackRFDevice,
    context: CallbackContext,
) -> (result: Result<(), HackRFError>)
    ensures
        final(native).continues(old(native)),
        starts(
            old(device)@,
            Direction::Tx,
            context,
            final(device)@,
            final(native).since(old(native)),
            result,
        ),
{
    start(native, device, Direction::Tx, context)
}

/// Stops transmission. See [`stop`].
pub fn stop_tx<N: Fn(NativeCall) -> NativeReply>(
    native: &mut Native<N>,
    device: &mut HackRFDevice,
) -> (result: Result<(), HackRFError>)
    ensures
        final(native).continues(old(native)),
        stops(
            old(device)@,
            Direction::Tx,
            final(device)@,
            final(native).since(old(native)),
            result,
        ),
{
    stop(native, device, Direction::Tx)
}

/// What the status of the streaming query means: streaming, ended in an
/// orderly way, or (`None`) failed.
pub open spec fn streaming_state(status: i32) -> Option<bool> {
    if status == HACKRF_TRUE {
        Some(true)
    } else if status == HACKRF_ERROR_STREAMING_STOPPED || status
        == HACKRF_ERROR_STREAMING_EXIT_CALLED {
        Some(false)
    } else {
        None
    }
}

/// Reads the status of the streaming query. An orderly end is not an error:
/// it reads as "not streaming".
pub fn streaming_status(status: i32) -> (state: Option<bool>)
    ensures
        state == streaming_state(status),
{
    if status == HACKRF_TRUE {
        Some(true)
    } else if status == HACKRF_ERROR_STREAMING_STOPPED || status
        == HACKRF_ERROR_STREAMING_EXIT_CALLED {
        Some(false)
    } else {
        None
    }
}

/// Whether `added` and `result` are what the streaming query on `device`
/// leaves: the one query, and then its reading, or the failure for a status
/// that has none.
pub open spec fn queries(
    device: hackrf_device,
    added: Seq<Exchange>,
    result: Result<bool, HackRFError>,
) -> bool {
    &&& added.len() >= 1
    &&& added[0].call == NativeCall::IsStreaming { device }
    &&& match streaming_state(added[0].reply.status) {
        Some(streaming) => added.len() == 1 && result is Ok && result->Ok_0 == streaming,
        None => fails(added.skip(1), added[0].reply.status, result),
    }
}

/// Asks whether the radio is streaming: `true` while it is, `false` once
/// streaming has ended in an orderly way, an error for any other status.
/// Changes nothing.
pub fn is_streaming<N: Fn(NativeCall) -> NativeReply>(
    native: &mut Native<N>,
    device: &mut HackRFDevice,
) -> (result: Result<bool, HackRFError>)
    ensures
        final(device)@ == old(device)@,
        final(native).continues(old(native)),
        queries(old(device)@.ptr, final(native).since(old(native)), result),
{
    let reply = native.call(NativeCall::IsStreaming { device: device.ptr() });
    match streaming_status(reply.status) {
        Some(streaming) => Ok(streaming),
        None => {
            let ghost called = *native;
            let error = hackrf_error(native, reply.status);
            proof {
                native.lemma_continues_chain(old(native), &called);
                assert(native.since(old(native)).skip(1) == native.since(&called));
            }
            Err(error)
        },
    }
}

/// The code that answers a delivery: continue if the closure asked for more,
/// stop if it asked to stop or (`None`) did not come to a decision.
pub open spec fn callback_code(decision: Option<bool>) -> i32 {
    if decision == Some(true) {
        CALLBACK_CONTINUE
    } else {
        CALLBACK_STOP
    }
}

/// Maps what a closure decided to the code the native library expects. A
/// closure that failed instead of returning has decided nothing, and the
/// stream stops.
pub fn callback_status(decision: Option<bool>) -> (code: i32)
    ensures
        code == callback_code(decision),
{
    match decision {
        Some(true) => CALLBACK_CONTINUE,
        _ => CALLBACK_STOP,
    }
}

/// The context that a delivery carries for `direction`, unless it is null.
pub open spec fn context_of(transfer: hackrf_transfer, direction: Direction) -> Option<
    CallbackContext,
> {
    let addr = match direction {
        Direction::Rx => transfer.rx_ctx,
        Direction::Tx => transfer.tx_ctx,
    };
    if addr == 0 {
        None
    } else {
        Some(CallbackContext { addr })
    }
}

/// Finds the context of the session that a delivery belongs to. The context
/// comes from the delivery and from nowhere else. A delivery without one
/// belongs to no session: it must be answered with [`CALLBACK_STOP`].
pub fn delivery_context(transfer: &hackrf_transfer, direction: Direction) -> (context: Option<
    CallbackContext,
>)
    ensures
        context == context_of(*transfer, direction),
{
    let addr: usize = match direction {
        Direction::Rx => transfer.rx_ctx,
        Direction::Tx => transfer.tx_ctx,
    };
    if addr == 0 {
        None
    } else {
        Some(CallbackContext { addr })
    }
}

/// The size in bytes of the buffer of a delivery, unless the delivery claims
/// a negative one.
pub open spec fn capacity_of(transfer: hackrf_transfer) -> Option<usize> {
    if transfer.buffer_length >= 0 {
        Some(transfer.buffer_length as usize)
    } else {
        None
    }
}

/// Reads the size of the buffer of a delivery: the length of the slice that
/// stands for the buffer in [`rx_cb`] and [`tx_cb`]. A delivery with a
/// negative size has no buffer: it must be answered with [`CALLBACK_STOP`].
pub fn buffer_capacity(transfer: &hackrf_transfer) -> (capacity: Option<usize>)
    ensures
        capacity == capacity_of(*transfer),
{
    if transfer.buffer_length >= 0 {
        Some(transfer.buffer_length as usize)
    } else {
        None
    }
}

/// The bytes a receive closure may read: the first `valid_length` bytes of
/// the buffer, provided the lengths of the delivery agree with each other and
/// with the buffer.
pub open spec fn rx_view(transfer: hackrf_transfer, buffer: Seq<u8>) -> Option<Seq<u8>> {
    if capacity_of(transfer) == Some(buffer.len() as usize) && 0 <= transfer.valid_length
        <= transfer.buffer_length {
        Some(buffer.subrange(0, transfer.valid_length as int))
    } else {
        None
    }
}

/// The number of bytes a transmit closure may fill: the whole buffer,
/// provided the length of the delivery agrees with the buffer.
pub open spec fn tx_view_len(transfer: hackrf_transfer, buffer: Seq<u8>) -> Option<nat> {
    if capacity_of(transfer) == Some(buffer.len() as usize) {
        Some(buffer.len())
    } else {
        None
    }
}

/// A closure in its box: what a callback context is the address of.
///
/// Besides the closure the box counts, for the contracts only, how often the
/// closure has been called through it.
pub struct Callback<F> {
    closure: F,
    invocations: Ghost<nat>,
}

impl<F> Callback<F> {
    /// The closure in the box.
    pub closed spec fn closure(&self) -> F {
        self.closure
    }

    /// How often the closure has been called.
    pub closed spec fn invocations(&self) -> nat {
        self.invocations@
    }

    /// Boxes a closure that has not been called yet.
    pub fn new(closure: F) -> (callback: Self)
        ensures
            callback.closure() == closure,
            callback.invocations() == 0,
    {
        Callback { closure, invocations: Ghost(0) }
    }
}

/// Whether a receive closure takes every view.
pub open spec fn takes_every_view<F: FnMut(&[u8]) -> bool>(closure: F) -> bool {
    forall|view: &[u8]| call_requires(closure, (view,))
}

/// Whether a transmit closure takes every buffer.
pub open spec fn takes_every_buffer<F: FnMut(&mut [u8]) -> bool>(closure: F) -> bool {
    forall|view: &mut [u8]| call_requires(closure, (view,))
}

/// Handles one delivery of received samples.
///
/// The closure is called once, on the valid part of the buffer, and its
/// answer becomes the code for the native library. The lengths are those of
/// this delivery and no other. If they do not agree the closure is not
/// called and the stream stops.
pub fn rx_cb<F: FnMut(&[u8]) -> bool>(
    cb: &mut Callback<F>,
    transfer: &hackrf_transfer,
    buffer: &[u8],
) -> (code: i32)
    requires
        takes_every_view(old(cb).closure()),
    ensures
        takes_every_view(final(cb).closure()),
        match rx_view(*transfer, buffer@) {
            Some(bytes) => final(cb).invocations() == old(cb).invocations() + 1 && exists|
                view: &[u8],
                keep: bool,
            | #[trigger]
                call_ensures(old(cb).closure(), (view,), keep) && view@ == bytes && code
                    == callback_code(Some(keep)),
            None => final(cb).invocations() == old(cb).invocations() && code == CALLBACK_STOP,
        },
{
    let capacity: usize = match buffer_capacity(transfer) {
        Some(capacity) => capacity,
        None => {
            return CALLBACK_STOP;
        },
    };
    if buffer.len() != capacity {
        return CALLBACK_STOP;
    }
    if transfer.valid_length < 0 || transfer.valid_length > transfer.buffer_length {
        return CALLBACK_STOP;
    }
    let valid: usize = transfer.valid_length as usize;
    let view = &buffer[0..valid];
    let keep = (cb.closure)(view);
    proof {
        cb.invocations@ = cb.invocations@ + 1;
    }
    callback_status(Some(keep))
}

/// Handles one request for samples to transmit.
///
/// The buffer is cleared, then the closure is called once on all of it, and
/// its answer becomes the code for the native library: what the closure
/// leaves unfilled is sent as zeros. If the length of the delivery does not
/// agree with the buffer the closure is not called, the buffer is left as it
/// is and the stream stops.
pub fn tx_cb<F: FnMut(&mut [u8]) -> bool>(
    cb: &mut Callback<F>,
    transfer: &hackrf_transfer,
    buffer: &mut [u8],
) -> (code: i32)
    requires
        takes_every_buffer(old(cb).closure()),
    ensures
        takes_every_buffer(final(cb).closure()),
        match tx_view_len(*transfer, old(buffer)@) {
            Some(len) => final(cb).invocations() == old(cb).invocations() + 1 && exists|
                view: &mut [u8],
                keep: bool,
            | #[trigger]
                call_ensures(old(cb).closure(), (view,), keep) && view@ == Seq::new(
                    len,
                    |i: int| 0u8,
                ) && final(view)@ == final(buffer)@ && code == callback_code(Some(keep)),
            None => final(cb).invocations() == old(cb).invocations() && final(buffer)@ == old(
                buffer,
            )@ && code == CALLBACK_STOP,
        },
{
    let capacity: usize = match buffer_capacity(transfer) {
        Some(capacity) => capacity,
        None => {
            return CALLBACK_STOP;
        },
    };
    if buffer.len() != capacity {
        return CALLBACK_STOP;
    }
    let mut i: usize = 0;
    while i < capacity
        invariant
            capacity == buffer@.len(),
            i <= capacity,
            forall|j: int| 0 <= j < i ==> buffer@[j] == 0u8,
        decreases capacity - i,
    {
        buffer[i] = 0;
        i += 1;
    }
    assert(buffer@ == Seq::new(capacity as nat, |i: int| 0u8));
    let keep = (cb.closure)(buffer);
    proof {
        cb.invocations@ = cb.invocations@ + 1;
    }
    callback_status(Some(keep))
}

} // verus!
