//! The device handle: exclusive ownership of one opened radio, and the
//! streaming sessions that run on it.
//!
//! A handle comes from [`open`] and goes away in [`close`], which takes it by
//! value: a closed handle cannot be used or closed again. A handle knows, for
//! each direction, whether a streaming session is running and which callback
//! context that session registered with the native library.

use vstd::prelude::*;

use crate::error::{fails, hackrf_error, perform, performs, HackRFError};
use crate::native::{hackrf_device, Exchange, Native, NativeCall, NativeReply, HACKRF_SUCCESS};

verus! {

/// The direction of a stream.
#[derive(Clone, Copy, Debug, PartialEq, Eq)]
pub enum Direction {
    /// From the radio to the application.
    Rx,
    /// From the application to the radio.
    Tx,
}

/// The handle by which the native worker thread finds the closure of a
/// session: the address of the closure's box, as a plain integer. The library
/// stores it and hands it to the native library; it never looks behind it.
#[derive(Clone, Copy, Debug, PartialEq, Eq)]
pub struct CallbackContext {
    pub addr: usize,
}

/// One running stream: its direction and the context it registered.
#[derive(Clone, Copy, Debug, PartialEq, Eq)]
pub struct StreamingSession {
    pub direction: Direction,
    pub context: CallbackContext,
}

/// What a device handle holds, as contracts see it.
pub struct DeviceState {
    /// The native resource.
    pub ptr: hackrf_device,
    /// The context of the running receive session, if there is one.
    pub rx: Option<CallbackContext>,
    /// The context of the running transmit session, if there is one.
    pub tx: Option<CallbackContext>,
}

impl DeviceState {
    /// The context of the session that runs in `direction`, if one does.
    pub open spec fn slot(self, direction: Direction) -> Option<CallbackContext> {
        match direction {
            Direction::Rx => self.rx,
            Direction::Tx => self.tx,
        }
    }

    /// This state with the slot of `direction` replaced.
    pub open spec fn with_slot(
        self,
        direction: Direction,
        context: Option<CallbackContext>,
    ) -> Self {
        match direction {
            Direction::Rx => DeviceState { rx: context, ..self },
            Direction::Tx => DeviceState { tx: context, ..self },
        }
    }

    /// The state of a handle that has just been opened on `ptr`.
    pub open spec fn fresh(ptr: hackrf_device) -> Self {
        DeviceState { ptr, rx: None, tx: None }
    }

    /// Whether every running session has a context that is not null.
    pub open spec fn contexts_valid(self) -> bool {
        &&& self.rx matches Some(context) ==> context.addr != 0
        &&& self.tx matches Some(context) ==> context.addr != 0
    }
}

/// An opened radio. There is one handle per opened radio; it can be moved but
/// not copied.
pub struct HackRFDevice {
    ptr: hackrf_device,
    rx: Option<CallbackContext>,
    tx: Option<CallbackContext>,
}

impl View for HackRFDevice {
    type V = DeviceState;

    closed spec fn view(&self) -> DeviceState {
        DeviceState { ptr: self.ptr, rx: self.rx, tx: self.tx }
    }
}

impl HackRFDevice {
    #[verifier::type_invariant]
    spec fn contexts_not_null(self) -> bool {
        self@.contexts_valid()
    }

    /// The native resource behind this handle.
    pub fn ptr(&self) -> (ptr: hackrf_device)
        ensures
            ptr == self@.ptr,
    {
        self.ptr
    }

    /// The session that runs in `direction`, if one does.
    pub fn session(&self, direction: Direction) -> (session: Option<StreamingSession>)
        ensures
            self@.contexts_valid(),
            match session {
                Some(s) => s.direction == direction && self@.slot(direction) == Some(s.context),
                None => self@.slot(direction) is None,
            },
    {
        proof {
            use_type_invariant(self);
        }
        let slot = match direction {
            Direction::Rx => self.rx,
            Direction::Tx => self.tx,
        };
        match slot {
            Some(context) => Some(StreamingSession { direction, context }),
            None => None,
        }
    }

    /// Records that a session with `context` now runs in `direction`.
    pub(crate) fn attach(&mut self, direction: Direction, context: CallbackContext)
        requires
            context.addr != 0,
        ensures
            final(self)@ == old(self)@.with_slot(direction, Some(context)),
    {
        proof {
            use_type_invariant(&*self);
        }
        match direction {
            Direction::Rx => {
                self.rx = Some(context);
            },
            Direction::Tx => {
                self.tx = Some(context);
            },
        }
    }

    /// Records that no session runs in `direction` any more.
    pub(crate) fn detach(&mut self, direction: Direction)
        ensures
            final(self)@ == old(self)@.with_slot(direction, None),
    {
        proof {
            use_type_invariant(&*self);
        }
        match direction {
            Direction::Rx => {
                self.rx = None;
            },
            Direction::Tx => {
                self.tx = None;
            },
        }
    }
}

/// Whether `added` and `result` are what opening a radio leaves: the native
/// open, and then either a handle on the resource it wrote back, with no
/// session, or the failure it reported.
pub open spec fn opens(added: Seq<Exchange>, result: Result<HackRFDevice, HackRFError>) -> bool {
    &&& added.len() >= 1
    &&& added[0].call == NativeCall::Open
    &&& if added[0].reply.status == HACKRF_SUCCESS {
        &&& added.len() == 1
        &&& result is Ok
        &&& result->Ok_0@ == DeviceState::fresh(added[0].reply.device)
    } else {
        fails(added.skip(1), added[0].reply.status, result)
    }
}

/// The stops that closing a handle in state `state` makes before the close:
/// one for each direction that still has a session, receive first.
pub open spec fn forced_stops(state: DeviceState) -> Seq<NativeCall> {
    let rx = if state.rx is Some {
        seq![NativeCall::StopRx { device: state.ptr }]
    } else {
        seq![]
    };
    let tx = if state.tx is Some {
        seq![NativeCall::StopTx { device: state.ptr }]
    } else {
        seq![]
    };
    rx + tx
}

/// Whether `added` and `result` are what closing a handle in state `state`
/// leaves: the forced stops, whose answers do not count, and then the native
/// close, whose status decides the outcome.
pub open spec fn closes(
    state: DeviceState,
    added: Seq<Exchange>,
    result: Result<(), HackRFError>,
) -> bool {
    let stops = forced_stops(state);
    &&& added.len() > stops.len()
    &&& forall|i: int| 0 <= i < stops.len() ==> (#[trigger] added[i]).call == stops[i]
    &&& performs(added.skip(stops.len() as int), NativeCall::Close { device: state.ptr }, result)
}

/// Prepares the native library for use. To be called once, before any other
/// operation.
pub fn init<N: Fn(NativeCall) -> NativeReply>(native: &mut Native<N>) -> (result: Result<
    (),
    HackRFError,
>)
    ensures
        final(native).continues(old(native)),
        performs(final(native).since(old(native)), NativeCall::Init, result),
{
    perform(native, NativeCall::Init)
}

/// Shuts the native library down. To be called once, after the last
/// operation.
pub fn exit<N: Fn(NativeCall) -> NativeReply>(native: &mut Native<N>) -> (result: Result<
    (),
    HackRFError,
>)
    ensures
        final(native).continues(old(native)),
        performs(final(native).since(old(native)), NativeCall::Exit, result),
{
    perform(native, NativeCall::Exit)
}

/// Opens the attached radio. On success the handle owns the resource that
/// the native library wrote back and has no session; on failure there is no
/// handle.
pub fn open<N: Fn(NativeCall) -> NativeReply>(native: &mut Native<N>) -> (result: Result<
    HackRFDevice,
    HackRFError,
>)
    ensures
        final(native).continues(old(native)),
        opens(final(native).since(old(native)), result),
{
    let reply = native.call(NativeCall::Open);
    if reply.status == HACKRF_SUCCESS {
        Ok(HackRFDevice { ptr: reply.device, rx: None, tx: None })
    } else {
        let ghost called = *native;
        let error = hackrf_error(native, reply.status);
        proof {
            native.lemma_continues_chain(old(native), &called);
            assert(native.since(old(native)).skip(1) == native.since(&called));
        }
        Err(error)
    }
}

/// Releases the radio. The handle is consumed whatever the outcome.
///
/// A session that still runs is stopped first, receive before transmit, so
/// that the native library is never asked to close a streaming radio. What
/// those stops answer does not count: the outcome is that of the native
/// close alone.
pub fn close<N: Fn(NativeCall) -> NativeReply>(
    native: &mut Native<N>,
    device: HackRFDevice,
) -> (result: Result<(), HackRFError>)
    ensures
        final(native).continues(old(native)),
        closes(device@, final(native).since(old(native)), result),
{
    proof {
        native.lemma_continues_self();
    }
    if device.rx.is_some() {
        native.call(NativeCall::StopRx { device: device.ptr });
    }
    let ghost after_rx = *native;
    if device.tx.is_some() {
        native.call(NativeCall::StopTx { device: device.ptr });
    }
    let ghost after_tx = *native;
    proof {
        after_rx.lemma_continues_self();
        after_tx.lemma_continues_chain(old(native), &after_rx);
    }
    let result = perform(native, NativeCall::Close { device: device.ptr });
    proof {
        native.lemma_continues_chain(old(native), &after_tx);
        let stops = forced_stops(device@);
        let added = native.since(old(native));
        assert(after_tx.since(old(native)).len() == stops.len());
        assert(added.skip(stops.len() as int) == native.since(&after_tx));
        assert forall|i: int| 0 <= i < stops.len() implies (#[trigger] added[i]).call
            == stops[i] by {
            assert(added[i] == after_tx.since(old(native))[i]);
        }
    }
    result
}

} // verus!
