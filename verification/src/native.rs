//! The vocabulary shared with the native radio library: its status codes and
//! identifiers, the records it fills, the calls it accepts and what it answers.
//!
//! Nothing here touches the radio. A call is a plain value that describes one
//! entry point of the native library together with its arguments; whoever owns
//! the foreign boundary performs it and hands the answer back as a
//! [`NativeReply`]. The library reaches the boundary through a [`Native`],
//! which keeps, for the contracts, the history of what was asked and answered:
//! what an operation did to the radio is what it added to that history.

use vstd::prelude::*;

verus! {

/// The operation completed.
pub const HACKRF_SUCCESS: i32 = 0;

/// Answer of the streaming query while a stream is running.
pub const HACKRF_TRUE: i32 = 1;

/// An argument was outside the range the radio accepts.
pub const HACKRF_ERROR_INVALID_PARAM: i32 = -2;

/// No radio is attached.
pub const HACKRF_ERROR_NOT_FOUND: i32 = -5;

/// The radio, or one of its streaming directions, is already in use.
pub const HACKRF_ERROR_BUSY: i32 = -6;

/// The native library could not allocate memory.
pub const HACKRF_ERROR_NO_MEM: i32 = -11;

/// The USB transport failed.
pub const HACKRF_ERROR_LIBUSB: i32 = -1000;

/// The native worker thread could not be created or joined.
pub const HACKRF_ERROR_THREAD: i32 = -1001;

/// The native worker thread failed while streaming.
pub const HACKRF_ERROR_STREAMING_THREAD_ERR: i32 = -1002;

/// Streaming has ended because a callback asked for it or the buffers ran out.
pub const HACKRF_ERROR_STREAMING_STOPPED: i32 = -1003;

/// Streaming has ended because the native library was shut down.
pub const HACKRF_ERROR_STREAMING_EXIT_CALLED: i32 = -1004;

/// A failure the native library does not classify.
pub const HACKRF_ERROR_OTHER: i32 = -9999;

pub const BOARD_ID_JELLYBEAN: u8 = 0;

pub const BOARD_ID_JAWBREAKER: u8 = 1;

pub const BOARD_ID_HACKRF_ONE: u8 = 2;

/// The value a board id holds before the radio has reported one.
pub const BOARD_ID_INVALID: u8 = 0xFF;

pub const RF_PATH_FILTER_BYPASS: u32 = 0;

pub const RF_PATH_FILTER_LOW_PASS: u32 = 1;

pub const RF_PATH_FILTER_HIGH_PASS: u32 = 2;

/// Whether `code` is one of the status codes the native library defines.
pub open spec fn is_status_code(code: int) -> bool {
    ||| code == HACKRF_SUCCESS
    ||| code == HACKRF_TRUE
    ||| code == HACKRF_ERROR_INVALID_PARAM
    ||| code == HACKRF_ERROR_NOT_FOUND
    ||| code == HACKRF_ERROR_BUSY
    ||| code == HACKRF_ERROR_NO_MEM
    ||| code == HACKRF_ERROR_LIBUSB
    ||| code == HACKRF_ERROR_THREAD
    ||| code == HACKRF_ERROR_STREAMING_THREAD_ERR
    ||| code == HACKRF_ERROR_STREAMING_STOPPED
    ||| code == HACKRF_ERROR_STREAMING_EXIT_CALLED
    ||| code == HACKRF_ERROR_OTHER
}

/// The native device resource, known only by its address.
///
/// The library never looks behind the address; it carries it from the call
/// that opened the radio to every later call on it.
#[derive(Clone, Copy, Debug, PartialEq, Eq)]
pub struct hackrf_device {
    pub addr: usize,
}

/// What the native library reports with one buffer delivery, without the
/// buffer itself: the buffer travels beside this record as a slice.
#[derive(Clone, Copy, Debug, PartialEq, Eq)]
pub struct hackrf_transfer {
    pub device: hackrf_device,
    /// Capacity of the delivered buffer in bytes, as the native library counts it.
    pub buffer_length: i32,
    /// How many bytes of the buffer hold received samples.
    pub valid_length: i32,
    /// The context that was registered when reception was started.
    pub rx_ctx: usize,
    /// The context that was registered when transmission was started.
    pub tx_ctx: usize,
}

/// A frequency in Hz as a double-precision number, held by its bit pattern:
/// sign, eleven bits of exponent, fifty-two bits of fraction. The library
/// compares the pattern and passes it on; it does no arithmetic on it.
#[derive(Clone, Copy, Debug, PartialEq, Eq)]
pub struct RealHz {
    pub bits: u64,
}

/// Part id and serial number as the radio reports them.
#[derive(Clone, Copy, Debug, PartialEq, Eq)]
pub struct read_partid_serialno_t {
    pub part_id: [u32; 2],
    pub serial_no: [u32; 4],
}

/// One call into the native library, with its arguments in native units.
#[derive(Clone, Copy, Debug, PartialEq, Eq)]
pub enum NativeCall {
    Init,
    Exit,
    Open,
    Close { device: hackrf_device },
    StartRx { device: hackrf_device, rx_ctx: usize },
    StopRx { device: hackrf_device },
    StartTx { device: hackrf_device, tx_ctx: usize },
    StopTx { device: hackrf_device },
    IsStreaming { device: hackrf_device },
    SetBasebandFilterBandwidth { device: hackrf_device, bandwidth_hz: u32 },
    BoardIdRead { device: hackrf_device },
    VersionStringRead { device: hackrf_device, length: u8 },
    BoardPartidSerialnoRead { device: hackrf_device },
    SetFreq { device: hackrf_device, freq_hz: u64 },
    SetFreqExplicit { device: hackrf_device, if_freq_hz: u64, lo_freq_hz: u64, path: u32 },
    SetSampleRateManual { device: hackrf_device, numerator_hz: u32, divider: u32 },
    SetSampleRate { device: hackrf_device, rate: RealHz },
    SetAmpEnable { device: hackrf_device, enable: u8 },
    SetLnaGain { device: hackrf_device, value: u32 },
    SetVgaGain { device: hackrf_device, value: u32 },
    SetTxvgaGain { device: hackrf_device, value: u32 },
    SetAntennaEnable { device: hackrf_device, enable: u8 },
    ErrorName { errcode: i32 },
    BoardIdName { board_id: u8 },
    ComputeBasebandFilterBwRoundDownLt { bandwidth_hz: u32 },
    ComputeBasebandFilterBw { bandwidth_hz: u32 },
}

/// What came back from one call: the status code and whatever the call wrote
/// or returned besides it. A field that the call does not produce keeps the
/// value it has in [`NativeReply::with_status`].
#[derive(Clone, Debug, PartialEq, Eq)]
pub struct NativeReply {
    /// The status code the call returned.
    pub status: i32,
    /// The device that `Open` wrote back.
    pub device: hackrf_device,
    /// The board id that `BoardIdRead` wrote back.
    pub board_id: u8,
    /// The bytes that `VersionStringRead` left in its buffer.
    pub version: Vec<u8>,
    /// The record that `BoardPartidSerialnoRead` filled.
    pub ids: read_partid_serialno_t,
    /// The text that `ErrorName` or `BoardIdName` returned, copied.
    pub name: String,
    /// The bandwidth that one of the two filter computations returned.
    pub bandwidth: u32,
}

impl NativeReply {
    /// A reply that carries a status code and nothing else.
    pub fn with_status(code: i32) -> (reply: NativeReply)
        ensures
            reply.status == code,
            reply.device.addr == 0,
            reply.board_id == BOARD_ID_INVALID,
            reply.version@ == Seq::<u8>::empty(),
            reply.ids.part_id@ == seq![0u32, 0u32],
            reply.ids.serial_no@ == seq![0u32, 0u32, 0u32, 0u32],
            reply.name@ == Seq::<char>::empty(),
            reply.bandwidth == 0,
    {
        NativeReply {
            status: code,
            device: hackrf_device { addr: 0 },
            board_id: BOARD_ID_INVALID,
            version: Vec::new(),
            ids: read_partid_serialno_t { part_id: [0, 0], serial_no: [0, 0, 0, 0] },
            name: String::new(),
            bandwidth: 0,
        }
    }
}

/// One call and what it was answered.
pub struct Exchange {
    pub call: NativeCall,
    pub reply: NativeReply,
}

/// The native library behind its boundary: a function that performs calls,
/// and the history of the calls it has performed.
///
/// The history exists for the contracts only and costs nothing at run time.
/// It grows by one exchange with every call, and in no other way.
pub struct Native<N: Fn(NativeCall) -> NativeReply> {
    perform: N,
    history: Ghost<Seq<Exchange>>,
}

impl<N: Fn(NativeCall) -> NativeReply> Native<N> {
    #[verifier::type_invariant]
    spec fn accepts_every_call(self) -> bool {
        forall|call: NativeCall| self.perform.requires((call,))
    }

    /// Every exchange so far, oldest first.
    pub closed spec fn history(&self) -> Seq<Exchange> {
        self.history@
    }

    /// The function that performs the calls.
    pub closed spec fn boundary(&self) -> N {
        self.perform
    }

    /// Whether `self` is `before` after some more calls: the same boundary,
    /// the same history with exchanges added at its end, each of them a call
    /// with an answer that the boundary can give to it.
    pub open spec fn continues(&self, before: &Self) -> bool {
        &&& self.boundary() == before.boundary()
        &&& before.history().len() <= self.history().len()
        &&& self.history().take(before.history().len() as int) == before.history()
        &&& forall|i: int|
            before.history().len() <= i < self.history().len() ==> self.boundary().ensures(
                (#[trigger] self.history()[i].call,),
                self.history()[i].reply,
            )
    }

    /// The exchanges that were added to the history since `before`.
    pub open spec fn since(&self, before: &Self) -> Seq<Exchange> {
        self.history().skip(before.history().len() as int)
    }

    /// Puts `perform` behind the boundary, with an empty history. `perform`
    /// has to accept every call.
    pub fn new(perform: N) -> (native: Self)
        requires
            forall|call: NativeCall| perform.requires((call,)),
        ensures
            native.history() == Seq::<Exchange>::empty(),
            native.boundary() == perform,
    {
        Native { perform, history: Ghost(Seq::empty()) }
    }

    /// Performs one call.
    pub fn call(&mut self, call: NativeCall) -> (reply: NativeReply)
        ensures
            final(self).continues(old(self)),
            final(self).since(old(self)) == seq![Exchange { call, reply }],
    {
        proof {
            use_type_invariant(&*self);
        }
        let reply = (self.perform)(call);
        proof {
            self.history@ = self.history@.push(Exchange { call, reply });
            assert(self.history().take(old(self).history().len() as int) == old(self).history());
            assert(self.since(old(self)) == seq![Exchange { call, reply }]);
        }
        reply
    }

    /// Without a call nothing is added.
    pub proof fn lemma_continues_self(&self)
        ensures
            self.continues(self),
            self.since(self) == Seq::<Exchange>::empty(),
    {
        assert(self.history().take(self.history().len() as int) == self.history());
        assert(self.since(self) == Seq::<Exchange>::empty());
    }

    /// What was added from `before` to `middle` and from `middle` to `self`
    /// is, put together, what was added from `before` to `self`.
    pub proof fn lemma_continues_chain(&self, before: &Self, middle: &Self)
        requires
            middle.continues(before),
            self.continues(middle),
        ensures
            self.continues(before),
            self.since(before) == middle.since(before) + self.since(middle),
    {
        let b = before.history().len() as int;
        let m = middle.history().len() as int;
        assert(self.history().take(b) == before.history()) by {
            assert(self.history().take(m).take(b) == self.history().take(b));
        }
        assert forall|i: int| b <= i < self.history().len() implies self.boundary().ensures(
            (#[trigger] self.history()[i].call,),
            self.history()[i].reply,
        ) by {
            if i < m {
                assert(self.history().take(m)[i] == self.history()[i]);
                assert(middle.history()[i] == self.history()[i]);
            }
        }
        assert(self.since(before) =~= middle.since(before) + self.since(middle)) by {
            assert forall|i: int| 0 <= i < m - b implies self.since(before)[i] == middle.since(
                before,
            )[i] by {
                assert(self.history().take(m)[i + b] == self.history()[i + b]);
            }
        }
    }
}

} // verus!
