//! What holds of the library as a whole, stated over the same predicates as
//! the contracts of its functions and proved from them.

use vstd::prelude::*;

use crate::config::{gain_refusal, sets, LNA_GAIN_MAX, TXVGA_GAIN_MAX, VGA_GAIN_MAX};
use crate::device::{closes, forced_stops, CallbackContext, DeviceState, Direction};
use crate::error::{
    bad_version_value, busy_value, fails_with, invalid_param_value, names, not_streaming_value,
    performs, HackRFError,
};
use crate::native::{is_status_code, Exchange, NativeCall, HACKRF_SUCCESS};
use crate::stream::{
    callback_code, start_refusal, starts, stops, streaming_state, CALLBACK_CONTINUE, CALLBACK_STOP,
};

verus! {

/// A gain setter, of any of the three stages, refuses a gain above the
/// largest gain of its stage with the invalid-parameter error and without a
/// native call. A gain within the range goes to the native library in the
/// call of the setter, and the setter succeeds exactly when the native
/// library reports success.
pub proof fn law_gain_range(
    max: u32,
    gain: u32,
    call: NativeCall,
    added: Seq<Exchange>,
    result: Result<(), HackRFError>,
)
    requires
        max == LNA_GAIN_MAX || max == VGA_GAIN_MAX || max == TXVGA_GAIN_MAX,
        sets(gain_refusal(gain, max), call, added, result),
    ensures
        gain > max ==> added.len() == 0 && fails_with(result, invalid_param_value()),
        gain <= max ==> added.len() >= 1 && added[0].call == call,
        gain <= max ==> (result is Ok <==> added[0].reply.status == HACKRF_SUCCESS),
{
}

/// An operation that consists of one native call hands the native library
/// exactly the call it was given, first and once, and succeeds exactly when
/// that call reports success. What follows a failure is the question for its
/// text and nothing else.
pub proof fn law_call_reaches_native_unchanged(
    call: NativeCall,
    added: Seq<Exchange>,
    result: Result<(), HackRFError>,
)
    requires
        performs(added, call, result),
    ensures
        added[0].call == call,
        result is Ok <==> added[0].reply.status == HACKRF_SUCCESS,
        result is Ok ==> added.len() == 1,
        result is Err ==> added.len() == 2 && added[1].call == (NativeCall::ErrorName {
            errcode: added[0].reply.status,
        }),
{
    if added[0].reply.status != HACKRF_SUCCESS {
        assert(added.skip(1)[0] == added[1]);
    }
}

/// An error made from a native status code carries that code unchanged, and
/// its text is the text the native library gave: not empty unless that was.
pub proof fn law_error_keeps_code(added: Seq<Exchange>, code: i32, error: HackRFError)
    requires
        names(added, code, error),
        added[0].reply.name@.len() > 0,
    ensures
        error@.errno == code,
        error@.errstr == added[0].reply.name@,
        error@.errstr.len() > 0,
{
}

/// An error that the library raises on its own carries one of the native
/// status codes, other than success, and a text that is not empty.
pub proof fn law_local_errors()
    ensures
        is_status_code(invalid_param_value().errno) && invalid_param_value().errstr.len() > 0,
        is_status_code(busy_value().errno) && busy_value().errstr.len() > 0,
        is_status_code(not_streaming_value().errno) && not_streaming_value().errstr.len() > 0,
        is_status_code(bad_version_value().errno) && bad_version_value().errstr.len() > 0,
        invalid_param_value().errno != HACKRF_SUCCESS,
        busy_value().errno != HACKRF_SUCCESS,
        not_streaming_value().errno != HACKRF_SUCCESS,
        bad_version_value().errno != HACKRF_SUCCESS,
{
    reveal_strlit("invalid parameter");
    reveal_strlit("stream already running");
    reveal_strlit("stream not running");
    reveal_strlit("version string is not valid UTF-8");
}

/// A direction carries one session at a time: once a start has succeeded, a
/// second start in the same direction is refused, whatever context it
/// brings. It changes nothing and does not reach the native library.
pub proof fn law_second_start_refused(
    direction: Direction,
    before: DeviceState,
    first: CallbackContext,
    between: DeviceState,
    first_added: Seq<Exchange>,
    first_result: Result<(), HackRFError>,
    second: CallbackContext,
    after: DeviceState,
    second_added: Seq<Exchange>,
    second_result: Result<(), HackRFError>,
)
    requires
        starts(before, direction, first, between, first_added, first_result),
        first_result is Ok,
        starts(between, direction, second, after, second_added, second_result),
    ensures
        between.slot(direction) == Some(first),
        second_result is Err,
        second.addr != 0 ==> fails_with(second_result, busy_value()),
        second_added.len() == 0,
        after == between,
{
    assert(start_refusal(before, direction, first) is None);
    assert(start_refusal(between, direction, second) is Some);
}

/// Stopping in a direction in which no session was started, or in which the
/// session has been stopped already, gives the not-streaming error. It
/// changes nothing and does not reach the native library. In particular this
/// holds of a handle that has just been opened.
pub proof fn law_stop_without_session(
    direction: Direction,
    before: DeviceState,
    after: DeviceState,
    added: Seq<Exchange>,
    result: Result<(), HackRFError>,
)
    requires
        before.slot(direction) is None,
        stops(before, direction, after, added, result),
    ensures
        fails_with(result, not_streaming_value()),
        added.len() == 0,
        after == before,
        DeviceState::fresh(before.ptr).slot(direction) is None,
{
}

/// A stop that reaches the native library ends the session whatever the
/// native library answers, so that the direction is free for the next start.
pub proof fn law_stop_frees_direction(
    direction: Direction,
    before: DeviceState,
    after: DeviceState,
    added: Seq<Exchange>,
    result: Result<(), HackRFError>,
    next: CallbackContext,
)
    requires
        before.slot(direction) is Some,
        stops(before, direction, after, added, result),
        next.addr != 0,
    ensures
        added.len() >= 1,
        after.slot(direction) is None,
        start_refusal(after, direction, next) is None,
{
}

/// Closing releases the resource exactly once: among the calls of a close
/// there is one native close, it is on the resource of the handle, and every
/// forced stop comes before it.
pub proof fn law_close_releases_once(
    state: DeviceState,
    added: Seq<Exchange>,
    result: Result<(), HackRFError>,
)
    requires
        closes(state, added, result),
    ensures
        forced_stops(state).len() < added.len(),
        added[forced_stops(state).len() as int].call == (NativeCall::Close { device: state.ptr }),
        forall|i: int|
            0 <= i < added.len() && i != forced_stops(state).len() ==> !((#[trigger] added[i]).call
                is Close),
{
    let k = forced_stops(state).len() as int;
    let rest = added.skip(k);
    assert(rest[0] == added[k]);
    assert forall|i: int| 0 <= i < added.len() && i != k implies !((#[trigger] added[i]).call
        is Close) by {
        if i < k {
            assert(added[i].call == forced_stops(state)[i]);
        } else {
            assert(rest.skip(1)[i - k - 1] == added[i]);
        }
    }
}

/// A delivery is answered with one of two codes: continue when the closure
/// asked for more, stop when it asked to stop or failed to decide. This holds
/// of each delivery by itself, however many came before it.
pub proof fn law_callback_codes(decision: Option<bool>)
    ensures
        callback_code(decision) == CALLBACK_CONTINUE || callback_code(decision) == CALLBACK_STOP,
        callback_code(decision) == CALLBACK_CONTINUE <==> decision == Some(true),
        CALLBACK_CONTINUE == 0,
        CALLBACK_STOP != 0,
{
}

/// The streaming query never reports an orderly end as an error, and reports
/// every status other than "streaming" and the two orderly ends as one.
pub proof fn law_streaming_states(status: i32)
    ensures
        streaming_state(status) == Some(true) <==> status == 1,
        streaming_state(status) == Some(false) <==> (status == -1003 || status == -1004),
        streaming_state(HACKRF_SUCCESS) is None,
{
}

} // verus!
