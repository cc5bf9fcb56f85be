//! Error values, and the one place where a native status code becomes one.
//!
//! Every status of the native library passes through [`check_status`] (or
//! [`hackrf_error`] directly) before a caller sees it: a caller never receives
//! a bare status code. The text of an error that the native library reported
//! is the text the native library itself gives for the code. An error that
//! this library raises on its own, before any native call, carries one of the
//! native codes and a text of the library's own.

use vstd::prelude::*;

use crate::native::{
    Exchange, Native, NativeCall, NativeReply, HACKRF_ERROR_BUSY, HACKRF_ERROR_INVALID_PARAM,
    HACKRF_ERROR_OTHER, HACKRF_ERROR_STREAMING_STOPPED, HACKRF_SUCCESS,
};
use crate::text::{push_signed_decimal, signed_decimal};

verus! {

/// A failed operation: the native status code and a description of it.
#[derive(Clone, Debug, PartialEq, Eq)]
pub struct HackRFError {
    pub errno: i32,
    pub errstr: String,
}

/// An error value as contracts see it: the code and the characters of the text.
pub struct ErrorValue {
    pub errno: int,
    pub errstr: Seq<char>,
}

impl View for HackRFError {
    type V = ErrorValue;

    open spec fn view(&self) -> ErrorValue {
        ErrorValue { errno: self.errno as int, errstr: self.errstr@ }
    }
}

/// Whether `added` is the one exchange that asks the native library for the
/// text of `code`, and `error` is made of the code itself and that text.
pub open spec fn names(added: Seq<Exchange>, code: i32, error: HackRFError) -> bool {
    &&& added.len() == 1
    &&& added[0].call == NativeCall::ErrorName { errcode: code }
    &&& error.errno == code
    &&& error.errstr@ == added[0].reply.name@
}

/// Whether `result` is the failure that the native library reported with
/// `status`, and `added` the exchange that fetched its text.
pub open spec fn fails<T>(
    added: Seq<Exchange>,
    status: i32,
    result: Result<T, HackRFError>,
) -> bool {
    match result {
        Ok(_) => false,
        Err(error) => names(added, status, error),
    }
}

/// Whether `result` is the outcome of an operation whose native call returned
/// `status`, and `added` what it took to find out: nothing and success for
/// the success code, else the failure for that code.
pub open spec fn settles(
    added: Seq<Exchange>,
    status: i32,
    result: Result<(), HackRFError>,
) -> bool {
    if status == HACKRF_SUCCESS {
        added.len() == 0 && result is Ok
    } else {
        fails(added, status, result)
    }
}

/// Whether `result` is the failure with the error `value`.
pub open spec fn fails_with<T>(result: Result<T, HackRFError>, value: ErrorValue) -> bool {
    match result {
        Ok(_) => false,
        Err(error) => error@ == value,
    }
}

/// The error raised for an argument outside its documented range.
pub open spec fn invalid_param_value() -> ErrorValue {
    ErrorValue { errno: HACKRF_ERROR_INVALID_PARAM as int, errstr: "invalid parameter"@ }
}

/// The error raised when a direction already has a running stream.
pub open spec fn busy_value() -> ErrorValue {
    ErrorValue { errno: HACKRF_ERROR_BUSY as int, errstr: "stream already running"@ }
}

/// The error raised when a stream is stopped that is not running.
pub open spec fn not_streaming_value() -> ErrorValue {
    ErrorValue { errno: HACKRF_ERROR_STREAMING_STOPPED as int, errstr: "stream not running"@ }
}

/// The error raised when the firmware version is not valid UTF-8.
pub open spec fn bad_version_value() -> ErrorValue {
    ErrorValue { errno: HACKRF_ERROR_OTHER as int, errstr: "version string is not valid UTF-8"@ }
}

/// The message of an error: a fixed prefix, the text, and the code in
/// parentheses.
pub open spec fn message(error: ErrorValue) -> Seq<char> {
    "HackRF error: "@ + error.errstr + " ("@ + signed_decimal(error.errno) + ")"@
}

impl HackRFError {
    /// Renders this error for a reader.
    pub fn to_string(&self) -> (text: String)
        ensures
            text@ == message(self@),
    {
        let mut text = String::from_str("HackRF error: ");
        text.append(self.errstr.as_str());
        text.append(" (");
        push_signed_decimal(&mut text, self.errno);
        text.append(")");
        text
    }

    /// The error for an argument outside its documented range. No native call
    /// is involved in making it.
    pub fn invalid_param() -> (error: HackRFError)
        ensures
            error@ == invalid_param_value(),
    {
        HackRFError {
            errno: HACKRF_ERROR_INVALID_PARAM,
            errstr: String::from_str("invalid parameter"),
        }
    }

    /// The error for starting a stream in a direction that already has one.
    pub fn busy() -> (error: HackRFError)
        ensures
            error@ == busy_value(),
    {
        HackRFError { errno: HACKRF_ERROR_BUSY, errstr: String::from_str("stream already running") }
    }

    /// The error for stopping a stream in a direction that has none.
    pub fn not_streaming() -> (error: HackRFError)
        ensures
            error@ == not_streaming_value(),
    {
        HackRFError {
            errno: HACKRF_ERROR_STREAMING_STOPPED,
            errstr: String::from_str("stream not running"),
        }
    }

    /// The error for a firmware version that cannot be read as text.
    pub fn bad_version() -> (error: HackRFError)
        ensures
            error@ == bad_version_value(),
    {
        HackRFError {
            errno: HACKRF_ERROR_OTHER,
            errstr: String::from_str("version string is not valid UTF-8"),
        }
    }
}

/// Builds the error for the native status code `err`: asks the native library
/// for the text of the code and keeps the code as it is.
pub fn hackrf_error<N: Fn(NativeCall) -> NativeReply>(
    native: &mut Native<N>,
    err: i32,
) -> (error: HackRFError)
    ensures
        final(native).continues(old(native)),
        names(final(native).since(old(native)), err, error),
{
    let reply = native.call(NativeCall::ErrorName { errcode: err });
    HackRFError { errno: err, errstr: reply.name }
}

/// Turns the status code of a native call into the outcome of the operation.
/// Success asks nothing of the native library.
pub fn check_status<N: Fn(NativeCall) -> NativeReply>(
    native: &mut Native<N>,
    status: i32,
) -> (result: Result<(), HackRFError>)
    ensures
        final(native).continues(old(native)),
        settles(final(native).since(old(native)), status, result),
{
    if status == HACKRF_SUCCESS {
        proof {
            native.lemma_continues_self();
        }
        Ok(())
    } else {
        Err(hackrf_error(native, status))
    }
}

/// Whether `added` and `result` are what an operation leaves that consists
/// of the one native call `call`: the call itself, first, and then what it
/// takes to turn its status into the outcome.
pub open spec fn performs(
    added: Seq<Exchange>,
    call: NativeCall,
    result: Result<(), HackRFError>,
) -> bool {
    &&& added.len() >= 1
    &&& added[0].call == call
    &&& settles(added.skip(1), added[0].reply.status, result)
}

/// Makes one native call and reads its status.
pub(crate) fn perform<N: Fn(NativeCall) -> NativeReply>(
    native: &mut Native<N>,
    call: NativeCall,
) -> (result: Result<(), HackRFError>)
    ensures
        final(native).continues(old(native)),
        performs(final(native).since(old(native)), call, result),
{
    let reply = native.call(call);
    let ghost called = *native;
    let result = check_status(native, reply.status);
    proof {
        native.lemma_continues_chain(old(native), &called);
        assert(native.since(old(native)).skip(1) == native.since(&called));
    }
    result
}

} // verus!
