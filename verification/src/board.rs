//! Reading what the radio says of itself: its board id, the version of its
//! firmware, its part id and serial number.

use vstd::prelude::*;
use vstd::utf8::{decode_utf8, valid_utf8};

use crate::device::HackRFDevice;
use crate::error::{bad_version_value, fails, fails_with, hackrf_error, HackRFError};
use crate::native::{hackrf_device, Exchange, Native, NativeCall, NativeReply, HACKRF_SUCCESS};

verus! {

/// Size of the buffer, in bytes, that the radio fills with its firmware
/// version.
pub const VERSION_STRING_LENGTH: u8 = 127;

/// `String::from_utf8` of the standard library, with the error dropped: the
/// text that `bytes` encode if they are well-formed UTF-8, and nothing if they
/// are not.
#[verifier::external_body]
fn string_from_utf8(bytes: Vec<u8>) -> (text: Option<String>)
    ensures
        text is Some <==> valid_utf8(bytes@),
        text matches Some(s) ==> s@ == decode_utf8(bytes@),
{
    match String::from_utf8(bytes) {
        Ok(text) => Some(text),
        Err(_) => None,
    }
}

/// Whether `result` is what the version buffer `bytes` reads as: the text it
/// encodes, all of it, or the bad-version error if it encodes none.
pub open spec fn version_reads(bytes: Seq<u8>, result: Result<String, HackRFError>) -> bool {
    match result {
        Ok(text) => valid_utf8(bytes) && text@ == decode_utf8(bytes),
        Err(error) => !valid_utf8(bytes) && fails_with(result, bad_version_value()),
    }
}

/// Reads the buffer that the radio filled with its firmware version as text.
/// The whole buffer counts, whatever follows the version in it.
pub fn version_text(bytes: Vec<u8>) -> (result: Result<String, HackRFError>)
    ensures
        version_reads(bytes@, result),
{
    match string_from_utf8(bytes) {
        Some(text) => Ok(text),
        None => Err(HackRFError::bad_version()),
    }
}

/// Whether `added` and `result` are what reading the board id of `device`
/// leaves: the read, and then either the question for the name of the id that
/// was read and the two together, or the failure that the read reported.
pub open spec fn reads_board_id(
    device: hackrf_device,
    added: Seq<Exchange>,
    result: Result<(u8, String), HackRFError>,
) -> bool {
    &&& added.len() >= 1
    &&& added[0].call == NativeCall::BoardIdRead { device }
    &&& if added[0].reply.status == HACKRF_SUCCESS {
        &&& added.len() == 2
        &&& added[1].call == NativeCall::BoardIdName { board_id: added[0].reply.board_id }
        &&& result is Ok
        &&& result->Ok_0.0 == added[0].reply.board_id
        &&& result->Ok_0.1@ == added[1].reply.name@
    } else {
        fails(added.skip(1), added[0].reply.status, result)
    }
}

/// Whether `added` and `result` are what reading the firmware version of
/// `device` leaves: the read into a buffer of the full size, and then either
/// what the buffer reads as or the failure that the read reported.
pub open spec fn reads_version(
    device: hackrf_device,
    added: Seq<Exchange>,
    result: Result<String, HackRFError>,
) -> bool {
    &&& added.len() >= 1
    &&& added[0].call == NativeCall::VersionStringRead { device, length: VERSION_STRING_LENGTH }
    &&& if added[0].reply.status == HACKRF_SUCCESS {
        added.len() == 1 && version_reads(added[0].reply.version@, result)
    } else {
        fails(added.skip(1), added[0].reply.status, result)
    }
}

/// Whether `added` and `result` are what reading part id and serial number of
/// `device` leaves: the read, and then either the two as they were read or
/// the failure that the read reported.
pub open spec fn reads_ids(
    device: hackrf_device,
    added: Seq<Exchange>,
    result: Result<([u32; 2], [u32; 4]), HackRFError>,
) -> bool {
    &&& added.len() >= 1
    &&& added[0].call == NativeCall::BoardPartidSerialnoRead { device }
    &&& if added[0].reply.status == HACKRF_SUCCESS {
        &&& added.len() == 1
        &&& result is Ok
        &&& result->Ok_0.0 == added[0].reply.ids.part_id
        &&& result->Ok_0.1 == added[0].reply.ids.serial_no
    } else {
        fails(added.skip(1), added[0].reply.status, result)
    }
}

/// Reads the board id: the number, and the name the native library has for
/// it. This names the product, not the single radio.
pub fn board_id_read<N: Fn(NativeCall) -> NativeReply>(
    native: &mut Native<N>,
    device: &mut HackRFDevice,
) -> (result: Result<(u8, String), HackRFError>)
    ensures
        final(device)@ == old(device)@,
        final(native).continues(old(native)),
        reads_board_id(old(device)@.ptr, final(native).since(old(native)), result),
{
    let reply = native.call(NativeCall::BoardIdRead { device: device.ptr() });
    let ghost called = *native;
    if reply.status == HACKRF_SUCCESS {
        let id: u8 = reply.board_id;
        let name = native.call(NativeCall::BoardIdName { board_id: id });
        proof {
            native.lemma_continues_chain(old(native), &called);
        }
        Ok((id, name.name))
    } else {
        let error = hackrf_error(native, reply.status);
        proof {
            native.lemma_continues_chain(old(native), &called);
            assert(native.since(old(native)).skip(1) == native.since(&called));
        }
        Err(error)
    }
}

/// Reads the version of the radio's firmware.
pub fn version_string_read<N: Fn(NativeCall) -> NativeReply>(
    native: &mut Native<N>,
    device: &mut HackRFDevice,
) -> (result: Result<String, HackRFError>)
    ensures
        final(device)@ == old(device)@,
        final(native).continues(old(native)),
        reads_version(old(device)@.ptr, final(native).since(old(native)), result),
{
    let call = NativeCall::VersionStringRead {
        device: device.ptr(),
        length: VERSION_STRING_LENGTH,
    };
    let reply = native.call(call);
    if reply.status == HACKRF_SUCCESS {
        version_text(reply.version)
    } else {
        let ghost called = *native;
        let error = hackrf_error(native, reply.status);
        proof {
            native.lemma_continues_chain(old(native), &called);
            assert(native.since(old(native)).skip(1) == native.since(&called));
        }
        Err(error)
    }
}

/// Reads the part id and the serial number of the radio.
pub fn board_partid_serialno_read<N: Fn(NativeCall) -> NativeReply>(
    native: &mut Native<N>,
    device: &mut HackRFDevice,
) -> (result: Result<([u32; 2], [u32; 4]), HackRFError>)
    ensures
        final(device)@ == old(device)@,
        final(native).continues(old(native)),
        reads_ids(old(device)@.ptr, final(native).since(old(native)), result),
{
    let reply = native.call(NativeCall::BoardPartidSerialnoRead { device: device.ptr() });
    if reply.status == HACKRF_SUCCESS {
        Ok((reply.ids.part_id, reply.ids.serial_no))
    } else {
        let ghost called = *native;
        let error = hackrf_error(native, reply.status);
        proof {
            native.lemma_continues_chain(old(native), &called);
            assert(native.since(old(native)).skip(1) == native.since(&called));
        }
        Err(error)
    }
}

} // verus!
