//! The configuration surface: one setter per tunable of the radio.
//!
//! A setter checks its argument against the documented range first. What is
//! out of range is refused on the spot, with the invalid-parameter error and
//! without a native call. What is in range goes to the native library exactly
//! as given, in native units, and the status that comes back decides the
//! outcome. No setter changes what the handle holds.

use vstd::prelude::*;

use crate::device::HackRFDevice;
use crate::error::{
    fails_with, invalid_param_value, perform, performs, ErrorValue, HackRFError,
};
use crate::native::{
    Exchange, Native, NativeCall, NativeReply, RealHz, RF_PATH_FILTER_BYPASS,
    RF_PATH_FILTER_HIGH_PASS, RF_PATH_FILTER_LOW_PASS,
};

verus! {

/// Largest gain of the low-noise amplifier, in dB. The radio steps it by 8.
pub const LNA_GAIN_MAX: u32 = 40;

/// Largest gain of the receive variable-gain amplifier, in dB. The radio
/// steps it by 2.
pub const VGA_GAIN_MAX: u32 = 62;

/// Largest gain of the transmit variable-gain amplifier, in dB. The radio
/// steps it by 1.
pub const TXVGA_GAIN_MAX: u32 = 47;

/// Which filter sits in the radio-frequency path.
#[derive(Clone, Copy, Debug, PartialEq, Eq)]
pub enum RFPathFilter {
    Bypass,
    LowPass,
    HighPass,
}

impl RFPathFilter {
    /// The number by which the native library knows this filter.
    pub open spec fn code(self) -> u32 {
        match self {
            RFPathFilter::Bypass => RF_PATH_FILTER_BYPASS,
            RFPathFilter::LowPass => RF_PATH_FILTER_LOW_PASS,
            RFPathFilter::HighPass => RF_PATH_FILTER_HIGH_PASS,
        }
    }

    /// The number by which the native library knows this filter.
    pub fn native_code(self) -> (code: u32)
        ensures
            code == self.code(),
    {
        match self {
            RFPathFilter::Bypass => RF_PATH_FILTER_BYPASS,
            RFPathFilter::LowPass => RF_PATH_FILTER_LOW_PASS,
            RFPathFilter::HighPass => RF_PATH_FILTER_HIGH_PASS,
        }
    }
}

/// Whether `added` and `result` are what a setter leaves: nothing and the
/// refusal if there is one, else what the native call leaves.
pub open spec fn sets(
    refusal: Option<ErrorValue>,
    call: NativeCall,
    added: Seq<Exchange>,
    result: Result<(), HackRFError>,
) -> bool {
    match refusal {
        Some(value) => added.len() == 0 && fails_with(result, value),
        None => performs(added, call, result),
    }
}

/// Why a gain is refused, if it is: it exceeds the largest gain of its stage.
pub open spec fn gain_refusal(gain: u32, max: u32) -> Option<ErrorValue> {
    if gain > max {
        Some(invalid_param_value())
    } else {
        None
    }
}

/// Why a bandwidth is refused, if it is: the native library takes 32 bits.
pub open spec fn bandwidth_refusal(bandwidth_hz: usize) -> Option<ErrorValue> {
    if bandwidth_hz > u32::MAX {
        Some(invalid_param_value())
    } else {
        None
    }
}

/// Why a fractional sample rate is refused, if it is: neither the frequency
/// nor the divider may be zero.
pub open spec fn sample_rate_refusal(freq_hz: u32, divider: u32) -> Option<ErrorValue> {
    if freq_hz == 0 || divider == 0 {
        Some(invalid_param_value())
    } else {
        None
    }
}

/// The bit pattern of positive infinity: every pattern below it, down to the
/// pattern of zero, is that of a finite number that is not negative.
pub const REAL_INFINITY_BITS: u64 = 0x7FF0_0000_0000_0000;

/// Whether `rate` is a positive, finite number.
pub open spec fn is_positive_rate(rate: RealHz) -> bool {
    0 < rate.bits < REAL_INFINITY_BITS
}

/// Why a real-valued sample rate is refused, if it is: it is zero, negative,
/// infinite or no number at all.
pub open spec fn real_rate_refusal(rate: RealHz) -> Option<ErrorValue> {
    if is_positive_rate(rate) {
        None
    } else {
        Some(invalid_param_value())
    }
}

/// What the native library receives for a switch.
pub open spec fn switch_value(on: bool) -> u8 {
    if on {
        1
    } else {
        0
    }
}

/// Sets the bandwidth of the baseband filter, in Hz.
pub fn set_baseband_filter_bandwidth<N: Fn(NativeCall) -> NativeReply>(
    native: &mut Native<N>,
    device: &mut HackRFDevice,
    bandwidth_hz: usize,
) -> (result: Result<(), HackRFError>)
    ensures
        final(device)@ == old(device)@,
        final(native).continues(old(native)),
        sets(
            bandwidth_refusal(bandwidth_hz),
            NativeCall::SetBasebandFilterBandwidth {
                device: old(device)@.ptr,
                bandwidth_hz: bandwidth_hz as u32,
            },
            final(native).since(old(native)),
            result,
        ),
{
    if bandwidth_hz > 0xFFFF_FFFF {
        proof {
            native.lemma_continues_self();
        }
        return Err(HackRFError::invalid_param());
    }
    perform(
        native,
        NativeCall::SetBasebandFilterBandwidth {
            device: device.ptr(),
            bandwidth_hz: bandwidth_hz as u32,
        },
    )
}

/// Tunes the radio to `freq_hz`. Every frequency is passed on.
pub fn set_freq<N: Fn(NativeCall) -> NativeReply>(
    native: &mut Native<N>,
    device: &mut HackRFDevice,
    freq_hz: u64,
) -> (result: Result<(), HackRFError>)
    ensures
        final(device)@ == old(device)@,
        final(native).continues(old(native)),
        performs(
            final(native).since(old(native)),
            NativeCall::SetFreq { device: old(device)@.ptr, freq_hz },
            result,
        ),
{
    perform(native, NativeCall::SetFreq { device: device.ptr(), freq_hz })
}

/// Tunes the radio by intermediate frequency, local oscillator frequency and
/// filter path, each given on its own.
pub fn set_freq_explicit<N: Fn(NativeCall) -> NativeReply>(
    native: &mut Native<N>,
    device: &mut HackRFDevice,
    if_freq_hz: u64,
    lo_freq_hz: u64,
    path: RFPathFilter,
) -> (result: Result<(), HackRFError>)
    ensures
        final(device)@ == old(device)@,
        final(native).continues(old(native)),
        performs(
            final(native).since(old(native)),
            NativeCall::SetFreqExplicit {
                device: old(device)@.ptr,
                if_freq_hz,
                lo_freq_hz,
                path: path.code(),
            },
            result,
        ),
{
    let c_path: u32 = path.native_code();
    perform(
        native,
        NativeCall::SetFreqExplicit { device: device.ptr(), if_freq_hz, lo_freq_hz, path: c_path },
    )
}

/// Sets the sample rate to `freq_hz / divider`. The radio prefers 8, 10,
/// 12.5, 16 and 20 MHz.
pub fn set_sample_rate_manual<N: Fn(NativeCall) -> NativeReply>(
    native: &mut Native<N>,
    device: &mut HackRFDevice,
    freq_hz: u32,
    divider: u32,
) -> (result: Result<(), HackRFError>)
    ensures
        final(device)@ == old(device)@,
        final(native).continues(old(native)),
        sets(
            sample_rate_refusal(freq_hz, divider),
            NativeCall::SetSampleRateManual {
                device: old(device)@.ptr,
                numerator_hz: freq_hz,
                divider,
            },
            final(native).since(old(native)),
            result,
        ),
{
    if freq_hz == 0 || divider == 0 {
        proof {
            native.lemma_continues_self();
        }
        return Err(HackRFError::invalid_param());
    }
    perform(
        native,
        NativeCall::SetSampleRateManual { device: device.ptr(), numerator_hz: freq_hz, divider },
    )
}

/// Sets the sample rate to `freq_hz`, a real number of Hz. The radio prefers
/// 8, 10, 12.5, 16 and 20 MHz.
pub fn set_sample_rate<N: Fn(NativeCall) -> NativeReply>(
    native: &mut Native<N>,
    device: &mut HackRFDevice,
    freq_hz: RealHz,
) -> (result: Result<(), HackRFError>)
    ensures
        final(device)@ == old(device)@,
        final(native).continues(old(native)),
        sets(
            real_rate_refusal(freq_hz),
            NativeCall::SetSampleRate { device: old(device)@.ptr, rate: freq_hz },
            final(native).since(old(native)),
            result,
        ),
{
    if freq_hz.bits == 0 || freq_hz.bits >= REAL_INFINITY_BITS {
        proof {
            native.lemma_continues_self();
        }
        return Err(HackRFError::invalid_param());
    }
    perform(native, NativeCall::SetSampleRate { device: device.ptr(), rate: freq_hz })
}

/// Switches the external amplifier on or off.
pub fn set_amp_enable<N: Fn(NativeCall) -> NativeReply>(
    native: &mut Native<N>,
    device: &mut HackRFDevice,
    on: bool,
) -> (result: Result<(), HackRFError>)
    ensures
        final(device)@ == old(device)@,
        final(native).continues(old(native)),
        performs(
            final(native).since(old(native)),
            NativeCall::SetAmpEnable { device: old(device)@.ptr, enable: switch_value(on) },
            result,
        ),
{
    let value: u8 = if on {
        1
    } else {
        0
    };
    perform(native, NativeCall::SetAmpEnable { device: device.ptr(), enable: value })
}

/// Sets the gain of the low-noise amplifier: 0 to 40 dB.
pub fn set_lna_gain<N: Fn(NativeCall) -> NativeReply>(
    native: &mut Native<N>,
    device: &mut HackRFDevice,
    gain: u32,
) -> (result: Result<(), HackRFError>)
    ensures
        final(device)@ == old(device)@,
        final(native).continues(old(native)),
        sets(
            gain_refusal(gain, LNA_GAIN_MAX),
            NativeCall::SetLnaGain { device: old(device)@.ptr, value: gain },
            final(native).since(old(native)),
            result,
        ),
{
    if gain > LNA_GAIN_MAX {
        proof {
            native.lemma_continues_self();
        }
        return Err(HackRFError::invalid_param());
    }
    perform(native, NativeCall::SetLnaGain { device: device.ptr(), value: gain })
}

/// Sets the gain of the receive variable-gain amplifier: 0 to 62 dB.
pub fn set_vga_gain<N: Fn(NativeCall) -> NativeReply>(
    native: &mut Native<N>,
    device: &mut HackRFDevice,
    gain: u32,
) -> (result: Result<(), HackRFError>)
    ensures
        final(device)@ == old(device)@,
        final(native).continues(old(native)),
        sets(
            gain_refusal(gain, VGA_GAIN_MAX),
            NativeCall::SetVgaGain { device: old(device)@.ptr, value: gain },
            final(native).since(old(native)),
            result,
        ),
{
    if gain > VGA_GAIN_MAX {
        proof {
            native.lemma_continues_self();
        }
        return Err(HackRFError::invalid_param());
    }
    perform(native, NativeCall::SetVgaGain { device: device.ptr(), value: gain })
}

/// Sets the gain of the transmit variable-gain amplifier: 0 to 47 dB.
pub fn set_txvga_gain<N: Fn(NativeCall) -> NativeReply>(
    native: &mut Native<N>,
    device: &mut HackRFDevice,
    gain: u32,
) -> (result: Result<(), HackRFError>)
    ensures
        final(device)@ == old(device)@,
        final(native).continues(old(native)),
        sets(
            gain_refusal(gain, TXVGA_GAIN_MAX),
            NativeCall::SetTxvgaGain { device: old(device)@.ptr, value: gain },
            final(native).since(old(native)),
            result,
        ),
{
    if gain > TXVGA_GAIN_MAX {
        proof {
            native.lemma_continues_self();
        }
        return Err(HackRFError::invalid_param());
    }
    perform(native, NativeCall::SetTxvgaGain { device: device.ptr(), value: gain })
}

/// Switches the power on the antenna port on or off.
pub fn set_antenna_enable<N: Fn(NativeCall) -> NativeReply>(
    native: &mut Native<N>,
    device: &mut HackRFDevice,
    on: bool,
) -> (result: Result<(), HackRFError>)
    ensures
        final(device)@ == old(device)@,
        final(native).continues(old(native)),
        performs(
            final(native).since(old(native)),
            NativeCall::SetAntennaEnable { device: old(device)@.ptr, enable: switch_value(on) },
            result,
        ),
{
    let value: u8 = if on {
        1
    } else {
        0
    };
    perform(native, NativeCall::SetAntennaEnable { device: device.ptr(), enable: value })
}

/// Whether `added` is the one exchange `call` and `bandwidth` the bandwidth
/// it was answered with.
pub open spec fn computes(added: Seq<Exchange>, call: NativeCall, bandwidth: u32) -> bool {
    &&& added.len() == 1
    &&& added[0].call == call
    &&& added[0].reply.bandwidth == bandwidth
}

/// The supported filter bandwidth next below `bandwidth_hz`, as the native
/// library computes it. No radio is involved and nothing can fail.
pub fn compute_baseband_filter_bw_round_down_lt<N: Fn(NativeCall) -> NativeReply>(
    native: &mut Native<N>,
    bandwidth_hz: u32,
) -> (bandwidth: u32)
    ensures
        final(native).continues(old(native)),
        computes(
            final(native).since(old(native)),
            NativeCall::ComputeBasebandFilterBwRoundDownLt { bandwidth_hz },
            bandwidth,
        ),
{
    let reply = native.call(NativeCall::ComputeBasebandFilterBwRoundDownLt { bandwidth_hz });
    reply.bandwidth
}

/// The filter bandwidth the native library recommends for `bandwidth_hz`. No
/// radio is involved and nothing can fail.
pub fn compute_baseband_filter_bw<N: Fn(NativeCall) -> NativeReply>(
    native: &mut Native<N>,
    bandwidth_hz: u32,
) -> (bandwidth: u32)
    ensures
        final(native).continues(old(native)),
        computes(
            final(native).since(old(native)),
            NativeCall::ComputeBasebandFilterBw { bandwidth_hz },
            bandwidth,
        ),
{
    let reply = native.call(NativeCall::ComputeBasebandFilterBw { bandwidth_hz });
    reply.bandwidth
}

} // verus!
