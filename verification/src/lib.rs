#![allow(non_camel_case_types)]

pub mod board;
pub mod config;
pub mod device;
pub mod error;
pub mod laws;
pub mod native;
pub mod stream;
pub mod text;

pub use crate::board::{
    board_id_read, board_partid_serialno_read, version_string_read, version_text,
    VERSION_STRING_LENGTH,
};
pub use crate::config::{
    compute_baseband_filter_bw, compute_baseband_filter_bw_round_down_lt, set_amp_enable,
    set_antenna_enable, set_baseband_filter_bandwidth, set_freq, set_freq_explicit, set_lna_gain,
    set_sample_rate, set_sample_rate_manual, set_txvga_gain, set_vga_gain, RFPathFilter,
    LNA_GAIN_MAX, TXVGA_GAIN_MAX, VGA_GAIN_MAX,
};
pub use crate::device::{
    close, exit, init, open, CallbackContext, Direction, HackRFDevice, StreamingSession,
};
pub use crate::error::{check_status, hackrf_error, HackRFError};
pub use crate::native::{
    hackrf_device, hackrf_transfer, read_partid_serialno_t, Native, NativeCall, NativeReply,
    RealHz,
    BOARD_ID_HACKRF_ONE, BOARD_ID_INVALID, BOARD_ID_JAWBREAKER, BOARD_ID_JELLYBEAN,
    HACKRF_ERROR_BUSY, HACKRF_ERROR_INVALID_PARAM, HACKRF_ERROR_LIBUSB, HACKRF_ERROR_NOT_FOUND,
    HACKRF_ERROR_NO_MEM, HACKRF_ERROR_OTHER, HACKRF_ERROR_STREAMING_EXIT_CALLED,
    HACKRF_ERROR_STREAMING_STOPPED, HACKRF_ERROR_STREAMING_THREAD_ERR, HACKRF_ERROR_THREAD,
    HACKRF_SUCCESS, HACKRF_TRUE, RF_PATH_FILTER_BYPASS, RF_PATH_FILTER_HIGH_PASS,
    RF_PATH_FILTER_LOW_PASS,
};
pub use crate::stream::{
    buffer_capacity, callback_status, delivery_context, is_streaming, rx_cb, start, start_rx,
    start_tx, stop, stop_rx, stop_tx, streaming_status, tx_cb, Callback, CALLBACK_CONTINUE,
    CALLBACK_STOP,
};
