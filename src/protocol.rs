use vstd::prelude::*;
use crate::brightness::{
    device_nits_of_percent, nits_to_percent, percent_of_nits, percent_to_nits, MAX_BRIGHTNESS,
    MIN_BRIGHTNESS,
};
use crate::error::BrightnessError;
use crate::report::{
    decode_report, encode_report, lemma_report_round_trip, report_brightness,
    report_bytes, ReportLayout, REPORT_ID, REPORT_LEN,
};

verus! {

/// Interface of the display that carries the brightness report.
pub const INTERFACE_NUMBER: u16 = 7;

/// HID class request GET_REPORT.
pub const HID_GET_REPORT: u8 = 0x01;

/// HID class request SET_REPORT.
pub const HID_SET_REPORT: u8 = 0x09;

/// HID report type of a feature report.
pub const FEATURE_REPORT_TYPE: u16 = 0x03;

/// Request type: device to host, class request, interface recipient.
pub const REQUEST_TYPE_IN: u8 = 0xA1;

/// Request type: host to device, class request, interface recipient.
pub const REQUEST_TYPE_OUT: u8 = 0x21;

/// Time a transfer may take before it counts as failed.
pub const TRANSFER_TIMEOUT_MS: u32 = 1000;

/// `wValue` of the brightness report: report type high, report ID low.
pub const REPORT_VALUE: u16 = FEATURE_REPORT_TYPE * 256 + REPORT_ID as u16;

/// Which way a control transfer moves its data.
#[derive(Debug, Clone, Copy, PartialEq, Eq, Structural)]
pub enum Direction {
    In,
    Out,
}

/// One control transfer of the brightness feature report.
#[derive(Debug)]
pub struct FeatureTransfer {
    pub direction: Direction,
    /// `bmRequestType`.
    pub request_type: u8,
    /// `bRequest`.
    pub request: u8,
    /// `wValue`.
    pub value: u16,
    /// `wIndex`.
    pub index: u16,
    pub timeout_ms: u32,
    /// The report sent, or the buffer that receives it.
    pub data: Vec<u8>,
}

/// `t` addresses the brightness report of the display's interface.
pub open spec fn addresses_report(t: FeatureTransfer) -> bool {
    &&& t.value == 0x0301
    &&& t.index == INTERFACE_NUMBER
    &&& t.timeout_ms == TRANSFER_TIMEOUT_MS
}

/// `t` reads the brightness report into a zeroed buffer of `layout`.
pub open spec fn is_read_of(t: FeatureTransfer, layout: ReportLayout) -> bool {
    &&& addresses_report(t)
    &&& t.direction == Direction::In
    &&& t.request_type == REQUEST_TYPE_IN
    &&& t.request == HID_GET_REPORT
    &&& t.data@ == report_bytes(layout, 0)
}

/// `t` writes the report that carries `nits` in `layout`.
pub open spec fn is_write_of(t: FeatureTransfer, layout: ReportLayout, nits: nat) -> bool {
    &&& addresses_report(t)
    &&& t.direction == Direction::Out
    &&& t.request_type == REQUEST_TYPE_OUT
    &&& t.request == HID_SET_REPORT
    &&& t.data@ == report_bytes(layout, nits)
}

/// What reading the brightness gives for the bytes that the device returned.
pub open spec fn brightness_result(layout: ReportLayout, response: Seq<u8>) -> Result<u32, BrightnessError> {
    if response.len() != REPORT_LEN {
        Err(BrightnessError::UnexpectedResponseSize { expected: REPORT_LEN, actual: response.len() as usize })
    } else {
        Ok(report_brightness(layout, response) as u32)
    }
}

/// What reading the brightness as a percent gives for the bytes returned.
pub open spec fn brightness_percent_result(layout: ReportLayout, response: Seq<u8>) -> Result<u8, BrightnessError> {
    match brightness_result(layout, response) {
        Ok(nits) => Ok(percent_of_nits(nits as int) as u8),
        Err(e) => Err(e),
    }
}

/// The transfer that reads the current brightness.
pub fn get_brightness_request(layout: ReportLayout) -> (t: FeatureTransfer)
    ensures
        is_read_of(t, layout),
{
    FeatureTransfer {
        direction: Direction::In,
        request_type: REQUEST_TYPE_IN,
        request: HID_GET_REPORT,
        value: REPORT_VALUE,
        index: INTERFACE_NUMBER,
        timeout_ms: TRANSFER_TIMEOUT_MS,
        data: encode_report(layout, 0),
    }
}

/// Decodes the brightness, in nits, from the bytes that the read transfer
/// returned; a report of another length is refused.
pub fn get_brightness(layout: ReportLayout, response: &Vec<u8>) -> (r: Result<u32, BrightnessError>)
    ensures
        r == brightness_result(layout, response@),
{
    if response.len() != REPORT_LEN {
        return Err(BrightnessError::UnexpectedResponseSize { expected: REPORT_LEN, actual: response.len() });
    }
    Ok(decode_report(layout, response))
}

/// Decodes the brightness as a percent from the bytes that the read transfer
/// returned.
pub fn get_brightness_percent(layout: ReportLayout, response: &Vec<u8>) -> (r: Result<u8, BrightnessError>)
    ensures
        r == brightness_percent_result(layout, response@),
        r matches Ok(p) ==> p <= 100,
{
    match get_brightness(layout, response) {
        Ok(nits) => Ok(nits_to_percent(nits)),
        Err(e) => Err(e),
    }
}

/// The transfer that writes `nits`, a value in the device's range, to the
/// device.
pub fn set_brightness(layout: ReportLayout, nits: u32) -> (t: FeatureTransfer)
    requires
        MIN_BRIGHTNESS <= nits <= MAX_BRIGHTNESS,
    ensures
        is_write_of(t, layout, nits as nat),
{
    FeatureTransfer {
        direction: Direction::Out,
        request_type: REQUEST_TYPE_OUT,
        request: HID_SET_REPORT,
        value: REPORT_VALUE,
        index: INTERFACE_NUMBER,
        timeout_ms: TRANSFER_TIMEOUT_MS,
        data: encode_report(layout, nits),
    }
}

/// The transfer that writes `percent` to the device, as nits clamped to the
/// device's range.
pub fn set_brightness_percent(layout: ReportLayout, percent: u8) -> (t: FeatureTransfer)
    ensures
        is_write_of(t, layout, device_nits_of_percent(percent as int) as nat),
{
    let nits = percent_to_nits(percent);
    set_brightness(layout, nits)
}

/// Whatever percent is asked for, the value that reaches the device lies in
/// its range, and reading back the written report gives that value.
pub proof fn lemma_written_brightness_in_range(layout: ReportLayout, percent: u8, t: FeatureTransfer)
    requires
        is_write_of(t, layout, device_nits_of_percent(percent as int) as nat),
    ensures
        brightness_result(layout, t.data@) matches Ok(n) && MIN_BRIGHTNESS <= n <= MAX_BRIGHTNESS
            && n == device_nits_of_percent(percent as int),
{
    let nits = device_nits_of_percent(percent as int);
    lemma_report_round_trip(layout, nits as nat);
}

} // verus!
