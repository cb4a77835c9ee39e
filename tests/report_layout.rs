use asdbctl::error::BrightnessError;
use asdbctl::protocol::{
    get_brightness, get_brightness_percent, get_brightness_request, set_brightness,
    set_brightness_percent, Direction,
};
use asdbctl::report::{decode_report, encode_report, ReportLayout, REPORT_LEN};

#[test]
fn wide_report_layout() {
    assert_eq!(encode_report(ReportLayout::Wide, 36160), vec![1, 0x40, 0x8D, 0, 0, 0, 0]);
    assert_eq!(
        encode_report(ReportLayout::Wide, 0x1234_5678),
        vec![1, 0x78, 0x56, 0x34, 0x12, 0, 0]
    );
    assert_eq!(ReportLayout::Wide.brightness_width(), 4);
}

#[test]
fn narrow_report_layout() {
    assert_eq!(encode_report(ReportLayout::Narrow, 60000), vec![1, 0x60, 0xEA, 0, 0, 0, 0]);
    assert_eq!(encode_report(ReportLayout::Narrow, 400), vec![1, 0x90, 0x01, 0, 0, 0, 0]);
    assert_eq!(ReportLayout::Narrow.brightness_width(), 2);
}

#[test]
fn report_round_trip_both_layouts() {
    for nits in [0u32, 1, 255, 256, 400, 30200, 36160, 60000, 65535] {
        for layout in [ReportLayout::Narrow, ReportLayout::Wide] {
            let report = encode_report(layout, nits);
            assert_eq!(report.len(), REPORT_LEN);
            assert_eq!(decode_report(layout, &report), nits);
        }
    }
    for nits in [65536u32, 0x0102_0304, u32::MAX] {
        let report = encode_report(ReportLayout::Wide, nits);
        assert_eq!(decode_report(ReportLayout::Wide, &report), nits);
    }
}

#[test]
fn decode_ignores_reserved_bytes() {
    let report = vec![1, 0x60, 0xEA, 0x77, 0x00, 0x55, 0x66];
    assert_eq!(decode_report(ReportLayout::Narrow, &report), 60000);
    assert_eq!(decode_report(ReportLayout::Wide, &report), 0x0077_EA60);
}

#[test]
fn read_request_is_a_zeroed_report() {
    let t = get_brightness_request(ReportLayout::Wide);
    assert_eq!(t.direction, Direction::In);
    assert_eq!(t.request_type, 0xA1);
    assert_eq!(t.request, 0x01);
    assert_eq!(t.value, 0x0301);
    assert_eq!(t.index, 7);
    assert_eq!(t.timeout_ms, 1000);
    assert_eq!(t.data, vec![1, 0, 0, 0, 0, 0, 0]);
}

#[test]
fn short_response_is_unexpected_size() {
    let response = vec![1, 0x78, 0x75, 0, 0];
    assert_eq!(
        get_brightness(ReportLayout::Wide, &response),
        Err(BrightnessError::UnexpectedResponseSize { expected: 7, actual: 5 })
    );
    assert_eq!(
        get_brightness_percent(ReportLayout::Wide, &response),
        Err(BrightnessError::UnexpectedResponseSize { expected: 7, actual: 5 })
    );
    assert_eq!(
        get_brightness(ReportLayout::Narrow, &vec![]),
        Err(BrightnessError::UnexpectedResponseSize { expected: 7, actual: 0 })
    );
}

#[test]
fn long_response_is_unexpected_size() {
    let response = vec![1, 0xF8, 0x75, 0, 0, 0, 0, 0];
    assert_eq!(
        get_brightness(ReportLayout::Wide, &response),
        Err(BrightnessError::UnexpectedResponseSize { expected: 7, actual: 8 })
    );
}

#[test]
fn brightness_is_read_from_response() {
    let response = vec![1, 0xF8, 0x75, 0, 0, 0, 0];
    assert_eq!(get_brightness(ReportLayout::Wide, &response), Ok(30200));
    assert_eq!(get_brightness_percent(ReportLayout::Wide, &response), Ok(50));
    assert_eq!(get_brightness(ReportLayout::Narrow, &response), Ok(30200));
}

#[test]
fn write_transfer_addresses_the_report() {
    let t = set_brightness(ReportLayout::Wide, 36160);
    assert_eq!(t.direction, Direction::Out);
    assert_eq!(t.request_type, 0x21);
    assert_eq!(t.request, 0x09);
    assert_eq!(t.value, 0x0301);
    assert_eq!(t.index, 7);
    assert_eq!(t.timeout_ms, 1000);
    assert_eq!(t.data, vec![1, 0x40, 0x8D, 0, 0, 0, 0]);
}

#[test]
fn set_percent_writes_stay_in_range() {
    for layout in [ReportLayout::Narrow, ReportLayout::Wide] {
        for p in [0u8, 1, 50, 99, 100, 101, 200, 255] {
            let t = set_brightness_percent(layout, p);
            let nits = decode_report(layout, &t.data);
            assert!((400..=60000).contains(&nits));
        }
        assert_eq!(decode_report(layout, &set_brightness_percent(layout, 0).data), 400);
        assert_eq!(decode_report(layout, &set_brightness_percent(layout, 100).data), 60000);
        assert_eq!(decode_report(layout, &set_brightness_percent(layout, 255).data), 60000);
    }
}
