//! Lines of a serial adapter, scans and dumps behind it.

use robstride_sandbox::error::RobstrideError;
use robstride_sandbox::protocol::{build_can_id, CommType};
use robstride_sandbox::serial_can::{
    bitrate_to_slcan_code, dump_line, dump_report, read_line, LineReader, ScanStage, SerialCan,
    SlcanLine,
};

fn feed_all(reader: &mut LineReader, bytes: &[u8]) -> Vec<SlcanLine> {
    bytes.iter().map(|b| reader.feed(*b)).collect()
}

#[test]
fn test_parse_extended_frame() {
    // T030001FD80000000000000000
    let line = "T030001FD80000000000000000";
    let result = SerialCan::parse_slcan_frame(line);
    assert!(result.is_some());
    let (id, data) = result.unwrap();
    assert_eq!(id, 0x030001FD);
    assert_eq!(data.len(), 8);
    assert_eq!(data, vec![0, 0, 0, 0, 0, 0, 0, 0]);
}

#[test]
fn test_parse_standard_frame() {
    let line = "t0014DEADBEEF";
    let result = SerialCan::parse_slcan_frame(line);
    assert!(result.is_some());
    let (id, data) = result.unwrap();
    assert_eq!(id, 0x001);
    assert_eq!(data, vec![0xDE, 0xAD, 0xBE, 0xEF]);
}

#[test]
fn test_bitrate_codes() {
    assert_eq!(bitrate_to_slcan_code(1_000_000), Some(8));
    assert_eq!(bitrate_to_slcan_code(500_000), Some(6));
    assert_eq!(bitrate_to_slcan_code(999), None);
}

#[test]
fn every_bitrate_has_its_code() {
    let rates = [10_000, 20_000, 50_000, 100_000, 125_000, 250_000, 500_000, 800_000, 1_000_000];
    for (code, rate) in rates.into_iter().enumerate() {
        assert_eq!(bitrate_to_slcan_code(rate), Some(code as u8));
    }
    assert_eq!(SerialCan::speed_cmd(250_000).unwrap(), "S5\r");
    match SerialCan::speed_cmd(83_333) {
        Err(RobstrideError::SerialPort(text)) => {
            assert_eq!(text, "Unsupported CAN bitrate: 83333")
        }
        other => panic!("unexpected: {:?}", other),
    }
}

#[test]
fn commands_end_with_a_carriage_return() {
    assert_eq!(SerialCan::slcan_cmd("O"), "O\r");
    assert_eq!(SerialCan::slcan_cmd(""), "\r");
    assert_eq!(SerialCan::close(), "C\r");
}

#[test]
fn frames_are_written_in_hexadecimal() {
    assert_eq!(SerialCan::send_frame(0x0300_FD01, &[]), "T0300FD010\r");
    assert_eq!(SerialCan::send_frame(0xAB, &[0xDE, 0x0A]), "T000000AB2DE0A\r");
    // Ten bytes are cut to eight.
    assert_eq!(
        SerialCan::send_frame(1, &[1, 2, 3, 4, 5, 6, 7, 8, 9, 10]),
        "T0000000180102030405060708\r"
    );
}

#[test]
fn what_is_written_is_read_back() {
    let message = SerialCan::send_frame(0x0300_FD01, &[0xDE, 0xAD, 0x00]);
    let mut reader = LineReader::new();
    let mut lines = feed_all(&mut reader, message.as_bytes());
    match lines.pop() {
        Some(SlcanLine::Frame(id, data)) => {
            assert_eq!(id, 0x0300_FD01);
            assert_eq!(data, vec![0xDE, 0xAD, 0x00]);
        }
        other => panic!("unexpected: {:?}", other),
    }
    assert!(lines.iter().all(|l| matches!(l, SlcanLine::Nothing)));
    // The reader begins a new line.
    let again = feed_all(&mut reader, message.as_bytes());
    assert!(matches!(again.last(), Some(SlcanLine::Frame(0x0300_FD01, _))));
}

#[test]
fn lines_that_hold_no_frame() {
    for line in ["", "T", "z", "T0300FD01", "t001", "T0300FD0G0", "T0300FD01x", "t0012AB", "t0011XY"] {
        assert!(SerialCan::parse_slcan_frame(line).is_none(), "{}", line);
    }
    // What follows the payload is ignored.
    assert_eq!(SerialCan::parse_slcan_frame("t0011AB99"), Some((1, vec![0xAB])));
    // A number may begin with a plus sign.
    assert_eq!(SerialCan::parse_slcan_frame("t+011+A"), Some((1, vec![0x0A])));
    // The length is a digit, nine included.
    assert_eq!(
        SerialCan::parse_slcan_frame("t0019010203040506070809"),
        Some((1, vec![1, 2, 3, 4, 5, 6, 7, 8, 9]))
    );
}

#[test]
fn a_field_that_ends_inside_a_character_is_torn() {
    assert!(matches!(read_line("t00éé0".as_bytes()), SlcanLine::Torn));
    assert!(matches!(read_line("t001é0".as_bytes()), SlcanLine::Nothing));
    assert!(matches!(read_line("t0012AéB".as_bytes()), SlcanLine::Torn));
}

#[test]
fn ascii_lines_are_never_torn() {
    for c in 0..128u8 {
        for head in ["T0300FD01", "t001", "t0012A", "T0300FD0128"] {
            let mut line = head.as_bytes().to_vec();
            line.extend([c, c, c]);
            assert!(!matches!(read_line(&line), SlcanLine::Torn));
        }
    }
}

#[test]
fn bells_and_line_feeds() {
    let mut reader = LineReader::new();
    let lines = feed_all(&mut reader, b"\x07\r\nt0011AB\r");
    assert!(matches!(lines.last(), Some(SlcanLine::Frame(1, _))));
    // Bytes that are no UTF-8 are replaced, which takes no frame out of the line after them.
    let lines = feed_all(&mut reader, b"\xFFt0011AB\r");
    assert!(matches!(lines.last(), Some(SlcanLine::Nothing)));
    let lines = feed_all(&mut reader, b"t0011AB\r");
    assert!(matches!(lines.last(), Some(SlcanLine::Frame(1, _))));
}

#[test]
fn invalid_bytes_behind_a_frame_do_not_matter() {
    let mut reader = LineReader::new();
    let lines = feed_all(&mut reader, b"t0011AB\xFF\xFE\r");
    match lines.last() {
        Some(SlcanLine::Frame(id, data)) => {
            assert_eq!(*id, 1);
            assert_eq!(data, &vec![0xAB]);
        }
        other => panic!("unexpected: {:?}", other),
    }
}

#[test]
fn a_scan_asks_twice_and_disables_what_it_enabled() {
    let status = |id: u8| (build_can_id(CommType::OperationStatus, id as u16, id), vec![0u8; 8]);
    let mut scan = SerialCan::scan(0xFD, 1, 3);
    assert_eq!(scan.wait_ms(100), 100);

    // Motor 1 answers the ping.
    assert_eq!(scan.request().unwrap(), (0x0000_FD01, vec![0; 8]));
    scan.answer(true, Some(status(1)));

    // Motor 2 answers only when it is enabled, and is disabled again.
    assert_eq!(scan.request().unwrap().0, 0x0000_FD02);
    scan.answer(true, None);
    assert_eq!(scan.stage, ScanStage::Enable);
    assert_eq!(scan.request().unwrap(), (0x0300_FD02, vec![0; 8]));
    scan.answer(true, Some((build_can_id(CommType::GetDeviceId, 0, 2), vec![])));
    assert_eq!(scan.request().unwrap().0, 0x0400_FD02);
    assert_eq!(scan.wait_ms(100), 20);
    scan.answer(true, None);

    // Motor 3: the answer of another motor is none, and a request that cannot be sent ends it.
    scan.answer(true, Some(status(9)));
    scan.answer(false, None);
    assert!(scan.request().is_none());

    let ids: Vec<u8> = scan.found.iter().map(|f| f.0).collect();
    assert_eq!(ids, vec![1, 2]);
    assert_eq!(scan.found[0].1.unwrap().motor_id, 1);
    assert!(scan.found[1].1.is_none());
}

#[test]
fn a_scan_knows_a_motor_by_the_extra_data() {
    // The motor answers the host, with its own ID in the extra data.
    let status = |id: u8| {
        (build_can_id(CommType::OperationStatus, 0x8000 + id as u16, 0xFD), vec![0u8; 8])
    };
    let mut scan = SerialCan::scan(0xFD, 1, 2);
    scan.answer(true, Some(status(1)));
    assert_eq!(scan.request().unwrap().0, 0x0000_FD02);
    scan.answer(true, Some(status(1)));
    assert_eq!(scan.request().unwrap().0, 0x0300_FD02);
    scan.answer(true, Some(status(2)));
    assert_eq!(scan.request().unwrap().0, 0x0400_FD02);
    scan.answer(true, None);
    assert!(scan.request().is_none());
    let found: Vec<(u8, u8)> = scan.found.iter().map(|f| (f.0, f.1.unwrap().motor_id)).collect();
    assert_eq!(found, vec![(1, 1), (2, 2)]);
}

#[test]
fn a_scan_goes_on_where_a_ping_cannot_be_sent() {
    let mut scan = SerialCan::scan(0xFD, 254, 255);
    scan.answer(false, None);
    assert_eq!(scan.request().unwrap().0, 0x0000_FDFF);
    scan.answer(false, None);
    assert!(scan.request().is_none());
    assert!(scan.found.is_empty());
    assert!(SerialCan::scan(0xFD, 2, 1).request().is_none());
}

#[test]
fn a_scan_makes_at_most_three_requests_per_motor() {
    let mut scan = SerialCan::scan(0xFD, 1, 4);
    let mut requests = 0;
    while let Some((_, _)) = scan.request() {
        let id = scan.ids[scan.at];
        let reply = if scan.stage == ScanStage::Ping {
            None
        } else {
            Some((build_can_id(CommType::Enable, 0, id), vec![]))
        };
        scan.answer(true, reply);
        requests += 1;
    }
    assert_eq!(requests, 12);
    assert_eq!(scan.found.len(), 4);
}

#[test]
fn dumps_show_bytes_and_characters() {
    assert_eq!(dump_line(b"t\r~\x7F"), "  [74 0D 7E 7F]  |t.~.|");
    assert_eq!(dump_line(b""), "  []  ||");
}

#[test]
fn dump_reports() {
    let (lines, text) = dump_report(b"");
    assert_eq!(lines[0], "\n  No data received from serial port.");
    assert_eq!(lines.len(), 5);
    assert!(!text);
    let (lines, text) = dump_report(b"t0011AB\r");
    assert_eq!(lines[0], "\n  Total: 8 bytes received");
    assert_eq!(lines[1], "  Format: Looks like ASCII (possibly SLCAN compatible)");
    assert!(text);
    let (lines, text) = dump_report(&[0x41, 0x80]);
    assert_eq!(lines[1], "  Format: Binary data (NOT SLCAN - custom protocol)");
    assert_eq!(lines.len(), 3);
    assert!(!text);
}
