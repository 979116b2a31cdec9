//! Frames of both kinds, built and taken apart with the socketcan crate.

use robstride_sandbox::transport::{
    raw_id_of, read_any, read_classic, rx_from_any, rx_from_classic, rx_from_fd, Address, CanBus,
    EitherFrame, RxFrame,
};
use socketcan::{CanAnyFrame, CanFdFrame, CanFrame, EmbeddedFrame, ExtendedId, Frame};

fn classic(frame: EitherFrame) -> CanFrame {
    match frame {
        EitherFrame::Classic(f) => f,
        EitherFrame::Fd(_) => panic!("a classic frame was expected"),
    }
}

fn flexible(frame: EitherFrame) -> CanFdFrame {
    match frame {
        EitherFrame::Fd(f) => f,
        EitherFrame::Classic(_) => panic!("a flexible data rate frame was expected"),
    }
}

fn check(rx: &RxFrame, extended: bool, raw_id: u32, data: &[u8]) {
    assert_eq!(rx.extended, extended);
    assert_eq!(rx.raw_id, raw_id);
    assert_eq!(rx.data, data);
}

#[test]
fn a_bus_is_of_the_kind_asked_for() {
    assert_eq!(CanBus::open(false), CanBus::Classic);
    assert_eq!(CanBus::open(true), CanBus::Fd);
    assert!(!CanBus::Classic.is_fd());
    assert!(CanBus::Fd.is_fd());
}

#[test]
fn classic_frames_come_back_as_they_were_built() {
    let frame = classic(CanBus::Classic.write_extended(0x1FFF_FFFF, &[1, 2, 3]));
    assert!(frame.is_extended());
    assert!(matches!(frame, CanFrame::Data(_)));
    assert_eq!(frame.raw_id(), 0x1FFF_FFFF);
    assert_eq!(frame.data(), &[1, 2, 3]);
    check(&rx_from_classic(&frame), true, 0x1FFF_FFFF, &[1, 2, 3]);
    check(&read_classic(&frame).unwrap(), true, 0x1FFF_FFFF, &[1, 2, 3]);

    let frame = classic(CanBus::Classic.write_standard(0x7FF, &[9; 8]));
    assert!(!frame.is_extended());
    check(&rx_from_classic(&frame), false, 0x7FF, &[9; 8]);

    let frame = classic(CanBus::Classic.write_id(Address::Standard(1), &[]));
    check(&read_classic(&frame).unwrap(), false, 1, &[]);
}

#[test]
fn an_extended_identifier_may_be_small() {
    let frame = classic(CanBus::Classic.write_id(Address::Extended(1), &[]));
    check(&rx_from_classic(&frame), true, 1, &[]);
    assert_eq!(raw_id_of(Address::Extended(1)), 1);
    assert_eq!(raw_id_of(Address::Standard(0x7FF)), 0x7FF);
}

#[test]
fn flexible_frames_ask_for_the_rate_switch() {
    let frame = flexible(CanBus::Fd.write_extended(0x0300_FD01, &[1, 2, 3, 4, 5, 6, 7, 8]));
    assert!(frame.is_brs());
    check(&rx_from_fd(&frame), true, 0x0300_FD01, &[1, 2, 3, 4, 5, 6, 7, 8]);
    let frame = flexible(CanBus::Fd.write_standard(0x123, &[7]));
    assert!(frame.is_brs());
    check(&rx_from_fd(&frame), false, 0x123, &[7]);
}

#[test]
fn long_flexible_payloads_are_filled_up() {
    let frame = flexible(CanBus::Fd.write_extended(5, &[0xAA; 9]));
    let rx = rx_from_fd(&frame);
    assert_eq!(rx.data.len(), 12);
    assert_eq!(&rx.data[..9], &[0xAA; 9]);
    assert_eq!(&rx.data[9..], &[0, 0, 0]);
    let frame = flexible(CanBus::Fd.write_extended(5, &[0xAA; 64]));
    assert_eq!(rx_from_fd(&frame).data, vec![0xAA; 64]);
    let frame = flexible(CanBus::Fd.write_extended(5, &[0xAA; 33]));
    assert_eq!(rx_from_fd(&frame).data.len(), 48);
}

#[test]
fn a_flexible_socket_reads_both_kinds() {
    let data = classic(CanBus::Classic.write_extended(0x0200_05FD, &[1, 2]));
    let any = CanAnyFrame::from(data);
    check(&rx_from_any(&any), true, 0x0200_05FD, &[1, 2]);
    check(&read_any(&any).unwrap(), true, 0x0200_05FD, &[1, 2]);

    let fd = flexible(CanBus::Fd.write_extended(0x0200_05FD, &[3, 4]));
    let any = CanAnyFrame::from(fd);
    check(&rx_from_any(&any), true, 0x0200_05FD, &[3, 4]);
    check(&read_any(&any).unwrap(), true, 0x0200_05FD, &[3, 4]);

    let remote = CanFrame::new_remote(ExtendedId::new(0x77).unwrap(), 4).unwrap();
    let any = CanAnyFrame::from(remote);
    let rx = rx_from_any(&any);
    assert!(rx.extended);
    assert_eq!(rx.raw_id, 0x77);
    assert_eq!(rx.data, remote.data());
    check(&read_any(&any).unwrap(), true, 0x77, &[]);
    check(&read_classic(&remote).unwrap(), true, 0x77, &[]);
}
