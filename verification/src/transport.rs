//! CAN frames, classic and flexible data rate.
//!
//! A command is a payload of eight bytes and an identifier of 11 or 29 bits. Whether
//! it rides on a classic CAN frame or on a CAN FD frame is a matter of transport: this module
//! builds either kind, and reduces what arrives to an [`RxFrame`].
//!
//! CAN FD frames are built with the bit rate switch on, so that the data phase runs at the
//! interface's data bit rate.

use socketcan::{CanAnyFrame, CanFdFrame, CanFrame, EmbeddedFrame, ExtendedId, Frame, Id, StandardId};
use vstd::prelude::*;

verus! {

/// Where a frame is addressed to.
#[derive(Debug, Clone, Copy, PartialEq, Eq, Structural)]
pub enum Address {
    /// An 11-bit identifier.
    Standard(u16),
    /// A 29-bit identifier.
    Extended(u32),
}

impl Address {
    /// Whether the identifier fits its width.
    pub open spec fn fits(self) -> bool {
        match self {
            Address::Standard(raw) => raw <= 0x7FF,
            Address::Extended(raw) => raw <= 0x1FFF_FFFF,
        }
    }

    /// The identifier without its width.
    pub open spec fn raw(self) -> u32 {
        match self {
            Address::Standard(raw) => raw as u32,
            Address::Extended(raw) => raw,
        }
    }
}

/// A received frame: all that its reader needs to know.
#[derive(Debug)]
pub struct RxFrame {
    /// True if the frame used a 29-bit extended identifier.
    pub extended: bool,
    /// The identifier (11 bits for standard, 29 bits for extended frames).
    pub raw_id: u32,
    /// Payload bytes (at most 8 for classic CAN, at most 64 for CAN FD).
    pub data: Vec<u8>,
}

// ---------------------------------------------------------------------------
// Frames of the socketcan crate
// ---------------------------------------------------------------------------

/// A classic frame of the socketcan crate.
#[verifier::external_type_specification]
#[verifier::external_body]
pub struct ExCanFrame(CanFrame);

/// A flexible data rate frame of the socketcan crate.
#[verifier::external_type_specification]
#[verifier::external_body]
pub struct ExCanFdFrame(CanFdFrame);

/// What a flexible data rate socket reads: a frame of either kind.
#[verifier::external_type_specification]
#[verifier::external_body]
pub struct ExCanAnyFrame(CanAnyFrame);

/// The address that a classic frame holds.
pub uninterp spec fn classic_address(frame: CanFrame) -> Address;

/// The payload length that a classic frame states.
pub uninterp spec fn classic_len(frame: CanFrame) -> nat;

/// The payload that a classic frame holds.
pub uninterp spec fn classic_payload(frame: CanFrame) -> Seq<u8>;

/// What a classic frame is for.
#[derive(Debug, Clone, Copy, PartialEq, Eq, Structural)]
pub enum ClassicKind {
    Data,
    /// A request for data, which holds none.
    Remote,
    Error,
}

/// What a given classic frame is for.
pub uninterp spec fn classic_kind(frame: CanFrame) -> ClassicKind;

/// The address that a flexible data rate frame holds.
pub uninterp spec fn fd_address(frame: CanFdFrame) -> Address;

/// The payload length that a flexible data rate frame states.
pub uninterp spec fn fd_len(frame: CanFdFrame) -> nat;

/// The payload that a flexible data rate frame holds.
pub uninterp spec fn fd_payload(frame: CanFdFrame) -> Seq<u8>;

/// Whether a flexible data rate frame asks for the bit rate switch.
pub uninterp spec fn fd_rate_switch(frame: CanFdFrame) -> bool;

/// A frame of either kind, told apart.
#[derive(Debug)]
pub enum EitherFrame {
    Classic(CanFrame),
    Fd(CanFdFrame),
}

/// Which kind of frame a flexible data rate socket has read.
pub uninterp spec fn kind_of(frame: CanAnyFrame) -> EitherFrame;

/// The payload length that a flexible data rate frame needs for `n` bytes: up to eight bytes
/// as they are, more of them rounded up to the next length that CAN FD has.
pub open spec fn fd_room(n: nat) -> nat {
    if n <= 8 {
        n
    } else if n <= 12 {
        12
    } else if n <= 16 {
        16
    } else if n <= 20 {
        20
    } else if n <= 24 {
        24
    } else if n <= 32 {
        32
    } else if n <= 48 {
        48
    } else {
        64
    }
}

/// The payload filled up with zero bytes to a length that CAN FD has.
pub open spec fn fd_filled(data: Seq<u8>) -> Seq<u8> {
    data + Seq::new((fd_room(data.len()) - data.len()) as nat, |i: int| 0u8)
}

/// `CanFrame::new`, with the identifier checked by `StandardId::new` or `ExtendedId::new`:
/// there is a frame exactly if the identifier fits its width and the payload has at most
/// eight bytes. It is a data frame that holds that identifier and that payload.
#[verifier::external_body]
fn new_classic(address: Address, data: &[u8]) -> (frame: Option<CanFrame>)
    ensures
        match frame {
            Some(f) => address.fits() && data@.len() <= 8 && classic_kind(f) == ClassicKind::Data
                && classic_address(f) == address && classic_len(f) == data@.len()
                && classic_payload(f) == data@,
            None => !address.fits() || data@.len() > 8,
        },
{
    match address {
        Address::Standard(raw) => CanFrame::new(Id::Standard(StandardId::new(raw)?), data),
        Address::Extended(raw) => CanFrame::new(Id::Extended(ExtendedId::new(raw)?), data),
    }
}

/// `CanFdFrame::new`, with the identifier checked by `StandardId::new` or `ExtendedId::new`:
/// there is a frame exactly if the identifier fits its width and the payload has at most 64
/// bytes. The frame holds that identifier and the payload, filled up with zero bytes, and
/// does not ask for the bit rate switch.
#[verifier::external_body]
fn new_fd(address: Address, data: &[u8]) -> (frame: Option<CanFdFrame>)
    ensures
        match frame {
            Some(f) => address.fits() && data@.len() <= 64 && fd_address(f) == address
                && fd_len(f) == fd_room(data@.len()) && fd_payload(f) == fd_filled(data@)
                && !fd_rate_switch(f),
            None => !address.fits() || data@.len() > 64,
        },
{
    match address {
        Address::Standard(raw) => CanFdFrame::new(Id::Standard(StandardId::new(raw)?), data),
        Address::Extended(raw) => CanFdFrame::new(Id::Extended(ExtendedId::new(raw)?), data),
    }
}

/// `CanFdFrame::set_brs`: asks for the bit rate switch or not, and leaves the rest alone.
#[verifier::external_body]
fn set_rate_switch(frame: &mut CanFdFrame, on: bool)
    ensures
        fd_rate_switch(*final(frame)) == on,
        fd_address(*final(frame)) == fd_address(*old(frame)),
        fd_len(*final(frame)) == fd_len(*old(frame)),
        fd_payload(*final(frame)) == fd_payload(*old(frame)),
{
    frame.set_brs(on)
}

/// `CanFrame::is_extended`: whether the frame is addressed by a 29-bit identifier.
#[verifier::external_body]
fn classic_is_extended(frame: &CanFrame) -> (extended: bool)
    ensures
        extended == (classic_address(*frame) is Extended),
{
    frame.is_extended()
}

/// `CanFrame::id`: the identifier, with its width.
#[verifier::external_body]
fn classic_id(frame: &CanFrame) -> (address: Address)
    ensures
        address == classic_address(*frame),
        address.fits(),
{
    match frame.id() {
        Id::Standard(id) => Address::Standard(id.as_raw()),
        Id::Extended(id) => Address::Extended(id.as_raw()),
    }
}

/// `CanFrame::dlc`: the payload length that the frame states.
#[verifier::external_body]
fn classic_dlc(frame: &CanFrame) -> (len: usize)
    ensures
        len == classic_len(*frame),
{
    frame.dlc()
}

/// Tells the variants of `CanFrame` apart.
#[verifier::external_body]
fn split_classic(frame: &CanFrame) -> (kind: ClassicKind)
    ensures
        kind == classic_kind(*frame),
{
    match frame {
        CanFrame::Data(_) => ClassicKind::Data,
        CanFrame::Remote(_) => ClassicKind::Remote,
        CanFrame::Error(_) => ClassicKind::Error,
    }
}

/// `CanFrame::data`: the payload. The length that a data frame states has to be one that it
/// has room for. A remote frame has no payload, whatever length it states.
#[verifier::external_body]
fn classic_data(frame: &CanFrame) -> (data: Vec<u8>)
    requires
        classic_kind(*frame) == ClassicKind::Data ==> classic_len(*frame) <= 8,
    ensures
        data@ == classic_payload(*frame),
        data@.len() <= 8,
        classic_kind(*frame) == ClassicKind::Remote ==> data@.len() == 0,
{
    frame.data().to_vec()
}

/// `CanFdFrame::is_extended`: whether the frame is addressed by a 29-bit identifier.
#[verifier::external_body]
fn fd_is_extended(frame: &CanFdFrame) -> (extended: bool)
    ensures
        extended == (fd_address(*frame) is Extended),
{
    frame.is_extended()
}

/// `CanFdFrame::id`: the identifier, with its width.
#[verifier::external_body]
fn fd_id(frame: &CanFdFrame) -> (address: Address)
    ensures
        address == fd_address(*frame),
        address.fits(),
{
    match frame.id() {
        Id::Standard(id) => Address::Standard(id.as_raw()),
        Id::Extended(id) => Address::Extended(id.as_raw()),
    }
}

/// `CanFdFrame::len`: the payload length that the frame states.
#[verifier::external_body]
fn fd_stated_len(frame: &CanFdFrame) -> (len: usize)
    ensures
        len == fd_len(*frame),
{
    frame.len()
}

/// `CanFdFrame::data`: the payload. The length that the frame states has to be one that a
/// flexible data rate frame has room for.
#[verifier::external_body]
fn fd_data(frame: &CanFdFrame) -> (data: Vec<u8>)
    requires
        fd_len(*frame) <= 64,
    ensures
        data@ == fd_payload(*frame),
        data@.len() <= 64,
{
    frame.data().to_vec()
}

/// Tells the variants of `CanAnyFrame` apart: data, remote and error frames are classic
/// frames, the rest are flexible data rate frames.
#[verifier::external_body]
fn split_kind(frame: &CanAnyFrame) -> (kind: EitherFrame)
    ensures
        kind == kind_of(*frame),
{
    match frame {
        CanAnyFrame::Normal(f) => EitherFrame::Classic(CanFrame::Data(*f)),
        CanAnyFrame::Remote(f) => EitherFrame::Classic(CanFrame::Remote(*f)),
        CanAnyFrame::Error(f) => EitherFrame::Classic(CanFrame::Error(*f)),
        CanAnyFrame::Fd(f) => EitherFrame::Fd(*f),
    }
}

// ---------------------------------------------------------------------------
// Sending
// ---------------------------------------------------------------------------

impl EitherFrame {
    /// The address that the frame holds.
    pub open spec fn address(self) -> Address {
        match self {
            EitherFrame::Classic(frame) => classic_address(frame),
            EitherFrame::Fd(frame) => fd_address(frame),
        }
    }

    /// The payload that the frame holds.
    pub open spec fn payload(self) -> Seq<u8> {
        match self {
            EitherFrame::Classic(frame) => classic_payload(frame),
            EitherFrame::Fd(frame) => fd_payload(frame),
        }
    }

    /// Whether the payload can be read: the length that a classic data frame or a flexible
    /// data rate frame states is one that it has room for.
    pub open spec fn intact(self) -> bool {
        match self {
            EitherFrame::Classic(frame) => classic_kind(frame) == ClassicKind::Data
                ==> classic_len(frame) <= 8,
            EitherFrame::Fd(frame) => fd_len(frame) <= 64,
        }
    }

    /// Whether a payload of `n` bytes can come from the frame: a classic frame holds at most
    /// eight and a remote frame none, a flexible data rate frame at most 64.
    pub open spec fn may_hold(self, n: nat) -> bool {
        match self {
            EitherFrame::Classic(frame) => n <= 8 && (classic_kind(frame) == ClassicKind::Remote
                ==> n == 0),
            EitherFrame::Fd(_) => n <= 64,
        }
    }
}

/// The kind of transport: classic CAN or CAN FD.
#[derive(Debug, Clone, Copy, PartialEq, Eq, Structural)]
pub enum CanBus {
    /// Classic CAN 2.0 (payloads of at most 8 bytes).
    Classic,
    /// CAN FD (payloads of at most 64 bytes, sent with the bit rate switch on).
    Fd,
}

impl CanBus {
    /// The longest payload that a frame of this kind takes.
    pub open spec fn room(self) -> nat {
        match self {
            CanBus::Classic => 8,
            CanBus::Fd => 64,
        }
    }

    /// Whether `frame` is what this kind of transport makes of an address and a payload.
    pub open spec fn carries(self, frame: EitherFrame, address: Address, data: Seq<u8>) -> bool {
        &&& frame.address() == address
        &&& frame.intact()
        &&& match self {
            CanBus::Classic => frame matches EitherFrame::Classic(f) && classic_kind(f)
                == ClassicKind::Data && frame.payload() == data,
            CanBus::Fd => frame matches EitherFrame::Fd(f) && frame.payload() == fd_filled(data)
                && fd_rate_switch(f),
        }
    }

    /// Picks the kind of transport.
    pub fn open(fd: bool) -> (bus: CanBus)
        ensures
            bus == (if fd {
                CanBus::Fd
            } else {
                CanBus::Classic
            }),
    {
        if fd {
            CanBus::Fd
        } else {
            CanBus::Classic
        }
    }

    /// Whether this transport is CAN FD.
    pub fn is_fd(&self) -> (fd: bool)
        ensures
            fd == (*self is Fd),
    {
        match self {
            CanBus::Classic => false,
            CanBus::Fd => true,
        }
    }

    /// Builds a frame addressed by a 29-bit identifier.
    pub fn write_extended(&self, can_id: u32, data: &[u8]) -> (frame: EitherFrame)
        requires
            can_id <= 0x1FFF_FFFF,
            data@.len() <= self.room(),
        ensures
            self.carries(frame, Address::Extended(can_id), data@),
    {
        self.write_id(Address::Extended(can_id), data)
    }

    /// Builds a frame addressed by an 11-bit identifier.
    pub fn write_standard(&self, std_id: u16, data: &[u8]) -> (frame: EitherFrame)
        requires
            std_id <= 0x7FF,
            data@.len() <= self.room(),
        ensures
            self.carries(frame, Address::Standard(std_id), data@),
    {
        self.write_id(Address::Standard(std_id), data)
    }

    /// Builds the kind of frame that this transport sends.
    pub fn write_id(&self, address: Address, data: &[u8]) -> (frame: EitherFrame)
        requires
            address.fits(),
            data@.len() <= self.room(),
        ensures
            self.carries(frame, address, data@),
    {
        match self {
            CanBus::Classic => {
                let made = new_classic(address, data);
                assert(made is Some);
                EitherFrame::Classic(made.unwrap())
            },
            CanBus::Fd => {
                let made = new_fd(address, data);
                assert(made is Some);
                let mut frame = made.unwrap();
                set_rate_switch(&mut frame, true);
                EitherFrame::Fd(frame)
            },
        }
    }
}

// ---------------------------------------------------------------------------
// Receiving
// ---------------------------------------------------------------------------

impl RxFrame {
    /// Whether this is what a reader needs to know of a frame.
    pub open spec fn tells(self, frame: EitherFrame) -> bool {
        &&& self.extended == (frame.address() is Extended)
        &&& self.raw_id == frame.address().raw()
        &&& self.data@ == frame.payload()
    }
}

/// The identifier of an address, without its width.
pub fn raw_id_of(address: Address) -> (raw: u32)
    ensures
        raw == address.raw(),
{
    match address {
        Address::Standard(raw) => raw as u32,
        Address::Extended(raw) => raw,
    }
}

/// Reduces a classic frame to what its reader needs.
pub fn rx_from_classic(frame: &CanFrame) -> (rx: RxFrame)
    requires
        EitherFrame::Classic(*frame).intact(),
    ensures
        rx.tells(EitherFrame::Classic(*frame)),
        rx.data@.len() <= 8,
        EitherFrame::Classic(*frame).may_hold(rx.data@.len()),
{
    RxFrame {
        extended: classic_is_extended(frame),
        raw_id: raw_id_of(classic_id(frame)),
        data: classic_data(frame),
    }
}

/// Reduces a flexible data rate frame to what its reader needs.
pub fn rx_from_fd(frame: &CanFdFrame) -> (rx: RxFrame)
    requires
        fd_len(*frame) <= 64,
    ensures
        rx.tells(EitherFrame::Fd(*frame)),
        rx.data@.len() <= 64,
{
    RxFrame {
        extended: fd_is_extended(frame),
        raw_id: raw_id_of(fd_id(frame)),
        data: fd_data(frame),
    }
}

/// Reduces a frame of either kind to what its reader needs.
pub fn rx_from_any(frame: &CanAnyFrame) -> (rx: RxFrame)
    requires
        kind_of(*frame).intact(),
    ensures
        rx.tells(kind_of(*frame)),
        rx.data@.len() <= 64,
        kind_of(*frame).may_hold(rx.data@.len()),
{
    match split_kind(frame) {
        EitherFrame::Classic(f) => rx_from_classic(&f),
        EitherFrame::Fd(f) => rx_from_fd(&f),
    }
}

/// Whether the payload of a classic frame can be read.
fn classic_intact(frame: &CanFrame) -> (intact: bool)
    ensures
        intact == EitherFrame::Classic(*frame).intact(),
{
    match split_classic(frame) {
        ClassicKind::Data => classic_dlc(frame) <= 8,
        _ => true,
    }
}

/// Reduces a classic frame to what its reader needs, unless it is a data frame and states a
/// length that it has no room for.
pub fn read_classic(frame: &CanFrame) -> (rx: Option<RxFrame>)
    ensures
        match rx {
            Some(r) => EitherFrame::Classic(*frame).intact() && r.tells(
                EitherFrame::Classic(*frame),
            ) && r.data@.len() <= 8 && EitherFrame::Classic(*frame).may_hold(r.data@.len()),
            None => classic_kind(*frame) == ClassicKind::Data && classic_len(*frame) > 8,
        },
{
    if classic_intact(frame) {
        Some(rx_from_classic(frame))
    } else {
        None
    }
}

/// Reduces a frame of either kind to what its reader needs, unless it states a length that it
/// has no room for.
pub fn read_any(frame: &CanAnyFrame) -> (rx: Option<RxFrame>)
    ensures
        match rx {
            Some(r) => kind_of(*frame).intact() && r.tells(kind_of(*frame)) && r.data@.len() <= 64
                && kind_of(*frame).may_hold(r.data@.len()),
            None => !kind_of(*frame).intact(),
        },
{
    let kind = split_kind(frame);
    let intact = match &kind {
        EitherFrame::Classic(f) => classic_intact(f),
        EitherFrame::Fd(f) => fd_stated_len(f) <= 64,
    };
    if intact {
        Some(rx_from_any(frame))
    } else {
        None
    }
}

/// What one end sends, the other end reads: on either transport the address comes through,
/// and so does a payload of at most eight bytes. The commands of the protocol have eight.
pub proof fn law_frame_roundtrip(
    bus: CanBus,
    frame: EitherFrame,
    rx: RxFrame,
    address: Address,
    data: Seq<u8>,
)
    requires
        bus.carries(frame, address, data),
        rx.tells(frame),
        data.len() <= 8,
    ensures
        rx.extended == (address is Extended),
        rx.raw_id == address.raw(),
        rx.data@ == data,
{
    assert(fd_filled(data) =~= data);
}

/// The payload of a CAN FD frame has the smallest length that CAN FD has and that takes all
/// bytes; the bytes come first, and zeros fill it up.
pub proof fn law_fd_length(data: Seq<u8>)
    requires
        data.len() <= 64,
    ensures
        ({
            let lengths: Seq<nat> = seq![0nat, 1, 2, 3, 4, 5, 6, 7, 8, 12, 16, 20, 24, 32, 48, 64];
            let filled = fd_filled(data);
            &&& lengths.contains(filled.len())
            &&& filled.len() >= data.len()
            &&& forall|i: int|
                0 <= i < lengths.len() && #[trigger] lengths[i] >= data.len() ==> filled.len()
                    <= lengths[i]
            &&& filled.take(data.len() as int) == data
            &&& forall|i: int| data.len() <= i < filled.len() ==> #[trigger] filled[i] == 0
        }),
{
    let lengths: Seq<nat> = seq![0nat, 1, 2, 3, 4, 5, 6, 7, 8, 12, 16, 20, 24, 32, 48, 64];
    let n = data.len() as int;
    let at: int = if n <= 8 {
        n
    } else if n <= 12 {
        9
    } else if n <= 16 {
        10
    } else if n <= 20 {
        11
    } else if n <= 24 {
        12
    } else if n <= 32 {
        13
    } else if n <= 48 {
        14
    } else {
        15
    };
    assert(lengths[at] == fd_filled(data).len());
    assert(fd_filled(data).take(n) =~= data);
}

/// An identifier fits if it has at most 11 bits, or 29 where it is extended, and its number is
/// the same without its width. Classic frames take 8 bytes, those of CAN FD 64.
pub proof fn law_widths(short: u16, long: u32)
    ensures
        Address::Standard(short).fits() <==> (short as int) < 2048,
        Address::Extended(long).fits() <==> (long as int) < 536870912,
        Address::Standard(short).raw() == short,
        Address::Extended(long).raw() == long,
        CanBus::Classic.room() == 8,
        CanBus::Fd.room() == 64,
{
}

/// A frame goes out with the address and the payload that it was made for, as a data frame of
/// the kind of its transport: classic as it is, CAN FD with the bit rate switch on.
pub proof fn law_frame_carried(bus: CanBus, frame: EitherFrame, address: Address, data: Seq<u8>)
    requires
        bus.carries(frame, address, data),
        data.len() <= bus.room(),
    ensures
        frame is Fd <==> bus is Fd,
        frame is Classic ==> classic_address(frame->Classic_0) == address && classic_payload(
            frame->Classic_0,
        ) == data && classic_kind(frame->Classic_0) == ClassicKind::Data && classic_len(
            frame->Classic_0,
        ) <= 8,
        frame is Fd ==> fd_address(frame->Fd_0) == address && fd_payload(frame->Fd_0).take(
            data.len() as int,
        ) == data && fd_rate_switch(frame->Fd_0) && fd_len(frame->Fd_0) <= 64,
{
    law_fd_length(data);
}

/// What a reader knows of a frame is its number, whether that is extended, and its payload.
pub proof fn law_frame_told(told: RxFrame, frame: EitherFrame)
    requires
        told.tells(frame),
    ensures
        frame is Classic ==> told.data@ == classic_payload(frame->Classic_0) && told.raw_id
            == classic_address(frame->Classic_0).raw() && (told.extended <==> classic_address(
            frame->Classic_0,
        ) is Extended),
        frame is Fd ==> told.data@ == fd_payload(frame->Fd_0) && told.raw_id == fd_address(
            frame->Fd_0,
        ).raw() && (told.extended <==> fd_address(frame->Fd_0) is Extended),
{
}

/// What a reader can get from a frame: at most 8 bytes from a classic one, none from a remote
/// one, at most 64 from one of CAN FD.
pub proof fn law_most_bytes(frame: EitherFrame, n: nat)
    requires
        frame.may_hold(n),
    ensures
        n <= 64,
        frame is Classic ==> n <= 8,
        frame is Classic && classic_kind(frame->Classic_0) == ClassicKind::Remote ==> n == 0,
{
}

} // verus!
