//! The SLCAN line protocol of serial USB-CAN adapters.
//!
//! An adapter takes and gives lines of ASCII, each ended by a carriage return:
//!
//! - `T<id: 8 hex><len: 1 digit><data: 2 hex per byte>` is a frame with a 29-bit identifier,
//! - `t<id: 3 hex><len: 1 digit><data: 2 hex per byte>` one with an 11-bit identifier,
//! - `C`, `S<code>` and `O` close the channel, set its speed and open it.

use vstd::prelude::*;

use crate::error::{Result, RobstrideError};
use crate::protocol::{
    build_disable_frame, build_enable_frame, build_ping_frame, parse_can_id, parse_status_frame,
    CommType, MotorFeedback,
};
use crate::text::{decimal_text, from_utf8_lossy, hex_str, hex_text, parse_number};

verus! {

// ---------------------------------------------------------------------------
// Commands
// ---------------------------------------------------------------------------

/// The speed code of a CAN bitrate.
pub open spec fn slcan_code(bitrate: u32) -> Option<u8> {
    match bitrate {
        10_000 => Some(0),
        20_000 => Some(1),
        50_000 => Some(2),
        100_000 => Some(3),
        125_000 => Some(4),
        250_000 => Some(5),
        500_000 => Some(6),
        800_000 => Some(7),
        1_000_000 => Some(8),
        _ => None,
    }
}

/// SLCAN speed code for the `S` command.
pub fn bitrate_to_slcan_code(bitrate: u32) -> (code: Option<u8>)
    ensures
        code == slcan_code(bitrate),
{
    match bitrate {
        10_000 => Some(0),
        20_000 => Some(1),
        50_000 => Some(2),
        100_000 => Some(3),
        125_000 => Some(4),
        250_000 => Some(5),
        500_000 => Some(6),
        800_000 => Some(7),
        1_000_000 => Some(8),
        _ => None,
    }
}

/// How many payload bytes a frame takes: at most eight.
pub open spec fn slcan_len(len: nat) -> nat {
    if len <= 8 {
        len
    } else {
        8
    }
}

/// The line of a frame with a 29-bit identifier, without its end.
pub open spec fn frame_line(can_id: u32, data: Seq<u8>) -> Seq<char> {
    let len = slcan_len(data.len());
    "T"@ + crate::text::hex(can_id as nat, 8) + crate::text::decimal(len) + crate::text::hex_run(
        data.take(len as int),
    )
}

/// The serial end of an SLCAN adapter.
pub struct SerialCan {}

impl SerialCan {
    /// A command with the carriage return that ends it.
    pub fn slcan_cmd(cmd: &str) -> (message: String)
        ensures
            message@ == cmd@ + "\r"@,
    {
        cmd.to_owned().concat("\r")
    }

    /// The command that closes the channel.
    pub fn close() -> (message: String)
        ensures
            message@ == "C"@ + "\r"@,
    {
        SerialCan::slcan_cmd("C")
    }

    /// The command that sets the CAN bitrate, if the adapters have a code for it.
    pub fn speed_cmd(can_bitrate: u32) -> (message: Result<String>)
        ensures
            match slcan_code(can_bitrate) {
                Some(code) => message matches Ok(m) && m@ == "S"@ + crate::text::decimal(
                    code as nat,
                ) + "\r"@,
                None => message matches Err(RobstrideError::SerialPort(text)) && text@
                    == "Unsupported CAN bitrate: "@ + crate::text::decimal(can_bitrate as nat),
            },
    {
        match bitrate_to_slcan_code(can_bitrate) {
            Some(code) => {
                let cmd = "S".to_owned().concat(decimal_text(code as u64).as_str());
                Ok(SerialCan::slcan_cmd(cmd.as_str()))
            },
            None => Err(
                RobstrideError::SerialPort(
                    "Unsupported CAN bitrate: ".to_owned().concat(
                        decimal_text(can_bitrate as u64).as_str(),
                    ),
                ),
            ),
        }
    }

    /// The message that sends a frame with a 29-bit identifier. Payload bytes past the
    /// eighth are dropped.
    pub fn send_frame(can_id: u32, data: &[u8]) -> (message: String)
        ensures
            message@ == frame_line(can_id, data@) + "\r"@,
    {
        let len: usize = if data.len() <= 8 {
            data.len()
        } else {
            8
        };
        let mut message = "T".to_owned().concat(hex_text(can_id as u64, 8).as_str()).concat(
            decimal_text(len as u64).as_str(),
        );
        let ghost head = message@;
        let ghost kept = data@.take(len as int);
        let mut i: usize = 0;
        assert(message@ =~= head + crate::text::hex_run(kept.take(0)));
        while i < len
            invariant
                i <= len <= data@.len(),
                kept == data@.take(len as int),
                message@ == head + crate::text::hex_run(kept.take(i as int)),
            decreases len - i,
        {
            assert(kept.take(i + 1).drop_last() =~= kept.take(i as int));
            assert(kept.take(i + 1).last() == data@[i as int]);
            let ghost before = crate::text::hex_run(kept.take(i as int));
            message.append(hex_text(data[i] as u64, 2).as_str());
            assert(message@ =~= head + (before + crate::text::hex(data@[i as int] as nat, 2)));
            i = i + 1;
        }
        assert(kept.take(i as int) =~= kept);
        message.concat("\r")
    }
}

// ---------------------------------------------------------------------------
// Lines from the adapter
// ---------------------------------------------------------------------------

/// Whether cutting a text before byte `at` would cut through a character.
pub open spec fn tears(bytes: Seq<u8>, at: int) -> bool {
    at < bytes.len() && 0x80 <= bytes[at] <= 0xBF
}

/// What a run of hexadecimal pairs holds: the bytes, nothing if a pair is no number, or an
/// unreadable text if a pair ends inside a character.
pub enum Pairs {
    Bytes(Seq<u8>),
    Nothing,
    Torn,
}

/// What the first `n` pairs from byte `at` on hold.
pub open spec fn pairs(bytes: Seq<u8>, at: int, n: nat) -> Pairs
    decreases n,
{
    if n == 0 {
        Pairs::Bytes(Seq::empty())
    } else {
        let from = at + 2 * (n - 1);
        match pairs(bytes, at, (n - 1) as nat) {
            Pairs::Bytes(data) => if tears(bytes, from + 2) {
                Pairs::Torn
            } else {
                match crate::text::number(bytes.subrange(from, from + 2), 16, 0xFF) {
                    Some(value) => Pairs::Bytes(data.push(value as u8)),
                    None => Pairs::Nothing,
                }
            },
            other => other,
        }
    }
}

/// What a line from the adapter holds.
pub enum LineSpec {
    /// A frame.
    Frame(u32, Seq<u8>),
    /// Something else.
    Nothing,
    /// Fields that end inside a character.
    Torn,
}

/// What a line with an identifier in bytes 1 to `end` holds. Bytes past the payload are
/// ignored.
pub open spec fn frame_at(bytes: Seq<u8>, end: int) -> LineSpec {
    if tears(bytes, end) {
        LineSpec::Torn
    } else {
        match (
            crate::text::number(bytes.subrange(1, end), 16, 0xFFFF_FFFF),
            crate::text::digit_value(bytes[end], 10),
        ) {
            (Some(id), Some(len)) => if bytes.len() < end + 1 + 2 * len {
                LineSpec::Nothing
            } else {
                match pairs(bytes, end + 1, len as nat) {
                    Pairs::Bytes(data) => LineSpec::Frame(id as u32, data),
                    Pairs::Nothing => LineSpec::Nothing,
                    Pairs::Torn => LineSpec::Torn,
                }
            },
            _ => LineSpec::Nothing,
        }
    }
}

/// What a line from the adapter holds.
pub open spec fn line_spec(bytes: Seq<u8>) -> LineSpec {
    if bytes.len() >= 10 && bytes[0] == 0x54 {
        frame_at(bytes, 9)
    } else if bytes.len() >= 5 && bytes[0] == 0x74 {
        frame_at(bytes, 4)
    } else {
        LineSpec::Nothing
    }
}

/// What a line from the adapter holds.
#[derive(Debug)]
pub enum SlcanLine {
    /// A frame: its identifier and payload.
    Frame(u32, Vec<u8>),
    /// A confirmation, or an answer that is none of ours.
    Nothing,
    /// Fields that end inside a character, so that the line cannot be taken apart.
    Torn,
}

impl View for SlcanLine {
    type V = LineSpec;

    open spec fn view(&self) -> LineSpec {
        match self {
            SlcanLine::Frame(id, data) => LineSpec::Frame(*id, data@),
            SlcanLine::Nothing => LineSpec::Nothing,
            SlcanLine::Torn => LineSpec::Torn,
        }
    }
}

/// Once a pair is no number or ends inside a character, the pairs after it do not matter.
proof fn lemma_pairs_stay(bytes: Seq<u8>, at: int, n: nat, more: nat)
    requires
        n <= more,
        !(pairs(bytes, at, n) is Bytes),
    ensures
        pairs(bytes, at, more) == pairs(bytes, at, n),
    decreases more,
{
    if n < more {
        lemma_pairs_stay(bytes, at, n, (more - 1) as nat);
    }
}

fn tears_at(bytes: &[u8], at: usize) -> (torn: bool)
    ensures
        torn == tears(bytes@, at as int),
{
    at < bytes.len() && 0x80 <= bytes[at] && bytes[at] <= 0xBF
}

/// Reads the fields of a line whose identifier stands in bytes 1 to `end`.
fn read_frame_at(bytes: &[u8], end: usize) -> (line: SlcanLine)
    requires
        1 <= end < bytes@.len(),
        end <= 9,
    ensures
        line@ == frame_at(bytes@, end as int),
{
    if tears_at(bytes, end) {
        return SlcanLine::Torn;
    }
    let id: u32 = match parse_number(vstd::slice::slice_subrange(bytes, 1, end), 16, 0xFFFF_FFFF) {
        Some(id) => id as u32,
        None => return SlcanLine::Nothing,
    };
    let digit: u8 = bytes[end];
    if digit < 48 || digit > 57 {
        return SlcanLine::Nothing;
    }
    let len: usize = (digit - 48) as usize;
    if bytes.len() < end + 1 + 2 * len {
        return SlcanLine::Nothing;
    }
    let at: usize = end + 1;
    let mut data: Vec<u8> = Vec::new();
    let mut i: usize = 0;
    while i < len
        invariant
            1 <= end <= 9,
            at == end + 1,
            len <= 9,
            i <= len,
            bytes@.len() >= at + 2 * len,
            !tears(bytes@, end as int),
            crate::text::number(bytes@.subrange(1, end as int), 16, 0xFFFF_FFFF) == Some(id as int),
            crate::text::digit_value(bytes@[end as int], 10) == Some(len as int),
            pairs(bytes@, at as int, i as nat) == Pairs::Bytes(data@),
        decreases len - i,
    {
        let from: usize = at + 2 * i;
        if tears_at(bytes, from + 2) {
            proof {
                lemma_pairs_stay(bytes@, at as int, (i + 1) as nat, len as nat);
            }
            return SlcanLine::Torn;
        }
        match parse_number(vstd::slice::slice_subrange(bytes, from, from + 2), 16, 0xFF) {
            Some(value) => data.push(value as u8),
            None => {
                proof {
                    lemma_pairs_stay(bytes@, at as int, (i + 1) as nat, len as nat);
                }
                return SlcanLine::Nothing;
            },
        }
        i = i + 1;
    }
    SlcanLine::Frame(id, data)
}

/// Takes a line from the adapter apart.
pub fn read_line(bytes: &[u8]) -> (line: SlcanLine)
    ensures
        line@ == line_spec(bytes@),
{
    if bytes.len() >= 10 && bytes[0] == 0x54 {
        read_frame_at(bytes, 9)
    } else if bytes.len() >= 5 && bytes[0] == 0x74 {
        read_frame_at(bytes, 4)
    } else {
        SlcanLine::Nothing
    }
}

impl SerialCan {
    /// Parses an SLCAN line into an identifier and a payload.
    ///
    /// The fields of the line must not end inside a character.
    pub fn parse_slcan_frame(line: &str) -> (frame: Option<(u32, Vec<u8>)>)
        requires
            !(line_spec(vstd::utf8::encode_utf8(line@)) is Torn),
        ensures
            match line_spec(vstd::utf8::encode_utf8(line@)) {
                LineSpec::Frame(id, data) => frame matches Some(f) && f.0 == id && f.1@ == data,
                _ => frame is None,
            },
    {
        match read_line(line.as_bytes()) {
            SlcanLine::Frame(id, data) => Some((id, data)),
            _ => None,
        }
    }
}

/// Pairs in plain ASCII end between characters.
proof fn lemma_pairs_whole(bytes: Seq<u8>, at: int, n: nat)
    requires
        forall|i: int| 0 <= i < bytes.len() ==> #[trigger] bytes[i] < 0x80,
        0 <= at,
    ensures
        !(pairs(bytes, at, n) is Torn),
    decreases n,
{
    if n > 0 {
        lemma_pairs_whole(bytes, at, (n - 1) as nat);
    }
}

/// A line in plain ASCII can always be taken apart.
pub proof fn law_ascii_whole(line: Seq<char>)
    requires
        vstd::utf8::is_ascii_chars(line),
    ensures
        !(line_spec(vstd::utf8::encode_utf8(line)) is Torn),
{
    crate::text::lemma_ascii_encoding(line);
    let bytes = vstd::utf8::encode_utf8(line);
    assert forall|i: int| 0 <= i < bytes.len() implies #[trigger] bytes[i] < 0x80 by {
        assert(bytes[i] == line[i] as u8);
    }
    if bytes.len() >= 10 && bytes[0] == 0x54 {
        if let Some(len) = crate::text::digit_value(bytes[9], 10) {
            lemma_pairs_whole(bytes, 10, len as nat);
        }
    } else if bytes.len() >= 5 && bytes[0] == 0x74 {
        if let Some(len) = crate::text::digit_value(bytes[4], 10) {
            lemma_pairs_whole(bytes, 5, len as nat);
        }
    }
}

// ---------------------------------------------------------------------------
// The stream from the adapter
// ---------------------------------------------------------------------------

/// What a reader holds after one more byte, and what that byte completed. A carriage return
/// or a line feed ends a line, an empty one means nothing, and the bell drops what came
/// before.
pub open spec fn fed(buf: Seq<u8>, byte: u8) -> (Seq<u8>, LineSpec) {
    if byte == 7 {
        (Seq::empty(), LineSpec::Nothing)
    } else if byte == 13 || byte == 10 {
        if buf.len() == 0 {
            (buf, LineSpec::Nothing)
        } else {
            (
                Seq::empty(),
                line_spec(vstd::utf8::encode_utf8(crate::text::lossy_text(buf))),
            )
        }
    } else {
        (buf.push(byte), LineSpec::Nothing)
    }
}

/// What a reader holds after a run of bytes, and what the last of them completed.
pub open spec fn fed_all(buf: Seq<u8>, bytes: Seq<u8>) -> (Seq<u8>, LineSpec)
    decreases bytes.len(),
{
    if bytes.len() == 0 {
        (buf, LineSpec::Nothing)
    } else {
        fed(fed_all(buf, bytes.drop_last()).0, bytes.last())
    }
}

/// Gathers the bytes from the adapter into lines.
#[derive(Debug)]
pub struct LineReader {
    /// The bytes of the line so far.
    pub buf: Vec<u8>,
}

impl LineReader {
    /// A reader at the beginning of a line.
    pub fn new() -> (reader: LineReader)
        ensures
            reader.buf@ == Seq::<u8>::empty(),
    {
        LineReader { buf: Vec::new() }
    }

    /// Takes the next byte from the adapter.
    pub fn feed(&mut self, byte: u8) -> (line: SlcanLine)
        ensures
            final(self).buf@ == fed(old(self).buf@, byte).0,
            line@ == fed(old(self).buf@, byte).1,
    {
        if byte == 7 {
            self.buf = Vec::new();
            SlcanLine::Nothing
        } else if byte == 13 || byte == 10 {
            if self.buf.len() == 0 {
                return SlcanLine::Nothing;
            }
            let line = from_utf8_lossy(self.buf.as_slice());
            self.buf = Vec::new();
            read_line(line.as_str().as_bytes())
        } else {
            self.buf.push(byte);
            SlcanLine::Nothing
        }
    }
}

/// The characters of a frame's line are digits and letters.
proof fn lemma_line_chars(can_id: u32, data: Seq<u8>)
    ensures
        ({
            let len = slcan_len(data.len());
            let line = frame_line(can_id, data);
            &&& line.len() == 10 + 2 * len
            &&& line[0] == 'T'
            &&& line.subrange(1, 9) == crate::text::hex(can_id as nat, 8)
            &&& line[9] == crate::text::digit_char(len as int)
            &&& forall|i: int|
                0 <= i < len ==> #[trigger] line.subrange(10 + 2 * i, 12 + 2 * i)
                    == crate::text::hex(data[i] as nat, 2)
            &&& forall|i: int|
                0 <= i < line.len() ==> {
                    let c = #[trigger] line[i];
                    c == 'T' || '0' <= c <= '9' || 'A' <= c <= 'F'
                }
        }),
{
    let len = slcan_len(data.len());
    let kept = data.take(len as int);
    let id = crate::text::hex(can_id as nat, 8);
    let count = crate::text::decimal(len);
    let run = crate::text::hex_run(kept);
    let line = frame_line(can_id, data);
    reveal_strlit("T");
    crate::text::lemma_padded(can_id as nat, 16, 8);
    crate::text::lemma_hex_run(kept);
    assert(line.subrange(1, 9) =~= id);
    assert forall|i: int| 0 <= i < len implies #[trigger] line.subrange(10 + 2 * i, 12 + 2 * i)
        == crate::text::hex(data[i] as nat, 2) by {
        assert(line.subrange(10 + 2 * i, 12 + 2 * i) =~= run.subrange(2 * i, 2 * i + 2));
        assert(kept[i] == data[i]);
    }
    assert forall|i: int| 0 <= i < line.len() implies {
        let c = #[trigger] line[i];
        c == 'T' || '0' <= c <= '9' || 'A' <= c <= 'F'
    } by {
        if 1 <= i < 9 {
            assert(line[i] == id[i - 1]);
        } else if i >= 10 {
            assert(line[i] == run[i - 10]);
        }
    }
}

/// Taking a frame's line apart gives the frame.
proof fn lemma_line_spec(can_id: u32, data: Seq<u8>)
    ensures
        line_spec(crate::text::ascii_bytes(frame_line(can_id, data))) == LineSpec::Frame(
            can_id,
            data.take(slcan_len(data.len()) as int),
        ),
{
    let len = slcan_len(data.len());
    let line = frame_line(can_id, data);
    let bytes = crate::text::ascii_bytes(line);
    let kept = data.take(len as int);
    lemma_line_chars(can_id, data);
    assert(bytes[0] == 0x54);
    assert(bytes[9] == crate::text::digit_char(len as int) as u8);
    assert(crate::text::digit_value(bytes[9], 10) == Some(len as int));
    assert(bytes.subrange(1, 9) =~= crate::text::ascii_bytes(line.subrange(1, 9)));
    reveal_with_fuel(crate::text::has_width, 9);
    crate::text::lemma_hex_number(can_id as nat, 8, 0xFFFF_FFFF);
    lemma_line_pairs(can_id, data, len);
    assert(kept.take(len as int) =~= kept);
}

/// The pairs of a frame's line hold the payload.
proof fn lemma_line_pairs(can_id: u32, data: Seq<u8>, n: nat)
    requires
        n <= slcan_len(data.len()),
    ensures
        pairs(crate::text::ascii_bytes(frame_line(can_id, data)), 10, n) == Pairs::Bytes(
            data.take(n as int),
        ),
    decreases n,
{
    let line = frame_line(can_id, data);
    let bytes = crate::text::ascii_bytes(line);
    if n == 0 {
        assert(data.take(0) =~= Seq::<u8>::empty());
    } else {
        let i = (n - 1) as int;
        lemma_line_pairs(can_id, data, i as nat);
        lemma_line_chars(can_id, data);
        let from = 10 + 2 * i;
        assert(line.subrange(10 + 2 * i, 12 + 2 * i) == crate::text::hex(data[i] as nat, 2));
        assert(bytes.subrange(from, from + 2) =~= crate::text::ascii_bytes(
            line.subrange(10 + 2 * i, 12 + 2 * i),
        ));
        crate::text::lemma_hex_byte(data[i]);
        assert(data.take(n as int) =~= data.take(i).push(data[i]));
    }
}

/// A reader holds the bytes of a line until the line ends.
proof fn lemma_fed_line(bytes: Seq<u8>)
    requires
        forall|i: int|
            0 <= i < bytes.len() ==> #[trigger] bytes[i] != 7 && bytes[i] != 10 && bytes[i] != 13,
    ensures
        fed_all(Seq::empty(), bytes) == (bytes, LineSpec::Nothing),
    decreases bytes.len(),
{
    if bytes.len() > 0 {
        let before = bytes.drop_last();
        assert forall|i: int| 0 <= i < before.len() implies #[trigger] before[i] != 7 && before[i]
            != 10 && before[i] != 13 by {
            assert(before[i] == bytes[i]);
        }
        lemma_fed_line(before);
        assert(bytes[bytes.len() - 1] == bytes.last());
        assert(before.push(bytes.last()) =~= bytes);
    }
}

/// What `send_frame` writes, an adapter at the other end reads back: the bytes of the message
/// complete nothing until the last one, which completes the frame, and the reader is then
/// at the beginning of a line again. Payload bytes past the eighth do not travel.
pub proof fn law_slcan_roundtrip(can_id: u32, data: Seq<u8>)
    ensures
        ({
            let message = vstd::utf8::encode_utf8(frame_line(can_id, data) + "\r"@);
            &&& fed_all(Seq::empty(), message) == (
                Seq::<u8>::empty(),
                LineSpec::Frame(can_id, data.take(slcan_len(data.len()) as int)),
            )
            &&& forall|n: int|
                0 <= n < message.len() ==> (#[trigger] fed_all(Seq::empty(), message.take(n))).1
                    is Nothing
        }),
{
    let line = frame_line(can_id, data);
    let whole = line + "\r"@;
    reveal_strlit("\r");
    lemma_line_chars(can_id, data);
    assert(vstd::utf8::is_ascii_chars(line));
    assert forall|i: int| 0 <= i < whole.len() implies '\0' <= #[trigger] whole[i] <= '\u{7f}' by {
        if i < line.len() {
            assert(whole[i] == line[i]);
        }
    }
    crate::text::lemma_ascii_encoding(line);
    crate::text::lemma_ascii_encoding(whole);
    let bytes = crate::text::ascii_bytes(line);
    let message = vstd::utf8::encode_utf8(whole);
    assert(message.drop_last() =~= bytes);
    assert(message.last() == 13);
    assert forall|i: int| 0 <= i < bytes.len() implies #[trigger] bytes[i] != 7 && bytes[i] != 10
        && bytes[i] != 13 by {
        assert(bytes[i] == line[i] as u8);
    }
    lemma_fed_line(bytes);
    vstd::utf8::encode_utf8_valid_utf8(line);
    vstd::utf8::encode_utf8_decode_utf8(line);
    lemma_line_spec(can_id, data);
    assert forall|n: int| 0 <= n < message.len() implies (#[trigger] fed_all(
        Seq::empty(),
        message.take(n),
    )).1 is Nothing by {
        let part = message.take(n);
        assert forall|i: int| 0 <= i < part.len() implies #[trigger] part[i] != 7 && part[i] != 10
            && part[i] != 13 by {
            assert(part[i] == bytes[i]);
        }
        lemma_fed_line(part);
    }
}

// ---------------------------------------------------------------------------
// Scanning
// ---------------------------------------------------------------------------

/// What a scan asks the motor that it has come to.
#[derive(Debug, Clone, Copy, PartialEq, Eq, Structural)]
pub enum ScanStage {
    /// To identify itself.
    Ping,
    /// To enable itself, as it did not answer before.
    Enable,
    /// To disable itself again.
    Disable,
}

/// The state of a scan, in mathematical terms.
pub struct ScanSpec {
    pub host_id: u8,
    pub ids: Seq<u8>,
    pub at: nat,
    pub stage: ScanStage,
    pub found: Seq<(u8, Option<MotorFeedback>)>,
}

impl ScanSpec {
    /// The scan has come to one of its IDs or to the end, and every motor found so far was
    /// asked before, in ascending order and none of them twice.
    pub open spec fn valid(self) -> bool {
        &&& self.at <= self.ids.len()
        &&& self.stage != ScanStage::Ping ==> self.at < self.ids.len()
        &&& forall|i: int, j: int| 0 <= i < j < self.ids.len() ==> self.ids[i] < self.ids[j]
        &&& forall|i: int, j: int|
            0 <= i < j < self.found.len() ==> (#[trigger] self.found[i]).0 < (
            #[trigger] self.found[j]).0
        &&& forall|i: int|
            0 <= i < self.found.len() ==> self.ids.contains((#[trigger] self.found[i]).0)
        &&& self.at < self.ids.len() ==> forall|i: int|
            0 <= i < self.found.len() ==> {
                let id = (#[trigger] self.found[i]).0;
                id < self.ids[self.at as int] || self.stage == ScanStage::Disable && id
                    == self.ids[self.at as int]
            }
    }

    /// Going on to the next ID.
    pub open spec fn next(self) -> ScanSpec {
        ScanSpec { at: self.at + 1, stage: ScanStage::Ping, ..self }
    }

    /// Whether a reply comes from the motor that was asked: its ID is in the low byte of the
    /// extra data, with the host as device, or it is the device.
    pub open spec fn hit(self, reply: Option<(u32, Seq<u8>)>) -> bool {
        match reply {
            Some(r) => {
                let id = self.ids[self.at as int];
                let (_, extra_data, device_id) = crate::protocol::id_fields(r.0);
                crate::protocol::low_byte(extra_data) == id || device_id == id
            },
            None => false,
        }
    }

    /// Noting the motor that was asked, with the status in its reply.
    pub open spec fn noted(self, reply: Option<(u32, Seq<u8>)>) -> ScanSpec {
        let (id, data) = reply->0;
        let status = crate::protocol::status_frame(id, data);
        ScanSpec { found: self.found.push((self.ids[self.at as int], status)), ..self }
    }

    /// The scan after a request that could be sent or not, and the reply to it. A motor that
    /// answers the ping is noted. One that does not is asked to enable itself; it is noted if
    /// it answers that, and disabled at once.
    pub open spec fn answered(self, sent: bool, reply: Option<(u32, Seq<u8>)>) -> ScanSpec {
        match self.stage {
            ScanStage::Ping => if !sent {
                self.next()
            } else if self.hit(reply) {
                self.noted(reply).next()
            } else {
                ScanSpec { stage: ScanStage::Enable, ..self }
            },
            ScanStage::Enable => if sent && self.hit(reply) {
                ScanSpec { stage: ScanStage::Disable, ..self.noted(reply) }
            } else {
                self.next()
            },
            ScanStage::Disable => self.next(),
        }
    }
}

impl ScanSpec {
    /// How many requests a scan can still make.
    pub open spec fn requests_left(self) -> int {
        3 * (self.ids.len() - self.at) - match self.stage {
            ScanStage::Ping => 0int,
            ScanStage::Enable => 1,
            ScanStage::Disable => 2,
        }
    }
}

/// A scan comes to its end: every answer, whatever it is, leaves fewer requests to make, and
/// with none left all IDs have been asked.
pub proof fn law_scan_ends(scan: ScanSpec, sent: bool, reply: Option<(u32, Seq<u8>)>)
    requires
        scan.valid(),
        scan.at < scan.ids.len(),
    ensures
        scan.answered(sent, reply).requests_left() < scan.requests_left(),
        scan.requests_left() > 0,
{
}

/// A motor that answers with its own ID in the low byte of the extra data is noted, whichever
/// host it answers: at once if it answers the ping, and when it has been enabled otherwise.
/// Then the next request disables it.
pub proof fn law_answer_noted(
    scan: ScanSpec,
    comm_type: u8,
    extra_data: u16,
    host_id: u8,
    data: Seq<u8>,
)
    requires
        scan.valid(),
        scan.at < scan.ids.len(),
        scan.stage != ScanStage::Disable,
        comm_type < 32,
        crate::protocol::low_byte(extra_data) == scan.ids[scan.at as int],
    ensures
        ({
            let id = crate::protocol::can_id(comm_type, extra_data, host_id);
            let after = scan.answered(true, Some((id, data)));
            &&& after.found == scan.found.push(
                (scan.ids[scan.at as int], crate::protocol::status_frame(id, data)),
            )
            &&& if scan.stage == ScanStage::Ping {
                after.at == scan.at + 1 && after.stage == ScanStage::Ping
            } else {
                after.at == scan.at && after.stage == ScanStage::Disable
            }
        }),
{
    crate::protocol::lemma_id_fields(comm_type, extra_data, host_id);
}

/// A scan for motors behind a serial adapter.
#[derive(Debug)]
pub struct SerialScan {
    pub host_id: u8,
    /// The IDs to ask, in ascending order.
    pub ids: Vec<u8>,
    /// The ID that the scan has come to.
    pub at: usize,
    pub stage: ScanStage,
    /// The motors that answered, with their status where the reply held one.
    pub found: Vec<(u8, Option<MotorFeedback>)>,
}

impl View for SerialScan {
    type V = ScanSpec;

    open spec fn view(&self) -> ScanSpec {
        ScanSpec {
            host_id: self.host_id,
            ids: self.ids@,
            at: self.at as nat,
            stage: self.stage,
            found: self.found@,
        }
    }
}

impl SerialCan {
    /// Starts a scan of all IDs from `from` to `to`.
    pub fn scan(host_id: u8, from: u8, to: u8) -> (scan: SerialScan)
        ensures
            scan@.valid(),
            scan@ == (ScanSpec {
                host_id,
                ids: crate::motor::id_seq(from, to),
                at: 0,
                stage: ScanStage::Ping,
                found: Seq::empty(),
            }),
    {
        let ids = crate::motor::id_range(from, to);
        SerialScan { host_id, ids, at: 0, stage: ScanStage::Ping, found: Vec::new() }
    }
}

impl SerialScan {
    /// The frame to send next, or nothing when all IDs have been asked.
    pub fn request(&self) -> (frame: Option<(u32, Vec<u8>)>)
        requires
            self@.valid(),
        ensures
            match frame {
                Some(f) => self.at < self.ids@.len() && f.0 == crate::protocol::can_id(
                    match self.stage {
                        ScanStage::Ping => CommType::GetDeviceId.spec_code(),
                        ScanStage::Enable => CommType::Enable.spec_code(),
                        ScanStage::Disable => CommType::Disable.spec_code(),
                    },
                    self.host_id as u16,
                    self.ids@[self.at as int],
                ) && f.1@ == crate::protocol::no_payload(),
                None => self.at == self.ids@.len(),
            },
    {
        if self.at == self.ids.len() {
            return None;
        }
        let id: u8 = self.ids[self.at];
        Some(
            match self.stage {
                ScanStage::Ping => build_ping_frame(self.host_id, id),
                ScanStage::Enable => build_enable_frame(self.host_id, id),
                ScanStage::Disable => build_disable_frame(self.host_id, id),
            },
        )
    }

    /// How long to wait for the reply, in milliseconds.
    pub fn wait_ms(&self, timeout_per_id: u64) -> (ms: u64)
        ensures
            ms == (if self.stage == ScanStage::Disable {
                20
            } else {
                timeout_per_id
            }),
    {
        match self.stage {
            ScanStage::Disable => 20,
            _ => timeout_per_id,
        }
    }

    fn next(&mut self)
        requires
            old(self).at < old(self).ids@.len(),
        ensures
            final(self)@ == old(self)@.next(),
    {
        assert(self.at < self.ids.len());
        self.at = self.at + 1;
        self.stage = ScanStage::Ping;
    }

    fn note(&mut self, id: u32, data: &Vec<u8>)
        requires
            old(self).at < old(self).ids@.len(),
        ensures
            final(self)@ == old(self)@.noted(Some((id, data@))),
    {
        let motor_id: u8 = self.ids[self.at];
        self.found.push((motor_id, parse_status_frame(id, data.as_slice())));
    }

    /// Takes what became of the last request: whether it could be sent, and the reply.
    pub fn answer(&mut self, sent: bool, reply: Option<(u32, Vec<u8>)>)
        requires
            old(self)@.valid(),
            old(self).at < old(self).ids@.len(),
        ensures
            final(self)@.valid(),
            final(self)@ == old(self)@.answered(
                sent,
                match reply {
                    Some(r) => Some((r.0, r.1@)),
                    None => None,
                },
            ),
    {
        let motor_id: u8 = self.ids[self.at];
        let ghost before = self@;
        let hit = match &reply {
            Some(r) => {
                let (_, extra_data, device_id) = parse_can_id(r.0);
                (extra_data % 0x100) as u8 == motor_id || device_id == motor_id
            },
            None => false,
        };
        match self.stage {
            ScanStage::Ping => {
                if !sent {
                    self.next();
                } else {
                    match &reply {
                        Some(r) if hit => {
                            self.note(r.0, &r.1);
                            self.next();
                        },
                        _ => {
                            self.stage = ScanStage::Enable;
                        },
                    }
                }
            },
            ScanStage::Enable => {
                match &reply {
                    Some(r) if sent && hit => {
                        self.note(r.0, &r.1);
                        self.stage = ScanStage::Disable;
                    },
                    _ => self.next(),
                }
            },
            ScanStage::Disable => self.next(),
        }
        proof {
            assert(before.ids.contains(before.ids[before.at as int]));
        }
    }
}

// ---------------------------------------------------------------------------
// Dumping
// ---------------------------------------------------------------------------

/// A byte as a character, with a dot for what does not print.
pub open spec fn printable(byte: u8) -> char {
    if 0x20 <= byte <= 0x7E {
        byte as char
    } else {
        '.'
    }
}

/// Shows a chunk of bytes in hexadecimal and as text.
pub fn dump_line(chunk: &[u8]) -> (line: String)
    ensures
        line@ == "  ["@ + crate::text::hex_list(chunk@) + "]  |"@ + chunk@.map_values(
            |b: u8| printable(b),
        ) + "|"@,
{
    let mut ascii = String::new();
    let mut i: usize = 0;
    while i < chunk.len()
        invariant
            i <= chunk@.len(),
            ascii@ == chunk@.take(i as int).map_values(|b: u8| printable(b)),
        decreases chunk@.len() - i,
    {
        let ghost before = ascii@;
        let b: u8 = chunk[i];
        ascii.push(
            if 0x20 <= b && b <= 0x7E {
                b as char
            } else {
                '.'
            },
        );
        assert(chunk@.take(i + 1).map_values(|b: u8| printable(b)) =~= before.push(
            printable(chunk@[i as int]),
        ));
        i = i + 1;
    }
    assert(chunk@.take(i as int) =~= chunk@);
    "  [".to_owned().concat(hex_str(chunk).as_str()).concat("]  |").concat(ascii.as_str()).concat(
        "|",
    )
}

/// Whether all bytes are ASCII.
pub open spec fn all_ascii(bytes: Seq<u8>) -> bool {
    forall|i: int| 0 <= i < bytes.len() ==> #[trigger] bytes[i] < 0x80
}

/// The closing lines of a dump, and whether the bytes are shown as text below them.
pub open spec fn dump_summary(bytes: Seq<u8>) -> (Seq<Seq<char>>, bool) {
    if bytes.len() == 0 {
        (
            seq![
                "\n  No data received from serial port."@,
                "\n  Possible issues:"@,
                "    1. Adapter is not SLCAN compatible"@,
                "    2. Wrong baud rate (try 921600, 2000000, 460800)"@,
                "    3. Adapter needs a different protocol"@,
            ],
            false,
        )
    } else {
        let total = "\n  Total: "@ + crate::text::decimal(bytes.len()) + " bytes received"@;
        if all_ascii(bytes) {
            (seq![total, "  Format: Looks like ASCII (possibly SLCAN compatible)"@], true)
        } else {
            (
                seq![
                    total,
                    "  Format: Binary data (NOT SLCAN - custom protocol)"@,
                    "  Use this hex dump to identify the adapter's protocol."@,
                ],
                false,
            )
        }
    }
}

/// The closing lines of a dump, and whether the bytes are to be shown as text below them.
pub fn dump_report(bytes: &[u8]) -> (report: (Vec<String>, bool))
    ensures
        crate::text::texts(report.0@) == dump_summary(bytes@).0,
        report.1 == dump_summary(bytes@).1,
{
    if bytes.len() == 0 {
        let lines = vec![
            "\n  No data received from serial port.".to_owned(),
            "\n  Possible issues:".to_owned(),
            "    1. Adapter is not SLCAN compatible".to_owned(),
            "    2. Wrong baud rate (try 921600, 2000000, 460800)".to_owned(),
            "    3. Adapter needs a different protocol".to_owned(),
        ];
        assert(crate::text::texts(lines@) =~= dump_summary(bytes@).0);
        return (lines, false);
    }
    let total = "\n  Total: ".to_owned().concat(
        decimal_text(bytes.len() as u64).as_str(),
    ).concat(" bytes received");
    let mut i: usize = 0;
    while i < bytes.len() && bytes[i] < 0x80
        invariant
            i <= bytes@.len(),
            forall|k: int| 0 <= k < i ==> #[trigger] bytes@[k] < 0x80,
        decreases bytes@.len() - i,
    {
        i = i + 1;
    }
    let ascii = i == bytes.len();
    assert(ascii == all_ascii(bytes@));
    let lines = if ascii {
        vec![total, "  Format: Looks like ASCII (possibly SLCAN compatible)".to_owned()]
    } else {
        vec![
            total,
            "  Format: Binary data (NOT SLCAN - custom protocol)".to_owned(),
            "  Use this hex dump to identify the adapter's protocol.".to_owned(),
        ]
    };
    assert(crate::text::texts(lines@) =~= dump_summary(bytes@).0);
    (lines, ascii)
}

// ---------------------------------------------------------------------------
// What an adapter is told and tells
// ---------------------------------------------------------------------------

/// The nine bitrates of the protocol have the codes 0 to 8, in ascending order, and no other
/// bitrate has one.
pub proof fn law_bitrate_codes(bitrate: u32)
    ensures
        ({
            let rates: Seq<u32> = seq![
                10_000u32,
                20_000,
                50_000,
                100_000,
                125_000,
                250_000,
                500_000,
                800_000,
                1_000_000,
            ];
            match slcan_code(bitrate) {
                Some(code) => code < 9 && rates[code as int] == bitrate,
                None => !rates.contains(bitrate),
            }
        }),
{
}

/// A frame with an 11-bit identifier comes as the letter `t`, three hexadecimal digits, the
/// number of payload bytes and two digits for each: that line is read as that frame.
pub proof fn law_short_frame_read(id: u32, data: Seq<u8>)
    requires
        id <= 0x7FF,
        data.len() <= 8,
    ensures
        line_spec(
            crate::text::ascii_bytes(
                "t"@ + crate::text::hex(id as nat, 3) + crate::text::decimal(data.len())
                    + crate::text::hex_run(data),
            ),
        ) == LineSpec::Frame(id, data),
{
    let len = data.len();
    let number = crate::text::hex(id as nat, 3);
    let run = crate::text::hex_run(data);
    let line = "t"@ + number + crate::text::decimal(len) + run;
    let bytes = crate::text::ascii_bytes(line);
    reveal_strlit("t");
    crate::text::lemma_padded(id as nat, 16, 3);
    crate::text::lemma_hex_run(data);
    assert(crate::text::decimal(len).len() == 1);
    assert(bytes[0] == 0x74);
    assert(bytes[4] == crate::text::digit_char(len as int) as u8);
    assert(crate::text::digit_value(bytes[4], 10) == Some(len as int));
    assert(bytes.subrange(1, 4) =~= crate::text::ascii_bytes(number));
    reveal_with_fuel(crate::text::has_width, 4);
    crate::text::lemma_hex_number(id as nat, 3, 0xFFFF_FFFF);
    assert forall|i: int| 0 <= i < len implies #[trigger] bytes.subrange(5 + 2 * i, 7 + 2 * i)
        == crate::text::ascii_bytes(crate::text::hex(data[i] as nat, 2)) by {
        assert(run.subrange(2 * i, 2 * i + 2) == crate::text::hex(data[i] as nat, 2));
        assert(bytes.subrange(5 + 2 * i, 7 + 2 * i) =~= crate::text::ascii_bytes(
            run.subrange(2 * i, 2 * i + 2),
        ));
    }
    assert forall|i: int| 5 <= i < bytes.len() implies #[trigger] bytes[i] < 0x80 by {
        assert(line[i] == run[i - 5]);
    }
    lemma_pairs_at(bytes, 5, data, len);
    assert(data.take(len as int) =~= data);
}

proof fn lemma_pairs_at(bytes: Seq<u8>, at: int, data: Seq<u8>, n: nat)
    requires
        0 <= at,
        n <= data.len(),
        bytes.len() == at + 2 * data.len(),
        forall|i: int| at <= i < bytes.len() ==> #[trigger] bytes[i] < 0x80,
        forall|i: int|
            0 <= i < data.len() ==> #[trigger] bytes.subrange(at + 2 * i, at + 2 + 2 * i)
                == crate::text::ascii_bytes(crate::text::hex(data[i] as nat, 2)),
    ensures
        pairs(bytes, at, n) == Pairs::Bytes(data.take(n as int)),
    decreases n,
{
    if n == 0 {
        assert(data.take(0) =~= Seq::<u8>::empty());
    } else {
        let i = (n - 1) as int;
        lemma_pairs_at(bytes, at, data, i as nat);
        assert(bytes.subrange(at + 2 * i, at + 2 + 2 * i) == crate::text::ascii_bytes(
            crate::text::hex(data[i] as nat, 2),
        ));
        crate::text::lemma_hex_byte(data[i]);
        assert(data.take(n as int) =~= data.take(i).push(data[i]));
    }
}

/// Only the end of a line completes anything, a carriage return and a line feed in the same
/// way, and only if the line holds something. After it, and after a bell, the reader is at the
/// beginning of a line; any other byte is added to the line.
pub proof fn law_reader_bytes(buf: Seq<u8>, byte: u8)
    ensures
        ({
            let (after, line) = fed(buf, byte);
            let ends = byte == 13 || byte == 10;
            &&& line !is Nothing ==> ends && buf.len() > 0
            &&& ends || byte == 7 ==> after.len() == 0
            &&& !ends && byte != 7 ==> after == buf + seq![byte]
            &&& fed(buf, 13) == fed(buf, 10)
            &&& fed(buf, 7).1 is Nothing
            &&& fed(Seq::empty(), 13) == (Seq::<u8>::empty(), LineSpec::Nothing)
        }),
{
    assert(buf.push(byte) =~= buf + seq![byte]);
}

/// What a scan makes of a reply. The reply is of the asked motor exactly if that motor's ID is
/// in one of the two low bytes of the identifier, and the motor is then noted once, under its
/// own ID. A ping without such a reply is followed by an enabling request to the same motor,
/// and a motor that was enabled is disabled before the scan goes on.
pub proof fn law_reply_weighed(scan: ScanSpec, sent: bool, reply: Option<(u32, Seq<u8>)>)
    requires
        scan.valid(),
        scan.at < scan.ids.len(),
    ensures
        ({
            let id = scan.ids[scan.at as int];
            let own = match reply {
                Some((raw, _)) => (raw as int / 256) % 256 == id || raw as int % 256 == id,
                None => false,
            };
            let after = scan.answered(sent, reply);
            &&& after.ids == scan.ids && after.host_id == scan.host_id
            &&& if sent && own && scan.stage != ScanStage::Disable {
                &&& after.found.len() == scan.found.len() + 1
                &&& after.found.drop_last() == scan.found
                &&& after.found.last().0 == id
            } else {
                after.found == scan.found
            }
            &&& scan.stage == ScanStage::Ping && sent && !own ==> after.at == scan.at
                && after.stage == ScanStage::Enable
            &&& scan.stage == ScanStage::Enable && sent && own ==> after.at == scan.at
                && after.stage == ScanStage::Disable
            &&& scan.stage == ScanStage::Disable || !sent || scan.stage == ScanStage::Ping && own
                || scan.stage == ScanStage::Enable && !own ==> after.at == scan.at + 1
                && after.stage == ScanStage::Ping
        }),
{
    let after = scan.answered(sent, reply);
    match reply {
        Some(r) => {
            let raw = r.0 as int;
            let (_, extra_data, device_id) = crate::protocol::id_fields(r.0);
            assert(extra_data == (raw / 0x100) % 0x1_0000);
            assert(extra_data as int % 0x100 == (raw / 0x100) % 0x100);
            assert(crate::protocol::low_byte(extra_data) == (raw / 0x100) % 0x100);
            assert(device_id == raw % 0x100);
            assert(scan.found.push(
                (scan.ids[scan.at as int], crate::protocol::status_frame(r.0, r.1)),
            ).drop_last() =~= scan.found);
        },
        None => {},
    }
}

/// A byte that prints stands for itself in a dump, every other one as a dot.
pub proof fn law_printable(byte: u8)
    ensures
        32 <= byte < 127 ==> printable(byte) as int == byte,
        byte < 32 || byte >= 127 ==> printable(byte) == '.',
{
}

/// A dump is shown as text exactly if there are bytes and all of them are ASCII. Its summary
/// tells how many there are, and without any what can be the cause.
pub proof fn law_dump_judged(bytes: Seq<u8>)
    ensures
        ({
            let (lines, shown) = dump_summary(bytes);
            &&& shown <==> bytes.len() > 0 && forall|i: int|
                0 <= i < bytes.len() ==> #[trigger] bytes[i] <= 127
            &&& bytes.len() > 0 ==> lines[0] == "\n  Total: "@ + crate::text::decimal(bytes.len())
                + " bytes received"@
            &&& bytes.len() == 0 ==> lines.len() == 5 && lines[0]
                == "\n  No data received from serial port."@
            &&& shown ==> lines.len() == 2 && lines[1]
                == "  Format: Looks like ASCII (possibly SLCAN compatible)"@
            &&& bytes.len() > 0 && !shown ==> lines.len() == 3 && lines[1]
                == "  Format: Binary data (NOT SLCAN - custom protocol)"@
        }),
{
}

/// A text is torn exactly where it would be cut before a byte that goes on with a character:
/// one whose two highest bits are 1 and 0. At its end it is never torn.
pub proof fn law_torn(bytes: Seq<u8>, at: int)
    requires
        0 <= at,
    ensures
        tears(bytes, at) <==> at < bytes.len() && bytes[at] as int / 64 == 2,
{
}

} // verus!
