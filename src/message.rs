use vstd::prelude::*;
use vstd::slice::slice_subrange;
use crate::error::Error;
use crate::frame::{
    byte_sum, checksum_of, decode_spec, encode_spec, frame_valid, lemma_round_trip, sum8, Frame,
};
use crate::ids::{
    command_code, error_of_code, flag_bits_known, item_code, item_of_code, response_of_code,
    CommandId, ErrorId, Flags, ItemId, ResponseId,
};
use crate::value::{guess_spec, le16, push_u16, u16_bytes, value_bytes, Value, ValueView};

verus! {

/// A request to the device.
#[derive(Clone, Debug, PartialEq, Eq)]
pub enum Command {
    Boot,
    Ping,
    Version,
    Product,
    Restart,
    /// Read an item.
    Get { item: ItemId, flags: Flags },
    /// Write an item.
    SetValue { item: ItemId, flags: Flags, value: Value },
    /// Report an item without being asked.
    Async { item: ItemId, flags: Flags, value: Value },
}

/// The type code of each command.
pub open spec fn command_id(c: Command) -> CommandId {
    match c {
        Command::Boot => CommandId::Boot,
        Command::Ping => CommandId::Ping,
        Command::Version => CommandId::Version,
        Command::Product => CommandId::Product,
        Command::Restart => CommandId::Restart,
        Command::Get { .. } => CommandId::Get,
        Command::SetValue { .. } => CommandId::SetValue,
        Command::Async { .. } => CommandId::Async,
    }
}

/// What follows a command's type code: for item commands the item id (two
/// bytes, least significant first), the flags byte and, where there is one,
/// the value's bytes.
pub open spec fn command_payload(c: Command) -> Seq<u8> {
    match c {
        Command::Get { item, flags } => u16_bytes(item_code(item)) + seq![flags@],
        Command::SetValue { item, flags, value } => u16_bytes(item_code(item)) + seq![flags@]
            + value_bytes(value@),
        Command::Async { item, flags, value } => u16_bytes(item_code(item)) + seq![flags@]
            + value_bytes(value@),
        _ => Seq::empty(),
    }
}

/// The byte that brings the checksum of `body` plus that byte to 0x55.
pub open spec fn check_byte(body: Seq<u8>) -> u8 {
    ((0x155 - checksum_of(body)) % 256) as u8
}

/// The raw frame of a command: type code, payload, check byte.
pub open spec fn command_frame(c: Command) -> Seq<u8> {
    let body = seq![command_code(command_id(c))] + command_payload(c);
    body.push(check_byte(body))
}

impl Command {
    /// The command's type code.
    pub fn id(&self) -> (r: CommandId)
        ensures
            r == command_id(*self),
    {
        match self {
            Command::Boot => CommandId::Boot,
            Command::Ping => CommandId::Ping,
            Command::Version => CommandId::Version,
            Command::Product => CommandId::Product,
            Command::Restart => CommandId::Restart,
            Command::Get { .. } => CommandId::Get,
            Command::SetValue { .. } => CommandId::SetValue,
            Command::Async { .. } => CommandId::Async,
        }
    }

    /// The raw frame of the command, its checksum completed to 0x55.
    pub fn as_frame(&self) -> (r: Frame)
        ensures
            r@ == command_frame(*self),
            checksum_of(r@) == 0x55,
    {
        let mut d: Vec<u8> = Vec::new();
        d.push(self.id().code());
        match self {
            Command::Get { item, flags } => {
                push_u16(&mut d, item.code());
                d.push(flags.bits());
            },
            Command::SetValue { item, flags, value } => {
                push_u16(&mut d, item.code());
                d.push(flags.bits());
                value.ser(&mut d);
            },
            Command::Async { item, flags, value } => {
                push_u16(&mut d, item.code());
                d.push(flags.bits());
                value.ser(&mut d);
            },
            _ => {},
        }
        assert(d@ =~= seq![command_code(command_id(*self))] + command_payload(*self));
        let c = sum8(&d);
        let k = ((0x155u16 - c as u16) % 256) as u8;
        proof {
            lemma_check_byte(d@);
        }
        d.push(k);
        Frame::from_data(d)
    }

    /// A read of `item` with no flags set.
    pub fn get(item: ItemId) -> (r: Command)
        ensures
            r matches Command::Get { item: i, flags } && i == item && flags@ == 0,
    {
        Command::Get { item, flags: Flags::empty() }
    }
}

/// The sum of a byte sequence is never negative.
proof fn lemma_byte_sum_nonneg(s: Seq<u8>)
    ensures
        byte_sum(s) >= 0,
    decreases s.len(),
{
    if s.len() > 0 {
        lemma_byte_sum_nonneg(s.drop_last());
    }
}

/// Appending the check byte brings the checksum to 0x55.
pub proof fn lemma_check_byte(body: Seq<u8>)
    ensures
        checksum_of(body.push(check_byte(body))) == 0x55,
{
    let f = body.push(check_byte(body));
    assert(f.drop_last() =~= body);
    lemma_byte_sum_nonneg(body);
    let s = byte_sum(body);
    let k = (0x155 - s % 256) % 256;
    assert((s + k) % 256 == 0x55) by (nonlinear_arith)
        requires
            s >= 0,
            k == (0x155 - s % 256) % 256,
    ;
}

/// Every frame built from a command has checksum 0x55.
pub proof fn lemma_command_checksum(c: Command)
    ensures
        checksum_of(command_frame(c)) == 0x55,
        frame_valid(command_frame(c)),
{
    lemma_check_byte(seq![command_code(command_id(c))] + command_payload(c));
}

/// A reply from the device.
#[derive(Clone, Debug, PartialEq, Eq)]
pub enum Response {
    Done(Value),
    Unknown(Value),
    Error(ErrorId),
    Ping { flags: u8, major: u8, minor: u8 },
    /// The value of an item, as the echo of a read or write or pushed unasked;
    /// `typ` says which.
    Update { typ: ResponseId, item: ItemId, flags: Flags, value: Value },
}

/// The mathematical model of a `Response`.
pub ghost enum ResponseView {
    Done(ValueView),
    Unknown(ValueView),
    Error(ErrorId),
    Ping { flags: u8, major: u8, minor: u8 },
    Update { typ: ResponseId, item: ItemId, flags: u8, value: ValueView },
}

impl View for Response {
    type V = ResponseView;

    open spec fn view(&self) -> ResponseView {
        match self {
            Response::Done(v) => ResponseView::Done(v@),
            Response::Unknown(v) => ResponseView::Unknown(v@),
            Response::Error(e) => ResponseView::Error(*e),
            Response::Ping { flags, major, minor } => ResponseView::Ping {
                flags: *flags,
                major: *major,
                minor: *minor,
            },
            Response::Update { typ, item, flags, value } => ResponseView::Update {
                typ: *typ,
                item: *item,
                flags: flags@,
                value: value@,
            },
        }
    }
}

/// A byte of two binary-coded decimal digits as a number.
pub open spec fn bcd_value(b: u8) -> u8 {
    ((b & 0xFu8) + 10 * (b >> 4u8)) as u8
}

/// A byte of two binary-coded decimal digits as a number.
pub fn bcd_to_bin(c: u8) -> (r: u8)
    ensures
        r == bcd_value(c),
{
    let lo = c & 0xF;
    let hi = c >> 4;
    assert(c & 0xFu8 < 16 && c >> 4u8 < 16) by (bit_vector);
    lo + 10 * hi
}

/// The payload of a frame: what lies between the type code and the check byte.
pub open spec fn payload_of(d: Seq<u8>) -> Seq<u8> {
    d.subrange(1, d.len() - 1)
}

/// What an item response's payload says: item id, flags byte, value.
pub open spec fn parse_update(typ: ResponseId, p: Seq<u8>) -> Result<ResponseView, Error> {
    if p.len() < 2 {
        Err(Error::Slice)
    } else {
        match item_of_code(le16(p)) {
            None => Err(Error::Item(le16(p))),
            Some(item) => if p.len() < 3 {
                Err(Error::Slice)
            } else if !flag_bits_known(p[2]) {
                Err(Error::Flags(p[2]))
            } else {
                Ok(
                    ResponseView::Update {
                        typ,
                        item,
                        flags: p[2],
                        value: guess_spec(p.subrange(3, p.len() as int)),
                    },
                )
            },
        }
    }
}

/// The response that a raw frame holds.
pub open spec fn parse_spec(d: Seq<u8>) -> Result<ResponseView, Error> {
    if !frame_valid(d) || d.len() < 2 {
        Err(Error::Checksum)
    } else {
        let p = payload_of(d);
        match response_of_code(d[0]) {
            None => Err(Error::Response(d[0])),
            Some(ResponseId::Done) => Ok(ResponseView::Done(guess_spec(p))),
            Some(ResponseId::Unknown) => Ok(ResponseView::Unknown(guess_spec(p))),
            Some(ResponseId::Error) => if p.len() < 2 {
                Err(Error::Slice)
            } else {
                match error_of_code(le16(p)) {
                    None => Err(Error::Error(le16(p))),
                    Some(e) => Ok(ResponseView::Error(e)),
                }
            },
            Some(ResponseId::Ping) => if p.len() < 2 {
                Err(Error::Slice)
            } else {
                Ok(ResponseView::Ping { flags: p[1] >> 4u8, major: p[1] & 0xFu8, minor: bcd_value(p[0]) })
            },
            Some(typ) => parse_update(typ, p),
        }
    }
}

/// A 16-bit number from the first two bytes, least significant first.
fn read_u16(p: &[u8]) -> (r: u16)
    requires
        p@.len() >= 2,
    ensures
        r == le16(p@),
{
    p[0] as u16 + p[1] as u16 * 256
}

impl Response {
    /// Parses a raw frame. Fails with `Checksum` unless the frame is valid
    /// and holds a check byte after its type code; with `Response`, `Error`
    /// or `Item` on an unknown code; with `Slice` where the payload is too
    /// short for a fixed-width field; with `Flags` on unknown flag bits.
    pub fn try_from(frame: &Frame) -> (r: Result<Response, Error>)
        ensures
            match parse_spec(frame@) {
                Ok(v) => r matches Ok(x) && x@ == v,
                Err(e) => r matches Err(x) && x == e,
            },
    {
        if !frame.valid() || frame.len() < 2 {
            return Err(Error::Checksum);
        }
        let bytes = frame.as_bytes();
        let n = bytes.len();
        let p = slice_subrange(bytes, 1, n - 1);
        assert(p@ == payload_of(frame@));
        let typ = match ResponseId::from_code(bytes[0]) {
            Some(t) => t,
            None => return Err(Error::Response(bytes[0])),
        };
        match typ {
            ResponseId::Done => Ok(Response::Done(Value::guess(p))),
            ResponseId::Unknown => Ok(Response::Unknown(Value::guess(p))),
            ResponseId::Error => {
                if p.len() < 2 {
                    return Err(Error::Slice);
                }
                let code = read_u16(p);
                match ErrorId::from_code(code) {
                    Some(e) => Ok(Response::Error(e)),
                    None => Err(Error::Error(code)),
                }
            },
            ResponseId::Ping => {
                if p.len() < 2 {
                    return Err(Error::Slice);
                }
                Ok(Response::Ping { flags: p[1] >> 4, major: p[1] & 0xF, minor: bcd_to_bin(p[0]) })
            },
            _ => {
                if p.len() < 2 {
                    return Err(Error::Slice);
                }
                let code = read_u16(p);
                let item = match ItemId::from_code(code) {
                    Some(i) => i,
                    None => return Err(Error::Item(code)),
                };
                if p.len() < 3 {
                    return Err(Error::Slice);
                }
                let flags = match Flags::from_bits(p[2]) {
                    Some(f) => f,
                    None => return Err(Error::Flags(p[2])),
                };
                let rest = slice_subrange(p, 3, p.len());
                Ok(Response::Update { typ, item, flags, value: Value::guess(rest) })
            },
        }
    }
}


/// Every command survives the wire: its frame, encoded and decoded again,
/// is the same frame.
pub proof fn lemma_command_round_trip(c: Command)
    ensures
        decode_spec(encode_spec(command_frame(c))) == Ok::<Seq<u8>, Error>(command_frame(c)),
{
    lemma_command_checksum(c);
    assert(command_frame(c)[0] == command_code(command_id(c)));
    lemma_round_trip(command_frame(c));
}

/// An item response whose item id is not a known one is refused with
/// `Item` and that id, whatever the rest of the frame holds.
pub proof fn lemma_unknown_item_rejected(d: Seq<u8>)
    requires
        frame_valid(d),
        d.len() >= 4,
        response_of_code(d[0]) matches Some(t) && (t == ResponseId::Get || t
            == ResponseId::SetValue || t == ResponseId::Async),
        item_of_code(le16(payload_of(d))) is None,
    ensures
        parse_spec(d) == Err::<ResponseView, Error>(Error::Item(le16(payload_of(d)))),
{
}

} // verus!
