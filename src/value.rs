use vstd::prelude::*;
use vstd::slice::slice_to_vec;
use vstd::utf8::encode_utf8;

verus! {

/// A parameter value. Its width on the wire decides how it is read back;
/// there is no schema keyed by item id.
#[derive(Clone, Debug, PartialEq, Eq, Hash)]
pub enum Value {
    Empty,
    U8(u8),
    I8(i8),
    U16(u16),
    I16(i16),
    U32(u32),
    I32(i32),
    Ascii(String),
    Other(Vec<u8>),
}

/// The mathematical model of a `Value`.
pub ghost enum ValueView {
    Empty,
    U8(u8),
    I8(i8),
    U16(u16),
    I16(i16),
    U32(u32),
    I32(i32),
    Ascii(Seq<char>),
    Other(Seq<u8>),
}

impl View for Value {
    type V = ValueView;

    open spec fn view(&self) -> ValueView {
        match self {
            Value::Empty => ValueView::Empty,
            Value::U8(x) => ValueView::U8(*x),
            Value::I8(x) => ValueView::I8(*x),
            Value::U16(x) => ValueView::U16(*x),
            Value::I16(x) => ValueView::I16(*x),
            Value::U32(x) => ValueView::U32(*x),
            Value::I32(x) => ValueView::I32(*x),
            Value::Ascii(s) => ValueView::Ascii(s@),
            Value::Other(b) => ValueView::Other(b@),
        }
    }
}

impl Default for Value {
    fn default() -> (r: Value)
        ensures
            r@ == ValueView::Empty,
    {
        Value::Empty
    }
}

/// A 16-bit number read from two bytes, least significant first.
pub open spec fn le16(b: Seq<u8>) -> u16 {
    (b[0] + 256 * b[1]) as u16
}

/// A 32-bit number read from four bytes, least significant first.
pub open spec fn le32(b: Seq<u8>) -> u32 {
    (b[0] + 256 * b[1] + 65536 * b[2] + 16777216 * b[3]) as u32
}

/// The two bytes of a 16-bit number, least significant first.
pub open spec fn u16_bytes(x: u16) -> Seq<u8> {
    seq![(x % 256) as u8, (x / 256) as u8]
}

/// The four bytes of a 32-bit number, least significant first.
pub open spec fn u32_bytes(x: u32) -> Seq<u8> {
    seq![(x % 256) as u8, (x / 256 % 256) as u8, (x / 65536 % 256) as u8, (x / 16777216) as u8]
}

/// The value that a payload of a given width is read as.
pub open spec fn guess_spec(b: Seq<u8>) -> ValueView {
    if b.len() == 0 {
        ValueView::Empty
    } else if b.len() == 1 {
        ValueView::U8(b[0])
    } else if b.len() == 2 {
        ValueView::U16(le16(b))
    } else if b.len() == 4 {
        ValueView::U32(le32(b))
    } else {
        ValueView::Other(b)
    }
}

/// The bytes that a value is written as: its natural width, least
/// significant byte first; text as its UTF-8 bytes; raw bytes as they are.
pub open spec fn value_bytes(v: ValueView) -> Seq<u8> {
    match v {
        ValueView::Empty => Seq::empty(),
        ValueView::U8(x) => seq![x],
        ValueView::I8(x) => seq![x as u8],
        ValueView::U16(x) => u16_bytes(x),
        ValueView::I16(x) => u16_bytes(x as u16),
        ValueView::U32(x) => u32_bytes(x),
        ValueView::I32(x) => u32_bytes(x as u32),
        ValueView::Ascii(s) => encode_utf8(s),
        ValueView::Other(b) => b,
    }
}

/// Appends bytes to a vector.
fn append_bytes(vec: &mut Vec<u8>, bytes: &[u8])
    ensures
        final(vec)@ == old(vec)@ + bytes@,
{
    let mut i: usize = 0;
    while i < bytes.len()
        invariant
            i <= bytes@.len(),
            vec@ == old(vec)@ + bytes@.take(i as int),
        decreases bytes@.len() - i,
    {
        vec.push(bytes[i]);
        i += 1;
        proof {
            assert(bytes@.take(i as int) =~= bytes@.take(i - 1).push(bytes@[i - 1]));
            assert(old(vec)@ + bytes@.take(i as int) =~= old(vec)@ + bytes@.take(i - 1) + seq![
                bytes@[i - 1],
            ]);
        }
    }
    proof {
        assert(bytes@.take(i as int) =~= bytes@);
    }
}

/// Appends the two bytes of a 16-bit number, least significant first.
pub(crate) fn push_u16(vec: &mut Vec<u8>, x: u16)
    ensures
        final(vec)@ == old(vec)@ + u16_bytes(x),
{
    vec.push((x % 256) as u8);
    vec.push((x / 256) as u8);
    assert(final(vec)@ =~= old(vec)@ + u16_bytes(x));
}

/// Appends the four bytes of a 32-bit number, least significant first.
fn push_u32(vec: &mut Vec<u8>, x: u32)
    ensures
        final(vec)@ == old(vec)@ + u32_bytes(x),
{
    vec.push((x % 256) as u8);
    vec.push((x / 256 % 256) as u8);
    vec.push((x / 65536 % 256) as u8);
    vec.push((x / 16777216) as u8);
    assert(final(vec)@ =~= old(vec)@ + u32_bytes(x));
}

impl Value {
    /// Reads a payload by its width alone: 0 bytes are `Empty`, 1 byte `U8`,
    /// 2 bytes `U16` and 4 bytes `U32` (least significant byte first); any
    /// other width is kept as raw bytes in `Other`.
    pub fn guess(value: &[u8]) -> (r: Value)
        ensures
            r@ == guess_spec(value@),
    {
        let n = value.len();
        if n == 0 {
            Value::Empty
        } else if n == 1 {
            Value::U8(value[0])
        } else if n == 2 {
            Value::U16(value[0] as u16 + value[1] as u16 * 256)
        } else if n == 4 {
            Value::U32(
                value[0] as u32 + value[1] as u32 * 256 + value[2] as u32 * 65536 + value[3] as u32
                    * 16777216,
            )
        } else {
            Value::Other(slice_to_vec(value))
        }
    }

    /// Appends the value's bytes to `vec`.
    pub fn ser(&self, vec: &mut Vec<u8>)
        ensures
            final(vec)@ == old(vec)@ + value_bytes(self@),
    {
        match self {
            Value::Empty => {
                assert(final(vec)@ =~= old(vec)@ + value_bytes(self@));
            },
            Value::U8(v) => {
                vec.push(*v);
                assert(final(vec)@ =~= old(vec)@ + value_bytes(self@));
            },
            Value::I8(v) => {
                vec.push(*v as u8);
                assert(final(vec)@ =~= old(vec)@ + value_bytes(self@));
            },
            Value::U16(v) => push_u16(vec, *v),
            Value::I16(v) => push_u16(vec, *v as u16),
            Value::U32(v) => push_u32(vec, *v),
            Value::I32(v) => push_u32(vec, *v as u32),
            Value::Ascii(v) => append_bytes(vec, v.as_str().as_bytes()),
            Value::Other(v) => append_bytes(vec, v.as_slice()),
        }
    }
}

/// Writing a value and reading the bytes back by width gives the same
/// bits: a number of width 1, 2 or 4 comes back as the unsigned number of
/// that width with the same bits, and bytes of any other width come back
/// as they were. Writing the result again gives the same bytes.
pub proof fn lemma_guess_of_value_bytes(v: ValueView)
    ensures
        value_bytes(guess_spec(value_bytes(v))) == value_bytes(v),
        v matches ValueView::U8(x) ==> guess_spec(value_bytes(v)) == ValueView::U8(x),
        v matches ValueView::I8(x) ==> guess_spec(value_bytes(v)) == ValueView::U8(x as u8),
        v matches ValueView::U16(x) ==> guess_spec(value_bytes(v)) == ValueView::U16(x),
        v matches ValueView::I16(x) ==> guess_spec(value_bytes(v)) == ValueView::U16(x as u16),
        v matches ValueView::U32(x) ==> guess_spec(value_bytes(v)) == ValueView::U32(x),
        v matches ValueView::I32(x) ==> guess_spec(value_bytes(v)) == ValueView::U32(x as u32),
        v is Empty ==> guess_spec(value_bytes(v)) == ValueView::Empty,
        v matches ValueView::Other(b) ==> guess_spec(value_bytes(v)) == guess_spec(b),
{
    lemma_bytes_guess_bytes(value_bytes(v));
    match v {
        ValueView::U16(x) => lemma_u16_bytes(x),
        ValueView::I16(x) => lemma_u16_bytes(x as u16),
        ValueView::U32(x) => lemma_u32_bytes(x),
        ValueView::I32(x) => lemma_u32_bytes(x as u32),
        _ => {},
    }
}

proof fn lemma_u16_bytes(x: u16)
    ensures
        le16(u16_bytes(x)) == x,
{
}

proof fn lemma_u32_bytes(x: u32)
    ensures
        le32(u32_bytes(x)) == x,
{
    let b = u32_bytes(x);
    assert(b[0] + 256 * b[1] + 65536 * b[2] + 16777216 * b[3] == x) by (nonlinear_arith)
        requires
            b[0] == x % 256,
            b[1] == x / 256 % 256,
            b[2] == x / 65536 % 256,
            b[3] == x / 16777216,
            x < 0x1_0000_0000,
    ;
}

/// Reading bytes by width and writing the result gives the same bytes.
pub proof fn lemma_bytes_guess_bytes(b: Seq<u8>)
    ensures
        value_bytes(guess_spec(b)) == b,
{
    if b.len() == 0 {
        assert(value_bytes(guess_spec(b)) =~= b);
    } else if b.len() == 1 {
        assert(value_bytes(guess_spec(b)) =~= b);
    } else if b.len() == 2 {
        assert(value_bytes(guess_spec(b)) =~= b);
    } else if b.len() == 4 {
        let x = le32(b);
        assert(x / 256 % 256 == b[1] && x / 65536 % 256 == b[2] && x / 16777216 == b[3]
            && x % 256 == b[0]) by (nonlinear_arith)
            requires
                x == b[0] + 256 * b[1] + 65536 * b[2] + 16777216 * b[3],
                0 <= b[0] < 256,
                0 <= b[1] < 256,
                0 <= b[2] < 256,
                0 <= b[3] < 256,
        ;
        assert(value_bytes(guess_spec(b)) =~= b);
    }
}

} // verus!
