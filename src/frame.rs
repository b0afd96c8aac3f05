use vstd::prelude::*;
use crate::error::Error;
use crate::hex::{digit_value, hex, hex_digit, is_hex_digit, lemma_nibble_of_hex, nibble};

verus! {

/// The sum of the bytes, as an unbounded integer.
pub open spec fn byte_sum(s: Seq<u8>) -> int
    decreases s.len(),
{
    if s.len() == 0 {
        0
    } else {
        byte_sum(s.drop_last()) + s.last()
    }
}

/// The additive checksum: the sum of all bytes, wrapped to eight bits.
pub open spec fn checksum_of(s: Seq<u8>) -> u8 {
    (byte_sum(s) % 256) as u8
}

/// A frame is valid when it holds at least one byte and its checksum is
/// 0x55 (command / response framing) or 0x00 (zero-sum framing).
pub open spec fn frame_valid(s: Seq<u8>) -> bool {
    s.len() > 0 && (checksum_of(s) == 0x55 || checksum_of(s) == 0)
}

/// The eight-bit wrap-around sum of the bytes.
pub(crate) fn sum8(d: &Vec<u8>) -> (r: u8)
    ensures
        r == checksum_of(d@),
{
    let mut acc: u8 = 0;
    let mut i: usize = 0;
    while i < d.len()
        invariant
            i <= d@.len(),
            acc == checksum_of(d@.take(i as int)),
        decreases d@.len() - i,
    {
        let b = d[i];
        proof {
            let t = d@.take(i + 1);
            assert(t.drop_last() =~= d@.take(i as int));
            assert(byte_sum(t) == byte_sum(d@.take(i as int)) + b);
        }
        acc = acc.wrapping_add(b);
        i += 1;
    }
    proof {
        assert(d@.take(i as int) =~= d@);
    }
    acc
}

/// One protocol message as raw bytes: the type code, the payload, and the
/// trailing checksum byte.
#[derive(Clone, Debug, PartialEq, Eq)]
pub struct Frame {
    data: Vec<u8>,
}

impl View for Frame {
    type V = Seq<u8>;

    closed spec fn view(&self) -> Seq<u8> {
        self.data@
    }
}

impl Default for Frame {
    fn default() -> (r: Frame)
        ensures
            r@ == Seq::<u8>::empty(),
    {
        Frame { data: Vec::new() }
    }
}

impl Frame {
    /// The bytes of the frame.
    pub fn as_bytes(&self) -> (r: &[u8])
        ensures
            r@ == self@,
    {
        self.data.as_slice()
    }

    /// A frame holding exactly these bytes.
    pub fn from_data(data: Vec<u8>) -> (r: Frame)
        ensures
            r@ == data@,
    {
        Frame { data }
    }

    /// The number of bytes in the frame.
    pub fn len(&self) -> (r: usize)
        ensures
            r == self@.len(),
    {
        self.data.len()
    }

    /// The eight-bit wrap-around sum of all bytes of the frame.
    pub fn checksum(&self) -> (r: u8)
        ensures
            r == checksum_of(self@),
    {
        sum8(&self.data)
    }

    /// Whether the frame is non-empty and its checksum is 0x55 or 0x00.
    pub fn valid(&self) -> (r: bool)
        ensures
            r == frame_valid(self@),
    {
        if self.data.len() == 0 {
            false
        } else {
            let c = self.checksum();
            c == 0x55 || c == 0
        }
    }
}


/// The states of the frame decoder.
#[derive(Clone, Copy, Debug, PartialEq, Eq, Structural)]
pub enum State {
    /// Between frames: the next byte starts a new one.
    Start,
    /// The next hex digit is the low nibble of the last buffered byte.
    LowNibble,
    /// The next hex digit is the high nibble of a new byte, or `\n` ends the frame.
    HighNibble,
    /// Inside a plain-text telemetry block.
    Text,
}

/// What a decoder holds: its state and the bytes buffered since the current
/// frame began.
pub ghost struct DeView {
    pub state: State,
    pub data: Seq<u8>,
}

/// The state of a fresh decoder.
pub open spec fn de_initial() -> DeView {
    DeView { state: State::Start, data: Seq::empty() }
}

/// The decoder's invariant: outside `Start` something is always buffered.
pub open spec fn de_wf(st: DeView) -> bool {
    st.state != State::Start ==> st.data.len() > 0
}

/// The label that ends a text telemetry block: `"\nChecksum\t"`.
pub open spec fn text_marker() -> Seq<u8> {
    seq![0x0Au8, 0x43, 0x68, 0x65, 0x63, 0x6B, 0x73, 0x75, 0x6D, 0x09]
}

/// Whether the bytes end with the text block's checksum label.
pub open spec fn ends_with_marker(s: Seq<u8>) -> bool {
    s.len() >= 10 && s.subrange(s.len() - 10, s.len() as int) == text_marker()
}

/// One step of the decoder on input byte `c`. A failed step leaves the
/// decoder as it was.
pub open spec fn de_step(st: DeView, c: u8) -> Result<DeView, Error> {
    match st.state {
        State::Start => if c == 0x3A {
            Ok(DeView { state: State::LowNibble, data: seq![0u8] })
        } else {
            Ok(DeView { state: State::Text, data: seq![c] })
        },
        State::LowNibble => if is_hex_digit(c) {
            Ok(
                DeView {
                    state: State::HighNibble,
                    data: st.data.update(st.data.len() - 1, st.data.last() | digit_value(c)),
                },
            )
        } else {
            Err(Error::Hex(c))
        },
        State::HighNibble => if c == 0x0A {
            Ok(DeView { state: State::Start, data: st.data })
        } else if is_hex_digit(c) {
            Ok(DeView { state: State::LowNibble, data: st.data.push(digit_value(c) << 4u8) })
        } else {
            Err(Error::Hex(c))
        },
        State::Text => Ok(
            DeView {
                state: if ends_with_marker(st.data) {
                    State::Start
                } else {
                    State::Text
                },
                data: st.data.push(c),
            },
        ),
    }
}

/// The decoder run over a sequence of bytes, stopping at the first error.
pub open spec fn de_run(st: DeView, bytes: Seq<u8>) -> Result<DeView, Error>
    decreases bytes.len(),
{
    if bytes.len() == 0 {
        Ok(st)
    } else {
        match de_run(st, bytes.drop_last()) {
            Ok(s) => de_step(s, bytes.last()),
            Err(e) => Err(e),
        }
    }
}

/// A decoder has completed a frame when it is back in `Start` with bytes buffered.
pub open spec fn de_done(st: DeView) -> bool {
    st.state == State::Start && st.data.len() > 0
}

/// The frame that a byte string decodes to: the bytes buffered once the
/// input is consumed, provided a frame is then complete and valid.
pub open spec fn decode_spec(bytes: Seq<u8>) -> Result<Seq<u8>, Error> {
    match de_run(de_initial(), bytes) {
        Err(e) => Err(e),
        Ok(st) => if !de_done(st) {
            Err(Error::Length)
        } else if !frame_valid(st.data) {
            Err(Error::Checksum)
        } else {
            Ok(st.data)
        },
    }
}

/// Once a run has failed, more input does not change the error.
pub proof fn lemma_run_concat(st: DeView, a: Seq<u8>, b: Seq<u8>)
    ensures
        de_run(st, a + b) == match de_run(st, a) {
            Ok(s) => de_run(s, b),
            Err(e) => Err(e),
        },
    decreases b.len(),
{
    if b.len() == 0 {
        assert(a + b =~= a);
    } else {
        assert((a + b).drop_last() =~= a + b.drop_last());
        lemma_run_concat(st, a, b.drop_last());
    }
}

/// Whether the buffer ends with the text block's checksum label.
fn ends_with_text_marker(d: &Vec<u8>) -> (r: bool)
    ensures
        r == ends_with_marker(d@),
{
    let n = d.len();
    if n < 10 {
        return false;
    }
    let r = d[n - 10] == 0x0A && d[n - 9] == 0x43 && d[n - 8] == 0x68 && d[n - 7] == 0x65
        && d[n - 6] == 0x63 && d[n - 5] == 0x6B && d[n - 4] == 0x73 && d[n - 3] == 0x75
        && d[n - 2] == 0x6D && d[n - 1] == 0x09;
    proof {
        let t = d@.subrange(n - 10, n as int);
        if r {
            assert(t =~= text_marker());
        } else {
            assert(t != text_marker()) by {
                if t == text_marker() {
                    assert(t[0] == text_marker()[0] && t[1] == text_marker()[1]);
                    assert(t[2] == text_marker()[2] && t[3] == text_marker()[3]);
                    assert(t[4] == text_marker()[4] && t[5] == text_marker()[5]);
                    assert(t[6] == text_marker()[6] && t[7] == text_marker()[7]);
                    assert(t[8] == text_marker()[8] && t[9] == text_marker()[9]);
                }
            }
        }
    }
    r
}

/// Streaming decoder: takes the input one byte at a time and builds a frame
/// from either a hex frame (`:` ... `\n`) or a text telemetry block.
#[derive(Debug)]
pub struct FrameDe {
    frame: Frame,
    state: State,
}

impl View for FrameDe {
    type V = DeView;

    closed spec fn view(&self) -> DeView {
        DeView { state: self.state, data: self.frame@ }
    }
}

impl FrameDe {
    /// A decoder with nothing buffered.
    pub fn new() -> (r: FrameDe)
        ensures
            r@ == de_initial(),
            de_wf(r@),
    {
        FrameDe { frame: Frame::default(), state: State::Start }
    }

    /// Feeds one byte to the decoder. On a byte that is not a hex digit where
    /// one is expected, fails with `Error::Hex` and leaves the decoder as it was.
    pub fn push(&mut self, c: u8) -> (r: Result<(), Error>)
        requires
            de_wf(old(self)@),
        ensures
            de_wf(final(self)@),
            match de_step(old(self)@, c) {
                Ok(st) => r is Ok && final(self)@ == st,
                Err(e) => r == Err::<(), Error>(e) && final(self)@ == old(self)@,
            },
    {
        match self.state {
            State::Start => {
                self.frame.data.clear();
                if c == 0x3A {
                    self.frame.data.push(0);
                    self.state = State::LowNibble;
                } else {
                    self.frame.data.push(c);
                    self.state = State::Text;
                }
            },
            State::LowNibble => {
                let n = nibble(c)?;
                let last = self.frame.data.len() - 1;
                let x = self.frame.data[last] | n;
                self.frame.data.set(last, x);
                self.state = State::HighNibble;
            },
            State::HighNibble => {
                if c == 0x0A {
                    self.state = State::Start;
                } else {
                    let n = nibble(c)?;
                    self.frame.data.push(n << 4u8);
                    self.state = State::LowNibble;
                }
            },
            State::Text => {
                if ends_with_text_marker(&self.frame.data) {
                    self.state = State::Start;
                }
                self.frame.data.push(c);
            },
        }
        Ok(())
    }

    /// Whether a frame is complete: the decoder is back in `Start` and has
    /// buffered at least one byte since the last completion.
    pub fn done(&self) -> (r: bool)
        ensures
            r == de_done(self@),
    {
        self.state == State::Start && self.frame.data.len() > 0
    }

    /// The frame buffered so far.
    pub fn frame(&self) -> (r: &Frame)
        ensures
            r@ == self@.data,
    {
        &self.frame
    }

    /// Ends decoding and hands out the buffered frame.
    pub fn into_frame(self) -> (r: Frame)
        ensures
            r@ == self@.data,
    {
        self.frame
    }
}

impl Frame {
    /// Starts decoding into this frame; what it held is dropped.
    pub fn de(self) -> (r: FrameDe)
        ensures
            r@ == de_initial(),
            de_wf(r@),
    {
        let mut frame = self;
        frame.data.clear();
        FrameDe { frame, state: State::Start }
    }

    /// Decodes a byte string that holds one complete, valid frame at its end.
    pub fn try_from(value: &[u8]) -> (r: Result<Frame, Error>)
        ensures
            match decode_spec(value@) {
                Ok(d) => r matches Ok(f) && f@ == d,
                Err(e) => r matches Err(x) && x == e,
            },
    {
        let mut d = FrameDe::new();
        let mut i: usize = 0;
        while i < value.len()
            invariant
                i <= value@.len(),
                de_wf(d@),
                de_run(de_initial(), value@.take(i as int)) == Ok::<DeView, Error>(d@),
            decreases value@.len() - i,
        {
            proof {
                assert(value@.take(i + 1).drop_last() =~= value@.take(i as int));
            }
            let pushed = d.push(value[i]);
            if let Err(e) = pushed {
                proof {
                    assert(de_run(de_initial(), value@.take(i + 1)) == Err::<DeView, Error>(e));
                    lemma_run_concat(de_initial(), value@.take(i + 1), value@.skip(i + 1));
                    assert(value@.take(i + 1) + value@.skip(i + 1) =~= value@);
                }
                return Err(e);
            }
            i += 1;
        }
        proof {
            assert(value@.take(i as int) =~= value@);
        }
        if !d.done() {
            return Err(Error::Length);
        }
        let f = d.into_frame();
        if !f.valid() {
            Err(Error::Checksum)
        } else {
            Ok(f)
        }
    }
}


/// The two hex digits, high nibble first, of each byte in turn.
pub open spec fn hex_pairs(s: Seq<u8>) -> Seq<u8>
    decreases s.len(),
{
    if s.len() == 0 {
        Seq::empty()
    } else {
        hex_pairs(s.drop_last()) + seq![hex_digit(s.last() >> 4u8), hex_digit(s.last() & 0xFu8)]
    }
}

/// The wire form of a frame: `:`, the low nibble of the type code, two
/// digits for each further byte, then `\n`.
pub open spec fn encode_spec(d: Seq<u8>) -> Seq<u8> {
    seq![0x3Au8, hex_digit(d[0] & 0xFu8)] + hex_pairs(d.drop_first()) + seq![0x0Au8]
}

/// Where each digit of `hex_pairs` comes from.
pub proof fn lemma_hex_pairs(s: Seq<u8>)
    ensures
        hex_pairs(s).len() == 2 * s.len(),
        forall|k: int|
            0 <= k < s.len() ==> hex_pairs(s)[2 * k] == hex_digit(s[k] >> 4u8) && hex_pairs(s)[2
                * k + 1] == hex_digit(s[k] & 0xFu8),
    decreases s.len(),
{
    if s.len() > 0 {
        let t = s.drop_last();
        lemma_hex_pairs(t);
        let h = hex_pairs(s);
        assert forall|k: int| 0 <= k < s.len() implies h[2 * k] == hex_digit(s[k] >> 4u8) && h[2
            * k + 1] == hex_digit(s[k] & 0xFu8) by {
            if k < t.len() {
                assert(t[k] == s[k]);
                assert(h[2 * k] == hex_pairs(t)[2 * k]);
                assert(h[2 * k + 1] == hex_pairs(t)[2 * k + 1]);
            }
        }
    }
}

/// The length of a frame's wire form and where each of its bytes comes from.
pub proof fn lemma_encode_index(d: Seq<u8>)
    requires
        d.len() > 0,
    ensures
        encode_spec(d).len() == 2 * d.len() + 1,
        encode_spec(d)[0] == 0x3A,
        encode_spec(d)[1] == hex_digit(d[0] & 0xFu8),
        encode_spec(d)[2 * d.len() as int] == 0x0A,
        forall|p: int|
            1 <= p < d.len() ==> encode_spec(d)[2 * p] == hex_digit(d[p] >> 4u8) && encode_spec(
                d,
            )[2 * p + 1] == hex_digit(d[p] & 0xFu8),
{
    let r = d.drop_first();
    lemma_hex_pairs(r);
    assert forall|p: int| 1 <= p < d.len() implies encode_spec(d)[2 * p] == hex_digit(
        d[p] >> 4u8,
    ) && encode_spec(d)[2 * p + 1] == hex_digit(d[p] & 0xFu8) by {
        assert(r[p - 1] == d[p]);
        assert(2 * p == 2 * (p - 1) + 2);
    }
}

/// Serializer: hands out the wire form of a frame one byte at a time.
#[derive(Debug)]
pub struct FrameSer<'a> {
    frame: &'a Frame,
    pos: usize,
    state: State,
}

impl<'a> FrameSer<'a> {
    /// The bytes of the frame being serialized.
    pub closed spec fn source(&self) -> Seq<u8> {
        self.frame@
    }

    /// How many bytes of the wire form have been handed out.
    pub closed spec fn emitted(&self) -> int {
        match self.state {
            State::Start => if self.pos == 0 {
                0
            } else {
                2 * self.source().len() as int + 1
            },
            State::LowNibble => 2 * self.pos + 1,
            _ => 2 * self.pos,
        }
    }

    /// The serializer's invariant.
    pub closed spec fn wf(&self) -> bool {
        let n = self.source().len();
        &&& n > 0
        &&& match self.state {
            State::Start => self.pos == 0 || self.pos == n,
            State::LowNibble => self.pos < n,
            State::HighNibble => 1 <= self.pos <= n,
            State::Text => false,
        }
    }

    /// The next byte of the wire form, or `None` once it has all been handed out.
    pub fn next(&mut self) -> (r: Option<u8>)
        requires
            old(self).wf(),
        ensures
            final(self).wf(),
            final(self).source() == old(self).source(),
            0 <= old(self).emitted() <= encode_spec(old(self).source()).len(),
            old(self).emitted() < encode_spec(old(self).source()).len() ==> r == Some(
                encode_spec(old(self).source())[old(self).emitted()],
            ) && final(self).emitted() == old(self).emitted() + 1,
            old(self).emitted() == encode_spec(old(self).source()).len() ==> r is None
                && final(self).emitted() == old(self).emitted(),
    {
        proof {
            lemma_encode_index(self.frame@);
        }
        let n = self.frame.data.len();
        match self.state {
            State::Start => {
                if self.pos > 0 {
                    return None;
                }
                self.state = State::LowNibble;
                Some(0x3A)
            },
            State::LowNibble => {
                let b = self.frame.data[self.pos];
                assert((b & 0xFu8) < 16) by (bit_vector);
                let d = hex(b & 0xF).unwrap();
                self.state = State::HighNibble;
                self.pos += 1;
                Some(d)
            },
            State::HighNibble => {
                if self.pos == n {
                    self.state = State::Start;
                    Some(0x0A)
                } else {
                    let b = self.frame.data[self.pos];
                    assert((b >> 4u8) < 16) by (bit_vector);
                    let d = hex(b >> 4).unwrap();
                    self.state = State::LowNibble;
                    Some(d)
                }
            },
            State::Text => None,
        }
    }
}

impl Frame {
    /// A serializer over this frame's wire form.
    pub fn ser(&self) -> (r: FrameSer)
        requires
            self@.len() > 0,
        ensures
            r.wf(),
            r.source() == self@,
            r.emitted() == 0,
    {
        FrameSer { frame: self, pos: 0, state: State::Start }
    }

    /// The whole wire form of the frame.
    pub fn encode(&self) -> (r: Vec<u8>)
        requires
            self@.len() > 0,
        ensures
            r@ == encode_spec(self@),
    {
        let mut it = self.ser();
        let mut out: Vec<u8> = Vec::new();
        proof {
            lemma_encode_index(self@);
        }
        loop
            invariant
                it.wf(),
                it.source() == self@,
                0 <= it.emitted() <= encode_spec(self@).len(),
                out@ == encode_spec(self@).take(it.emitted()),
            decreases encode_spec(self@).len() - it.emitted(),
        {
            let before = Ghost(it.emitted());
            match it.next() {
                Some(b) => {
                    proof {
                        assert(encode_spec(self@).take(before@ + 1) =~= encode_spec(self@).take(
                            before@,
                        ).push(b));
                    }
                    out.push(b);
                },
                None => {
                    proof {
                        assert(encode_spec(self@).take(it.emitted()) =~= encode_spec(self@));
                    }
                    return out;
                },
            }
        }
    }
}


/// Two hex digits read after a completed byte add one byte to the buffer.
proof fn lemma_run_pair(x: Seq<u8>, b: u8)
    requires
        x.len() > 0,
    ensures
        de_run(
            DeView { state: State::HighNibble, data: x },
            seq![hex_digit(b >> 4u8), hex_digit(b & 0xFu8)],
        ) == Ok::<DeView, Error>(DeView { state: State::HighNibble, data: x.push(b) }),
{
    let hi = b >> 4u8;
    let lo = b & 0xFu8;
    assert(hi < 16 && lo < 16) by (bit_vector)
        requires
            hi == b >> 4u8,
            lo == b & 0xFu8,
    ;
    assert(((hi << 4u8) | lo) == b) by (bit_vector)
        requires
            hi == b >> 4u8,
            lo == b & 0xFu8,
    ;
    lemma_nibble_of_hex(hi);
    lemma_nibble_of_hex(lo);
    let p = seq![hex_digit(hi), hex_digit(lo)];
    let q = seq![hex_digit(hi)];
    let st0 = DeView { state: State::HighNibble, data: x };
    let st1 = DeView { state: State::LowNibble, data: x.push(hi << 4u8) };
    assert(p.drop_last() =~= q);
    assert(q.drop_last() =~= Seq::<u8>::empty());
    assert(de_run(st0, Seq::<u8>::empty()) == Ok::<DeView, Error>(st0));
    assert(de_run(st0, q) == de_step(st0, hex_digit(hi)));
    assert(de_step(st0, hex_digit(hi)) == Ok::<DeView, Error>(st1));
    assert(de_run(st0, p) == de_step(st1, hex_digit(lo)));
    assert(x.push(hi << 4u8).update(x.len() as int, b) =~= x.push(b));
}

/// The digit pairs of a byte sequence, read after a completed byte, append
/// exactly those bytes.
proof fn lemma_run_pairs(x: Seq<u8>, s: Seq<u8>)
    requires
        x.len() > 0,
    ensures
        de_run(DeView { state: State::HighNibble, data: x }, hex_pairs(s)) == Ok::<DeView, Error>(
            DeView { state: State::HighNibble, data: x + s },
        ),
    decreases s.len(),
{
    let st = DeView { state: State::HighNibble, data: x };
    if s.len() == 0 {
        assert(x + s =~= x);
    } else {
        let t = s.drop_last();
        lemma_run_pairs(x, t);
        lemma_run_concat(
            st,
            hex_pairs(t),
            seq![hex_digit(s.last() >> 4u8), hex_digit(s.last() & 0xFu8)],
        );
        lemma_run_pair(x + t, s.last());
        assert((x + t).push(s.last()) =~= x + s);
    }
}

/// From any point between frames, the decoder reads the wire form of a frame
/// back into that frame. So a frame that follows a completed one is decoded
/// on its own, whatever came before.
pub proof fn lemma_decode_encoded(st: DeView, d: Seq<u8>)
    requires
        st.state == State::Start,
        d.len() > 0,
        d[0] < 16,
    ensures
        de_run(st, encode_spec(d)) == Ok::<DeView, Error>(
            DeView { state: State::Start, data: d },
        ),
{
    let d0 = d[0];
    assert((0u8 | (d0 & 0xFu8)) == d0) by (bit_vector)
        requires
            d0 < 16,
    ;
    assert((d0 & 0xFu8) < 16) by (bit_vector);
    lemma_nibble_of_hex(d0 & 0xFu8);
    let a = seq![0x3Au8, hex_digit(d0 & 0xFu8)];
    let b = hex_pairs(d.drop_first());
    let c = seq![0x0Au8];
    let st1 = DeView { state: State::LowNibble, data: seq![0u8] };
    assert(a.drop_last() =~= seq![0x3Au8]);
    assert(seq![0x3Au8].drop_last() =~= Seq::<u8>::empty());
    assert(de_run(st, Seq::<u8>::empty()) == Ok::<DeView, Error>(st));
    assert(de_run(st, seq![0x3Au8]) == Ok::<DeView, Error>(st1));
    assert(de_run(st, a) == de_step(st1, hex_digit(d0 & 0xFu8)));
    assert(seq![0u8].update(0, d0) =~= seq![d0]);
    assert(de_run(st, a) == Ok::<DeView, Error>(
        DeView { state: State::HighNibble, data: seq![d0] },
    ));
    lemma_run_concat(st, a, b);
    lemma_run_pairs(seq![d0], d.drop_first());
    assert(seq![d0] + d.drop_first() =~= d);
    lemma_run_concat(st, a + b, c);
    let st2 = DeView { state: State::HighNibble, data: d };
    assert(c.drop_last() =~= Seq::<u8>::empty());
    assert(de_run(st2, Seq::<u8>::empty()) == Ok::<DeView, Error>(st2));
    assert(de_run(st2, c) == de_step(st2, 0x0Au8));
    assert(encode_spec(d) == a + b + c);
}

/// Encoding a valid frame whose type code fits in one hex digit, then
/// decoding the result, gives the frame back.
pub proof fn lemma_round_trip(d: Seq<u8>)
    requires
        frame_valid(d),
        d[0] < 16,
    ensures
        decode_spec(encode_spec(d)) == Ok::<Seq<u8>, Error>(d),
{
    lemma_decode_encoded(de_initial(), d);
}

/// No byte of a frame's wire form is `h`, so no part of it can end a text block.
proof fn lemma_encoded_has_no_h(d: Seq<u8>)
    requires
        d.len() > 0,
    ensures
        forall|i: int| 0 <= i < encode_spec(d).len() ==> encode_spec(d)[i] != 0x68,
{
    lemma_encode_index(d);
    let e = encode_spec(d);
    assert forall|i: int| 0 <= i < e.len() implies e[i] != 0x68 by {
        if 2 <= i < 2 * d.len() {
            let p = i / 2;
            let b = d[p];
            assert(b >> 4u8 < 16 && b & 0xFu8 < 16) by (bit_vector);
            if i == 2 * p {
                assert(e[i] == hex_digit(b >> 4u8));
            } else {
                assert(i == 2 * p + 1);
                assert(e[i] == hex_digit(b & 0xFu8));
            }
        } else if i == 1 {
            let b = d[0];
            assert(b & 0xFu8 < 16) by (bit_vector);
        }
    }
}

proof fn lemma_text_prefix(st: DeView, g: u8, e: Seq<u8>, k: int)
    requires
        st.state == State::Start,
        g != 0x3A,
        0 <= k <= e.len(),
        forall|i: int| 0 <= i < e.len() ==> e[i] != 0x68,
    ensures
        de_run(st, seq![g] + e.take(k)) == Ok::<DeView, Error>(
            DeView { state: State::Text, data: seq![g] + e.take(k) },
        ),
    decreases k,
{
    let cur = seq![g] + e.take(k);
    if k == 0 {
        assert(cur =~= seq![g]);
        assert(cur.drop_last() =~= Seq::<u8>::empty());
        assert(de_run(st, Seq::<u8>::empty()) == Ok::<DeView, Error>(st));
    } else {
        lemma_text_prefix(st, g, e, k - 1);
        let prev = seq![g] + e.take(k - 1);
        assert(cur.drop_last() =~= prev);
        assert(cur.last() == e[k - 1]);
        if prev.len() >= 10 {
            let t = prev.subrange(prev.len() - 10, prev.len() as int);
            assert(t[2] == prev[prev.len() - 8]);
            assert(prev[prev.len() - 8] == e[prev.len() - 9]);
            assert(t[2] != text_marker()[2]);
        }
        assert(!ends_with_marker(prev));
        assert(prev.push(e[k - 1]) =~= cur);
    }
}

/// A byte other than `:` between frames starts a text block, and a hex frame
/// that follows it is taken in as text: the decoder does not resynchronize
/// on it, because nothing in a hex frame can end a text block.
pub proof fn lemma_leading_byte_starts_text(st: DeView, g: u8, d: Seq<u8>)
    requires
        st.state == State::Start,
        g != 0x3A,
        d.len() > 0,
    ensures
        de_run(st, seq![g] + encode_spec(d)) == Ok::<DeView, Error>(
            DeView { state: State::Text, data: seq![g] + encode_spec(d) },
        ),
{
    let e = encode_spec(d);
    lemma_encoded_has_no_h(d);
    lemma_text_prefix(st, g, e, e.len() as int);
    assert(e.take(e.len() as int) =~= e);
}

} // verus!
