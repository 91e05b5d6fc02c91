//! A cursor over the frames of a command, from which a command reads its
//! arguments one by one.
use crate::bytes_buf::{bytes_as_slice, bytes_from_string, bytes_view};
use crate::frame::{is_bulk_of, Frame};
use crate::text::str_from_utf8;
use bytes::Bytes;
use vstd::prelude::*;
use vstd::utf8::{decode_utf8, encode_utf8, valid_utf8};

verus! {

broadcast use vstd::utf8::group_utf8_lib;

/// The protocol violations that reading a command can find.
#[derive(Debug, PartialEq, Eq, Structural)]
pub enum ProtocolError {
    /// A command was not an array frame.
    ExpectedArray,
    /// A string or bytes argument was neither a simple nor a bulk frame.
    ExpectedSimpleOrBulk,
    /// An integer argument was not an integer, simple or bulk frame.
    ExpectedInteger,
    /// A bulk frame read as a string was not valid UTF-8.
    InvalidString,
    /// A simple or bulk frame read as an integer did not spell a `u64`.
    InvalidNumber,
    /// `SET` was given an option other than `EX` or `PX`.
    UnsupportedSetOption,
}

/// Error met while reading the arguments of a command.
#[derive(Debug, PartialEq, Eq, Structural)]
pub enum ParseError {
    /// All frames were read: there is no further argument.
    EndOfStream,
    /// The frames break the protocol.
    Other(ProtocolError),
}

impl ProtocolError {
    /// The text that describes the violation.
    pub open spec fn text(self) -> Seq<char> {
        match self {
            ProtocolError::ExpectedArray => "protocol error; expected array"@,
            ProtocolError::ExpectedSimpleOrBulk => "protocol error; expected simple frame or bulk frame"@,
            ProtocolError::ExpectedInteger => "protocol error; expected int frame"@,
            ProtocolError::InvalidString => "protocol error; invalid string"@,
            ProtocolError::InvalidNumber => "protocol error; invalid number"@,
            ProtocolError::UnsupportedSetOption => "currently `SET` only supports the expiration option"@,
        }
    }

    /// Returns the text that describes the violation.
    pub fn to_string(&self) -> (r: String)
        ensures
            r@ == self.text(),
    {
        match self {
            ProtocolError::ExpectedArray => "protocol error; expected array".to_owned(),
            ProtocolError::ExpectedSimpleOrBulk => "protocol error; expected simple frame or bulk frame".to_owned(),
            ProtocolError::ExpectedInteger => "protocol error; expected int frame".to_owned(),
            ProtocolError::InvalidString => "protocol error; invalid string".to_owned(),
            ProtocolError::InvalidNumber => "protocol error; invalid number".to_owned(),
            ProtocolError::UnsupportedSetOption => "currently `SET` only supports the expiration option".to_owned(),
        }
    }
}

impl ParseError {
    /// The text that describes the error.
    pub open spec fn text(self) -> Seq<char> {
        match self {
            ParseError::EndOfStream => "protocol error; unexpected end of stream"@,
            ParseError::Other(p) => p.text(),
        }
    }

    /// Returns the text that describes the error.
    pub fn to_string(&self) -> (r: String)
        ensures
            r@ == self.text(),
    {
        match self {
            ParseError::EndOfStream => "protocol error; unexpected end of stream".to_owned(),
            ParseError::Other(p) => p.to_string(),
        }
    }
}

/// `b` is an ASCII decimal digit.
pub open spec fn is_digit_byte(b: u8) -> bool {
    48 <= b && b <= 57
}

/// The number that the ASCII decimal digits `s` spell, most significant
/// first.
pub open spec fn digits_value(s: Seq<u8>) -> nat
    decreases s.len(),
{
    if s.len() == 0 {
        0
    } else {
        digits_value(s.drop_last()) * 10 + (s.last() - 48) as nat
    }
}

/// The `u64` that `s` spells as one or more ASCII decimal digits and
/// nothing else, if it spells one.
pub open spec fn decimal_u64(s: Seq<u8>) -> Option<u64> {
    if s.len() > 0 && (forall|i: int| 0 <= i < s.len() ==> is_digit_byte(#[trigger] s[i]))
        && digits_value(s) <= u64::MAX {
        Some(digits_value(s) as u64)
    } else {
        None
    }
}

/// A prefix of a digit string spells no more than the whole string.
proof fn lemma_digits_value_prefix(s: Seq<u8>, k: int)
    requires
        0 <= k <= s.len(),
        forall|i: int| 0 <= i < s.len() ==> is_digit_byte(#[trigger] s[i]),
    ensures
        digits_value(s.take(k)) <= digits_value(s),
    decreases s.len(),
{
    if k < s.len() {
        let t = s.drop_last();
        assert(t.take(k) == s.take(k));
        assert forall|i: int| 0 <= i < t.len() implies is_digit_byte(#[trigger] t[i]) by {
            assert(t[i] == s[i]);
        }
        lemma_digits_value_prefix(t, k);
    } else {
        assert(s.take(k) == s);
    }
}

/// Reads `b` as a decimal `u64`.
pub fn parse_decimal(b: &[u8]) -> (r: Option<u64>)
    ensures
        r == decimal_u64(b@),
{
    let mut v: u64 = 0;
    let mut i: usize = 0;
    while i < b.len()
        invariant
            i <= b.len(),
            forall|j: int| 0 <= j < i ==> is_digit_byte(#[trigger] b@[j]),
            v == digits_value(b@.take(i as int)),
        decreases b.len() - i,
    {
        let c = b[i];
        if c < 48 || c > 57 {
            assert(!is_digit_byte(b@[i as int]));
            return None;
        }
        assert(b@.take(i + 1).drop_last() == b@.take(i as int));
        let next = match v.checked_mul(10) {
            Some(m) => m.checked_add((c - 48) as u64),
            None => None,
        };
        match next {
            Some(n) => {
                v = n;
            },
            None => {
                proof {
                    if forall|j: int| 0 <= j < b@.len() ==> is_digit_byte(#[trigger] b@[j]) {
                        lemma_digits_value_prefix(b@, i + 1);
                    }
                }
                return None;
            },
        }
        i = i + 1;
    }
    assert(b@.take(i as int) == b@);
    if i == 0 {
        None
    } else {
        Some(v)
    }
}

/// What reading a string argument gives for the frame `f`.
pub open spec fn string_of(f: Frame) -> Result<Seq<char>, ParseError> {
    match f {
        Frame::Simple(s) => Ok(s@),
        Frame::Bulk(b) => if valid_utf8(bytes_view(b)) {
            Ok(decode_utf8(bytes_view(b)))
        } else {
            Err(ParseError::Other(ProtocolError::InvalidString))
        },
        _ => Err(ParseError::Other(ProtocolError::ExpectedSimpleOrBulk)),
    }
}

/// What reading a bytes argument gives for the frame `f`.
pub open spec fn bytes_of(f: Frame) -> Result<Seq<u8>, ParseError> {
    match f {
        Frame::Simple(s) => Ok(encode_utf8(s@)),
        Frame::Bulk(b) => Ok(bytes_view(b)),
        _ => Err(ParseError::Other(ProtocolError::ExpectedSimpleOrBulk)),
    }
}

/// What reading an integer argument gives for the frame `f`.
pub open spec fn int_of(f: Frame) -> Result<u64, ParseError> {
    match f {
        Frame::Integer(v) => Ok(v),
        Frame::Simple(s) => match decimal_u64(encode_utf8(s@)) {
            Some(v) => Ok(v),
            None => Err(ParseError::Other(ProtocolError::InvalidNumber)),
        },
        Frame::Bulk(b) => match decimal_u64(bytes_view(b)) {
            Some(v) => Ok(v),
            None => Err(ParseError::Other(ProtocolError::InvalidNumber)),
        },
        _ => Err(ParseError::Other(ProtocolError::ExpectedInteger)),
    }
}

/// What reading a string argument gives when `rest` are the unread frames.
pub open spec fn next_string_of(rest: Seq<Frame>) -> Result<Seq<char>, ParseError> {
    if rest.len() == 0 {
        Err(ParseError::EndOfStream)
    } else {
        string_of(rest[0])
    }
}

/// What reading a bytes argument gives when `rest` are the unread frames.
pub open spec fn next_bytes_of(rest: Seq<Frame>) -> Result<Seq<u8>, ParseError> {
    if rest.len() == 0 {
        Err(ParseError::EndOfStream)
    } else {
        bytes_of(rest[0])
    }
}

/// What reading an integer argument gives when `rest` are the unread frames.
pub open spec fn next_int_of(rest: Seq<Frame>) -> Result<u64, ParseError> {
    if rest.len() == 0 {
        Err(ParseError::EndOfStream)
    } else {
        int_of(rest[0])
    }
}

/// The unread frames after one argument is read from `rest`: its first frame
/// is consumed, whether it reads well or not.
pub open spec fn after_next(rest: Seq<Frame>) -> Seq<Frame> {
    if rest.len() == 0 {
        rest
    } else {
        rest.drop_first()
    }
}

/// The decimal text of `v`, most significant digit first, with no leading
/// zero.
pub open spec fn decimal_text(v: nat) -> Seq<u8>
    decreases v,
{
    if v < 10 {
        seq![(48 + v) as u8]
    } else {
        decimal_text(v / 10).push((48 + v % 10) as u8)
    }
}

/// The decimal text of `v` is one or more digits that spell `v`.
proof fn lemma_decimal_text_spells(v: nat)
    ensures
        decimal_text(v).len() > 0,
        forall|i: int| 0 <= i < decimal_text(v).len() ==> is_digit_byte(#[trigger] decimal_text(v)[i]),
        digits_value(decimal_text(v)) == v,
    decreases v,
{
    let t = decimal_text(v);
    if v < 10 {
        assert(t.drop_last() =~= Seq::<u8>::empty());
        assert(t.last() == 48 + v);
        assert(digits_value(t) == digits_value(t.drop_last()) * 10 + (t.last() - 48) as nat);
    } else {
        lemma_decimal_text_spells(v / 10);
        assert(t.drop_last() == decimal_text(v / 10));
        assert(v % 10 < 10);
        assert(t.last() == 48 + v % 10);
        assert(digits_value(t) == digits_value(t.drop_last()) * 10 + (t.last() - 48) as nat);
        assert(v == (v / 10) * 10 + v % 10);
        assert forall|i: int| 0 <= i < t.len() implies is_digit_byte(#[trigger] t[i]) by {
            if i < t.len() - 1 {
                assert(t[i] == decimal_text(v / 10)[i]);
            }
        }
    }
}

/// A number written as decimal text in a bulk or simple frame reads back,
/// as an integer argument, as that number; so does a number in an integer
/// frame. The frame is consumed either way.
pub proof fn lemma_int_argument_reads_number(f: Frame, rest: Seq<Frame>, n: u64)
    requires
        f == Frame::Integer(n) || is_bulk_of(f, decimal_text(n as nat)) || (f matches Frame::Simple(
            t,
        ) && encode_utf8(t@) == decimal_text(n as nat)),
    ensures
        next_int_of(seq![f] + rest) == Ok::<u64, ParseError>(n),
        after_next(seq![f] + rest) == rest,
{
    lemma_decimal_text_spells(n as nat);
    assert((seq![f] + rest)[0] == f);
    assert((seq![f] + rest).drop_first() == rest);
}

/// Text written in a simple frame, or as its UTF-8 bytes in a bulk frame,
/// reads back as a string argument as that text, and as a bytes argument as
/// those bytes; any bytes in a bulk frame read back as a bytes argument as
/// themselves. The frame is consumed either way.
pub proof fn lemma_text_arguments_read_back(f: Frame, rest: Seq<Frame>, text: Seq<char>, data: Seq<u8>)
    requires
        (f matches Frame::Simple(t) && t@ == text) || is_bulk_of(f, encode_utf8(text)),
    ensures
        next_string_of(seq![f] + rest) == Ok::<Seq<char>, ParseError>(text),
        next_bytes_of(seq![f] + rest) == Ok::<Seq<u8>, ParseError>(encode_utf8(text)),
        is_bulk_of(f, data) ==> next_bytes_of(seq![f] + rest) == Ok::<Seq<u8>, ParseError>(data),
        after_next(seq![f] + rest) == rest,
{
    assert((seq![f] + rest)[0] == f);
    assert((seq![f] + rest).drop_first() == rest);
}

/// Once every frame is read, each further argument fails with `EndOfStream`
/// and reads nothing.
pub proof fn lemma_no_frames_left()
    ensures
        next_string_of(Seq::<Frame>::empty()) == Err::<Seq<char>, ParseError>(ParseError::EndOfStream),
        next_bytes_of(Seq::<Frame>::empty()) == Err::<Seq<u8>, ParseError>(ParseError::EndOfStream),
        next_int_of(Seq::<Frame>::empty()) == Err::<u64, ParseError>(ParseError::EndOfStream),
        after_next(Seq::<Frame>::empty()) == Seq::<Frame>::empty(),
{
}

/// Utility for reading the arguments of a command, which arrive as an
/// array frame.
pub struct Parse {
    /// The unread frames, last first.
    parts: Vec<Frame>,
}

impl Parse {
    /// The frames not read yet, in order.
    pub closed spec fn remaining(&self) -> Seq<Frame> {
        self.parts@.reverse()
    }

    /// Creates a `Parse` over the elements of `frame`, which must be an
    /// array frame.
    pub fn new(frame: Frame) -> (r: Result<Parse, ParseError>)
        ensures
            r is Ok <==> frame is Array,
            r matches Ok(p) ==> p.remaining() == frame.elements(),
            r matches Err(e) ==> e == ParseError::Other(ProtocolError::ExpectedArray),
    {
        match frame {
            Frame::Array(array) => {
                let ghost all = array@;
                let mut array = array;
                let mut parts: Vec<Frame> = Vec::new();
                while array.len() > 0
                    invariant
                        array@ + parts@.reverse() == all,
                    decreases array.len(),
                {
                    let ghost before = array@;
                    let ghost rev = parts@.reverse();
                    let f = array.pop().unwrap();
                    parts.push(f);
                    assert(parts@.reverse() == seq![f] + rev);
                    assert(before == array@.push(f));
                    assert(array@ + (seq![f] + rev) == (array@ + seq![f]) + rev);
                    assert(array@ + seq![f] == array@.push(f));
                }
                assert(parts@.reverse() == all);
                Ok(Parse { parts })
            },
            _ => Err(ParseError::Other(ProtocolError::ExpectedArray)),
        }
    }

    /// Takes the next unread frame.
    fn next(&mut self) -> (r: Result<Frame, ParseError>)
        ensures
            final(self).remaining() == after_next(old(self).remaining()),
            old(self).remaining().len() == 0 ==> r == Err::<Frame, ParseError>(
                ParseError::EndOfStream,
            ),
            old(self).remaining().len() > 0 ==> r == Ok::<Frame, ParseError>(
                old(self).remaining()[0],
            ),
    {
        let ghost rest = self.parts@;
        match self.parts.pop() {
            Some(f) => {
                assert(self.parts@.reverse() == rest.reverse().drop_first());
                Ok(f)
            },
            None => Err(ParseError::EndOfStream),
        }
    }

    /// Reads the next argument as a string: a simple frame, or a bulk frame
    /// that holds UTF-8.
    pub fn next_string(&mut self) -> (r: Result<String, ParseError>)
        ensures
            final(self).remaining() == after_next(old(self).remaining()),
            match r {
                Ok(s) => next_string_of(old(self).remaining()) == Ok::<Seq<char>, ParseError>(s@),
                Err(e) => next_string_of(old(self).remaining()) == Err::<Seq<char>, ParseError>(e),
            },
    {
        match self.next()? {
            Frame::Simple(s) => Ok(s),
            Frame::Bulk(data) => match str_from_utf8(bytes_as_slice(&data)) {
                Some(s) => Ok(s.to_owned()),
                None => Err(ParseError::Other(ProtocolError::InvalidString)),
            },
            _ => Err(ParseError::Other(ProtocolError::ExpectedSimpleOrBulk)),
        }
    }

    /// Reads the next argument as raw bytes: those of a bulk frame, or the
    /// UTF-8 bytes of a simple frame.
    pub fn next_bytes(&mut self) -> (r: Result<Bytes, ParseError>)
        ensures
            final(self).remaining() == after_next(old(self).remaining()),
            match r {
                Ok(b) => next_bytes_of(old(self).remaining()) == Ok::<Seq<u8>, ParseError>(
                    bytes_view(b),
                ),
                Err(e) => next_bytes_of(old(self).remaining()) == Err::<Seq<u8>, ParseError>(e),
            },
    {
        match self.next()? {
            Frame::Simple(s) => Ok(bytes_from_string(s)),
            Frame::Bulk(data) => Ok(data),
            _ => Err(ParseError::Other(ProtocolError::ExpectedSimpleOrBulk)),
        }
    }

    /// Reads the next argument as an integer: an integer frame, or a simple
    /// or bulk frame that spells one in decimal.
    pub fn next_int(&mut self) -> (r: Result<u64, ParseError>)
        ensures
            final(self).remaining() == after_next(old(self).remaining()),
            match r {
                Ok(v) => next_int_of(old(self).remaining()) == Ok::<u64, ParseError>(v),
                Err(e) => next_int_of(old(self).remaining()) == Err::<u64, ParseError>(e),
            },
    {
        match self.next()? {
            Frame::Integer(v) => Ok(v),
            Frame::Simple(data) => match parse_decimal(data.as_str().as_bytes()) {
                Some(v) => Ok(v),
                None => Err(ParseError::Other(ProtocolError::InvalidNumber)),
            },
            Frame::Bulk(data) => match parse_decimal(bytes_as_slice(&data)) {
                Some(v) => Ok(v),
                None => Err(ParseError::Other(ProtocolError::InvalidNumber)),
            },
            _ => Err(ParseError::Other(ProtocolError::ExpectedInteger)),
        }
    }
}

} // verus!
