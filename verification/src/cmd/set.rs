//! The `SET` command.
use crate::bytes_buf::{bytes_from_static, bytes_from_string, bytes_view};
use crate::duration::{duration_as_millis, millis_duration};
use crate::frame::{is_bulk_of, Frame};
use crate::parse::{
    after_next, decimal_text, lemma_int_argument_reads_number, next_bytes_of, next_int_of,
    next_string_of, Parse, ParseError, ProtocolError,
};
use crate::text::{ascii_upper, ascii_upper_char, to_uppercase, upper};
use bytes::Bytes;
use core::time::Duration;
use vstd::prelude::*;
use vstd::string::StrSliceExecFns;
use vstd::utf8::{encode_utf8, is_ascii_chars};

verus! {

broadcast use vstd::utf8::group_utf8_lib;

/// The unit of the expiration option of `SET`.
#[derive(Debug, PartialEq, Eq, Structural)]
pub enum ExpireUnit {
    /// `EX`: the expiration is given in seconds.
    Seconds,
    /// `PX`: the expiration is given in milliseconds.
    Milliseconds,
}

/// The unit that the upper-cased option word `word` selects, if any.
pub open spec fn spec_expire_unit(word: Seq<char>) -> Option<ExpireUnit> {
    if word == seq!['E', 'X'] {
        Some(ExpireUnit::Seconds)
    } else if word == seq!['P', 'X'] {
        Some(ExpireUnit::Milliseconds)
    } else {
        None
    }
}

/// Picks the expiration unit that an upper-cased option word of `SET`
/// names: `EX` for seconds, `PX` for milliseconds, nothing for any other word.
pub fn expire_unit(word: &str) -> (r: Option<ExpireUnit>)
    ensures
        r == spec_expire_unit(word@),
{
    if word.unicode_len() != 2 {
        return None;
    }
    let first = word.get_char(0);
    let second = word.get_char(1);
    if second != 'X' {
        assert(word@[1] != seq!['E', 'X'][1]);
        assert(word@[1] != seq!['P', 'X'][1]);
        None
    } else if first == 'E' {
        assert(word@ == seq!['E', 'X']);
        Some(ExpireUnit::Seconds)
    } else if first == 'P' {
        assert(word@ == seq!['P', 'X']);
        Some(ExpireUnit::Milliseconds)
    } else {
        assert(word@[0] != seq!['E', 'X'][0]);
        assert(word@[0] != seq!['P', 'X'][0]);
        None
    }
}

/// The contents of a `SET` command.
pub struct SetView {
    pub key: Seq<char>,
    pub value: Seq<u8>,
    pub expire: Option<Duration>,
}

/// What `SetCommand::parse_frames` reads from the unread frames `rest` of a `SET`
/// command (whose `SET` word was read already):
/// `key value [EX seconds|PX milliseconds]`.
pub open spec fn spec_parse_set(rest: Seq<Frame>) -> Result<SetView, ParseError> {
    match next_string_of(rest) {
        Err(e) => Err(e),
        Ok(key) => match next_bytes_of(after_next(rest)) {
            Err(e) => Err(e),
            Ok(value) => {
                let options = after_next(after_next(rest));
                match next_string_of(options) {
                    Err(ParseError::EndOfStream) => Ok(SetView { key, value, expire: None }),
                    Err(e) => Err(e),
                    Ok(word) => match spec_expire_unit(upper(word)) {
                        Some(ExpireUnit::Seconds) => match next_int_of(after_next(options)) {
                            Ok(secs) => Ok(
                                SetView {
                                    key,
                                    value,
                                    expire: Some(millis_duration(secs as nat * 1000)),
                                },
                            ),
                            Err(e) => Err(e),
                        },
                        Some(ExpireUnit::Milliseconds) => match next_int_of(after_next(options)) {
                            Ok(ms) => Ok(
                                SetView { key, value, expire: Some(millis_duration(ms as nat)) },
                            ),
                            Err(e) => Err(e),
                        },
                        None => Err(ParseError::Other(ProtocolError::UnsupportedSetOption)),
                    },
                }
            },
        },
    }
}

/// The frames left unread after `SetCommand::parse_frames` read from `rest`.
pub open spec fn set_rest_after(rest: Seq<Frame>) -> Seq<Frame> {
    let after_key = after_next(rest);
    let options = after_next(after_key);
    if next_string_of(rest) is Err {
        after_key
    } else if next_bytes_of(after_key) is Err {
        options
    } else {
        match next_string_of(options) {
            Err(ParseError::EndOfStream) => options,
            Err(_) => after_next(options),
            Ok(word) => if spec_expire_unit(upper(word)) is Some {
                after_next(after_next(options))
            } else {
                after_next(options)
            },
        }
    }
}

/// The bytes of the command word `set`.
pub open spec fn set_word() -> Seq<u8> {
    encode_utf8(seq!['s', 'e', 't'])
}

/// The bytes of the option word `px`.
pub open spec fn px_word() -> Seq<u8> {
    encode_utf8(seq!['p', 'x'])
}

/// `frame` is the array frame that writes the `SET` command `f`:
/// `set key value [px milliseconds]`, all bulk frames but the integer number
/// of milliseconds, which is truncated to 64 bits.
pub open spec fn encodes_set(frame: Frame, f: SetView) -> bool {
    let v = frame.elements();
    &&& frame is Array
    &&& v.len() == if f.expire is Some {
        5int
    } else {
        3int
    }
    &&& is_bulk_of(v[0], set_word())
    &&& is_bulk_of(v[1], encode_utf8(f.key))
    &&& is_bulk_of(v[2], f.value)
    &&& f.expire matches Some(d) ==> {
        &&& is_bulk_of(v[3], px_word())
        &&& v[4] == Frame::Integer(duration_as_millis(d) as u64)
    }
}

/// Set `key` to hold the string `value`.
///
/// If `key` already holds a value, it is overwritten, regardless of its type.
/// Any previous time to live associated with the key is discarded on
/// successful SET operation.
///
/// Options: `EX seconds` sets the expire time in seconds, `PX milliseconds`
/// in milliseconds.
#[derive(Debug)]
pub struct SetCommand {
    /// the lookup key.
    key: String,
    /// the value to be stored.
    value: Bytes,
    /// when to expire the key.
    expire: Option<Duration>,
}

impl View for SetCommand {
    type V = SetView;

    closed spec fn view(&self) -> SetView {
        SetView { key: self.key@, value: bytes_view(self.value), expire: self.expire }
    }
}

impl SetCommand {
    /// Creates a new `SET` command which sets `key` to `value`.
    ///
    /// If `expire` is `Some`, the value should expire after the specified
    /// duration. The key is the `String` that the caller's `to_string`
    /// gives.
    pub fn new(key: String, value: Bytes, expire: Option<Duration>) -> (r: SetCommand)
        ensures
            r@ == (SetView { key: key@, value: bytes_view(value), expire }),
    {
        SetCommand { key, value, expire }
    }

    /// Get the key.
    pub fn key(&self) -> (r: &str)
        ensures
            r@ == self@.key,
    {
        self.key.as_str()
    }

    /// Get the value.
    pub fn value(&self) -> (r: &Bytes)
        ensures
            bytes_view(*r) == self@.value,
    {
        &self.value
    }

    /// Get the expire.
    pub fn expire(&self) -> (r: Option<Duration>)
        ensures
            r == self@.expire,
    {
        self.expire
    }

    /// Parses a `SET` command from the unread frames of `parse`, whose `SET` word
    /// was read already:
    ///
    /// ```text
    /// SET key value [EX seconds|PX milliseconds]
    /// ```
    ///
    /// Fails when the key or the value is missing or malformed, when an
    /// option other than `EX` or `PX` follows (in any case of letters), or
    /// when the number after the option is missing or malformed.
    pub fn parse_frames(parse: &mut Parse) -> (r: Result<SetCommand, ParseError>)
        ensures
            final(parse).remaining() == set_rest_after(old(parse).remaining()),
            match r {
                Ok(s) => spec_parse_set(old(parse).remaining()) == Ok::<SetView, ParseError>(s@),
                Err(e) => spec_parse_set(old(parse).remaining()) == Err::<SetView, ParseError>(
                    e,
                ),
            },
    {
        // Read the key to set. This is a required field.
        let key = parse.next_string()?;
        // Read the value to set. This is a required field.
        let value = parse.next_bytes()?;
        // The expiration is optional. If nothing else follows, then it's `None`.
        let mut expire = None;
        match parse.next_string() {
            Ok(s) => {
                let word = to_uppercase(s.as_str());
                match expire_unit(word.as_str()) {
                    Some(ExpireUnit::Seconds) => {
                        // An expiration is specified in seconds.
                        let secs = parse.next_int()?;
                        expire = Some(Duration::from_secs(secs));
                    },
                    Some(ExpireUnit::Milliseconds) => {
                        // An expiration is specified in milliseconds.
                        let ms = parse.next_int()?;
                        expire = Some(Duration::from_millis(ms));
                    },
                    // No other option of `SET` is supported.
                    None => {
                        return Err(ParseError::Other(ProtocolError::UnsupportedSetOption));
                    },
                }
            },
            // No further data: no option was given.
            Err(ParseError::EndOfStream) => {},
            Err(err) => {
                return Err(err);
            },
        }
        Ok(SetCommand { key, value, expire })
    }

    /// Converts the command into the frame that a client sends:
    /// `set key value`, followed by `px milliseconds` when an expiration is
    /// set.
    pub fn into_frame(self) -> (r: Frame)
        ensures
            encodes_set(r, self@),
    {
        let mut frame = Frame::array();
        proof {
            reveal_strlit("set");
        }
        let word = "set".as_bytes();
        assert("set"@ =~= seq!['s', 'e', 't']);
        assert(word@ == set_word());
        frame.push_bulk(bytes_from_static(word));
        frame.push_bulk(bytes_from_string(self.key));
        frame.push_bulk(self.value);
        if let Some(ms) = self.expire {
            // The expiration is written in milliseconds, the more precise of
            // the two units.
            proof {
                reveal_strlit("px");
            }
            let word = "px".as_bytes();
            assert("px"@ =~= seq!['p', 'x']);
            assert(word@ == px_word());
            frame.push_bulk(bytes_from_static(word));
            frame.push_int(#[verifier::truncate] (ms.as_millis() as u64));
        }
        frame
    }
}

/// The expiration that comes back from the wire form of `expire`: the
/// duration of its whole milliseconds.
pub open spec fn expire_read_back(expire: Option<Duration>) -> Option<Duration> {
    match expire {
        Some(d) => Some(millis_duration(duration_as_millis(d) as nat)),
        None => None,
    }
}

/// Round trip of the wire form: the frame that `into_frame` writes for a
/// command, read back after its `set` word by `parse_frames`, gives the same
/// key and value, and as expiration the duration of the original's whole
/// milliseconds (the original itself where it is a whole number of
/// milliseconds); no frame is left unread. The expiration is written
/// truncated to 64 bits, so this holds when its milliseconds fit in a `u64`.
pub proof fn lemma_set_frame_round_trip(frame: Frame, set: SetView)
    requires
        encodes_set(frame, set),
        set.expire matches Some(d) ==> duration_as_millis(d) <= u64::MAX,
    ensures
        next_string_of(frame.elements()) == Ok::<Seq<char>, ParseError>(seq!['s', 'e', 't']),
        spec_parse_set(after_next(frame.elements())) == Ok::<SetView, ParseError>(
            SetView { key: set.key, value: set.value, expire: expire_read_back(set.expire) },
        ),
        set_rest_after(after_next(frame.elements())) == Seq::<Frame>::empty(),
{
    let v = frame.elements();
    let rest = after_next(v);
    assert(rest[0] == v[1]);
    assert(rest[1] == v[2]);
    let word = seq!['p', 'x'];
    assert(is_ascii_chars(word));
    assert(ascii_upper(word) =~= seq!['P', 'X']);
    if set.expire is Some {
        assert(rest[2] == v[3]);
        assert(rest[3] == v[4]);
    }
}


/// The unit a word selects: seconds exactly for the two letters `E`, `X`,
/// milliseconds exactly for `P`, `X`, and none for any other word.
pub proof fn lemma_expire_unit_words(word: Seq<char>)
    ensures
        spec_expire_unit(word) == Some(ExpireUnit::Seconds) <==> (word.len() == 2 && word[0]
            == 'E' && word[1] == 'X'),
        spec_expire_unit(word) == Some(ExpireUnit::Milliseconds) <==> (word.len() == 2 && word[0]
            == 'P' && word[1] == 'X'),
        spec_expire_unit(word) is Some ==> word.len() == 2,
{
    if word.len() == 2 && word[0] == 'E' && word[1] == 'X' {
        assert(word =~= seq!['E', 'X']);
    }
    if word.len() == 2 && word[0] == 'P' && word[1] == 'X' {
        assert(word =~= seq!['P', 'X']);
    }
}

/// Upper-casing the ASCII word `word` gives `first`, `X` exactly when
/// `word` is two letters: `first` in either case, then `x` or `X`.
proof fn lemma_upper_two_letters(word: Seq<char>, first: char, lower_first: char)
    requires
        is_ascii_chars(word),
        'A' <= first <= 'Z',
        lower_first as u32 == first as u32 + 32,
    ensures
        upper(word) == seq![first, 'X'] <==> (word.len() == 2 && (word[0] == first || word[0]
            == lower_first) && (word[1] == 'X' || word[1] == 'x')),
{
    let u = upper(word);
    if word.len() == 2 && (word[0] == first || word[0] == lower_first) && (word[1] == 'X'
        || word[1] == 'x') {
        assert(u =~= seq![first, 'X']);
    }
    if u == seq![first, 'X'] {
        assert(u.len() == 2);
        assert(u[0] == ascii_upper_char(word[0]));
        assert(u[1] == ascii_upper_char(word[1]));
    }
}

/// The frames `key value word number` of a `SET` command: bulk frames for
/// the key's UTF-8 bytes, the value and the option word's UTF-8 bytes, and
/// the number as an integer frame or as decimal text in a bulk frame.
pub open spec fn set_option_frames(
    frames: Seq<Frame>,
    key: Seq<char>,
    value: Seq<u8>,
    word: Seq<char>,
    n: u64,
) -> bool {
    &&& frames.len() == 4
    &&& is_bulk_of(frames[0], encode_utf8(key))
    &&& is_bulk_of(frames[1], value)
    &&& is_bulk_of(frames[2], encode_utf8(word))
    &&& (frames[3] == Frame::Integer(n) || is_bulk_of(frames[3], decimal_text(n as nat)))
}

/// What the reader gets from the frames `key value word number` when the
/// word is `first` then `X`, each letter in either case.
proof fn lemma_parse_set_option(
    frames: Seq<Frame>,
    key: Seq<char>,
    value: Seq<u8>,
    word: Seq<char>,
    n: u64,
    first: char,
    lower_first: char,
)
    requires
        set_option_frames(frames, key, value, word, n),
        word.len() == 2,
        word[0] == first || word[0] == lower_first,
        word[1] == 'X' || word[1] == 'x',
        (first == 'E' && lower_first == 'e') || (first == 'P' && lower_first == 'p'),
    ensures
        upper(word) == seq![first, 'X'],
        next_string_of(after_next(after_next(frames))) == Ok::<Seq<char>, ParseError>(word),
        next_int_of(after_next(after_next(after_next(frames)))) == Ok::<u64, ParseError>(n),
        after_next(after_next(after_next(after_next(frames)))) == Seq::<Frame>::empty(),
        next_string_of(frames) == Ok::<Seq<char>, ParseError>(key),
        next_bytes_of(after_next(frames)) == Ok::<Seq<u8>, ParseError>(value),
{
    assert(is_ascii_chars(word));
    lemma_upper_two_letters(word, first, lower_first);
    let r2 = after_next(after_next(frames));
    assert(r2[0] == frames[2]);
    let r3 = after_next(r2);
    assert(r3 =~= seq![frames[3]] + Seq::<Frame>::empty());
    lemma_int_argument_reads_number(frames[3], Seq::<Frame>::empty(), n);
    assert(after_next(frames)[0] == frames[1]);
}

/// `SET key value EX n`, with `EX` in any letter case and `n` written as an
/// integer or as decimal text, reads as the command that sets `key` to
/// `value` for exactly `n` seconds, and reads every frame.
pub proof fn lemma_parse_set_ex_seconds(
    frames: Seq<Frame>,
    key: Seq<char>,
    value: Seq<u8>,
    word: Seq<char>,
    n: u64,
)
    requires
        set_option_frames(frames, key, value, word, n),
        word.len() == 2,
        word[0] == 'E' || word[0] == 'e',
        word[1] == 'X' || word[1] == 'x',
    ensures
        spec_parse_set(frames) == Ok::<SetView, ParseError>(
            SetView { key, value, expire: Some(millis_duration(n as nat * 1000)) },
        ),
        set_rest_after(frames) == Seq::<Frame>::empty(),
{
    lemma_parse_set_option(frames, key, value, word, n, 'E', 'e');
}

/// `SET key value PX n`, with `PX` in any letter case and `n` written as an
/// integer or as decimal text, reads as the command that sets `key` to
/// `value` for exactly `n` milliseconds, and reads every frame.
pub proof fn lemma_parse_set_px_milliseconds(
    frames: Seq<Frame>,
    key: Seq<char>,
    value: Seq<u8>,
    word: Seq<char>,
    n: u64,
)
    requires
        set_option_frames(frames, key, value, word, n),
        word.len() == 2,
        word[0] == 'P' || word[0] == 'p',
        word[1] == 'X' || word[1] == 'x',
    ensures
        spec_parse_set(frames) == Ok::<SetView, ParseError>(
            SetView { key, value, expire: Some(millis_duration(n as nat)) },
        ),
        set_rest_after(frames) == Seq::<Frame>::empty(),
{
    lemma_parse_set_option(frames, key, value, word, n, 'P', 'p');
}

/// `SET key value word ...` with an ASCII option word other than `EX` or
/// `PX` (in any letter case) is refused as an unsupported option, whatever
/// follows the word.
pub proof fn lemma_parse_set_other_option(
    frames: Seq<Frame>,
    key: Seq<char>,
    value: Seq<u8>,
    word: Seq<char>,
)
    requires
        frames.len() >= 3,
        is_bulk_of(frames[0], encode_utf8(key)),
        is_bulk_of(frames[1], value),
        is_bulk_of(frames[2], encode_utf8(word)),
        is_ascii_chars(word),
        !(word.len() == 2 && (word[0] == 'E' || word[0] == 'e') && (word[1] == 'X' || word[1]
            == 'x')),
        !(word.len() == 2 && (word[0] == 'P' || word[0] == 'p') && (word[1] == 'X' || word[1]
            == 'x')),
    ensures
        spec_parse_set(frames) == Err::<SetView, ParseError>(
            ParseError::Other(ProtocolError::UnsupportedSetOption),
        ),
{
    lemma_upper_two_letters(word, 'E', 'e');
    lemma_upper_two_letters(word, 'P', 'p');
    lemma_expire_unit_words(upper(word));
    assert(after_next(frames)[0] == frames[1]);
    assert(after_next(after_next(frames))[0] == frames[2]);
    if spec_expire_unit(upper(word)) == Some(ExpireUnit::Seconds) {
        assert(upper(word) =~= seq!['E', 'X']);
    }
    if spec_expire_unit(upper(word)) == Some(ExpireUnit::Milliseconds) {
        assert(upper(word) =~= seq!['P', 'X']);
    }
}


/// `SET key value` with nothing after the value reads as the command that
/// sets `key` to `value` with no expiration, and reads every frame.
pub proof fn lemma_parse_set_no_option(frames: Seq<Frame>, key: Seq<char>, value: Seq<u8>)
    requires
        frames.len() == 2,
        is_bulk_of(frames[0], encode_utf8(key)),
        is_bulk_of(frames[1], value),
    ensures
        spec_parse_set(frames) == Ok::<SetView, ParseError>(SetView { key, value, expire: None }),
        set_rest_after(frames) == Seq::<Frame>::empty(),
{
    assert(after_next(frames)[0] == frames[1]);
    assert(after_next(after_next(frames)) =~= Seq::<Frame>::empty());
}

} // verus!
