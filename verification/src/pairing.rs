//! Pairing codes: what two players exchange to connect, and the frames that carry them.
use vstd::prelude::*;

use crate::text::{chars_of, decimal_chars, decimal_text, is_blank_text, is_trim_of, owned, push_chars, str_eq, string_from_chars, trimmed_chars};

verus! {
use vstd::string::StringSliceAdditionalSpecFns;

/// The Base45 symbol of a digit below 45: `0-9`, `A-Z`, then space and `$%*+-./:`.
pub open spec fn base45_symbol(digit: int) -> u8 {
    if digit < 10 {
        (48 + digit) as u8
    } else if digit < 36 {
        (55 + digit) as u8
    } else if digit == 36 {
        32u8
    } else if digit == 37 {
        36u8
    } else if digit == 38 {
        37u8
    } else if digit == 39 {
        42u8
    } else if digit == 40 {
        43u8
    } else if digit == 41 {
        45u8
    } else if digit == 42 {
        46u8
    } else if digit == 43 {
        47u8
    } else {
        58u8
    }
}

/// The digit a Base45 symbol stands for, if the byte is one.
pub open spec fn spec_base45_value(ch: u8) -> Option<u32> {
    if 48 <= ch <= 57 {
        Some((ch - 48) as u32)
    } else if 65 <= ch <= 90 {
        Some((ch - 55) as u32)
    } else if ch == 32 {
        Some(36)
    } else if ch == 36 {
        Some(37)
    } else if ch == 37 {
        Some(38)
    } else if ch == 42 {
        Some(39)
    } else if ch == 43 {
        Some(40)
    } else if ch == 45 {
        Some(41)
    } else if ch == 46 {
        Some(42)
    } else if ch == 47 {
        Some(43)
    } else if ch == 58 {
        Some(44)
    } else {
        None
    }
}

/// The three symbols of a two-byte group: the group's value in base 45, lowest digit first.
#[verifier::opaque]
pub open spec fn base45_triple(value: int) -> Seq<u8> {
    seq![base45_symbol(value % 45), base45_symbol((value / 45) % 45), base45_symbol(value / 2025)]
}

/// The two symbols of a final single byte.
#[verifier::opaque]
pub open spec fn base45_pair(value: int) -> Seq<u8> {
    seq![base45_symbol(value % 45), base45_symbol(value / 45)]
}

/// Base45 text of bytes: each pair of bytes as three symbols, a final single byte as two.
#[verifier::opaque]
pub open spec fn base45_encode(bytes: Seq<u8>) -> Seq<u8>
    decreases bytes.len(),
{
    let n = bytes.len();
    if n == 0 {
        seq![]
    } else if n % 2 == 1 {
        base45_encode(bytes.take(n - 1)) + base45_pair(bytes[n - 1] as int)
    } else {
        base45_encode(bytes.take(n - 2)) + base45_triple(bytes[n - 2] * 256 + bytes[n - 1])
    }
}

/// Why Base45 text could not be read.
#[derive(Clone, Copy, Debug, PartialEq, Eq, Structural)]
pub enum Base45Failure {
    /// A symbol outside the alphabet, or a lone final symbol.
    Invalid,
    /// A group whose value does not fit the bytes it stands for.
    Overflow,
}

/// The bytes Base45 text stands for: groups of three symbols give two bytes (value at most
/// 0xffff), a final group of two gives one byte (value at most 0xff).
#[verifier::opaque]
pub open spec fn base45_decode(text: Seq<u8>) -> Result<Seq<u8>, Base45Failure>
    decreases text.len(),
{
    if text.len() == 0 {
        Ok(seq![])
    } else if text.len() == 1 {
        Err(Base45Failure::Invalid)
    } else if text.len() == 2 {
        match (spec_base45_value(text[0]), spec_base45_value(text[1])) {
            (Some(a), Some(b)) => if a + b * 45 > 0xff {
                Err(Base45Failure::Overflow)
            } else {
                Ok(seq![(a + b * 45) as u8])
            },
            _ => Err(Base45Failure::Invalid),
        }
    } else {
        match (spec_base45_value(text[0]), spec_base45_value(text[1]), spec_base45_value(text[2])) {
            (Some(a), Some(b), Some(c)) => {
                let value = a + b * 45 + c * 2025;
                if value > 0xffff {
                    Err(Base45Failure::Overflow)
                } else {
                    match base45_decode(text.skip(3)) {
                        Ok(rest) => Ok(seq![(value / 256) as u8, (value % 256) as u8] + rest),
                        Err(e) => Err(e),
                    }
                }
            },
            _ => Err(Base45Failure::Invalid),
        }
    }
}

pub fn base45_value(ch: u8) -> (value: Option<u32>)
    ensures
        value == spec_base45_value(ch),
{
    if 48 <= ch && ch <= 57 {
        Some((ch - 48) as u32)
    } else if 65 <= ch && ch <= 90 {
        Some((ch - 55) as u32)
    } else if ch == 32 {
        Some(36)
    } else if ch == 36 {
        Some(37)
    } else if ch == 37 {
        Some(38)
    } else if ch == 42 {
        Some(39)
    } else if ch == 43 {
        Some(40)
    } else if ch == 45 {
        Some(41)
    } else if ch == 46 {
        Some(42)
    } else if ch == 47 {
        Some(43)
    } else if ch == 58 {
        Some(44)
    } else {
        None
    }
}

fn base45_symbol_of(digit: u32) -> (symbol: u8)
    requires
        digit < 45,
    ensures
        symbol == base45_symbol(digit as int),
{
    if digit < 10 {
        (48 + digit) as u8
    } else if digit < 36 {
        (55 + digit) as u8
    } else if digit == 36 {
        32
    } else if digit == 37 {
        36
    } else if digit == 38 {
        37
    } else if digit == 39 {
        42
    } else if digit == 40 {
        43
    } else if digit == 41 {
        45
    } else if digit == 42 {
        46
    } else if digit == 43 {
        47
    } else {
        58
    }
}

/// Every symbol of the alphabet reads back as its digit.
pub proof fn lemma_base45_symbol_value(digit: int)
    requires
        0 <= digit < 45,
    ensures
        spec_base45_value(base45_symbol(digit)) == Some(digit as u32),
        base45_symbol(digit) < 128,
{
}

proof fn lemma_encode_two_more(bytes: Seq<u8>, index: int)
    requires
        0 <= index,
        index + 2 <= bytes.len(),
        index % 2 == 0,
    ensures
        base45_encode(bytes.take(index + 2)) == base45_encode(bytes.take(index)) + base45_triple(bytes[index] * 256 + bytes[index + 1]),
{
    reveal(base45_encode);
    let t = bytes.take(index + 2);
    assert(t.take(index) =~= bytes.take(index));
}

proof fn lemma_encode_one_more(bytes: Seq<u8>, index: int)
    requires
        0 <= index,
        index + 1 == bytes.len(),
        index % 2 == 0,
    ensures
        base45_encode(bytes.take(index + 1)) == base45_encode(bytes.take(index)) + base45_pair(bytes[index] as int),
{
    reveal(base45_encode);
    let t = bytes.take(index + 1);
    assert(t.take(index) =~= bytes.take(index));
}

/// Base45 text as bytes (each byte one ASCII symbol).
pub fn bytes_to_base45_symbols(bytes: &[u8]) -> (text: Vec<u8>)
    ensures
        text@ == base45_encode(bytes@),
{
    let mut output: Vec<u8> = Vec::new();
    let mut index: usize = 0;
    proof {
        reveal(base45_encode);
        assert(bytes@.take(0).len() == 0);
    }
    while index < bytes.len()
        invariant
            index <= bytes@.len(),
            index % 2 == 0 || index == bytes@.len(),
            output@ == base45_encode(bytes@.take(index as int)),
        decreases bytes.len() - index,
    {
        if index + 1 < bytes.len() {
            let value: u32 = bytes[index] as u32 * 256 + bytes[index + 1] as u32;
            proof {
                assert(value / 2025 < 45) by (nonlinear_arith)
                    requires
                        value <= 255 * 256 + 255,
                ;
            }
            output.push(base45_symbol_of(value % 45));
            output.push(base45_symbol_of((value / 45) % 45));
            output.push(base45_symbol_of(value / (45 * 45)));
            proof {
                lemma_encode_two_more(bytes@, index as int);
                reveal(base45_triple);
                assert(output@ =~= base45_encode(bytes@.take(index as int)) + base45_triple(bytes@[index as int] * 256 + bytes@[index + 1]));
            }
            index = index + 2;
        } else {
            let value: u32 = bytes[index] as u32;
            output.push(base45_symbol_of(value % 45));
            output.push(base45_symbol_of(value / 45));
            proof {
                lemma_encode_one_more(bytes@, index as int);
                reveal(base45_pair);
                assert(output@ =~= base45_encode(bytes@.take(index as int)) + base45_pair(bytes@[index as int] as int));
            }
            index = index + 1;
        }
    }
    proof {
        assert(bytes@.take(bytes@.len() as int) =~= bytes@);
    }
    output
}

/// What reading Base45 text gives once `done` bytes are out and the rest is still to read.
pub open spec fn after_prefix(done: Seq<u8>, rest: Result<Seq<u8>, Base45Failure>) -> Result<Seq<u8>, Base45Failure> {
    match rest {
        Ok(more) => Ok(done + more),
        Err(e) => Err(e),
    }
}

/// Reads Base45 text given as bytes.
pub fn base45_decode_bytes(text: &[u8]) -> (bytes: Result<Vec<u8>, Base45Failure>)
    ensures
        match bytes {
            Ok(v) => base45_decode(text@) == Ok::<Seq<u8>, Base45Failure>(v@),
            Err(e) => base45_decode(text@) == Err::<Seq<u8>, Base45Failure>(e),
        },
{
    let mut output: Vec<u8> = Vec::new();
    let mut index: usize = 0;
    proof {
        assert(text@.skip(0) =~= text@);
        assert(output@ + seq![] =~= output@);
    }
    while index < text.len()
        invariant
            index <= text@.len(),
            base45_decode(text@) == after_prefix(output@, base45_decode(text@.skip(index as int))),
        decreases text.len() - index,
    {
        proof {
            reveal(base45_decode);
        }
        let ghost rest = text@.skip(index as int);
        let first = match base45_value(text[index]) {
            Some(v) => v,
            None => {
                return Err(Base45Failure::Invalid);
            },
        };
        if index + 1 >= text.len() {
            return Err(Base45Failure::Invalid);
        }
        let second = match base45_value(text[index + 1]) {
            Some(v) => v,
            None => {
                return Err(Base45Failure::Invalid);
            },
        };
        if index + 2 < text.len() {
            let third = match base45_value(text[index + 2]) {
                Some(v) => v,
                None => {
                    return Err(Base45Failure::Invalid);
                },
            };
            let value = first + second * 45 + third * 45 * 45;
            if value > 0xffff {
                return Err(Base45Failure::Overflow);
            }
            let ghost before = output@;
            output.push((value / 256) as u8);
            output.push((value % 256) as u8);
            proof {
                assert(rest.skip(3) =~= text@.skip(index + 3));
                assert(before + (seq![(value / 256) as u8, (value % 256) as u8] + base45_decode(text@.skip(index + 3))->Ok_0)
                    =~= output@ + base45_decode(text@.skip(index + 3))->Ok_0);
            }
            index = index + 3;
        } else {
            let value = first + second * 45;
            if value > 0xff {
                return Err(Base45Failure::Overflow);
            }
            let ghost before = output@;
            output.push(value as u8);
            proof {
                assert(text@.skip(index + 2).len() == 0);
                assert(base45_decode(text@.skip(index + 2)) == Ok::<Seq<u8>, Base45Failure>(seq![]));
                assert(before + seq![value as u8] =~= output@ + seq![]);
            }
            index = index + 2;
        }
    }
    proof {
        reveal(base45_decode);
        assert(text@.skip(index as int).len() == 0);
        assert(output@ + seq![] =~= output@);
    }
    Ok(output)
}

/// Base45 text written from the front: the first two bytes give the first three symbols.
pub proof fn lemma_encode_front(bytes: Seq<u8>)
    requires
        bytes.len() >= 1,
    ensures
        bytes.len() == 1 ==> base45_encode(bytes) == base45_pair(bytes[0] as int),
        bytes.len() >= 2 ==> base45_encode(bytes) == base45_triple(bytes[0] * 256 + bytes[1]) + base45_encode(bytes.skip(2)),
    decreases bytes.len(),
{
    reveal(base45_encode);
    let n = bytes.len();
    if n == 1 {
        assert(base45_encode(bytes.take(0)) == Seq::<u8>::empty());
        assert(Seq::<u8>::empty() + base45_pair(bytes[0] as int) =~= base45_pair(bytes[0] as int));
    } else if n == 2 {
        let first = base45_triple(bytes[0] * 256 + bytes[1]);
        assert(base45_encode(bytes.take(0)) =~= Seq::<u8>::empty());
        assert(base45_encode(bytes.skip(2)) =~= Seq::<u8>::empty());
        assert(base45_encode(bytes) == base45_encode(bytes.take(0)) + first);
        assert(Seq::<u8>::empty() + first =~= first);
        assert(first + Seq::<u8>::empty() =~= first);
    } else {
        let k: int = if n % 2 == 1 { 1 } else { 2 };
        let head = bytes.take(n - k);
        lemma_encode_front(head);
        let tail = bytes.skip(2);
        assert(tail.take(tail.len() - k) =~= head.skip(2));
        assert(head[0] == bytes[0] && head[1] == bytes[1]);
        let first = base45_triple(bytes[0] * 256 + bytes[1]);
        if k == 1 {
            let last = base45_pair(bytes[n - 1] as int);
            assert(tail[tail.len() - 1] == bytes[n - 1]);
            assert(tail.len() % 2 == 1);
            assert(base45_encode(head) == first + base45_encode(head.skip(2)));
            assert(base45_encode(bytes) == base45_encode(head) + last);
            assert(base45_encode(tail) == base45_encode(tail.take(tail.len() - 1)) + last);
            assert((first + base45_encode(head.skip(2))) + last =~= first + (base45_encode(head.skip(2)) + last));
            assert(base45_encode(tail.take(tail.len() - 1)) == base45_encode(head.skip(2)));
            assert(base45_encode(bytes) == first + base45_encode(tail));
        } else {
            let last = base45_triple(bytes[n - 2] * 256 + bytes[n - 1]);
            assert(tail[tail.len() - 2] == bytes[n - 2] && tail[tail.len() - 1] == bytes[n - 1]);
            assert(tail.len() % 2 == 0);
            assert(base45_encode(head) == first + base45_encode(head.skip(2)));
            assert(base45_encode(bytes) == base45_encode(head) + last);
            assert(base45_encode(tail) == base45_encode(tail.take(tail.len() - 2)) + last);
            assert((first + base45_encode(head.skip(2))) + last =~= first + (base45_encode(head.skip(2)) + last));
            assert(base45_encode(tail.take(tail.len() - 2)) == base45_encode(head.skip(2)));
            assert(base45_encode(bytes) == first + base45_encode(tail));
        }
    }
}

/// The digits of a group value below 45 × 45 × 45 give the value back.
proof fn lemma_base45_digits(value: int)
    requires
        0 <= value <= 0xffff,
    ensures
        0 <= value % 45 < 45,
        0 <= (value / 45) % 45 < 45,
        0 <= value / 2025 < 45,
        value % 45 + ((value / 45) % 45) * 45 + (value / 2025) * 2025 == value,
        value <= 0xff ==> value / 45 < 45 && value % 45 + (value / 45) * 45 == value,
{
    assert(value % 45 + ((value / 45) % 45) * 45 + (value / 2025) * 2025 == value) by (nonlinear_arith)
        requires
            0 <= value <= 0xffff,
    ;
    assert(value / 2025 < 45) by (nonlinear_arith)
        requires
            0 <= value <= 0xffff,
    ;
    assert(value <= 0xff ==> value / 45 < 45 && value % 45 + (value / 45) * 45 == value) by (nonlinear_arith)
        requires
            0 <= value,
    ;
}

/// A group of three symbols written from a value reads back as its two bytes.
proof fn lemma_decode_group(value: int, rest: Seq<u8>)
    requires
        0 <= value <= 0xffff,
    ensures
        base45_decode(base45_triple(value) + rest) == after_prefix(seq![(value / 256) as u8, (value % 256) as u8], base45_decode(rest)),
{
    reveal(base45_triple);
    lemma_base45_digits(value);
    lemma_base45_symbol_value(value % 45);
    lemma_base45_symbol_value((value / 45) % 45);
    lemma_base45_symbol_value(value / 2025);
    let text = base45_triple(value) + rest;
    assert(text.skip(3) =~= rest);
    assert(text[0] == base45_symbol(value % 45));
    assert(text[1] == base45_symbol((value / 45) % 45));
    assert(text[2] == base45_symbol(value / 2025));
    reveal(base45_decode);
}

/// A final pair of symbols written from a byte reads back as the byte.
proof fn lemma_decode_last(value: int)
    requires
        0 <= value <= 0xff,
    ensures
        base45_decode(base45_pair(value)) == Ok::<Seq<u8>, Base45Failure>(seq![value as u8]),
{
    reveal(base45_pair);
    lemma_base45_digits(value);
    lemma_base45_symbol_value(value % 45);
    lemma_base45_symbol_value(value / 45);
    reveal(base45_decode);
}

/// Reading back Base45 text written from bytes gives the bytes.
pub proof fn base45_round_trip(bytes: Seq<u8>)
    ensures
        base45_decode(base45_encode(bytes)) == Ok::<Seq<u8>, Base45Failure>(bytes),
    decreases bytes.len(),
{
    if bytes.len() == 0 {
        reveal(base45_encode);
        reveal(base45_decode);
        assert(bytes =~= Seq::<u8>::empty());
        assert(base45_encode(bytes) =~= Seq::<u8>::empty());
    } else if bytes.len() == 1 {
        lemma_encode_front(bytes);
        lemma_decode_last(bytes[0] as int);
        assert(seq![bytes[0]] =~= bytes);
    } else {
        lemma_encode_front(bytes);
        let v = bytes[0] * 256 + bytes[1];
        let rest = bytes.skip(2);
        base45_round_trip(rest);
        lemma_decode_group(v, base45_encode(rest));
        let b0 = bytes[0];
        let b1 = bytes[1];
        assert(v / 256 == b0 && v % 256 == b1) by (nonlinear_arith)
            requires
                v == b0 * 256 + b1,
                0 <= b1 < 256,
        ;
        assert(base45_encode(bytes) == base45_triple(v) + base45_encode(rest));
        assert(base45_decode(base45_encode(rest)) == Ok::<Seq<u8>, Base45Failure>(rest));
        assert(base45_decode(base45_triple(v) + base45_encode(rest)) == after_prefix(seq![(v / 256) as u8, (v % 256) as u8], base45_decode(base45_encode(rest))));
        assert(seq![bytes[0], bytes[1]] + rest =~= bytes);
        assert(seq![(v / 256) as u8, (v % 256) as u8] == seq![bytes[0], bytes[1]]);
    }
}

/// The symbols of a group are ASCII.
proof fn lemma_group_ascii(value: int)
    requires
        0 <= value <= 0xffff,
    ensures
        forall|i: int| 0 <= i < base45_triple(value).len() ==> #[trigger] base45_triple(value)[i] < 128,
        value <= 0xff ==> forall|i: int| 0 <= i < base45_pair(value).len() ==> #[trigger] base45_pair(value)[i] < 128,
{
    reveal(base45_triple);
    reveal(base45_pair);
    lemma_base45_digits(value);
    lemma_base45_symbol_value(value % 45);
    lemma_base45_symbol_value((value / 45) % 45);
    lemma_base45_symbol_value(value / 2025);
    if value <= 0xff {
        lemma_base45_symbol_value(value / 45);
    }
}

/// Base45 text uses ASCII symbols only.
pub proof fn lemma_base45_ascii(bytes: Seq<u8>)
    ensures
        forall|i: int| 0 <= i < base45_encode(bytes).len() ==> #[trigger] base45_encode(bytes)[i] < 128,
    decreases bytes.len(),
{
    reveal(base45_encode);
    let n = bytes.len();
    if n == 0 {
    } else {
        let k: int = if n % 2 == 1 { 1 } else { 2 };
        let head = bytes.take(n - k);
        lemma_base45_ascii(head);
        let last = if k == 1 { base45_pair(bytes[n - 1] as int) } else { base45_triple(bytes[n - 2] * 256 + bytes[n - 1]) };
        if k == 1 {
            lemma_group_ascii(bytes[n - 1] as int);
        } else {
            lemma_group_ascii(bytes[n - 2] * 256 + bytes[n - 1]);
        }
        assert(base45_encode(bytes) == base45_encode(head) + last);
        assert forall|i: int| 0 <= i < base45_encode(bytes).len() implies #[trigger] base45_encode(bytes)[i] < 128 by {
            if i < base45_encode(head).len() {
                assert(base45_encode(bytes)[i] == base45_encode(head)[i]);
            } else {
                assert(base45_encode(bytes)[i] == last[i - base45_encode(head).len()]);
            }
        }
    }
}

/// The prefix of an offer code.
pub const PAIR_PREFIX_OFFER_V1: &'static str = "MZO1";
/// The prefix of an answer code.
pub const PAIR_PREFIX_ANSWER_V1: &'static str = "MZA1";
/// The prefix of a transport frame.
pub const PAIR_TRANSPORT_PREFIX: &'static str = "MZQ1";
/// The codec mark of a code whose payload is the description itself.
pub const PAIR_CODEC_PLAIN: char = 'P';
/// The codec mark of a code whose payload is the compressed description.
pub const PAIR_CODEC_COMPRESSED: char = 'Z';

/// The bytes `flate2` writes for `bytes` with a raw DEFLATE encoder at the default level.
pub uninterp spec fn deflated(bytes: Seq<u8>) -> Seq<u8>;

/// The bytes `flate2` restores from raw DEFLATE data, if it can.
pub uninterp spec fn inflated(bytes: Seq<u8>) -> Option<Seq<u8>>;

/// Compresses bytes as raw DEFLATE (flate2's `DeflateEncoder` over a `Vec`, default level:
/// `write_all`, then `finish`). The contract claims the call succeeds (the encoder writes into
/// a `Vec`, which takes every write), that the output is a function of the input alone and
/// that inflating it restores the input.
#[verifier::external_body]
pub fn deflate_raw(bytes: &[u8]) -> (compressed: Option<Vec<u8>>)
    ensures
        compressed is Some,
        compressed matches Some(c) ==> c@ == deflated(bytes@) && inflated(c@) == Some(bytes@),
{
    let mut encoder = flate2::write::DeflateEncoder::new(Vec::new(), flate2::Compression::default());
    if std::io::Write::write_all(&mut encoder, bytes).is_err() {
        return None;
    }
    encoder.finish().ok()
}

/// Restores raw DEFLATE data (flate2's `DeflateDecoder`, `read_to_end`). The contract claims
/// the result is a function of the input alone.
#[verifier::external_body]
pub fn inflate_raw(bytes: &[u8]) -> (restored: Option<Vec<u8>>)
    ensures
        restored is Some <==> inflated(bytes@) is Some,
        restored matches Some(r) ==> inflated(bytes@) == Some(r@),
{
    let mut decoder = flate2::read::DeflateDecoder::new(bytes);
    let mut output = Vec::new();
    match std::io::Read::read_to_end(&mut decoder, &mut output) {
        Ok(_) => Some(output),
        Err(_) => None,
    }
}

/// Reads bytes as UTF-8 text (std's `String::from_utf8`): refused exactly when the bytes are
/// not valid UTF-8.
#[verifier::external_body]
pub fn utf8_text(bytes: Vec<u8>) -> (text: Option<String>)
    ensures
        text is Some <==> vstd::utf8::valid_utf8(bytes@),
        text matches Some(t) ==> t@ == vstd::utf8::decode_utf8(bytes@),
{
    String::from_utf8(bytes).ok()
}

/// A character a pairing code may be wrapped in: carriage return, line feed or tab.
pub open spec fn is_code_wrapping(c: char) -> bool {
    c == '\r' || c == '\n' || c == '\t'
}

/// `t` is `s` without the line breaks and tabs at its ends.
pub open spec fn is_unwrapped_of(t: Seq<char>, s: Seq<char>) -> bool {
    exists|a: int, b: int| {
        &&& 0 <= a <= b <= s.len()
        &&& t == s.subrange(a, b)
        &&& forall|i: int| 0 <= i < a ==> is_code_wrapping(#[trigger] s[i])
        &&& forall|i: int| b <= i < s.len() ==> is_code_wrapping(#[trigger] s[i])
        &&& a < b ==> !is_code_wrapping(s[a]) && !is_code_wrapping(s[b - 1])
    }
}

/// A pairing code without the line breaks and tabs around it.
pub fn normalize_pair_payload_text(raw: &str) -> (text: Vec<char>)
    ensures
        is_unwrapped_of(text@, raw@),
{
    let chars = chars_of(raw);
    let n = chars.len();
    let mut a: usize = 0;
    while a < n && (chars[a] == '\r' || chars[a] == '\n' || chars[a] == '\t')
        invariant
            a <= n,
            n == raw@.len(),
            chars@ == raw@,
            forall|i: int| 0 <= i < a ==> is_code_wrapping(#[trigger] raw@[i]),
        decreases n - a,
    {
        a = a + 1;
    }
    let mut b: usize = n;
    while b > a && (chars[b - 1] == '\r' || chars[b - 1] == '\n' || chars[b - 1] == '\t')
        invariant
            a <= b <= n,
            n == raw@.len(),
            chars@ == raw@,
            forall|i: int| b <= i < n ==> is_code_wrapping(#[trigger] raw@[i]),
        decreases b - a,
    {
        b = b - 1;
    }
    let text = slice_chars(&chars, a, b);
    proof {
        assert(is_unwrapped_of(text@, raw@)) by {
            assert(0 <= a <= b <= raw@.len() && text@ == raw@.subrange(a as int, b as int));
        }
    }
    text
}

/// The characters from `start` to `end`.
pub fn slice_chars(chars: &Vec<char>, start: usize, end: usize) -> (part: Vec<char>)
    requires
        start <= end <= chars@.len(),
    ensures
        part@ == chars@.subrange(start as int, end as int),
{
    let mut part: Vec<char> = Vec::new();
    let mut k: usize = start;
    while k < end
        invariant
            start <= k <= end <= chars@.len(),
            part@ == chars@.subrange(start as int, k as int),
        decreases end - k,
    {
        part.push(chars[k]);
        k = k + 1;
        proof {
            assert(part@ =~= chars@.subrange(start as int, k as int));
        }
    }
    part
}


/// Base45 symbols as characters.
pub open spec fn symbols_as_chars(symbols: Seq<u8>) -> Seq<char> {
    Seq::new(symbols.len(), |i: int| symbols[i] as char)
}

/// The Base45 text of bytes.
pub fn bytes_to_base45(bytes: &[u8]) -> (text: Vec<char>)
    ensures
        text@ == symbols_as_chars(base45_encode(bytes@)),
{
    let symbols = bytes_to_base45_symbols(bytes);
    let mut text: Vec<char> = Vec::new();
    let mut k: usize = 0;
    while k < symbols.len()
        invariant
            k <= symbols@.len(),
            text@ == symbols_as_chars(symbols@.subrange(0, k as int)),
        decreases symbols.len() - k,
    {
        text.push(symbols[k] as char);
        k = k + 1;
        proof {
            assert(text@ =~= symbols_as_chars(symbols@.subrange(0, k as int)));
        }
    }
    proof {
        assert(symbols@.subrange(0, symbols@.len() as int) =~= symbols@);
    }
    text
}

/// The message for a Base45 failure.
pub open spec fn base45_failure_message(failure: Base45Failure) -> Seq<char> {
    match failure {
        Base45Failure::Invalid => "Invalid Base45 payload."@,
        Base45Failure::Overflow => "Base45 payload overflow."@,
    }
}

/// Reads Base45 text (as the bytes of its UTF-8 form).
pub fn base45_to_bytes(raw: &str) -> (bytes: Result<Vec<u8>, String>)
    ensures
        match bytes {
            Ok(v) => base45_decode(raw.spec_bytes()) == Ok::<Seq<u8>, Base45Failure>(v@),
            Err(message) => base45_decode(raw.spec_bytes()) matches Err(f) && message@ == base45_failure_message(f),
        },
{
    match base45_decode_bytes(raw.as_bytes()) {
        Ok(v) => Ok(v),
        Err(Base45Failure::Invalid) => Err(owned("Invalid Base45 payload.")),
        Err(Base45Failure::Overflow) => Err(owned("Base45 payload overflow.")),
    }
}

/// The prefix of a code for a payload kind.
pub open spec fn spec_pair_prefix_for(kind: Seq<char>) -> Option<Seq<char>> {
    if kind == "mazocarta_offer"@ {
        Some(PAIR_PREFIX_OFFER_V1@)
    } else if kind == "mazocarta_answer"@ {
        Some(PAIR_PREFIX_ANSWER_V1@)
    } else {
        None
    }
}

pub fn pair_prefix_for(kind: &str) -> (prefix: Option<&'static str>)
    ensures
        match prefix {
            Some(p) => spec_pair_prefix_for(kind@) == Some(p@),
            None => spec_pair_prefix_for(kind@) is None,
        },
{
    if str_eq(kind, "mazocarta_offer") {
        Some(PAIR_PREFIX_OFFER_V1)
    } else if str_eq(kind, "mazocarta_answer") {
        Some(PAIR_PREFIX_ANSWER_V1)
    } else {
        None
    }
}

/// The payload kind, description type and version a code prefix stands for.
pub open spec fn spec_pair_prefix_metadata(prefix: Seq<char>) -> Option<(Seq<char>, Seq<char>, u8)> {
    if prefix == PAIR_PREFIX_OFFER_V1@ {
        Some(("mazocarta_offer"@, "offer"@, 1u8))
    } else if prefix == PAIR_PREFIX_ANSWER_V1@ {
        Some(("mazocarta_answer"@, "answer"@, 1u8))
    } else {
        None
    }
}

pub fn pair_prefix_metadata(prefix: &str) -> (metadata: Option<(&'static str, &'static str, u8)>)
    ensures
        match metadata {
            Some((kind, description_type, version)) => spec_pair_prefix_metadata(prefix@) == Some((kind@, description_type@, version)),
            None => spec_pair_prefix_metadata(prefix@) is None,
        },
{
    if str_eq(prefix, PAIR_PREFIX_OFFER_V1) {
        Some(("mazocarta_offer", "offer", 1))
    } else if str_eq(prefix, PAIR_PREFIX_ANSWER_V1) {
        Some(("mazocarta_answer", "answer", 1))
    } else {
        None
    }
}

/// A character with ASCII lower-case letters made upper-case (std's `to_ascii_uppercase`).
pub open spec fn ascii_upper(c: char) -> char {
    if 'a' <= c && c <= 'z' { ((c as u32) - 32) as char } else { c }
}

pub open spec fn ascii_upper_text(s: Seq<char>) -> Seq<char> {
    Seq::new(s.len(), |i: int| ascii_upper(s[i]))
}

/// Text with ASCII lower-case letters made upper-case.
pub fn to_ascii_uppercase(chars: &Vec<char>) -> (upper: Vec<char>)
    ensures
        upper@ == ascii_upper_text(chars@),
{
    let mut upper: Vec<char> = Vec::new();
    let mut k: usize = 0;
    while k < chars.len()
        invariant
            k <= chars@.len(),
            upper@ == ascii_upper_text(chars@.subrange(0, k as int)),
        decreases chars.len() - k,
    {
        let c = chars[k];
        let u = if 'a' <= c && c <= 'z' { ((c as u8) - 32) as char } else { c };
        upper.push(u);
        k = k + 1;
        proof {
            assert(upper@ =~= ascii_upper_text(chars@.subrange(0, k as int)));
        }
    }
    proof {
        assert(chars@.subrange(0, chars@.len() as int) =~= chars@);
    }
    upper
}

/// What a code carries for a description: compressed when that saves more than four bytes,
/// else the description's own bytes, with the matching codec mark.
pub open spec fn code_payload(sdp_bytes: Seq<u8>) -> (char, Seq<u8>) {
    if deflated(sdp_bytes).len() + 4 < sdp_bytes.len() {
        (PAIR_CODEC_COMPRESSED, deflated(sdp_bytes))
    } else {
        (PAIR_CODEC_PLAIN, sdp_bytes)
    }
}

/// The text of a code: prefix, invitation id, codec mark and Base45 payload, separated by
/// colons.
pub open spec fn code_text(prefix: Seq<char>, invitation_id: Seq<char>, codec: char, payload: Seq<u8>) -> Seq<char> {
    prefix + seq![':'] + invitation_id + seq![':', codec, ':'] + symbols_as_chars(base45_encode(payload))
}

/// Writes a code for a description of a payload kind; refused for an unknown kind.
pub fn encode_pair_payload_v1(kind: &str, invitation_id: &str, sdp: &str) -> (code: Result<String, String>)
    ensures
        spec_pair_prefix_for(kind@) is None ==> (code matches Err(m) && m@ == "Invalid pairing payload."@),
        code matches Ok(c) ==> (spec_pair_prefix_for(kind@) matches Some(prefix) && c@ == code_text(
            prefix,
            invitation_id@,
            code_payload(sdp.spec_bytes()).0,
            code_payload(sdp.spec_bytes()).1,
        )),
        spec_pair_prefix_for(kind@) is Some ==> code is Ok,
        code matches Ok(c) ==> !invitation_id@.contains(':') ==> {
            &&& unwrap_code(c@) == c@
            &&& spec_read_code(c@) matches Ok(m)
            &&& m.kind == kind@
            &&& m.invitation_id == invitation_id@
            &&& m.sdp == sdp@
            &&& m.version == 1
            &&& m.description_type == (if kind@ == "mazocarta_offer"@ { "offer"@ } else { "answer"@ })
        },
{
    let prefix = match pair_prefix_for(kind) {
        Some(p) => p,
        None => {
            return Err(owned("Invalid pairing payload."));
        },
    };
    let raw_bytes = sdp.as_bytes();
    let compressed = match deflate_raw(raw_bytes) {
        Some(c) => c,
        None => {
            return Err(owned("Could not compress pairing payload."));
        },
    };
    let mut chars = chars_of(prefix);
    chars.push(':');
    let id = chars_of(invitation_id);
    push_chars(&mut chars, id.as_slice());
    chars.push(':');
    let ghost before_payload = chars@;
    let encoded = if raw_bytes.len() >= 4 && compressed.len() < raw_bytes.len() - 4 {
        chars.push(PAIR_CODEC_COMPRESSED);
        bytes_to_base45(compressed.as_slice())
    } else {
        chars.push(PAIR_CODEC_PLAIN);
        bytes_to_base45(raw_bytes)
    };
    chars.push(':');
    push_chars(&mut chars, encoded.as_slice());
    proof {
        let payload = code_payload(sdp.spec_bytes());
        assert(chars@ =~= code_text(prefix@, invitation_id@, payload.0, payload.1));
        reveal_strlit("MZO1");
        reveal_strlit("MZA1");
        reveal_strlit("mazocarta_offer");
        reveal_strlit("mazocarta_answer");
        assert("MZO1"@[2] != "MZA1"@[2]);
        assert("mazocarta_offer"@.len() != "mazocarta_answer"@.len());
        assert(spec_pair_prefix_metadata(prefix@) is Some);
        if !invitation_id@.contains(':') {
            lemma_code_read_back(prefix@, invitation_id@, payload.0, payload.1);
            vstd::utf8::encode_utf8_valid_utf8(sdp@);
            vstd::utf8::encode_utf8_decode_utf8(sdp@);
            let t = chars@;
            assert(payload.0 == PAIR_CODEC_COMPRESSED ==> inflated(payload.1) == Some(sdp.spec_bytes()));
            assert(payload.0 == PAIR_CODEC_PLAIN ==> payload.1 == sdp.spec_bytes());
            assert(spec_read_code(t) matches Ok(m) && m.sdp == sdp@);
        }
    }
    Ok(string_from_chars(chars.as_slice()))
}

/// Whether `serde_json` reads the text as JSON.
pub uninterp spec fn valid_json(text: Seq<char>) -> bool;

/// Whether text is JSON (`serde_json::from_str` into a `serde_json::Value` succeeds).
#[verifier::external_body]
pub fn json_is_valid(text: &str) -> (valid: bool)
    ensures
        valid == valid_json(text@),
{
    serde_json::from_str::<serde_json::Value>(text).is_ok()
}

/// Two texts both without the line breaks and tabs at the ends of `s` are the same.
pub proof fn lemma_unwrapped_unique(t1: Seq<char>, t2: Seq<char>, s: Seq<char>)
    requires
        is_unwrapped_of(t1, s),
        is_unwrapped_of(t2, s),
    ensures
        t1 == t2,
{
    let (a1, b1) = choose|a: int, b: int| {
        &&& 0 <= a <= b <= s.len()
        &&& t1 == s.subrange(a, b)
        &&& forall|i: int| 0 <= i < a ==> is_code_wrapping(#[trigger] s[i])
        &&& forall|i: int| b <= i < s.len() ==> is_code_wrapping(#[trigger] s[i])
        &&& a < b ==> !is_code_wrapping(s[a]) && !is_code_wrapping(s[b - 1])
    };
    let (a2, b2) = choose|a: int, b: int| {
        &&& 0 <= a <= b <= s.len()
        &&& t2 == s.subrange(a, b)
        &&& forall|i: int| 0 <= i < a ==> is_code_wrapping(#[trigger] s[i])
        &&& forall|i: int| b <= i < s.len() ==> is_code_wrapping(#[trigger] s[i])
        &&& a < b ==> !is_code_wrapping(s[a]) && !is_code_wrapping(s[b - 1])
    };
    if a1 < b1 && a2 < b2 {
        if a1 < a2 {
            assert(is_code_wrapping(s[a1]));
        } else if a2 < a1 {
            assert(is_code_wrapping(s[a2]));
        }
        if b1 < b2 {
            assert(is_code_wrapping(s[b2 - 1]));
        } else if b2 < b1 {
            assert(is_code_wrapping(s[b1 - 1]));
        }
    } else if a1 < b1 {
        assert(!is_code_wrapping(s[a1]));
        if a1 < a2 {
            assert(is_code_wrapping(s[a1]));
        } else {
            assert(is_code_wrapping(s[a1]));
        }
    } else if a2 < b2 {
        assert(!is_code_wrapping(s[a2]));
        if a2 < a1 {
            assert(is_code_wrapping(s[a2]));
        } else {
            assert(is_code_wrapping(s[a2]));
        }
    } else {
        assert(t1 =~= t2);
    }
}

/// A pairing code without the line breaks and tabs around it.
pub open spec fn unwrap_code(s: Seq<char>) -> Seq<char> {
    choose|t: Seq<char>| is_unwrapped_of(t, s)
}

/// The first position of `c` in `s` from `from` on.
pub open spec fn find_char(s: Seq<char>, c: char, from: int) -> Option<int>
    decreases s.len() - from,
{
    if from < 0 || from >= s.len() {
        None
    } else if s[from] == c {
        Some(from)
    } else {
        find_char(s, c, from + 1)
    }
}

/// Why a pairing code could not be read.
#[derive(Clone, Copy, Debug, PartialEq, Eq, Structural)]
pub enum PairCodeFailure {
    Missing,
    Invalid,
    Unrecognized,
    Base45(Base45Failure),
    NotRestored,
    UnsupportedCodec,
}

/// The message a failure is reported with.
pub open spec fn pair_failure_message(failure: PairCodeFailure) -> Seq<char> {
    match failure {
        PairCodeFailure::Missing => "Missing pairing payload."@,
        PairCodeFailure::Invalid => "Invalid pairing payload."@,
        PairCodeFailure::Unrecognized => "Unrecognized pairing payload."@,
        PairCodeFailure::Base45(f) => base45_failure_message(f),
        PairCodeFailure::NotRestored => "Compressed pairing code could not be restored."@,
        PairCodeFailure::UnsupportedCodec => "Unsupported pairing payload codec."@,
    }
}

/// What a code text says: payload kind, description type, version, invitation id and the
/// description, as plain values.
pub struct PairCodeModel {
    pub kind: Seq<char>,
    pub description_type: Seq<char>,
    pub version: u8,
    pub invitation_id: Seq<char>,
    pub sdp: Seq<char>,
}

/// Reads a code text (already without surrounding line breaks and tabs): the prefix up to
/// the first colon names the kind, the invitation id runs to the second colon, the codec
/// mark is the first character before the third colon, and the rest is the Base45 payload,
/// compressed for codec `Z`, plain for `P`, holding the description as UTF-8.
pub open spec fn spec_read_code(t: Seq<char>) -> Result<PairCodeModel, PairCodeFailure> {
    match find_char(t, ':', 0) {
        None => Err(PairCodeFailure::Unrecognized),
        Some(p1) => match find_char(t, ':', p1 + 1) {
            None => Err(PairCodeFailure::Unrecognized),
            Some(p2) => match spec_pair_prefix_metadata(t.subrange(0, p1)) {
                None => Err(PairCodeFailure::Unrecognized),
                Some((kind, description_type, version)) => match find_char(t, ':', p2 + 1) {
                    None => Err(PairCodeFailure::Unrecognized),
                    Some(p3) => if p2 + 1 >= p3 {
                        Err(PairCodeFailure::Unrecognized)
                    } else {
                        match base45_decode(vstd::utf8::encode_utf8(t.subrange(p3 + 1, t.len() as int))) {
                            Err(f) => Err(PairCodeFailure::Base45(f)),
                            Ok(bytes) => {
                                let codec = t[p2 + 1];
                                let restored = if codec == PAIR_CODEC_COMPRESSED {
                                    inflated(bytes)
                                } else if codec == PAIR_CODEC_PLAIN {
                                    Some(bytes)
                                } else {
                                    None
                                };
                                if codec != PAIR_CODEC_COMPRESSED && codec != PAIR_CODEC_PLAIN {
                                    Err(PairCodeFailure::UnsupportedCodec)
                                } else if restored is None || !vstd::utf8::valid_utf8(restored->0) {
                                    Err(PairCodeFailure::NotRestored)
                                } else {
                                    Ok(PairCodeModel {
                                        kind,
                                        description_type,
                                        version,
                                        invitation_id: t.subrange(p1 + 1, p2),
                                        sdp: vstd::utf8::decode_utf8(restored->0),
                                    })
                                }
                            },
                        }
                    },
                },
            },
        },
    }
}

/// A decoded pairing payload.
#[derive(Clone, Debug, PartialEq, Eq)]
pub struct PairPayload {
    pub kind: String,
    pub version: u8,
    pub invitation_id: String,
    pub description_type: String,
    pub sdp: String,
}

/// What a pairing text held: JSON to pass on as it is, or a code read into its payload.
#[derive(Clone, Debug, PartialEq, Eq)]
pub enum DecodedPairing {
    Json(String),
    Code(PairPayload),
}

/// The first position of `c` in `chars` from `from` on.
pub fn find_char_from(chars: &Vec<char>, c: char, from: usize) -> (found: Option<usize>)
    ensures
        match found {
            Some(k) => find_char(chars@, c, from as int) == Some(k as int),
            None => find_char(chars@, c, from as int) is None,
        },
{
    let mut k: usize = from;
    while k < chars.len()
        invariant
            from <= k,
            find_char(chars@, c, from as int) == find_char(chars@, c, k as int),
        decreases chars.len() - k,
    {
        if chars[k] == c {
            return Some(k);
        }
        k = k + 1;
    }
    None
}

fn text_of(chars: &Vec<char>, start: usize, end: usize) -> (text: String)
    requires
        start <= end <= chars@.len(),
    ensures
        text@ == chars@.subrange(start as int, end as int),
{
    let part = slice_chars(chars, start, end);
    string_from_chars(part.as_slice())
}

fn failure_text(failure: PairCodeFailure) -> (message: String)
    ensures
        message@ == pair_failure_message(failure),
{
    match failure {
        PairCodeFailure::Missing => owned("Missing pairing payload."),
        PairCodeFailure::Invalid => owned("Invalid pairing payload."),
        PairCodeFailure::Unrecognized => owned("Unrecognized pairing payload."),
        PairCodeFailure::Base45(Base45Failure::Invalid) => owned("Invalid Base45 payload."),
        PairCodeFailure::Base45(Base45Failure::Overflow) => owned("Base45 payload overflow."),
        PairCodeFailure::NotRestored => owned("Compressed pairing code could not be restored."),
        PairCodeFailure::UnsupportedCodec => owned("Unsupported pairing payload codec."),
    }
}

/// Reads a code text (already unwrapped) into its payload.
pub fn read_code(t: &Vec<char>) -> (payload: Result<PairPayload, PairCodeFailure>)
    ensures
        match payload {
            Ok(p) => spec_read_code(t@) matches Ok(m) && p.kind@ == m.kind && p.description_type@ == m.description_type
                && p.version == m.version && p.invitation_id@ == m.invitation_id && p.sdp@ == m.sdp,
            Err(f) => spec_read_code(t@) == Err::<PairCodeModel, PairCodeFailure>(f),
        },
{
    let p1 = match find_char_from(t, ':', 0) {
        Some(p) => p,
        None => {
            return Err(PairCodeFailure::Unrecognized);
        },
    };
    proof {
        lemma_find_char_bounds(t@, ':', 0);
        assert(t@.len() == t.len());
    }
    let p2 = match find_char_from(t, ':', p1 + 1) {
        Some(p) => p,
        None => {
            return Err(PairCodeFailure::Unrecognized);
        },
    };
    proof {
        lemma_find_char_bounds(t@, ':', p1 + 1);
        assert(t@.len() == t.len());
    }
    let prefix = text_of(t, 0, p1);
    let (kind, description_type, version) = match pair_prefix_metadata(prefix.as_str()) {
        Some(m) => m,
        None => {
            return Err(PairCodeFailure::Unrecognized);
        },
    };
    let p3 = match find_char_from(t, ':', p2 + 1) {
        Some(p) => p,
        None => {
            return Err(PairCodeFailure::Unrecognized);
        },
    };
    proof {
        lemma_find_char_bounds(t@, ':', p2 + 1);
    }
    if p2 + 1 >= p3 {
        return Err(PairCodeFailure::Unrecognized);
    }
    let codec = t[p2 + 1];
    let encoded = text_of(t, p3 + 1, t.len());
    let bytes = match base45_decode_bytes(encoded.as_str().as_bytes()) {
        Ok(b) => b,
        Err(f) => {
            return Err(PairCodeFailure::Base45(f));
        },
    };
    let restored = if codec == PAIR_CODEC_COMPRESSED {
        match inflate_raw(bytes.as_slice()) {
            Some(r) => r,
            None => {
                return Err(PairCodeFailure::NotRestored);
            },
        }
    } else if codec == PAIR_CODEC_PLAIN {
        bytes
    } else {
        return Err(PairCodeFailure::UnsupportedCodec);
    };
    let sdp = match utf8_text(restored) {
        Some(s) => s,
        None => {
            return Err(PairCodeFailure::NotRestored);
        },
    };
    Ok(PairPayload {
        kind: owned(kind),
        version,
        invitation_id: text_of(t, p1 + 1, p2),
        description_type: owned(description_type),
        sdp,
    })
}

/// A found position lies in the text and holds the character.
pub proof fn lemma_find_char_bounds(s: Seq<char>, c: char, from: int)
    ensures
        find_char(s, c, from) matches Some(k) ==> from <= k < s.len() && s[k] == c,
    decreases s.len() - from,
{
    if 0 <= from < s.len() && s[from] != c {
        lemma_find_char_bounds(s, c, from + 1);
    }
}

/// Reads a pairing text: JSON (text opening with `{`) is passed on when it is valid, any
/// other text is read as a code. Line breaks and tabs around the text are ignored.
/// `d` is what the pairing text `raw` reads as: the JSON text itself, or the fields of its code.
pub open spec fn is_decoding_of(d: DecodedPairing, raw: Seq<char>) -> bool {
    let t = unwrap_code(raw);
    if t.len() > 0 && t[0] == '{' {
        d matches DecodedPairing::Json(j) && j@ == t
    } else {
        match spec_read_code(t) {
            Ok(model) => d matches DecodedPairing::Code(p) && p.kind@ == model.kind && p.description_type@
                == model.description_type && p.version == model.version && p.invitation_id@ == model.invitation_id
                && p.sdp@ == model.sdp,
            Err(_) => false,
        }
    }
}

pub fn decode_pair_payload(raw: &str) -> (decoded: Result<DecodedPairing, String>)
    ensures
        ({
            let t = unwrap_code(raw@);
            if t.len() == 0 {
                decoded matches Err(m) && m@ == pair_failure_message(PairCodeFailure::Missing)
            } else if t[0] == '{' {
                if valid_json(t) {
                    decoded matches Ok(DecodedPairing::Json(j)) && j@ == t
                } else {
                    decoded matches Err(m) && m@ == pair_failure_message(PairCodeFailure::Invalid)
                }
            } else {
                match spec_read_code(t) {
                    Ok(model) => decoded matches Ok(DecodedPairing::Code(p)) && p.kind@ == model.kind && p.description_type@
                        == model.description_type && p.version == model.version && p.invitation_id@ == model.invitation_id
                        && p.sdp@ == model.sdp,
                    Err(f) => decoded matches Err(m) && m@ == pair_failure_message(f),
                }
            }
        }),
        decoded matches Ok(d) ==> is_decoding_of(d, raw@),
{
    let t = normalize_pair_payload_text(raw);
    proof {
        lemma_unwrapped_unique(t@, unwrap_code(raw@), raw@);
    }
    if t.len() == 0 {
        return Err(failure_text(PairCodeFailure::Missing));
    }
    if t[0] == '{' {
        let text = string_from_chars(t.as_slice());
        if json_is_valid(text.as_str()) {
            return Ok(DecodedPairing::Json(text));
        }
        return Err(failure_text(PairCodeFailure::Invalid));
    }
    match read_code(&t) {
        Ok(p) => Ok(DecodedPairing::Code(p)),
        Err(f) => Err(failure_text(f)),
    }
}

/// Every symbol of Base45 text is one of the alphabet's.
pub proof fn lemma_base45_symbols(bytes: Seq<u8>)
    ensures
        forall|i: int| 0 <= i < base45_encode(bytes).len() ==> spec_base45_value(#[trigger] base45_encode(bytes)[i]) is Some,
    decreases bytes.len(),
{
    reveal(base45_encode);
    reveal(base45_triple);
    reveal(base45_pair);
    let n = bytes.len();
    if n > 0 {
        let k: int = if n % 2 == 1 { 1 } else { 2 };
        let head = bytes.take(n - k);
        lemma_base45_symbols(head);
        let v: int = if k == 1 { bytes[n - 1] as int } else { bytes[n - 2] * 256 + bytes[n - 1] };
        let last = if k == 1 { base45_pair(v) } else { base45_triple(v) };
        lemma_base45_digits(v);
        lemma_base45_symbol_value(v % 45);
        lemma_base45_symbol_value((v / 45) % 45);
        lemma_base45_symbol_value(v / 2025);
        if k == 1 {
            lemma_base45_symbol_value(v / 45);
        }
        assert(base45_encode(bytes) == base45_encode(head) + last);
        assert forall|i: int| 0 <= i < base45_encode(bytes).len() implies spec_base45_value(#[trigger] base45_encode(bytes)[i]) is Some by {
            if i < base45_encode(head).len() {
                assert(base45_encode(bytes)[i] == base45_encode(head)[i]);
            } else {
                assert(base45_encode(bytes)[i] == last[i - base45_encode(head).len()]);
            }
        }
    }
}

/// Base45 text of some bytes is not empty.
proof fn lemma_base45_nonempty(bytes: Seq<u8>)
    requires
        bytes.len() > 0,
    ensures
        base45_encode(bytes).len() > 0,
{
    lemma_encode_front(bytes);
    reveal(base45_triple);
    reveal(base45_pair);
}

/// The first colon from `from` on is at `k` when `k` holds one and nothing before it does.
pub proof fn lemma_find_char_at(s: Seq<char>, c: char, from: int, k: int)
    requires
        0 <= from <= k < s.len(),
        s[k] == c,
        forall|i: int| from <= i < k ==> s[i] != c,
    ensures
        find_char(s, c, from) == Some(k),
    decreases k - from,
{
    if from < k {
        lemma_find_char_at(s, c, from + 1, k);
    }
}

/// The UTF-8 bytes of Base45 text written as characters are the symbols themselves.
proof fn lemma_symbols_utf8(symbols: Seq<u8>)
    requires
        forall|i: int| 0 <= i < symbols.len() ==> spec_base45_value(#[trigger] symbols[i]) is Some,
    ensures
        vstd::utf8::encode_utf8(symbols_as_chars(symbols)) == symbols,
{
    let chars = symbols_as_chars(symbols);
    assert forall|i: int| 0 <= i < chars.len() implies '\0' <= #[trigger] chars[i] <= '\u{7f}' by {
        assert(spec_base45_value(symbols[i]) is Some);
    }
    assert(vstd::utf8::is_ascii_chars(chars));
    vstd::utf8::is_ascii_chars_encode_utf8(chars);
    assert forall|i: int| 0 <= i < symbols.len() implies vstd::utf8::encode_utf8(chars)[i] == symbols[i] by {
        assert(chars[i] as u8 == vstd::utf8::encode_utf8(chars)[i]);
        assert(spec_base45_value(symbols[i]) is Some);
    }
    assert(vstd::utf8::encode_utf8(chars) =~= symbols);
}

/// A code written from a known prefix, an invitation id without colons, a codec mark and a
/// payload reads back as those parts, and needs no unwrapping.
pub proof fn lemma_code_read_back(prefix: Seq<char>, invitation_id: Seq<char>, codec: char, payload: Seq<u8>)
    requires
        spec_pair_prefix_metadata(prefix) is Some,
        !invitation_id.contains(':'),
        codec == PAIR_CODEC_COMPRESSED || codec == PAIR_CODEC_PLAIN,
    ensures
        ({
            let t = code_text(prefix, invitation_id, codec, payload);
            let p1 = prefix.len() as int;
            let p2 = p1 + 1 + invitation_id.len();
            &&& find_char(t, ':', 0) == Some(p1)
            &&& find_char(t, ':', p1 + 1) == Some(p2)
            &&& find_char(t, ':', p2 + 1) == Some(p2 + 2)
            &&& t.subrange(0, p1) == prefix
            &&& t.subrange(p1 + 1, p2) == invitation_id
            &&& t[p2 + 1] == codec
            &&& base45_decode(vstd::utf8::encode_utf8(t.subrange(p2 + 3, t.len() as int))) == Ok::<Seq<u8>, Base45Failure>(payload)
            &&& unwrap_code(t) == t
        }),
{
    reveal_strlit("MZO1");
    reveal_strlit("MZA1");
    let t = code_text(prefix, invitation_id, codec, payload);
    let symbols = base45_encode(payload);
    let tail = symbols_as_chars(symbols);
    let p1 = prefix.len() as int;
    let p2 = p1 + 1 + invitation_id.len();
    assert(prefix.len() == 4);
    assert(t.len() == p2 + 3 + tail.len());
    assert forall|i: int| 0 <= i < p1 implies t[i] != ':' by {
        assert(t[i] == prefix[i]);
    }
    assert(t[p1] == ':');
    lemma_find_char_at(t, ':', 0, p1);
    assert forall|i: int| p1 + 1 <= i < p2 implies t[i] != ':' by {
        assert(t[i] == invitation_id[i - p1 - 1]);
        if t[i] == ':' {
            assert(invitation_id.contains(':'));
        }
    }
    assert(t[p2] == ':');
    lemma_find_char_at(t, ':', p1 + 1, p2);
    assert(t[p2 + 1] == codec);
    assert(t[p2 + 2] == ':');
    lemma_find_char_at(t, ':', p2 + 1, p2 + 2);
    assert(t.subrange(0, p1) =~= prefix);
    assert(t.subrange(p1 + 1, p2) =~= invitation_id);
    assert(t.subrange(p2 + 3, t.len() as int) =~= tail);
    lemma_base45_symbols(payload);
    lemma_symbols_utf8(symbols);
    base45_round_trip(payload);
    if payload.len() > 0 {
        lemma_base45_nonempty(payload);
        let last = symbols[symbols.len() - 1];
        assert(spec_base45_value(last) is Some);
        assert(t[t.len() - 1] == tail[tail.len() - 1]);
    } else {
        reveal(base45_encode);
        assert(tail.len() == 0);
        assert(t[t.len() - 1] == ':');
    }
    assert(!is_code_wrapping(t[0]));
    assert(!is_code_wrapping(t[t.len() - 1]));
    assert(is_unwrapped_of(t, t)) by {
        assert(t == t.subrange(0, t.len() as int));
    }
    lemma_unwrapped_unique(t, unwrap_code(t), t);
}

/// Writes a code for a payload given by its fields: the invitation id is trimmed and made
/// upper-case first. Refused when the id is then empty or the description is empty, and for an
/// unknown kind.
pub fn encode_pair_payload(kind: &str, invitation_id: &str, sdp: &str) -> (code: Result<String, String>)
    ensures
        is_blank_text(invitation_id@) || sdp@.len() == 0 ==> (code matches Err(m) && m@ == "Invalid pairing payload."@),
        !is_blank_text(invitation_id@) && sdp@.len() > 0 && spec_pair_prefix_for(kind@) is None ==> (code matches Err(m) && m@
            == "Invalid pairing payload."@),
        !is_blank_text(invitation_id@) && sdp@.len() > 0 && spec_pair_prefix_for(kind@) is Some ==> code is Ok,
        code matches Ok(c) ==> exists|t: Seq<char>| {
            &&& is_trim_of(t, invitation_id@)
            &&& spec_pair_prefix_for(kind@) matches Some(prefix)
            &&& c@ == code_text(prefix, ascii_upper_text(t), code_payload(sdp.spec_bytes()).0, code_payload(sdp.spec_bytes()).1)
            &&& !ascii_upper_text(t).contains(':') ==> {
                &&& unwrap_code(c@) == c@
                &&& spec_read_code(c@) matches Ok(m)
                &&& m.kind == kind@
                &&& m.invitation_id == ascii_upper_text(t)
                &&& m.sdp == sdp@
            }
        },
{
    let trimmed = trimmed_chars(invitation_id);
    let upper = to_ascii_uppercase(&trimmed);
    if upper.len() == 0 || sdp.unicode_len() == 0 {
        return Err(owned("Invalid pairing payload."));
    }
    let id = string_from_chars(upper.as_slice());
    let code = encode_pair_payload_v1(kind, id.as_str(), sdp);
    proof {
        if code is Ok {
            assert(is_trim_of(trimmed@, invitation_id@));
        }
    }
    code
}

/// The text of a transport frame: prefix, invitation id, `D`, the frame kind, the frame's
/// number, the frame count, the chunk's length and the chunk, separated by colons.
pub open spec fn frame_text(invitation_id: Seq<char>, kind: char, number: nat, count: nat, chunk: Seq<char>) -> Seq<char> {
    PAIR_TRANSPORT_PREFIX@ + seq![':'] + invitation_id + seq![':', 'D', ':', kind, ':'] + decimal_text(number) + seq![':']
        + decimal_text(count) + seq![':'] + decimal_text(chunk.len()) + seq![':'] + chunk
}

/// How many frames of `chunk` characters a code of `len` characters takes.
pub open spec fn frame_count(len: nat, chunk: nat) -> nat {
    if chunk == 0 { 0 } else { ((len + chunk - 1) / (chunk as int)) as nat }
}

/// The frames a code is cut into: its id and kind from the code, then every `chunk`
/// characters of the whole code in order.
pub open spec fn frames_for(code: Seq<char>, invitation_id: Seq<char>, kind: char, chunk: nat, frames: Seq<Seq<char>>) -> bool {
    &&& chunk >= 1
    &&& frames.len() == frame_count(code.len(), chunk)
    &&& forall|k: int| 0 <= k < frames.len() ==> #[trigger] frames[k] == frame_text(
        invitation_id,
        kind,
        (k + 1) as nat,
        frames.len(),
        code.subrange(k * chunk, if (k + 1) * chunk < code.len() { (k + 1) * chunk } else { code.len() as int }),
    )
}

fn decimal_string_chars(n: usize, chars: &mut Vec<char>)
    ensures
        final(chars)@ == old(chars)@ + decimal_text(n as nat),
{
    let digits = decimal_chars(n);
    push_chars(chars, digits.as_slice());
}

/// `r` is what cutting the pairing text `raw` into frames of `chunk_chars` characters gives:
/// the frames of its code, or why it cannot be cut.
pub open spec fn cuts_into_frames(raw: Seq<char>, chunk_chars: usize, r: Result<Seq<Seq<char>>, Seq<char>>) -> bool {
    let t = unwrap_code(raw);
    let chunk = if chunk_chars < 1 { 1nat } else { chunk_chars as nat };
    if t.len() == 0 {
        r matches Err(m) && m == "Missing pairing payload."@
    } else {
        match find_char(t, ':', 0) {
            None => r matches Err(m) && m == "Unrecognized pairing payload."@,
            Some(p1) => match find_char(t, ':', p1 + 1) {
                None => r matches Err(m) && m == "Unrecognized pairing payload."@,
                Some(p2) => match spec_pair_prefix_metadata(t.subrange(0, p1)) {
                    None => r matches Err(m) && m == "Unrecognized pairing payload."@,
                    Some((kind, _, _)) => r matches Ok(f) && frames_for(
                        t,
                        t.subrange(p1 + 1, p2),
                        if kind == "mazocarta_offer"@ { 'O' } else { 'R' },
                        chunk,
                        f,
                    ),
                },
            },
        }
    }
}

/// The frames, or the refusal, as text.
pub open spec fn frames_text(r: Result<Vec<String>, String>) -> Result<Seq<Seq<char>>, Seq<char>> {
    match r {
        Ok(f) => Ok(f@.map_values(|s: String| s@)),
        Err(m) => Err(m@),
    }
}

/// Cuts a code into transport frames of `chunk_chars` characters (at least one) each.
/// Refused for an empty code and for a code without a known prefix and id.
pub fn build_transport_frames(raw_code: &str, chunk_chars: usize) -> (frames: Result<Vec<String>, String>)
    ensures
        cuts_into_frames(raw_code@, chunk_chars, frames_text(frames)),
{
    let t = normalize_pair_payload_text(raw_code);
    proof {
        lemma_unwrapped_unique(t@, unwrap_code(raw_code@), raw_code@);
    }
    if t.len() == 0 {
        return Err(owned("Missing pairing payload."));
    }
    let p1 = match find_char_from(&t, ':', 0) {
        Some(p) => p,
        None => {
            return Err(owned("Unrecognized pairing payload."));
        },
    };
    proof {
        lemma_find_char_bounds(t@, ':', 0);
        assert(t@.len() == t.len());
    }
    let p2 = match find_char_from(&t, ':', p1 + 1) {
        Some(p) => p,
        None => {
            return Err(owned("Unrecognized pairing payload."));
        },
    };
    proof {
        lemma_find_char_bounds(t@, ':', p1 + 1);
    }
    let prefix = text_of(&t, 0, p1);
    let (kind, _, _) = match pair_prefix_metadata(prefix.as_str()) {
        Some(m) => m,
        None => {
            return Err(owned("Unrecognized pairing payload."));
        },
    };
    let frame_kind = if str_eq(kind, "mazocarta_offer") { 'O' } else { 'R' };
    let chunk: usize = if chunk_chars < 1 { 1 } else { chunk_chars };
    let id = slice_chars(&t, p1 + 1, p2);
    let len = t.len();
    proof {
        assert(len / chunk + (if len % chunk != 0 { 1int } else { 0int }) <= usize::MAX) by (nonlinear_arith)
            requires
                chunk >= 1,
                len <= usize::MAX,
        ;
    }
    let total: usize = len / chunk + if len % chunk != 0 { 1 } else { 0 };
    proof {
        assert(total == frame_count(len as nat, chunk as nat)) by (nonlinear_arith)
            requires
                chunk >= 1,
                total == len / chunk + if len % chunk != 0 { 1int } else { 0int },
        ;
    }
    proof {
        assert(total >= 1) by (nonlinear_arith)
            requires
                len > 0,
                chunk >= 1,
                total == frame_count(len as nat, chunk as nat),
        ;
    }
    let mut frames: Vec<String> = Vec::new();
    let mut index: usize = 0;
    let mut start: usize = 0;
    while start < len
        invariant
            len == t@.len(),
            len > 0,
            chunk >= 1,
            total == frame_count(len as nat, chunk as nat),
            index <= total,
            index < total ==> start == index * chunk,
            index == total ==> start == len,
            frames@.len() == index,
            forall|k: int| 0 <= k < index ==> #[trigger] frames@[k]@ == frame_text(
                id@,
                frame_kind,
                (k + 1) as nat,
                total as nat,
                t@.subrange(k * chunk, if (k + 1) * chunk < len { (k + 1) * chunk } else { len as int }),
            ),
        decreases len - start,
    {
        let last = len - start <= chunk;
        let end: usize = if last { len } else { start + chunk };
        proof {
            assert(index < total);
            assert((index + 1) * chunk == start + chunk) by (nonlinear_arith)
                requires
                    start == index * chunk,
            ;
            if last {
                assert(index + 1 == total) by (nonlinear_arith)
                    requires
                        start == index * chunk,
                        start < len,
                        len <= start + chunk,
                        chunk >= 1,
                        total == frame_count(len as nat, chunk as nat),
                ;
            } else {
                assert(index + 1 < total) by (nonlinear_arith)
                    requires
                        start == index * chunk,
                        start + chunk < len,
                        chunk >= 1,
                        total == frame_count(len as nat, chunk as nat),
                ;
            }
        }
        let piece = slice_chars(&t, start, end);
        let mut chars = chars_of(PAIR_TRANSPORT_PREFIX);
        chars.push(':');
        push_chars(&mut chars, id.as_slice());
        chars.push(':');
        chars.push('D');
        chars.push(':');
        chars.push(frame_kind);
        chars.push(':');
        decimal_string_chars(index + 1, &mut chars);
        chars.push(':');
        decimal_string_chars(total, &mut chars);
        chars.push(':');
        decimal_string_chars(end - start, &mut chars);
        chars.push(':');
        push_chars(&mut chars, piece.as_slice());
        proof {
            assert(chars@ =~= frame_text(
                id@,
                frame_kind,
                (index + 1) as nat,
                total as nat,
                t@.subrange(index * chunk, if (index + 1) * chunk < len { (index + 1) * chunk } else { len as int }),
            ));
        }
        frames.push(string_from_chars(chars.as_slice()));
        index = index + 1;
        start = end;
    }
    proof {
        if index < total {
            assert(false) by (nonlinear_arith)
                requires
                    start == index * chunk,
                    start >= len,
                    index < total,
                    chunk >= 1,
                    total == frame_count(len as nat, chunk as nat),
            ;
        }
        let views = frames@.map_values(|s: String| s@);
        assert(views.len() == frames@.len());
        assert forall|k: int| 0 <= k < frames@.len() implies #[trigger] views[k] == frame_text(
            id@,
            frame_kind,
            (k + 1) as nat,
            frames@.len(),
            t@.subrange(k * chunk, if (k + 1) * chunk < t@.len() { (k + 1) * chunk } else { t@.len() as int }),
        ) by {
            assert(frames@[k]@ == views[k]);
        }
        reveal_strlit("mazocarta_offer");
    }
    Ok(frames)
}

/// One transport frame: which code it belongs to, its number and the frame count, and its
/// chunk of the code.
#[derive(Clone, Debug, PartialEq, Eq)]
pub struct TransportFrame {
    pub invitation_id: String,
    pub kind: char,
    pub index: usize,
    pub count: usize,
    pub chunk: String,
}

/// Text split at colons into at most `parts` fields, the last one holding the rest (std's
/// `splitn`).
pub open spec fn split_colon(s: Seq<char>, parts: nat) -> Seq<Seq<char>>
    decreases parts,
{
    if parts <= 1 {
        seq![s]
    } else {
        match find_char(s, ':', 0) {
            None => seq![s],
            Some(p) => seq![s.subrange(0, p)] + split_colon(s.subrange(p + 1, s.len() as int), (parts - 1) as nat),
        }
    }
}

pub open spec fn is_digit(c: char) -> bool {
    '0' <= c && c <= '9'
}

/// The value of decimal digits.
pub open spec fn digits_value(s: Seq<char>) -> nat
    decreases s.len(),
{
    if s.len() == 0 {
        0
    } else {
        digits_value(s.drop_last()) * 10 + ((s.last() as u32) - ('0' as u32)) as nat
    }
}

/// The digits of an unsigned number: the text without a leading `+`.
pub open spec fn unsigned_digits(s: Seq<char>) -> Seq<char> {
    if s.len() > 0 && s[0] == '+' { s.subrange(1, s.len() as int) } else { s }
}

pub open spec fn all_digits(s: Seq<char>) -> bool {
    forall|i: int| 0 <= i < s.len() ==> is_digit(#[trigger] s[i])
}

/// An unsigned number as std's `usize::from_str` reads it: an optional `+`, then at least
/// one decimal digit, and a value that fits.
pub open spec fn spec_parse_usize(s: Seq<char>) -> Option<usize> {
    let digits = unsigned_digits(s);
    if digits.len() == 0 || !all_digits(digits) {
        None
    } else if digits_value(digits) > usize::MAX {
        None
    } else {
        Some(digits_value(digits) as usize)
    }
}

/// Reads an unsigned number.
pub fn parse_usize(s: &Vec<char>) -> (value: Option<usize>)
    ensures
        value == spec_parse_usize(s@),
{
    let start: usize = if s.len() > 0 && s[0] == '+' { 1 } else { 0 };
    let ghost digits = unsigned_digits(s@);
    proof {
        assert(digits =~= s@.subrange(start as int, s@.len() as int));
    }
    if start >= s.len() {
        return None;
    }
    let mut value: usize = 0;
    let mut k: usize = start;
    while k < s.len()
        invariant
            start <= k <= s@.len(),
            digits == s@.subrange(start as int, s@.len() as int),
            digits == unsigned_digits(s@),
            forall|i: int| start <= i < k ==> is_digit(#[trigger] s@[i]),
            value == digits_value(s@.subrange(start as int, k as int)),
        decreases s.len() - k,
    {
        let c = s[k];
        if !('0' <= c && c <= '9') {
            proof {
                assert(!is_digit(digits[k - start]));
                assert(!all_digits(digits));
            }
            return None;
        }
        let d = (c as u32 - '0' as u32) as usize;
        proof {
            assert(s@.subrange(start as int, k + 1).drop_last() =~= s@.subrange(start as int, k as int));
        }
        let scaled = match value.checked_mul(10) {
            Some(v) => v,
            None => {
                proof {
                    lemma_digits_grow(digits, (k + 1 - start) as int);
                    assert(digits.subrange(0, (k + 1 - start) as int) =~= s@.subrange(start as int, k + 1));
                }
                return None;
            },
        };
        let next = match scaled.checked_add(d) {
            Some(v) => v,
            None => {
                proof {
                    lemma_digits_grow(digits, (k + 1 - start) as int);
                    assert(digits.subrange(0, (k + 1 - start) as int) =~= s@.subrange(start as int, k + 1));
                }
                return None;
            },
        };
        value = next;
        k = k + 1;
    }
    proof {
        assert(s@.subrange(start as int, s@.len() as int) =~= digits);
    }
    Some(value)
}

/// A longer prefix of digits is worth at least as much.
proof fn lemma_digits_grow(s: Seq<char>, n: int)
    requires
        0 <= n <= s.len(),
    ensures
        digits_value(s.subrange(0, n)) <= digits_value(s),
    decreases s.len() - n,
{
    if n < s.len() {
        lemma_digits_grow(s, n + 1);
        assert(s.subrange(0, n + 1).drop_last() =~= s.subrange(0, n));
    } else {
        assert(s.subrange(0, n) =~= s);
    }
}

/// What a transport frame text says, once read: refused as malformed, not a frame at all
/// (no `MZQ1:` prefix), or a frame.
pub open spec fn spec_parse_frame(t: Seq<char>) -> Result<Option<(Seq<char>, char, usize, usize, Seq<char>)>, ()> {
    let head = PAIR_TRANSPORT_PREFIX@ + seq![':'];
    if t.len() < head.len() || t.subrange(0, head.len() as int) != head {
        Ok(None)
    } else {
        let fields = split_colon(t.subrange(head.len() as int, t.len() as int), 7);
        if fields.len() < 7 || fields[2].len() == 0 {
            Err(())
        } else {
            let invitation_id = fields[0];
            let kind = fields[2][0];
            match (spec_parse_usize(fields[3]), spec_parse_usize(fields[4]), spec_parse_usize(fields[5])) {
                (Some(index), Some(count), Some(chunk_len)) => {
                    if invitation_id.len() == 0 || fields[1] != seq!['D'] || !(kind == 'O' || kind == 'R') || index == 0
                        || count == 0 || index > count || fields[6].len() > chunk_len {
                        Err(())
                    } else {
                        Ok(Some((invitation_id, kind, index, count, fields[6] + Seq::new((chunk_len - fields[6].len()) as nat, |i: int| ' '))))
                    }
                },
                _ => Err(()),
            }
        }
    }
}

/// The views of split fields.
pub open spec fn field_views(fields: Seq<Vec<char>>) -> Seq<Seq<char>> {
    Seq::new(fields.len(), |i: int| fields[i]@)
}

/// Splits text at colons into at most `parts` fields.
pub fn split_colon_chars(s: &Vec<char>, parts: usize) -> (fields: Vec<Vec<char>>)
    ensures
        field_views(fields@) == split_colon(s@, parts as nat),
{
    let mut fields: Vec<Vec<char>> = Vec::new();
    let mut rest = slice_chars(s, 0, s.len());
    let mut left: usize = parts;
    proof {
        assert(s@.subrange(0, s@.len() as int) =~= s@);
        assert(field_views(fields@) + split_colon(rest@, left as nat) =~= split_colon(s@, parts as nat));
    }
    while left > 1
        invariant
            field_views(fields@) + split_colon(rest@, left as nat) == split_colon(s@, parts as nat),
        ensures
            field_views(fields@) + split_colon(rest@, left as nat) == split_colon(s@, parts as nat),
            left <= 1 || find_char(rest@, ':', 0) is None,
        decreases left,
    {
        let found = find_char_from(&rest, ':', 0);
        match found {
            None => {
                break;
            },
            Some(p) => {
                proof {
                    lemma_find_char_bounds(rest@, ':', 0);
                    assert(rest@.len() == rest.len());
                }
                let head = slice_chars(&rest, 0, p);
                let tail = slice_chars(&rest, p + 1, rest.len());
                let ghost old_fields = field_views(fields@);
                let ghost old_rest = rest@;
                fields.push(head);
                proof {
                    assert(field_views(fields@) =~= old_fields.push(old_rest.subrange(0, p as int)));
                    assert(split_colon(old_rest, left as nat) == seq![old_rest.subrange(0, p as int)] + split_colon(tail@, (left - 1) as nat));
                    assert(field_views(fields@) + split_colon(tail@, (left - 1) as nat) =~= old_fields + split_colon(old_rest, left as nat));
                }
                rest = tail;
                left = left - 1;
            },
        }
    }
    proof {
        assert(split_colon(rest@, left as nat) == seq![rest@]);
        assert(field_views(fields@) + seq![rest@] =~= field_views(fields@.push(rest)));
    }
    fields.push(rest);
    fields
}

fn chars_equal(a: &Vec<char>, b: &[char]) -> (same: bool)
    ensures
        same == (a@ == b@),
{
    if a.len() != b.len() {
        return false;
    }
    let mut i: usize = 0;
    while i < a.len()
        invariant
            i <= a@.len(),
            a@.len() == b@.len(),
            forall|k: int| 0 <= k < i ==> a@[k] == b@[k],
        decreases a.len() - i,
    {
        if a[i] != b[i] {
            return false;
        }
        i = i + 1;
    }
    proof {
        assert(a@ =~= b@);
    }
    true
}

/// Reads a transport frame (line breaks and tabs around it are ignored): text without the
/// `MZQ1:` prefix is no frame; a frame's chunk is padded with spaces back to its stated
/// length (scanners may trim them). Refused as malformed otherwise.
pub fn parse_transport_frame(raw: &str) -> (frame: Result<Option<TransportFrame>, String>)
    ensures
        match spec_parse_frame(unwrap_code(raw@)) {
            Err(()) => frame matches Err(m) && m@ == "Malformed QR transport frame."@,
            Ok(None) => frame matches Ok(None),
            Ok(Some((invitation_id, kind, index, count, chunk))) => frame matches Ok(Some(f)) && f.invitation_id@ == invitation_id
                && f.kind == kind && f.index == index && f.count == count && f.chunk@ == chunk,
        },
{
    let t = normalize_pair_payload_text(raw);
    proof {
        lemma_unwrapped_unique(t@, unwrap_code(raw@), raw@);
        reveal_strlit("MZQ1");
    }
    let head = ['M', 'Z', 'Q', '1', ':'];
    proof {
        assert(head@ =~= PAIR_TRANSPORT_PREFIX@ + seq![':']);
    }
    if t.len() < 5 {
        return Ok(None);
    }
    let lead = slice_chars(&t, 0, 5);
    if !chars_equal(&lead, &head) {
        return Ok(None);
    }
    let body = slice_chars(&t, 5, t.len());
    let fields = split_colon_chars(&body, 7);
    proof {
        assert(field_views(fields@).len() == fields@.len());
    }
    if fields.len() < 7 || fields[2].len() == 0 {
        proof {
            if fields@.len() >= 7 {
                assert(field_views(fields@)[2] == fields@[2]@);
            }
        }
        return Err(owned("Malformed QR transport frame."));
    }
    proof {
        assert forall|i: int| 0 <= i < 7 implies #[trigger] field_views(fields@)[i] == fields@[i]@ by {}
    }
    let kind = fields[2][0];
    let index = parse_usize(&fields[3]);
    let count = parse_usize(&fields[4]);
    let chunk_len = parse_usize(&fields[5]);
    let (index, count, chunk_len) = match (index, count, chunk_len) {
        (Some(i), Some(c), Some(l)) => (i, c, l),
        _ => {
            return Err(owned("Malformed QR transport frame."));
        },
    };
    let is_d = fields[1].len() == 1 && fields[1][0] == 'D';
    proof {
        if fields@[1]@ == seq!['D'] {
            assert(is_d);
        }
        if is_d {
            assert(fields@[1]@ =~= seq!['D']);
        }
    }
    if fields[0].len() == 0 || !is_d || !(kind == 'O' || kind == 'R') || index == 0 || count == 0 || index > count
        || fields[6].len() > chunk_len {
        return Err(owned("Malformed QR transport frame."));
    }
    let mut chunk = slice_chars(&fields[6], 0, fields[6].len());
    let received = fields[6].len();
    proof {
        assert(fields@[6]@.subrange(0, fields@[6]@.len() as int) =~= fields@[6]@);
    }
    let mut k: usize = received;
    while k < chunk_len
        invariant
            received <= k <= chunk_len,
            received == fields@[6]@.len(),
            chunk@ == fields@[6]@ + Seq::new((k - received) as nat, |i: int| ' '),
        decreases chunk_len - k,
    {
        chunk.push(' ');
        k = k + 1;
        proof {
            assert(chunk@ =~= fields@[6]@ + Seq::new((k - received) as nat, |i: int| ' '));
        }
    }
    Ok(Some(TransportFrame {
        invitation_id: string_from_chars(fields[0].as_slice()),
        kind,
        index,
        count,
        chunk: string_from_chars(chunk.as_slice()),
    }))
}

/// Whether a pairing text reads: valid JSON, or a code that reads into a payload.
pub open spec fn pair_text_reads(raw: Seq<char>) -> bool {
    let t = unwrap_code(raw);
    t.len() > 0 && if t[0] == '{' { valid_json(t) } else { spec_read_code(t) is Ok }
}

/// The frames of one code gathered so far, by number.
#[derive(Clone, Debug, PartialEq, Eq)]
pub struct TransportAssembly {
    pub invitation_id: String,
    pub kind: char,
    pub count: usize,
    pub parts: Vec<Option<String>>,
}

/// What a submitted text was: a whole code, one more frame of a code, or the last frame.
#[derive(Clone, Copy, Debug, PartialEq, Eq, Structural)]
pub enum TransportSubmitResult {
    DirectCode,
    Partial,
    Complete,
}

/// Where a pairing exchange stands: the input to read, the output to show, the payload last
/// read, the frames of the code to send, and the frames of the code being received.
pub struct PairingBridge {
    pub input_buffer: Vec<u8>,
    pub output_buffer: Vec<u8>,
    pub decoded_payload: Option<DecodedPairing>,
    pub frames: Vec<String>,
    pub assembly: Option<TransportAssembly>,
    pub received_parts: usize,
    pub total_parts: usize,
}

/// How many of the parts have arrived.
pub open spec fn received_count(parts: Seq<Option<String>>) -> nat
    decreases parts.len(),
{
    if parts.len() == 0 {
        0
    } else {
        received_count(parts.drop_last()) + if parts.last() is Some { 1nat } else { 0nat }
    }
}

/// The parts joined in order (a missing part counts as empty).
pub open spec fn joined_parts(parts: Seq<Option<String>>) -> Seq<char>
    decreases parts.len(),
{
    if parts.len() == 0 {
        seq![]
    } else {
        joined_parts(parts.drop_last()) + match parts.last() {
            Some(s) => s@,
            None => seq![],
        }
    }
}

/// The text of each part, `None` for a part not in yet.
pub open spec fn part_texts(parts: Seq<Option<String>>) -> Seq<Option<Seq<char>>> {
    Seq::new(parts.len(), |i: int| match parts[i] {
        Some(s) => Some(s@),
        None => None,
    })
}

/// How many parts are in.
pub open spec fn texts_in(parts: Seq<Option<Seq<char>>>) -> nat
    decreases parts.len(),
{
    if parts.len() == 0 {
        0
    } else {
        texts_in(parts.drop_last()) + if parts.last() is Some { 1nat } else { 0nat }
    }
}

/// The parts joined in order (a part not in counts as empty).
pub open spec fn joined_texts(parts: Seq<Option<Seq<char>>>) -> Seq<char>
    decreases parts.len(),
{
    if parts.len() == 0 {
        seq![]
    } else {
        joined_texts(parts.drop_last()) + match parts.last() {
            Some(t) => t,
            None => seq![],
        }
    }
}

proof fn lemma_part_texts(parts: Seq<Option<String>>)
    ensures
        received_count(parts) == texts_in(part_texts(parts)),
        joined_parts(parts) == joined_texts(part_texts(parts)),
    decreases parts.len(),
{
    if parts.len() > 0 {
        lemma_part_texts(parts.drop_last());
        assert(part_texts(parts).drop_last() =~= part_texts(parts.drop_last()));
    }
}

/// The parts in for a frame's code before the frame is added: those of the assembly under way
/// when it is for the same code (same invitation id, kind and count), none otherwise.
pub open spec fn parts_before(assembly: Option<TransportAssembly>, invitation_id: Seq<char>, kind: char, count: usize) -> Seq<Option<Seq<char>>> {
    if assembly is Some && assembly->0.invitation_id@ == invitation_id && assembly->0.kind == kind && assembly->0.count == count {
        part_texts(assembly->0.parts@)
    } else {
        Seq::new(count as nat, |i: int| None::<Seq<char>>)
    }
}

/// `a` gathers the frames of the code with this invitation id, kind and count, with these parts in.
pub open spec fn assembles(a: TransportAssembly, invitation_id: Seq<char>, kind: char, count: usize, parts: Seq<Option<Seq<char>>>) -> bool {
    &&& a.invitation_id@ == invitation_id
    &&& a.kind == kind
    &&& a.count == count
    &&& part_texts(a.parts@) == parts
}

/// What taking a frame (with the given fields) does to the bridge `old`, giving `result` and `new`.
pub open spec fn takes_frame(
    old: PairingBridge,
    new: PairingBridge,
    result: Result<TransportSubmitResult, String>,
    invitation_id: Seq<char>,
    kind: char,
    index: usize,
    count: usize,
    chunk: Seq<char>,
) -> bool {
    let before = parts_before(old.assembly, invitation_id, kind, count);
    let after = before.update(index - 1, Some(chunk));
    if before.len() != count {
        &&& result matches Err(m) && m@ == "QR chunk index out of range."@
        &&& new == (PairingBridge { assembly: new.assembly, ..old })
        &&& new.assembly matches Some(a) && assembles(a, a.invitation_id@, a.kind, a.count, before)
    } else {
        &&& new.received_parts == texts_in(after)
        &&& new.total_parts == count
        &&& new.frames == old.frames
        &&& new.input_buffer == old.input_buffer
        &&& if texts_in(after) == count && pair_text_reads(joined_texts(after)) {
            &&& result == Ok::<TransportSubmitResult, String>(TransportSubmitResult::Complete)
            &&& new.assembly is None
            &&& (new.decoded_payload matches Some(d) && is_decoding_of(d, joined_texts(after)))
        } else {
            &&& new.assembly matches Some(a) && assembles(a, invitation_id, kind, count, after)
            &&& new.decoded_payload == old.decoded_payload
            &&& new.output_buffer == old.output_buffer
            &&& if texts_in(after) == count {
                result is Err
            } else {
                result == Ok::<TransportSubmitResult, String>(TransportSubmitResult::Partial)
            }
        }
    }
}

/// What taking the scanned text `raw` does to the bridge `old`, giving `result` and `new`: a
/// malformed frame is refused and changes nothing; text that is no frame is read as a whole
/// code; a frame joins the frames of its code (see `takes_frame`).
pub open spec fn takes_text(old: PairingBridge, new: PairingBridge, raw: Seq<char>, result: Result<TransportSubmitResult, String>) -> bool {
    &&& spec_parse_frame(unwrap_code(raw)) is Err ==> (result matches Err(m) && m@ == "Malformed QR transport frame."@)
            && new == old
    &&& spec_parse_frame(unwrap_code(raw)) == Ok::<Option<(Seq<char>, char, usize, usize, Seq<char>)>, ()>(None) ==> {
            &&& result is Ok <==> pair_text_reads(raw)
            &&& result is Err ==> new == old
            &&& result is Ok ==> result == Ok::<TransportSubmitResult, String>(TransportSubmitResult::DirectCode)
                && new.assembly is None && new.received_parts == 0 && new.total_parts == 0
                && new.output_buffer@ == vstd::utf8::encode_utf8(raw)
                && (new.decoded_payload matches Some(d) && is_decoding_of(d, raw))
        }
    &&& spec_parse_frame(unwrap_code(raw)) matches Ok(Some((invitation_id, kind, index, count, chunk))) ==> takes_frame(
            old,
            new,
            result,
            invitation_id,
            kind,
            index,
            count,
            chunk,
        )
}

impl Default for PairingBridge {
    fn default() -> (bridge: Self)
        ensures
            bridge.input_buffer@.len() == 0,
            bridge.output_buffer@.len() == 0,
            bridge.decoded_payload is None,
            bridge.frames@.len() == 0,
            bridge.assembly is None,
            bridge.received_parts == 0,
            bridge.total_parts == 0,
    {
        PairingBridge {
            input_buffer: Vec::new(),
            output_buffer: Vec::new(),
            decoded_payload: None,
            frames: Vec::new(),
            assembly: None,
            received_parts: 0,
            total_parts: 0,
        }
    }
}

impl PairingBridge {
    /// The first `len` bytes of the input read as text, when they lie in the input and are
    /// valid UTF-8.
    pub open spec fn input_text(self, len: usize) -> Option<Seq<char>> {
        let bytes = self.input_buffer@.subrange(0, len as int);
        if len <= self.input_buffer@.len() && vstd::utf8::valid_utf8(bytes) {
            Some(vstd::utf8::decode_utf8(bytes))
        } else {
            None
        }
    }

    /// The first `len` input bytes as text; refused past the input's end or for bytes that
    /// are not UTF-8.
    pub fn read_input_string(&self, len: usize) -> (text: Result<String, String>)
        ensures
            len > self.input_buffer@.len() ==> (text matches Err(m) && m@ == "Pairing input buffer overflow."@),
            len <= self.input_buffer@.len() ==> match text {
                Ok(t) => vstd::utf8::valid_utf8(self.input_buffer@.subrange(0, len as int)) && t@ == vstd::utf8::decode_utf8(
                    self.input_buffer@.subrange(0, len as int),
                ),
                Err(m) => !vstd::utf8::valid_utf8(self.input_buffer@.subrange(0, len as int)) && m@ == "Pairing input was not valid UTF-8."@,
            },
    {
        if len > self.input_buffer.len() {
            return Err(owned("Pairing input buffer overflow."));
        }
        let mut bytes: Vec<u8> = Vec::new();
        let mut k: usize = 0;
        while k < len
            invariant
                k <= len <= self.input_buffer@.len(),
                bytes@ == self.input_buffer@.subrange(0, k as int),
            decreases len - k,
        {
            bytes.push(self.input_buffer[k]);
            k = k + 1;
            proof {
                assert(bytes@ =~= self.input_buffer@.subrange(0, k as int));
            }
        }
        match utf8_text(bytes) {
            Some(t) => Ok(t),
            None => Err(owned("Pairing input was not valid UTF-8.")),
        }
    }

    /// Shows text as the output.
    pub fn set_output_string(&mut self, raw: &str)
        ensures
            final(self).output_buffer@ == raw.spec_bytes(),
            *final(self) == (PairingBridge { output_buffer: final(self).output_buffer, ..*old(self) }),
    {
        let bytes = raw.as_bytes();
        let mut output: Vec<u8> = Vec::new();
        let mut k: usize = 0;
        while k < bytes.len()
            invariant
                k <= bytes@.len(),
                output@ == bytes@.subrange(0, k as int),
            decreases bytes.len() - k,
        {
            output.push(bytes[k]);
            k = k + 1;
            proof {
                assert(output@ =~= bytes@.subrange(0, k as int));
            }
        }
        proof {
            assert(bytes@.subrange(0, bytes@.len() as int) =~= bytes@);
        }
        self.output_buffer = output;
    }

    pub fn output_len(&self) -> (len: usize)
        ensures
            len == self.output_buffer@.len(),
    {
        self.output_buffer.len()
    }

    pub fn transport_frame_count(&self) -> (count: usize)
        ensures
            count == self.frames@.len(),
    {
        self.frames.len()
    }

    pub fn transport_received_parts(&self) -> (parts: usize)
        ensures
            parts == self.received_parts,
    {
        self.received_parts
    }

    pub fn transport_total_parts(&self) -> (parts: usize)
        ensures
            parts == self.total_parts,
    {
        self.total_parts
    }

    /// Forgets the frames received so far.
    pub fn reset_transport_assembly(&mut self)
        ensures
            *final(self) == (PairingBridge { assembly: None, received_parts: 0, total_parts: 0, ..*old(self) }),
    {
        self.assembly = None;
        self.received_parts = 0;
        self.total_parts = 0;
    }

    /// Reads a whole pairing text: on success it becomes the output and its payload the
    /// decoded payload; on failure nothing changes.
    pub fn decode_full_code(&mut self, raw: &str) -> (result: Result<(), String>)
        ensures
            result is Ok <==> pair_text_reads(raw@),
            result is Err ==> *final(self) == *old(self),
            result is Ok ==> {
                &&& final(self).output_buffer@ == raw.spec_bytes()
                &&& (final(self).decoded_payload matches Some(d) && is_decoding_of(d, raw@))
                &&& final(self).frames == old(self).frames
                &&& final(self).assembly == old(self).assembly
                &&& final(self).received_parts == old(self).received_parts
                &&& final(self).total_parts == old(self).total_parts
                &&& final(self).input_buffer == old(self).input_buffer
            },
    {
        let decoded = match decode_pair_payload(raw) {
            Ok(d) => d,
            Err(e) => {
                return Err(e);
            },
        };
        self.set_output_string(raw);
        self.decoded_payload = Some(decoded);
        Ok(())
    }

    /// Reads the input as a whole pairing text.
    pub fn decode_payload_from_buffer(&mut self, len: usize) -> (result: Result<(), String>)
        ensures
            result is Ok <==> (old(self).input_text(len) matches Some(t) && pair_text_reads(t)),
            result is Err ==> *final(self) == *old(self),
            result is Ok ==> (final(self).decoded_payload matches Some(d) && is_decoding_of(d, old(self).input_text(len)->0)),
    {
        let raw = match self.read_input_string(len) {
            Ok(raw) => raw,
            Err(e) => {
                return Err(e);
            },
        };
        self.decode_full_code(raw.as_str())
    }

    /// Cuts the code in the input into frames of `chunk_chars` characters; returns how many.
    pub fn build_transport_frames_from_buffer(&mut self, len: usize, chunk_chars: usize) -> (count: Result<usize, String>)
        ensures
            count is Err ==> *final(self) == *old(self),
            count matches Ok(n) ==> n == final(self).frames@.len(),
            old(self).input_text(len) is None ==> count is Err,
            old(self).input_text(len) matches Some(t) ==> cuts_into_frames(
                t,
                chunk_chars,
                match count {
                    Ok(_) => Ok(final(self).frames@.map_values(|s: String| s@)),
                    Err(m) => Err(m@),
                },
            ),
    {
        let raw = match self.read_input_string(len) {
            Ok(raw) => raw,
            Err(e) => {
                return Err(e);
            },
        };
        match build_transport_frames(raw.as_str(), chunk_chars) {
            Ok(frames) => {
                self.frames = frames;
                Ok(self.frames.len())
            },
            Err(e) => Err(e),
        }
    }

    /// Shows frame `index` as the output; refused for a frame that does not exist.
    pub fn export_transport_frame(&mut self, index: usize) -> (exported: bool)
        ensures
            exported == (index < old(self).frames@.len()),
            !exported ==> *final(self) == *old(self),
            exported ==> final(self).output_buffer@ == vstd::utf8::encode_utf8(old(self).frames@[index as int]@),
    {
        if index >= self.frames.len() {
            return false;
        }
        let raw = owned(self.frames[index].as_str());
        self.set_output_string(raw.as_str());
        true
    }

    /// Submits the input as scanned text.
    pub fn submit_transport_text_from_buffer(&mut self, len: usize) -> (result: Result<TransportSubmitResult, String>)
        ensures
            old(self).input_text(len) is None ==> result is Err && *final(self) == *old(self),
            old(self).input_text(len) matches Some(t) ==> takes_text(*old(self), *final(self), t, result),
    {
        let raw = match self.read_input_string(len) {
            Ok(raw) => raw,
            Err(e) => {
                return Err(e);
            },
        };
        self.submit_transport_text(raw.as_str())
    }

    /// Takes one scanned text: a transport frame joins the frames of its code (a frame of
    /// another code starts over) and the code is read once every frame is in; any other text
    /// is read as a whole code. Malformed frames and unreadable codes are refused.
    pub fn submit_transport_text(&mut self, raw: &str) -> (result: Result<TransportSubmitResult, String>)
        ensures
            takes_text(*old(self), *final(self), raw@, result),
    {
        let frame = match parse_transport_frame(raw) {
            Ok(Some(frame)) => frame,
            Ok(None) => {
                match self.decode_full_code(raw) {
                    Ok(()) => {},
                    Err(e) => {
                        return Err(e);
                    },
                }
                self.reset_transport_assembly();
                return Ok(TransportSubmitResult::DirectCode);
            },
            Err(e) => {
                return Err(e);
            },
        };
        let current = self.assembly.take();
        let mut assembly = match current {
            Some(a) => {
                if str_eq(a.invitation_id.as_str(), frame.invitation_id.as_str()) && a.kind == frame.kind && a.count
                    == frame.count {
                    a
                } else {
                    fresh_assembly(&frame)
                }
            },
            None => fresh_assembly(&frame),
        };
        if frame.index == 0 || frame.index > assembly.count || assembly.parts.len() != assembly.count {
            self.assembly = Some(assembly);
            return Err(owned("QR chunk index out of range."));
        }
        let ghost before = part_texts(assembly.parts@);
        let ghost chunk_text = frame.chunk@;
        proof {
            assert(before =~= parts_before(old(self).assembly, frame.invitation_id@, frame.kind, frame.count));
        }
        assembly.parts.set(frame.index - 1, Some(frame.chunk));
        proof {
            assert(part_texts(assembly.parts@) =~= before.update(frame.index - 1, Some(chunk_text)));
        }
        let received = count_received(&assembly.parts);
        proof {
            lemma_part_texts(assembly.parts@);
        }
        self.received_parts = received;
        self.total_parts = assembly.count;
        if received == assembly.count {
            let full_code = join_parts(&assembly.parts);
            match self.decode_full_code(full_code.as_str()) {
                Ok(()) => {
                    self.assembly = None;
                    return Ok(TransportSubmitResult::Complete);
                },
                Err(error) => {
                    self.assembly = Some(assembly);
                    return Err(error);
                },
            }
        }
        proof {
            lemma_received_at_most(assembly.parts@);
        }
        self.assembly = Some(assembly);
        Ok(TransportSubmitResult::Partial)
    }
}

/// A new assembly for the code a frame belongs to, with no part in yet.
fn fresh_assembly(frame: &TransportFrame) -> (assembly: TransportAssembly)
    ensures
        assembly.invitation_id@ == frame.invitation_id@,
        assembly.kind == frame.kind,
        assembly.count == frame.count,
        assembly.parts@.len() == frame.count,
        forall|i: int| 0 <= i < frame.count ==> #[trigger] assembly.parts@[i] is None,
{
    let mut parts: Vec<Option<String>> = Vec::new();
    let mut k: usize = 0;
    while k < frame.count
        invariant
            k <= frame.count,
            parts@.len() == k,
            forall|i: int| 0 <= i < k ==> #[trigger] parts@[i] is None,
        decreases frame.count - k,
    {
        parts.push(None);
        k = k + 1;
    }
    TransportAssembly { invitation_id: owned(frame.invitation_id.as_str()), kind: frame.kind, count: frame.count, parts }
}

/// Counts the parts that have arrived.
fn count_received(parts: &Vec<Option<String>>) -> (count: usize)
    ensures
        count == received_count(parts@),
{
    let mut count: usize = 0;
    let mut k: usize = 0;
    while k < parts.len()
        invariant
            k <= parts@.len(),
            count == received_count(parts@.subrange(0, k as int)),
            count <= k,
        decreases parts.len() - k,
    {
        proof {
            assert(parts@.subrange(0, k + 1).drop_last() =~= parts@.subrange(0, k as int));
        }
        if parts[k].is_some() {
            count = count + 1;
        }
        k = k + 1;
    }
    proof {
        assert(parts@.subrange(0, parts@.len() as int) =~= parts@);
    }
    count
}

/// The number of parts in is at most the number of parts.
proof fn lemma_received_at_most(parts: Seq<Option<String>>)
    ensures
        received_count(parts) <= parts.len(),
    decreases parts.len(),
{
    if parts.len() > 0 {
        lemma_received_at_most(parts.drop_last());
    }
}

/// Joins the parts in order.
fn join_parts(parts: &Vec<Option<String>>) -> (code: String)
    ensures
        code@ == joined_parts(parts@),
{
    let mut chars: Vec<char> = Vec::new();
    let mut k: usize = 0;
    while k < parts.len()
        invariant
            k <= parts@.len(),
            chars@ == joined_parts(parts@.subrange(0, k as int)),
        decreases parts.len() - k,
    {
        proof {
            assert(parts@.subrange(0, k + 1).drop_last() =~= parts@.subrange(0, k as int));
        }
        match &parts[k] {
            Some(part) => {
                let more = chars_of(part.as_str());
                push_chars(&mut chars, more.as_slice());
            },
            None => {
                proof {
                    assert(chars@ + Seq::<char>::empty() =~= chars@);
                }
            },
        }
        k = k + 1;
    }
    proof {
        assert(parts@.subrange(0, parts@.len() as int) =~= parts@);
    }
    string_from_chars(chars.as_slice())
}

/// The decimal text of a number is digits only, without a sign, and reads back as the number.
pub proof fn lemma_decimal_text_reads_back(n: nat)
    ensures
        decimal_text(n).len() > 0,
        all_digits(decimal_text(n)),
        digits_value(decimal_text(n)) == n,
        decimal_text(n)[0] != '+',
        forall|i: int| 0 <= i < decimal_text(n).len() ==> #[trigger] decimal_text(n)[i] != ':',
    decreases n,
{
    let d = n % 10;
    let digit = (('0' as u32) + d as u32) as char;
    assert((digit as u32) - ('0' as u32) == d);
    if n >= 10 {
        lemma_decimal_text_reads_back(n / 10);
        let s = decimal_text(n / 10);
        assert(decimal_text(n) == s.push(digit));
        assert(decimal_text(n).drop_last() =~= s);
        assert(all_digits(decimal_text(n))) by {
            assert forall|i: int| 0 <= i < decimal_text(n).len() implies is_digit(#[trigger] decimal_text(n)[i]) by {
                if i < s.len() {
                    assert(decimal_text(n)[i] == s[i]);
                }
            }
        }
        assert(decimal_text(n).last() == digit);
        assert(digits_value(decimal_text(n)) == digits_value(decimal_text(n).drop_last()) * 10 + d);
        assert(digits_value(decimal_text(n)) == digits_value(s) * 10 + d);
        assert(n == (n / 10) * 10 + n % 10) by (nonlinear_arith);
        assert(forall|i: int| 0 <= i < decimal_text(n).len() ==> is_digit(#[trigger] decimal_text(n)[i]));
    } else {
        assert(decimal_text(n) == seq![digit]);
        assert(decimal_text(n).drop_last() =~= Seq::<char>::empty());
        assert(digits_value(Seq::<char>::empty()) == 0);
        assert(decimal_text(n).last() == digit);
        assert(digits_value(decimal_text(n)) == digits_value(decimal_text(n).drop_last()) * 10 + d);
    }
}

/// Splitting at colons takes a leading field that holds no colon.
pub proof fn lemma_split_colon_step(a: Seq<char>, b: Seq<char>, parts: nat)
    requires
        parts > 1,
        forall|i: int| 0 <= i < a.len() ==> #[trigger] a[i] != ':',
    ensures
        split_colon(a + seq![':'] + b, parts) == seq![a] + split_colon(b, (parts - 1) as nat),
{
    let s = a + seq![':'] + b;
    lemma_find_char_at(s, ':', 0, a.len() as int);
    assert(s.subrange(0, a.len() as int) =~= a);
    assert(s.subrange(a.len() + 1int, s.len() as int) =~= b);
}

/// Every transport frame reads back as the invitation id, kind, number, count and chunk it was
/// written from.
pub proof fn transport_frame_reads_back(invitation_id: Seq<char>, kind: char, number: nat, count: nat, chunk: Seq<char>)
    requires
        invitation_id.len() > 0,
        forall|i: int| 0 <= i < invitation_id.len() ==> #[trigger] invitation_id[i] != ':',
        kind == 'O' || kind == 'R',
        1 <= number <= count <= usize::MAX,
        chunk.len() <= usize::MAX,
    ensures
        spec_parse_frame(frame_text(invitation_id, kind, number, count, chunk)) == Ok::<
            Option<(Seq<char>, char, usize, usize, Seq<char>)>,
            (),
        >(Some((invitation_id, kind, number as usize, count as usize, chunk))),
{
    let head = PAIR_TRANSPORT_PREFIX@ + seq![':'];
    let dn = decimal_text(number);
    let dc = decimal_text(count);
    let dl = decimal_text(chunk.len());
    lemma_decimal_text_reads_back(number);
    lemma_decimal_text_reads_back(count);
    lemma_decimal_text_reads_back(chunk.len());
    let r6 = dl + seq![':'] + chunk;
    let r5 = dc + seq![':'] + r6;
    let r4 = dn + seq![':'] + r5;
    let r3 = seq![kind] + seq![':'] + r4;
    let r2 = seq!['D'] + seq![':'] + r3;
    let rest = invitation_id + seq![':'] + r2;
    let t = frame_text(invitation_id, kind, number, count, chunk);
    assert(t =~= head + rest);
    assert(t.subrange(0, head.len() as int) =~= head);
    assert(t.subrange(head.len() as int, t.len() as int) =~= rest);
    lemma_split_colon_step(invitation_id, r2, 7);
    lemma_split_colon_step(seq!['D'], r3, 6);
    lemma_split_colon_step(seq![kind], r4, 5);
    lemma_split_colon_step(dn, r5, 4);
    lemma_split_colon_step(dc, r6, 3);
    lemma_split_colon_step(dl, chunk, 2);
    let fields = split_colon(rest, 7);
    assert(fields =~= seq![invitation_id, seq!['D'], seq![kind], dn, dc, dl, chunk]);
    assert(unsigned_digits(dn) == dn);
    assert(unsigned_digits(dc) == dc);
    assert(unsigned_digits(dl) == dl);
    assert(chunk + Seq::new(0nat, |i: int| ' ') =~= chunk);
}

/// The chunks of the first `k` frames a code is cut into, joined in order.
pub open spec fn joined_chunks(code: Seq<char>, chunk: nat, k: nat) -> Seq<char>
    decreases k,
{
    if k == 0 {
        Seq::empty()
    } else {
        let j = k - 1;
        joined_chunks(code, chunk, (k - 1) as nat) + code.subrange(
            j * chunk,
            if (j + 1) * chunk < code.len() { (j + 1) * chunk } else { code.len() as int },
        )
    }
}

proof fn lemma_joined_prefix(code: Seq<char>, chunk: nat, k: nat)
    requires
        chunk >= 1,
        k == 0 || (k - 1) * chunk < code.len(),
    ensures
        joined_chunks(code, chunk, k) == code.subrange(0, if k * chunk < code.len() { (k * chunk) as int } else { code.len() as int }),
    decreases k,
{
    if k == 0 {
        assert(code.subrange(0, 0) =~= Seq::<char>::empty());
    } else {
        let j = (k - 1) as nat;
        if j > 0 {
            assert((j - 1) * chunk < j * chunk) by (nonlinear_arith)
                requires
                    chunk >= 1,
                    j > 0,
            ;
        }
        lemma_joined_prefix(code, chunk, j);
        assert(j * chunk + chunk == k * chunk) by (nonlinear_arith)
            requires
                j + 1 == k,
        ;
        let end = if k * chunk < code.len() { (k * chunk) as int } else { code.len() as int };
        assert(code.subrange(0, (j * chunk) as int) + code.subrange((j * chunk) as int, end) =~= code.subrange(0, end));
    }
}

/// The chunks carried by the frames a code is cut into, joined in order, give back the code.
pub proof fn transport_chunks_rejoin(code: Seq<char>, chunk: nat)
    requires
        chunk >= 1,
    ensures
        joined_chunks(code, chunk, frame_count(code.len(), chunk)) == code,
{
    let n = frame_count(code.len(), chunk);
    let len = code.len();
    assert(n * chunk >= len && (n == 0 || (n - 1) * chunk < len)) by (nonlinear_arith)
        requires
            chunk >= 1,
            n == (len + chunk - 1) / (chunk as int),
    ;
    lemma_joined_prefix(code, chunk, n);
    assert(code.subrange(0, len as int) =~= code);
}

} // verus!
