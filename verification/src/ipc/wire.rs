//! The building blocks of a message's bytes: fixed-width little-endian
//! integers, length-prefixed UTF-8 text, and counted lists of text.
//!
//! Each block has a spec function that gives its bytes, a spec parser that
//! reads it at a position, and an executable writer and reader proved equal
//! to them.

use vstd::prelude::*;
use vstd::slice::slice_subrange;
use vstd::slice::slice_to_vec;
use vstd::utf8::decode_utf8;
use vstd::utf8::decode_utf8_encode_utf8;
use vstd::utf8::encode_utf8;
use vstd::utf8::encode_utf8_decode_utf8;
use vstd::utf8::encode_utf8_valid_utf8;
use vstd::utf8::valid_utf8;

verus! {

/// The four bytes of `x`, least significant first.
pub open spec fn u32_bytes(x: u32) -> Seq<u8> {
    seq![
        (x % 256) as u8,
        (x / 256 % 256) as u8,
        (x / 65536 % 256) as u8,
        (x / 16777216) as u8,
    ]
}

/// The number that the four bytes from `at` on spell, least significant
/// first.
pub open spec fn u32_at(bytes: Seq<u8>, at: int) -> int {
    bytes[at] + 256 * bytes[at + 1] + 65536 * bytes[at + 2] + 16777216 * bytes[at + 3]
}

/// Reads a `u32` at `at`: the value and the position behind it, or `None`
/// where fewer than four bytes are left.
pub open spec fn parse_u32(bytes: Seq<u8>, at: int) -> Option<(u32, int)> {
    if 0 <= at && at + 4 <= bytes.len() {
        Some((u32_at(bytes, at) as u32, at + 4))
    } else {
        None
    }
}

/// The eight bytes of `x`, least significant first.
pub open spec fn u64_bytes(x: u64) -> Seq<u8> {
    u32_bytes((x % 0x1_0000_0000) as u32) + u32_bytes((x / 0x1_0000_0000) as u32)
}

/// The number that the eight bytes from `at` on spell, least significant
/// first.
pub open spec fn u64_at(bytes: Seq<u8>, at: int) -> int {
    u32_at(bytes, at) + 0x1_0000_0000 * u32_at(bytes, at + 4)
}

/// Reads a `u64` at `at`, or `None` where fewer than eight bytes are left.
pub open spec fn parse_u64(bytes: Seq<u8>, at: int) -> Option<(u64, int)> {
    if 0 <= at && at + 8 <= bytes.len() {
        Some((u64_at(bytes, at) as u64, at + 8))
    } else {
        None
    }
}

/// The number below 2^32 that stands for `x`: `x` itself where it is not
/// negative, else `x + 2^32` (two's complement).
pub open spec fn i32_code(x: i32) -> u32 {
    if x < 0 {
        (x + 0x1_0000_0000) as u32
    } else {
        x as u32
    }
}

/// The signed number that `code` stands for.
pub open spec fn i32_of_code(code: u32) -> i32 {
    if code >= 0x8000_0000 {
        (code - 0x1_0000_0000) as i32
    } else {
        code as i32
    }
}

/// The four bytes of a signed number: those of its code.
pub open spec fn i32_bytes(x: i32) -> Seq<u8> {
    u32_bytes(i32_code(x))
}

/// Reads an `i32` at `at`, or `None` where fewer than four bytes are left.
pub open spec fn parse_i32(bytes: Seq<u8>, at: int) -> Option<(i32, int)> {
    match parse_u32(bytes, at) {
        Some((code, next)) => Some((i32_of_code(code), next)),
        None => None,
    }
}

/// Four bytes always spell a number below 2^32.
pub proof fn lemma_u32_at_bounds(bytes: Seq<u8>, at: int)
    requires
        0 <= at,
        at + 4 <= bytes.len(),
    ensures
        0 <= u32_at(bytes, at) <= u32::MAX,
{
}

/// Eight bytes always spell a number below 2^64.
pub proof fn lemma_u64_at_bounds(bytes: Seq<u8>, at: int)
    requires
        0 <= at,
        at + 8 <= bytes.len(),
    ensures
        0 <= u64_at(bytes, at) <= u64::MAX,
{
    lemma_u32_at_bounds(bytes, at);
    lemma_u32_at_bounds(bytes, at + 4);
}

/// Reading back the bytes of a `u32` gives the number, wherever they stand.
pub proof fn lemma_u32_round_trip(x: u32, bytes: Seq<u8>, at: int)
    requires
        0 <= at,
        at + 4 <= bytes.len(),
        bytes.subrange(at, at + 4) == u32_bytes(x),
    ensures
        parse_u32(bytes, at) == Some((x, at + 4)),
{
    let window = bytes.subrange(at, at + 4);
    assert(bytes[at] == window[0]);
    assert(bytes[at + 1] == window[1]);
    assert(bytes[at + 2] == window[2]);
    assert(bytes[at + 3] == window[3]);
}

/// Reading back the bytes of a `u64` gives the number, wherever they stand.
pub proof fn lemma_u64_round_trip(x: u64, bytes: Seq<u8>, at: int)
    requires
        0 <= at,
        at + 8 <= bytes.len(),
        bytes.subrange(at, at + 8) == u64_bytes(x),
    ensures
        parse_u64(bytes, at) == Some((x, at + 8)),
{
    let low = (x % 0x1_0000_0000) as u32;
    let high = (x / 0x1_0000_0000) as u32;
    let window = bytes.subrange(at, at + 8);
    assert(bytes.subrange(at, at + 4) =~= window.subrange(0, 4));
    assert(bytes.subrange(at + 4, at + 8) =~= window.subrange(4, 8));
    assert(window.subrange(0, 4) =~= u32_bytes(low));
    assert(window.subrange(4, 8) =~= u32_bytes(high));
    lemma_u32_round_trip(low, bytes, at);
    lemma_u32_round_trip(high, bytes, at + 4);
}

/// Reading back the bytes of an `i32` gives the number, wherever they stand.
pub proof fn lemma_i32_round_trip(x: i32, bytes: Seq<u8>, at: int)
    requires
        0 <= at,
        at + 4 <= bytes.len(),
        bytes.subrange(at, at + 4) == i32_bytes(x),
    ensures
        parse_i32(bytes, at) == Some((x, at + 4)),
{
    lemma_u32_round_trip(i32_code(x), bytes, at);
}

/// Appends the four bytes of `x`.
pub fn write_u32(out: &mut Vec<u8>, x: u32)
    ensures
        final(out)@ == old(out)@ + u32_bytes(x),
{
    out.push((x % 256) as u8);
    out.push((x / 256 % 256) as u8);
    out.push((x / 65536 % 256) as u8);
    out.push((x / 16777216) as u8);
    assert(out@ =~= old(out)@ + u32_bytes(x));
}

/// Appends the eight bytes of `x`.
pub fn write_u64(out: &mut Vec<u8>, x: u64)
    ensures
        final(out)@ == old(out)@ + u64_bytes(x),
{
    write_u32(out, (x % 0x1_0000_0000) as u32);
    write_u32(out, (x / 0x1_0000_0000) as u32);
    assert(out@ =~= old(out)@ + u64_bytes(x));
}

/// Appends the four bytes of the signed number `x`.
pub fn write_i32(out: &mut Vec<u8>, x: i32)
    ensures
        final(out)@ == old(out)@ + i32_bytes(x),
{
    let code: u32 = if x < 0 {
        (x as i64 + 0x1_0000_0000) as u32
    } else {
        x as u32
    };
    write_u32(out, code);
}

/// Reads a `u32` at `at`.
pub fn read_u32(bytes: &[u8], at: usize) -> (result: Option<(u32, usize)>)
    ensures
        result matches Some((value, next)) ==> parse_u32(bytes@, at as int) == Some(
            (value, next as int),
        ) && next <= bytes@.len(),
        result is None ==> parse_u32(bytes@, at as int) is None,
{
    if bytes.len() < 4 || at > bytes.len() - 4 {
        return None;
    }
    let b0: u32 = bytes[at] as u32;
    let b1: u32 = bytes[at + 1] as u32;
    let b2: u32 = bytes[at + 2] as u32;
    let b3: u32 = bytes[at + 3] as u32;
    Some((b0 + 256 * b1 + 65536 * b2 + 16777216 * b3, at + 4))
}

/// Reads a `u64` at `at`.
pub fn read_u64(bytes: &[u8], at: usize) -> (result: Option<(u64, usize)>)
    ensures
        result matches Some((value, next)) ==> parse_u64(bytes@, at as int) == Some(
            (value, next as int),
        ) && next <= bytes@.len(),
        result is None ==> parse_u64(bytes@, at as int) is None,
{
    if bytes.len() < 8 || at > bytes.len() - 8 {
        return None;
    }
    match read_u32(bytes, at) {
        Some((low, middle)) => match read_u32(bytes, middle) {
            Some((high, next)) => Some((low as u64 + 0x1_0000_0000 * (high as u64), next)),
            None => None,
        },
        None => None,
    }
}

/// Reads an `i32` at `at`.
pub fn read_i32(bytes: &[u8], at: usize) -> (result: Option<(i32, usize)>)
    ensures
        result matches Some((value, next)) ==> parse_i32(bytes@, at as int) == Some(
            (value, next as int),
        ) && next <= bytes@.len(),
        result is None ==> parse_i32(bytes@, at as int) is None,
{
    match read_u32(bytes, at) {
        Some((code, next)) => {
            let value: i32 = if code >= 0x8000_0000 {
                (code as i64 - 0x1_0000_0000) as i32
            } else {
                code as i32
            };
            Some((value, next))
        },
        None => None,
    }
}

/// Whether a text's UTF-8 form is short enough for its length to be written
/// in eight bytes. Every `String` in memory is.
pub open spec fn text_fits(text: Seq<char>) -> bool {
    encode_utf8(text).len() <= u64::MAX
}

/// The bytes of a text: the length of its UTF-8 form as a `u64`, then that
/// form.
pub open spec fn text_bytes(text: Seq<char>) -> Seq<u8> {
    u64_bytes(encode_utf8(text).len() as u64) + encode_utf8(text)
}

/// Reads a text at `at`: `None` where the length or the announced bytes do
/// not fit in what is left, or where those bytes are not UTF-8.
#[verifier::opaque]
pub open spec fn parse_text(bytes: Seq<u8>, at: int) -> Option<(Seq<char>, int)> {
    match parse_u64(bytes, at) {
        Some((length, start)) => {
            if start + length <= bytes.len() && valid_utf8(bytes.subrange(start, start + length)) {
                Some((decode_utf8(bytes.subrange(start, start + length)), start + length))
            } else {
                None
            }
        },
        None => None,
    }
}

/// Reading back the bytes of a text gives the text, wherever they stand.
pub proof fn lemma_text_round_trip(text: Seq<char>, bytes: Seq<u8>, at: int)
    requires
        text_fits(text),
        0 <= at,
        at + text_bytes(text).len() <= bytes.len(),
        bytes.subrange(at, at + text_bytes(text).len()) == text_bytes(text),
    ensures
        parse_text(bytes, at) == Some((text, at + text_bytes(text).len())),
{
    reveal(parse_text);
    let raw = encode_utf8(text);
    let window = bytes.subrange(at, at + text_bytes(text).len());
    assert(bytes.subrange(at, at + 8) =~= window.subrange(0, 8));
    assert(window.subrange(0, 8) =~= u64_bytes(raw.len() as u64));
    lemma_u64_round_trip(raw.len() as u64, bytes, at);
    assert(bytes.subrange(at + 8, at + 8 + raw.len()) =~= window.subrange(8, 8 + raw.len() as int));
    assert(window.subrange(8, 8 + raw.len() as int) =~= raw);
    encode_utf8_valid_utf8(text);
    encode_utf8_decode_utf8(text);
}

/// The texts that a sequence of strings holds.
pub open spec fn texts_of(strings: Seq<String>) -> Seq<Seq<char>> {
    Seq::new(strings.len(), |i: int| strings[i]@)
}

/// Whether each text of a list fits, and their number too.
pub open spec fn texts_fit(texts: Seq<Seq<char>>) -> bool {
    &&& texts.len() <= u64::MAX
    &&& forall|i: int| 0 <= i < texts.len() ==> text_fits(#[trigger] texts[i])
}

/// The bytes of the texts of a list, one after another.
pub open spec fn texts_body(texts: Seq<Seq<char>>) -> Seq<u8>
    decreases texts.len(),
{
    if texts.len() == 0 {
        Seq::empty()
    } else {
        text_bytes(texts.first()) + texts_body(texts.drop_first())
    }
}

/// The bytes of a list of texts: their number as a `u64`, then each text.
pub open spec fn texts_bytes(texts: Seq<Seq<char>>) -> Seq<u8> {
    u64_bytes(texts.len() as u64) + texts_body(texts)
}

/// Reads `count` texts one after another from `at` on.
pub open spec fn parse_texts_body(bytes: Seq<u8>, at: int, count: nat) -> Option<
    (Seq<Seq<char>>, int),
>
    decreases count,
{
    if count == 0 {
        Some((Seq::empty(), at))
    } else {
        match parse_text(bytes, at) {
            Some((text, next)) => match parse_texts_body(bytes, next, (count - 1) as nat) {
                Some((rest, end)) => Some((seq![text] + rest, end)),
                None => None,
            },
            None => None,
        }
    }
}

/// Reads a list of texts at `at`.
pub open spec fn parse_texts(bytes: Seq<u8>, at: int) -> Option<(Seq<Seq<char>>, int)> {
    match parse_u64(bytes, at) {
        Some((count, start)) => parse_texts_body(bytes, start, count as nat),
        None => None,
    }
}

/// The bytes of a list with one more text at its end are those of the list
/// followed by those of the text.
pub proof fn lemma_texts_body_push(texts: Seq<Seq<char>>, text: Seq<char>)
    ensures
        texts_body(texts.push(text)) == texts_body(texts) + text_bytes(text),
    decreases texts.len(),
{
    let longer = texts.push(text);
    if texts.len() == 0 {
        assert(longer.drop_first() =~= Seq::<Seq<char>>::empty());
        assert(texts_body(longer.drop_first()) =~= Seq::<u8>::empty());
        assert(texts_body(longer) =~= text_bytes(text));
        assert(texts_body(texts) + text_bytes(text) =~= text_bytes(text));
    } else {
        assert(longer.drop_first() =~= texts.drop_first().push(text));
        assert(longer.first() == texts.first());
        lemma_texts_body_push(texts.drop_first(), text);
        assert(texts_body(longer) =~= texts_body(texts) + text_bytes(text));
    }
}

/// Reading back the bytes of some texts, one after another, gives the texts.
pub proof fn lemma_texts_body_round_trip(texts: Seq<Seq<char>>, bytes: Seq<u8>, at: int)
    requires
        texts_fit(texts),
        0 <= at,
        at + texts_body(texts).len() <= bytes.len(),
        bytes.subrange(at, at + texts_body(texts).len()) == texts_body(texts),
    ensures
        parse_texts_body(bytes, at, texts.len()) == Some((texts, at + texts_body(texts).len())),
    decreases texts.len(),
{
    if texts.len() == 0 {
        assert(texts =~= Seq::<Seq<char>>::empty());
    } else {
        let head = texts.first();
        let tail = texts.drop_first();
        let width = text_bytes(head).len() as int;
        let window = bytes.subrange(at, at + texts_body(texts).len());
        assert(bytes.subrange(at, at + width) =~= window.subrange(0, width));
        assert(window.subrange(0, width) =~= text_bytes(head));
        lemma_text_round_trip(head, bytes, at);
        assert(bytes.subrange(at + width, at + width + texts_body(tail).len())
            =~= window.subrange(width, width + texts_body(tail).len()));
        assert(window.subrange(width, width + texts_body(tail).len()) =~= texts_body(tail));
        assert(texts_fit(tail)) by {
            assert forall|i: int| 0 <= i < tail.len() implies text_fits(#[trigger] tail[i]) by {
                assert(tail[i] == texts[i + 1]);
            }
        }
        lemma_texts_body_round_trip(tail, bytes, at + width);
        assert(seq![head] + tail =~= texts);
    }
}

/// Reading back the bytes of a list of texts gives the list, wherever they
/// stand.
pub proof fn lemma_texts_round_trip(texts: Seq<Seq<char>>, bytes: Seq<u8>, at: int)
    requires
        texts_fit(texts),
        0 <= at,
        at + texts_bytes(texts).len() <= bytes.len(),
        bytes.subrange(at, at + texts_bytes(texts).len()) == texts_bytes(texts),
    ensures
        parse_texts(bytes, at) == Some((texts, at + texts_bytes(texts).len())),
{
    let window = bytes.subrange(at, at + texts_bytes(texts).len());
    let body = texts_body(texts);
    assert(bytes.subrange(at, at + 8) =~= window.subrange(0, 8));
    assert(window.subrange(0, 8) =~= u64_bytes(texts.len() as u64));
    lemma_u64_round_trip(texts.len() as u64, bytes, at);
    assert(bytes.subrange(at + 8, at + 8 + body.len()) =~= window.subrange(8, 8 + body.len() as int));
    assert(window.subrange(8, 8 + body.len() as int) =~= body);
    lemma_texts_body_round_trip(texts, bytes, at + 8);
}

/// Four bytes are the bytes of the number they spell.
pub proof fn lemma_u32_bytes_unique(bytes: Seq<u8>, at: int)
    requires
        0 <= at,
        at + 4 <= bytes.len(),
    ensures
        bytes.subrange(at, at + 4) == u32_bytes(u32_at(bytes, at) as u32),
{
    let value = u32_at(bytes, at);
    lemma_u32_at_bounds(bytes, at);
    let b0 = bytes[at] as int;
    let b1 = bytes[at + 1] as int;
    let b2 = bytes[at + 2] as int;
    let b3 = bytes[at + 3] as int;
    assert(value == b0 + 256 * (b1 + 256 * (b2 + 256 * b3)));
    assert(value % 256 == b0);
    assert(value / 256 == b1 + 256 * (b2 + 256 * b3));
    assert(value / 256 % 256 == b1);
    assert(value / 65536 == b2 + 256 * b3);
    assert(value / 65536 % 256 == b2);
    assert(value / 16777216 == b3);
    assert(bytes.subrange(at, at + 4) =~= u32_bytes(value as u32));
}

/// Eight bytes are the bytes of the number they spell.
pub proof fn lemma_u64_bytes_unique(bytes: Seq<u8>, at: int)
    requires
        0 <= at,
        at + 8 <= bytes.len(),
    ensures
        bytes.subrange(at, at + 8) == u64_bytes(u64_at(bytes, at) as u64),
{
    let low = u32_at(bytes, at);
    let high = u32_at(bytes, at + 4);
    let value = u64_at(bytes, at);
    lemma_u32_at_bounds(bytes, at);
    lemma_u32_at_bounds(bytes, at + 4);
    assert(value % 0x1_0000_0000 == low);
    assert(value / 0x1_0000_0000 == high);
    lemma_u32_bytes_unique(bytes, at);
    lemma_u32_bytes_unique(bytes, at + 4);
    assert(bytes.subrange(at, at + 8) =~= bytes.subrange(at, at + 4) + bytes.subrange(
        at + 4,
        at + 8,
    ));
}

/// Four bytes are the bytes of the signed number they spell.
pub proof fn lemma_i32_bytes_unique(bytes: Seq<u8>, at: int)
    requires
        0 <= at,
        at + 4 <= bytes.len(),
    ensures
        bytes.subrange(at, at + 4) == i32_bytes(i32_of_code(u32_at(bytes, at) as u32)),
{
    lemma_u32_at_bounds(bytes, at);
    lemma_u32_bytes_unique(bytes, at);
    let code = u32_at(bytes, at) as u32;
    assert(i32_code(i32_of_code(code)) == code);
}

/// The bytes that are read as a text are the bytes of that text.
pub proof fn lemma_text_bytes_unique(bytes: Seq<u8>, at: int)
    requires
        parse_text(bytes, at) is Some,
    ensures
        ({
            let (text, next) = parse_text(bytes, at).unwrap();
            &&& text_fits(text)
            &&& at + 8 <= next <= bytes.len()
            &&& bytes.subrange(at, next) == text_bytes(text)
        }),
{
    reveal(parse_text);
    let (text, next) = parse_text(bytes, at).unwrap();
    let length = u64_at(bytes, at);
    lemma_u64_at_bounds(bytes, at);
    let raw = bytes.subrange(at + 8, at + 8 + length);
    decode_utf8_encode_utf8(raw);
    lemma_u64_bytes_unique(bytes, at);
    assert(bytes.subrange(at, next) =~= bytes.subrange(at, at + 8) + raw);
}

/// The bytes that are read as texts, one after another, are the bytes of
/// those texts.
pub proof fn lemma_texts_body_unique(bytes: Seq<u8>, at: int, count: nat)
    requires
        0 <= at <= bytes.len(),
        parse_texts_body(bytes, at, count) is Some,
    ensures
        ({
            let (texts, end) = parse_texts_body(bytes, at, count).unwrap();
            &&& texts.len() == count
            &&& forall|i: int| 0 <= i < texts.len() ==> text_fits(#[trigger] texts[i])
            &&& at <= end <= bytes.len()
            &&& bytes.subrange(at, end) == texts_body(texts)
        }),
    decreases count,
{
    let (texts, end) = parse_texts_body(bytes, at, count).unwrap();
    if count == 0 {
        assert(bytes.subrange(at, end) =~= texts_body(texts));
    } else {
        let (text, next) = parse_text(bytes, at).unwrap();
        lemma_text_bytes_unique(bytes, at);
        lemma_texts_body_unique(bytes, next, (count - 1) as nat);
        let (rest, _) = parse_texts_body(bytes, next, (count - 1) as nat).unwrap();
        assert(texts == seq![text] + rest);
        assert(texts.first() == text);
        assert(texts.drop_first() =~= rest);
        assert(bytes.subrange(at, end) =~= bytes.subrange(at, next) + bytes.subrange(next, end));
        assert forall|i: int| 0 <= i < texts.len() implies text_fits(#[trigger] texts[i]) by {
            if i > 0 {
                assert(texts[i] == rest[i - 1]);
            }
        }
    }
}

/// The bytes that are read as a list of texts are the bytes of that list.
pub proof fn lemma_texts_bytes_unique(bytes: Seq<u8>, at: int)
    requires
        parse_texts(bytes, at) is Some,
    ensures
        ({
            let (texts, next) = parse_texts(bytes, at).unwrap();
            &&& texts_fit(texts)
            &&& at + 8 <= next <= bytes.len()
            &&& bytes.subrange(at, next) == texts_bytes(texts)
        }),
{
    let (texts, next) = parse_texts(bytes, at).unwrap();
    let count = u64_at(bytes, at);
    lemma_u64_at_bounds(bytes, at);
    lemma_u64_bytes_unique(bytes, at);
    lemma_texts_body_unique(bytes, at + 8, count as nat);
    assert(bytes.subrange(at, next) =~= bytes.subrange(at, at + 8) + bytes.subrange(at + 8, next));
}

/// `String::from_utf8` of std: a byte vector becomes the string it spells in
/// UTF-8, or nothing where it is not UTF-8. The contract states what std
/// documents: success exactly on valid UTF-8, and the text that the bytes
/// decode to.
#[verifier::external_body]
fn string_from_utf8(bytes: Vec<u8>) -> (result: Option<String>)
    ensures
        result is Some <==> valid_utf8(bytes@),
        result matches Some(text) ==> text@ == decode_utf8(bytes@),
{
    match String::from_utf8(bytes) {
        Ok(text) => Some(text),
        Err(_) => None,
    }
}

/// Appends a copy of `source`.
pub fn write_raw(out: &mut Vec<u8>, source: &[u8])
    ensures
        final(out)@ == old(out)@ + source@,
{
    let mut i: usize = 0;
    while i < source.len()
        invariant
            i <= source@.len(),
            out@ == old(out)@ + source@.subrange(0, i as int),
        decreases source@.len() - i,
    {
        out.push(source[i]);
        i += 1;
        assert(out@ =~= old(out)@ + source@.subrange(0, i as int));
    }
    assert(source@.subrange(0, i as int) =~= source@);
}

/// Appends the bytes of a text.
pub fn write_text(out: &mut Vec<u8>, text: &str)
    ensures
        text_fits(text@),
        final(out)@ == old(out)@ + text_bytes(text@),
{
    let raw = text.as_bytes();
    write_u64(out, raw.len() as u64);
    write_raw(out, raw);
    assert(out@ =~= old(out)@ + text_bytes(text@));
}

/// Reads a text at `at`.
pub fn read_text(bytes: &[u8], at: usize) -> (result: Option<(String, usize)>)
    ensures
        result matches Some((text, next)) ==> parse_text(bytes@, at as int) == Some(
            (text@, next as int),
        ) && next <= bytes@.len(),
        result is None ==> parse_text(bytes@, at as int) is None,
{
    proof {
        reveal(parse_text);
    }
    match read_u64(bytes, at) {
        Some((length, start)) => {
            if length > (bytes.len() - start) as u64 {
                return None;
            }
            let end: usize = start + length as usize;
            let raw = slice_to_vec(slice_subrange(bytes, start, end));
            match string_from_utf8(raw) {
                Some(text) => Some((text, end)),
                None => None,
            }
        },
        None => None,
    }
}

/// Appends the bytes of a list of texts.
pub fn write_texts(out: &mut Vec<u8>, texts: &Vec<String>)
    ensures
        texts_fit(texts_of(texts@)),
        final(out)@ == old(out)@ + texts_bytes(texts_of(texts@)),
{
    write_u64(out, texts.len() as u64);
    let ghost all = texts_of(texts@);
    let ghost start = out@;
    let mut i: usize = 0;
    while i < texts.len()
        invariant
            i <= texts@.len(),
            all == texts_of(texts@),
            out@ == start + texts_body(all.take(i as int)),
            forall|j: int| 0 <= j < i ==> text_fits(#[trigger] all[j]),
        decreases texts@.len() - i,
    {
        write_text(out, texts[i].as_str());
        proof {
            assert(all.take(i + 1) =~= all.take(i as int).push(all[i as int]));
            lemma_texts_body_push(all.take(i as int), all[i as int]);
            assert(out@ =~= start + texts_body(all.take(i + 1)));
        }
        i += 1;
    }
    assert(all.take(i as int) =~= all);
    assert(out@ =~= old(out)@ + texts_bytes(all));
}

/// Reads a list of texts at `at`.
pub fn read_texts(bytes: &[u8], at: usize) -> (result: Option<(Vec<String>, usize)>)
    ensures
        result matches Some((texts, next)) ==> parse_texts(bytes@, at as int) == Some(
            (texts_of(texts@), next as int),
        ) && next <= bytes@.len(),
        result is None ==> parse_texts(bytes@, at as int) is None,
{
    match read_u64(bytes, at) {
        Some((count, start)) => {
            let mut found: Vec<String> = Vec::new();
            let mut position: usize = start;
            let mut done: u64 = 0;
            while done < count
                invariant
                    done <= count,
                    position <= bytes@.len(),
                    parse_u64(bytes@, at as int) == Some((count, start as int)),
                    parse_texts_body(bytes@, start as int, count as nat) == match parse_texts_body(
                        bytes@,
                        position as int,
                        (count - done) as nat,
                    ) {
                        Some((rest, end)) => Some((texts_of(found@) + rest, end)),
                        None => None,
                    },
                decreases count - done,
            {
                match read_text(bytes, position) {
                    Some((text, next)) => {
                        proof {
                            let before = texts_of(found@);
                            let after = texts_of(found@.push(text));
                            assert(after =~= before.push(text@));
                            match parse_texts_body(bytes@, next as int, (count - done - 1) as nat) {
                                Some((rest, end)) => {
                                    assert(before + (seq![text@] + rest) =~= after + rest);
                                },
                                None => {},
                            }
                        }
                        found.push(text);
                        position = next;
                        done += 1;
                    },
                    None => {
                        assert(parse_texts_body(bytes@, position as int, (count - done) as nat)
                            is None);
                        return None;
                    },
                }
            }
            proof {
                assert(parse_texts_body(bytes@, position as int, 0) == Some(
                    (Seq::<Seq<char>>::empty(), position as int),
                ));
                assert(texts_of(found@) + Seq::<Seq<char>>::empty() =~= texts_of(found@));
            }
            Some((found, position))
        },
        None => None,
    }
}

} // verus!
