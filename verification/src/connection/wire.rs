//! The building blocks of a payload: little-endian integers of fixed width,
//! texts and lists of texts with a length in front, each with the function
//! that writes it, the function that reads it at a position of a buffer, and
//! the proof that reading undoes writing.

use crate::common::UserName;
use vstd::prelude::*;
use vstd::slice::{slice_subrange, slice_to_vec};
use vstd::string::StringSliceAdditionalSpecFns;
use vstd::utf8::{
    decode_utf8, decode_utf8_encode_utf8, encode_utf8, encode_utf8_decode_utf8,
    encode_utf8_valid_utf8, valid_utf8,
};

verus! {

/// `enc` stands in `data` from position `pos` on.
pub open spec fn encoded_at(data: Seq<u8>, pos: int, enc: Seq<u8>) -> bool {
    &&& 0 <= pos
    &&& pos + enc.len() <= data.len()
    &&& forall|k: int| 0 <= k < enc.len() ==> data[pos + k] == #[trigger] enc[k]
}

/// The two bytes of a `u16`, least significant first.
pub open spec fn u16_bytes(v: u16) -> Seq<u8> {
    seq![(v % 256) as u8, (v / 256) as u8]
}

/// The four bytes of a `u32`, least significant first.
pub open spec fn u32_bytes(v: u32) -> Seq<u8> {
    seq![
        (v % 256) as u8,
        (v / 256 % 256) as u8,
        (v / 256 / 256 % 256) as u8,
        (v / 256 / 256 / 256) as u8,
    ]
}

/// The eight bytes of a `u64`, least significant first.
pub open spec fn u64_bytes(v: u64) -> Seq<u8> {
    seq![
        (v % 256) as u8,
        (v / 256 % 256) as u8,
        (v / 256 / 256 % 256) as u8,
        (v / 256 / 256 / 256 % 256) as u8,
        (v / 256 / 256 / 256 / 256 % 256) as u8,
        (v / 256 / 256 / 256 / 256 / 256 % 256) as u8,
        (v / 256 / 256 / 256 / 256 / 256 / 256 % 256) as u8,
        (v / 256 / 256 / 256 / 256 / 256 / 256 / 256) as u8,
    ]
}

/// The number whose bytes, least significant first, are `b`.
pub open spec fn le_value(b: Seq<u8>) -> nat
    decreases b.len(),
{
    if b.len() == 0 {
        0
    } else {
        b[0] as nat + 256 * le_value(b.drop_first())
    }
}

/// The number that the `width` bytes of `data` from `pos` on spell, least
/// significant first.
pub open spec fn le_at(data: Seq<u8>, pos: int, width: int) -> nat {
    le_value(data.subrange(pos, pos + width))
}

/// Taking a byte off a number that was put together from a byte and the rest.
proof fn lemma_split_byte(low: int, rest: int)
    requires
        0 <= low < 256,
        0 <= rest,
    ensures
        (low + 256 * rest) / 256 == rest,
        (low + 256 * rest) % 256 == low,
{
}

pub proof fn lemma_le_value_2(b: Seq<u8>)
    requires
        b.len() == 2,
    ensures
        le_value(b) == b[0] + 0x100 * b[1],
{
    reveal_with_fuel(le_value, 3);
    assert(b.drop_first()[0] == b[1]);
}

pub proof fn lemma_le_value_4(b: Seq<u8>)
    requires
        b.len() == 4,
    ensures
        le_value(b) == b[0] + 0x100 * b[1] + 0x1_0000 * b[2] + 0x100_0000 * b[3],
{
    let b1 = b.drop_first();
    let b2 = b1.drop_first();
    lemma_le_value_2(b2);
    assert(le_value(b1) == b1[0] + 256 * le_value(b2));
    assert(le_value(b) == b[0] + 256 * le_value(b1));
}

pub proof fn lemma_le_value_8(b: Seq<u8>)
    requires
        b.len() == 8,
    ensures
        le_value(b) == b[0] + 0x100 * b[1] + 0x1_0000 * b[2] + 0x100_0000 * b[3] + 0x1_0000_0000
            * b[4] + 0x100_0000_0000 * b[5] + 0x1_0000_0000_0000 * b[6] + 0x100_0000_0000_0000
            * b[7],
{
    let b1 = b.drop_first();
    let b2 = b1.drop_first();
    let b3 = b2.drop_first();
    let b4 = b3.drop_first();
    lemma_le_value_4(b4);
    assert(le_value(b3) == b3[0] + 256 * le_value(b4));
    assert(le_value(b2) == b2[0] + 256 * le_value(b3));
    assert(le_value(b1) == b1[0] + 256 * le_value(b2));
    assert(le_value(b) == b[0] + 256 * le_value(b1));
}

/// Reading the bytes of a `u16` gives the number back.
pub proof fn lemma_u16_round_trip(v: u16)
    ensures
        u16_bytes(v).len() == 2,
        le_value(u16_bytes(v)) == v,
{
    lemma_le_value_2(u16_bytes(v));
}

/// Reading the bytes of a `u32` gives the number back.
pub proof fn lemma_u32_round_trip(v: u32)
    ensures
        u32_bytes(v).len() == 4,
        le_value(u32_bytes(v)) == v,
{
    lemma_le_value_4(u32_bytes(v));
    let q1 = v / 256;
    let q2 = q1 / 256;
    let q3 = q2 / 256;
    assert(v == v % 256 + 256 * q1);
    assert(q1 == q1 % 256 + 256 * q2);
    assert(q2 == q2 % 256 + 256 * q3);
}

/// Reading the bytes of a `u64` gives the number back.
pub proof fn lemma_u64_round_trip(v: u64)
    ensures
        u64_bytes(v).len() == 8,
        le_value(u64_bytes(v)) == v,
{
    lemma_le_value_8(u64_bytes(v));
    let q1 = v / 256;
    let q2 = q1 / 256;
    let q3 = q2 / 256;
    let q4 = q3 / 256;
    let q5 = q4 / 256;
    let q6 = q5 / 256;
    let q7 = q6 / 256;
    assert(v == v % 256 + 256 * q1);
    assert(q1 == q1 % 256 + 256 * q2);
    assert(q2 == q2 % 256 + 256 * q3);
    assert(q3 == q3 % 256 + 256 * q4);
    assert(q4 == q4 % 256 + 256 * q5);
    assert(q5 == q5 % 256 + 256 * q6);
    assert(q6 == q6 % 256 + 256 * q7);
}

/// Two bytes are the bytes of the number they spell.
pub proof fn lemma_u16_bytes_of_value(b: Seq<u8>)
    requires
        b.len() == 2,
    ensures
        le_value(b) <= u16::MAX,
        u16_bytes(le_value(b) as u16) =~= b,
{
    lemma_le_value_2(b);
}

/// Four bytes are the bytes of the number they spell.
pub proof fn lemma_u32_bytes_of_value(b: Seq<u8>)
    requires
        b.len() == 4,
    ensures
        le_value(b) <= u32::MAX,
        u32_bytes(le_value(b) as u32) =~= b,
{
    let b1 = b.drop_first();
    let b2 = b1.drop_first();
    lemma_le_value_2(b2);
    let v2 = le_value(b2) as int;
    let v1 = b[1] + 256 * v2;
    let v0 = b[0] + 256 * v1;
    assert(b2[0] == b[2] && b2[1] == b[3]);
    assert(le_value(b1) == v1);
    assert(le_value(b) == v0);
    lemma_split_byte(b[2] as int, b[3] as int);
    lemma_split_byte(b[1] as int, v2);
    lemma_split_byte(b[0] as int, v1);
    let w = v0 as u32;
    assert(w / 256 == v1);
    assert(w / 256 / 256 == v2);
    assert(w / 256 / 256 / 256 == b[3]);
}

/// Eight bytes are the bytes of the number they spell.
pub proof fn lemma_u64_bytes_of_value(b: Seq<u8>)
    requires
        b.len() == 8,
    ensures
        le_value(b) <= u64::MAX,
        u64_bytes(le_value(b) as u64) =~= b,
{
    let b1 = b.drop_first();
    let b2 = b1.drop_first();
    let b3 = b2.drop_first();
    let b4 = b3.drop_first();
    lemma_u32_bytes_of_value(b4);
    lemma_le_value_4(b4);
    let v4 = le_value(b4) as int;
    let v3 = b[3] + 256 * v4;
    let v2 = b[2] + 256 * v3;
    let v1 = b[1] + 256 * v2;
    let v0 = b[0] + 256 * v1;
    assert(le_value(b3) == v3);
    assert(le_value(b2) == v2);
    assert(le_value(b1) == v1);
    assert(le_value(b) == v0);
    lemma_split_byte(b[3] as int, v4);
    lemma_split_byte(b[2] as int, v3);
    lemma_split_byte(b[1] as int, v2);
    lemma_split_byte(b[0] as int, v1);
    let w = v0 as u64;
    assert(w / 256 == v1);
    assert(w / 256 / 256 == v2);
    assert(w / 256 / 256 / 256 == v3);
    assert(w / 256 / 256 / 256 / 256 == v4);
    let e = u32_bytes(v4 as u32);
    assert(e[0] == b4[0] && e[1] == b4[1] && e[2] == b4[2] && e[3] == b4[3]);
    assert(b4[0] == b[4] && b4[1] == b[5] && b4[2] == b[6] && b4[3] == b[7]);
}

/// A text on the wire: the number of its UTF-8 bytes as a `u64`, then the bytes.
pub open spec fn text_bytes(text: Seq<char>) -> Seq<u8> {
    u64_bytes(encode_utf8(text).len() as u64) + encode_utf8(text)
}

/// The texts of a list on the wire, one after the other.
pub open spec fn texts_bytes(texts: Seq<Seq<char>>) -> Seq<u8>
    decreases texts.len(),
{
    if texts.len() == 0 {
        Seq::empty()
    } else {
        text_bytes(texts[0]) + texts_bytes(texts.drop_first())
    }
}

/// A list of texts on the wire: the number of texts as a `u64`, then the texts.
pub open spec fn list_bytes(texts: Seq<Seq<char>>) -> Seq<u8> {
    u64_bytes(texts.len() as u64) + texts_bytes(texts)
}

/// The `u16` that stands at `pos`, and the position behind it.
pub open spec fn u16_at(data: Seq<u8>, pos: int) -> Option<(u16, int)> {
    if 0 <= pos && pos + 2 <= data.len() {
        Some((le_at(data, pos, 2) as u16, pos + 2))
    } else {
        None
    }
}

/// The `u32` that stands at `pos`, and the position behind it.
pub open spec fn u32_at(data: Seq<u8>, pos: int) -> Option<(u32, int)> {
    if 0 <= pos && pos + 4 <= data.len() {
        Some((le_at(data, pos, 4) as u32, pos + 4))
    } else {
        None
    }
}

/// The `u64` that stands at `pos`, and the position behind it.
pub open spec fn u64_at(data: Seq<u8>, pos: int) -> Option<(u64, int)> {
    if 0 <= pos && pos + 8 <= data.len() {
        Some((le_at(data, pos, 8) as u64, pos + 8))
    } else {
        None
    }
}

/// The text that stands at `pos`, and the position behind it: none where the
/// buffer ends before the announced length or the bytes are not UTF-8.
pub open spec fn text_at(data: Seq<u8>, pos: int) -> Option<(Seq<char>, int)> {
    match u64_at(data, pos) {
        None => None,
        Some((len, start)) => {
            if start + len <= data.len() && valid_utf8(data.subrange(start, start + len)) {
                Some((decode_utf8(data.subrange(start, start + len)), start + len))
            } else {
                None
            }
        },
    }
}

/// The `count` texts that stand at `pos` one after the other, and the
/// position behind them.
pub open spec fn texts_at(data: Seq<u8>, pos: int, count: nat) -> Option<(Seq<Seq<char>>, int)>
    decreases count,
{
    if count == 0 {
        Some((Seq::empty(), pos))
    } else {
        match text_at(data, pos) {
            None => None,
            Some((first, next)) => match texts_at(data, next, (count - 1) as nat) {
                None => None,
                Some((rest, end)) => Some((seq![first] + rest, end)),
            },
        }
    }
}

/// The list of texts that stands at `pos`, and the position behind it.
pub open spec fn list_at(data: Seq<u8>, pos: int) -> Option<(Seq<Seq<char>>, int)> {
    match u64_at(data, pos) {
        None => None,
        Some((count, start)) => texts_at(data, start, count as nat),
    }
}

/// What stands at `pos` is what follows from there on, piece by piece.
pub proof fn lemma_encoded_at_concat(data: Seq<u8>, pos: int, first: Seq<u8>, second: Seq<u8>)
    ensures
        encoded_at(data, pos, first + second) <==> encoded_at(data, pos, first) && encoded_at(
            data,
            pos + first.len(),
            second,
        ),
{
    let both = first + second;
    if encoded_at(data, pos, both) {
        assert forall|k: int| 0 <= k < first.len() implies data[pos + k] == #[trigger] first[k] by {
            assert(both[k] == first[k]);
        }
        assert forall|k: int| 0 <= k < second.len() implies data[pos + first.len() + k]
            == #[trigger] second[k] by {
            assert(both[first.len() + k] == second[k]);
        }
    }
    if encoded_at(data, pos, first) && encoded_at(data, pos + first.len(), second) {
        assert forall|k: int| 0 <= k < both.len() implies data[pos + k] == #[trigger] both[k] by {
            if k < first.len() {
                assert(both[k] == first[k]);
            } else {
                assert(both[k] == second[k - first.len()]);
            }
        }
    }
}

/// What stands at `pos` is the stretch of the buffer from there on.
pub proof fn lemma_encoded_at_subrange(data: Seq<u8>, pos: int, enc: Seq<u8>)
    ensures
        encoded_at(data, pos, enc) <==> 0 <= pos && pos + enc.len() <= data.len() && data.subrange(
            pos,
            pos + enc.len(),
        ) == enc,
{
    if encoded_at(data, pos, enc) {
        assert(data.subrange(pos, pos + enc.len()) =~= enc);
    }
    if 0 <= pos && pos + enc.len() <= data.len() && data.subrange(pos, pos + enc.len()) == enc {
        assert forall|k: int| 0 <= k < enc.len() implies data[pos + k] == #[trigger] enc[k] by {
            assert(data.subrange(pos, pos + enc.len())[k] == data[pos + k]);
        }
    }
}

/// A `u16` that was written at `pos` is read there.
pub proof fn lemma_u16_at_written(data: Seq<u8>, pos: int, v: u16)
    requires
        encoded_at(data, pos, u16_bytes(v)),
    ensures
        u16_at(data, pos) == Some((v, pos + 2)),
{
    lemma_encoded_at_subrange(data, pos, u16_bytes(v));
    lemma_u16_round_trip(v);
}

/// A `u32` that was written at `pos` is read there.
pub proof fn lemma_u32_at_written(data: Seq<u8>, pos: int, v: u32)
    requires
        encoded_at(data, pos, u32_bytes(v)),
    ensures
        u32_at(data, pos) == Some((v, pos + 4)),
{
    lemma_encoded_at_subrange(data, pos, u32_bytes(v));
    lemma_u32_round_trip(v);
}

/// A `u64` that was written at `pos` is read there.
pub proof fn lemma_u64_at_written(data: Seq<u8>, pos: int, v: u64)
    requires
        encoded_at(data, pos, u64_bytes(v)),
    ensures
        u64_at(data, pos) == Some((v, pos + 8)),
{
    lemma_encoded_at_subrange(data, pos, u64_bytes(v));
    lemma_u64_round_trip(v);
}

/// The `u16` read at `pos` is the one whose bytes stand there.
pub proof fn lemma_u16_at_read(data: Seq<u8>, pos: int)
    requires
        u16_at(data, pos) is Some,
    ensures
        u16_at(data, pos).unwrap().1 == pos + 2,
        encoded_at(data, pos, u16_bytes(u16_at(data, pos).unwrap().0)),
{
    let b = data.subrange(pos, pos + 2);
    lemma_u16_bytes_of_value(b);
    lemma_encoded_at_subrange(data, pos, b);
}

/// The `u32` read at `pos` is the one whose bytes stand there.
pub proof fn lemma_u32_at_read(data: Seq<u8>, pos: int)
    requires
        u32_at(data, pos) is Some,
    ensures
        u32_at(data, pos).unwrap().1 == pos + 4,
        encoded_at(data, pos, u32_bytes(u32_at(data, pos).unwrap().0)),
{
    let b = data.subrange(pos, pos + 4);
    lemma_u32_bytes_of_value(b);
    lemma_encoded_at_subrange(data, pos, b);
}

/// The `u64` read at `pos` is the one whose bytes stand there.
pub proof fn lemma_u64_at_read(data: Seq<u8>, pos: int)
    requires
        u64_at(data, pos) is Some,
    ensures
        u64_at(data, pos).unwrap().1 == pos + 8,
        encoded_at(data, pos, u64_bytes(u64_at(data, pos).unwrap().0)),
{
    let b = data.subrange(pos, pos + 8);
    lemma_u64_bytes_of_value(b);
    lemma_encoded_at_subrange(data, pos, b);
}

/// A text that was written at `pos` is read there, if its length fits the
/// length prefix.
pub proof fn lemma_text_at_written(data: Seq<u8>, pos: int, text: Seq<char>)
    requires
        encoded_at(data, pos, text_bytes(text)),
        encode_utf8(text).len() <= u64::MAX,
    ensures
        text_at(data, pos) == Some((text, pos + text_bytes(text).len())),
        text_bytes(text).len() == 8 + encode_utf8(text).len(),
{
    let body = encode_utf8(text);
    let len = body.len() as u64;
    lemma_encoded_at_concat(data, pos, u64_bytes(len), body);
    lemma_u64_at_written(data, pos, len);
    lemma_encoded_at_subrange(data, pos + 8, body);
    encode_utf8_valid_utf8(text);
    encode_utf8_decode_utf8(text);
}

/// The text read at `pos` is the one whose bytes stand there.
pub proof fn lemma_text_at_read(data: Seq<u8>, pos: int)
    requires
        text_at(data, pos) is Some,
    ensures
        text_at(data, pos).unwrap().1 == pos + text_bytes(text_at(data, pos).unwrap().0).len(),
        encoded_at(data, pos, text_bytes(text_at(data, pos).unwrap().0)),
        pos + 8 <= text_at(data, pos).unwrap().1 <= data.len(),
{
    let (len, start) = u64_at(data, pos).unwrap();
    let body = data.subrange(start, start + len);
    let text = decode_utf8(body);
    lemma_u64_at_read(data, pos);
    decode_utf8_encode_utf8(body);
    lemma_encoded_at_subrange(data, start, body);
    lemma_encoded_at_concat(data, pos, u64_bytes(len), body);
}

/// Texts that were written at `pos` one after the other are read there.
pub proof fn lemma_texts_at_written(data: Seq<u8>, pos: int, texts: Seq<Seq<char>>)
    requires
        encoded_at(data, pos, texts_bytes(texts)),
        data.len() <= u64::MAX,
    ensures
        texts_at(data, pos, texts.len()) == Some((texts, pos + texts_bytes(texts).len())),
        texts_bytes(texts).len() >= 8 * texts.len(),
    decreases texts.len(),
{
    if texts.len() == 0 {
        assert(texts =~= Seq::empty());
    } else {
        let first = texts[0];
        let rest = texts.drop_first();
        lemma_encoded_at_concat(data, pos, text_bytes(first), texts_bytes(rest));
        lemma_text_at_written(data, pos, first);
        lemma_texts_at_written(data, pos + text_bytes(first).len(), rest);
        assert(seq![first] + rest =~= texts);
    }
}

/// The texts read at `pos` are those whose bytes stand there.
pub proof fn lemma_texts_at_read(data: Seq<u8>, pos: int, count: nat)
    requires
        texts_at(data, pos, count) is Some,
        0 <= pos <= data.len(),
    ensures
        texts_at(data, pos, count).unwrap().0.len() == count,
        texts_at(data, pos, count).unwrap().1 == pos + texts_bytes(
            texts_at(data, pos, count).unwrap().0,
        ).len(),
        encoded_at(data, pos, texts_bytes(texts_at(data, pos, count).unwrap().0)),
    decreases count,
{
    if count == 0 {
    } else {
        let (first, next) = text_at(data, pos).unwrap();
        let (rest, end) = texts_at(data, next, (count - 1) as nat).unwrap();
        let texts = seq![first] + rest;
        lemma_text_at_read(data, pos);
        lemma_texts_at_read(data, next, (count - 1) as nat);
        assert(texts.drop_first() =~= rest);
        lemma_encoded_at_concat(data, pos, text_bytes(first), texts_bytes(rest));
    }
}

/// A list that was written at `pos` is read there.
pub proof fn lemma_list_at_written(data: Seq<u8>, pos: int, texts: Seq<Seq<char>>)
    requires
        encoded_at(data, pos, list_bytes(texts)),
        data.len() <= u64::MAX,
    ensures
        list_at(data, pos) == Some((texts, pos + list_bytes(texts).len())),
{
    lemma_encoded_at_concat(data, pos, u64_bytes(texts.len() as u64), texts_bytes(texts));
    lemma_texts_at_written(data, pos + 8, texts);
    lemma_u64_at_written(data, pos, texts.len() as u64);
}

/// The list read at `pos` is the one whose bytes stand there.
pub proof fn lemma_list_at_read(data: Seq<u8>, pos: int)
    requires
        list_at(data, pos) is Some,
    ensures
        list_at(data, pos).unwrap().1 == pos + list_bytes(list_at(data, pos).unwrap().0).len(),
        encoded_at(data, pos, list_bytes(list_at(data, pos).unwrap().0)),
        pos + 8 <= list_at(data, pos).unwrap().1 <= data.len(),
{
    let (count, start) = u64_at(data, pos).unwrap();
    lemma_u64_at_read(data, pos);
    lemma_texts_at_read(data, start, count as nat);
    let texts = list_at(data, pos).unwrap().0;
    lemma_encoded_at_concat(data, pos, u64_bytes(texts.len() as u64), texts_bytes(texts));
}

/// Two texts read one after the other are the texts whose bytes stand there.
pub proof fn lemma_two_texts_read(data: Seq<u8>, pos: int)
    requires
        text_at(data, pos) is Some,
        text_at(data, text_at(data, pos).unwrap().1) is Some,
    ensures
        ({
            let (first, next) = text_at(data, pos).unwrap();
            let (second, end) = text_at(data, next).unwrap();
            &&& end == pos + (text_bytes(first) + text_bytes(second)).len()
            &&& encoded_at(data, pos, text_bytes(first) + text_bytes(second))
        }),
{
    let (first, next) = text_at(data, pos).unwrap();
    let (second, end) = text_at(data, next).unwrap();
    lemma_text_at_read(data, pos);
    lemma_text_at_read(data, next);
    lemma_encoded_at_concat(data, pos, text_bytes(first), text_bytes(second));
}

/// Three texts read one after the other are the texts whose bytes stand there.
pub proof fn lemma_three_texts_read(data: Seq<u8>, pos: int)
    requires
        text_at(data, pos) is Some,
        text_at(data, text_at(data, pos).unwrap().1) is Some,
        text_at(data, text_at(data, text_at(data, pos).unwrap().1).unwrap().1) is Some,
    ensures
        ({
            let (first, next) = text_at(data, pos).unwrap();
            let (second, then) = text_at(data, next).unwrap();
            let (third, end) = text_at(data, then).unwrap();
            let all = text_bytes(first) + text_bytes(second) + text_bytes(third);
            &&& end == pos + all.len()
            &&& encoded_at(data, pos, all)
        }),
{
    let (first, next) = text_at(data, pos).unwrap();
    let (second, then) = text_at(data, next).unwrap();
    let (third, end) = text_at(data, then).unwrap();
    lemma_two_texts_read(data, pos);
    lemma_text_at_read(data, then);
    lemma_encoded_at_concat(data, pos, text_bytes(first) + text_bytes(second), text_bytes(third));
}

/// A text and a list read one after the other are those whose bytes stand there.
pub proof fn lemma_text_and_list_read(data: Seq<u8>, pos: int)
    requires
        text_at(data, pos) is Some,
        list_at(data, text_at(data, pos).unwrap().1) is Some,
    ensures
        ({
            let (first, next) = text_at(data, pos).unwrap();
            let (second, end) = list_at(data, next).unwrap();
            &&& end == pos + (text_bytes(first) + list_bytes(second)).len()
            &&& encoded_at(data, pos, text_bytes(first) + list_bytes(second))
        }),
{
    let (first, next) = text_at(data, pos).unwrap();
    let (second, end) = list_at(data, next).unwrap();
    lemma_text_at_read(data, pos);
    lemma_list_at_read(data, next);
    lemma_encoded_at_concat(data, pos, text_bytes(first), list_bytes(second));
}

/// Two texts that were written one after the other are read there.
pub proof fn lemma_two_texts_written(data: Seq<u8>, pos: int, first: Seq<char>, second: Seq<char>)
    requires
        encoded_at(data, pos, text_bytes(first) + text_bytes(second)),
        data.len() <= u64::MAX,
    ensures
        text_at(data, pos) == Some((first, pos + text_bytes(first).len())),
        text_at(data, pos + text_bytes(first).len()) == Some(
            (second, pos + (text_bytes(first) + text_bytes(second)).len()),
        ),
{
    lemma_encoded_at_concat(data, pos, text_bytes(first), text_bytes(second));
    lemma_text_at_written(data, pos, first);
    lemma_text_at_written(data, pos + text_bytes(first).len(), second);
}

/// Three texts that were written one after the other are read there.
pub proof fn lemma_three_texts_written(
    data: Seq<u8>,
    pos: int,
    first: Seq<char>,
    second: Seq<char>,
    third: Seq<char>,
)
    requires
        encoded_at(data, pos, text_bytes(first) + text_bytes(second) + text_bytes(third)),
        data.len() <= u64::MAX,
    ensures
        text_at(data, pos) == Some((first, pos + text_bytes(first).len())),
        text_at(data, pos + text_bytes(first).len()) == Some(
            (second, pos + (text_bytes(first) + text_bytes(second)).len()),
        ),
        text_at(data, pos + (text_bytes(first) + text_bytes(second)).len()) == Some(
            (third, pos + (text_bytes(first) + text_bytes(second) + text_bytes(third)).len()),
        ),
{
    let head = text_bytes(first) + text_bytes(second);
    lemma_encoded_at_concat(data, pos, head, text_bytes(third));
    lemma_two_texts_written(data, pos, first, second);
    lemma_text_at_written(data, pos + head.len(), third);
}

/// A text and a list that were written one after the other are read there.
pub proof fn lemma_text_and_list_written(
    data: Seq<u8>,
    pos: int,
    first: Seq<char>,
    second: Seq<Seq<char>>,
)
    requires
        encoded_at(data, pos, text_bytes(first) + list_bytes(second)),
        data.len() <= u64::MAX,
    ensures
        text_at(data, pos) == Some((first, pos + text_bytes(first).len())),
        list_at(data, pos + text_bytes(first).len()) == Some(
            (second, pos + (text_bytes(first) + list_bytes(second)).len()),
        ),
{
    lemma_encoded_at_concat(data, pos, text_bytes(first), list_bytes(second));
    lemma_text_at_written(data, pos, first);
    lemma_list_at_written(data, pos + text_bytes(first).len(), second);
}

/// Appends the two bytes of `v`.
pub fn put_u16(out: &mut Vec<u8>, v: u16)
    ensures
        final(out)@ == old(out)@ + u16_bytes(v),
{
    out.push((v % 256) as u8);
    out.push((v / 256) as u8);
    assert(final(out)@ =~= old(out)@ + u16_bytes(v));
}

/// Appends the four bytes of `v`.
pub fn put_u32(out: &mut Vec<u8>, v: u32)
    ensures
        final(out)@ == old(out)@ + u32_bytes(v),
{
    out.push((v % 256) as u8);
    out.push((v / 256 % 256) as u8);
    out.push((v / 256 / 256 % 256) as u8);
    out.push((v / 256 / 256 / 256) as u8);
    assert(final(out)@ =~= old(out)@ + u32_bytes(v));
}

/// Appends the eight bytes of `v`.
pub fn put_u64(out: &mut Vec<u8>, v: u64)
    ensures
        final(out)@ == old(out)@ + u64_bytes(v),
{
    let ghost bytes = u64_bytes(v);
    out.push((v % 256) as u8);
    out.push((v / 256 % 256) as u8);
    out.push((v / 256 / 256 % 256) as u8);
    out.push((v / 256 / 256 / 256 % 256) as u8);
    out.push((v / 256 / 256 / 256 / 256 % 256) as u8);
    out.push((v / 256 / 256 / 256 / 256 / 256 % 256) as u8);
    out.push((v / 256 / 256 / 256 / 256 / 256 / 256 % 256) as u8);
    out.push((v / 256 / 256 / 256 / 256 / 256 / 256 / 256) as u8);
    assert(final(out)@ =~= old(out)@ + bytes);
}

/// Appends `bytes`.
pub fn put_bytes(out: &mut Vec<u8>, bytes: &[u8])
    ensures
        final(out)@ == old(out)@ + bytes@,
{
    let mut i: usize = 0;
    while i < bytes.len()
        invariant
            i <= bytes.len(),
            out@ == old(out)@ + bytes@.take(i as int),
        decreases bytes.len() - i,
    {
        out.push(bytes[i]);
        assert(bytes@.take(i + 1) =~= bytes@.take(i as int).push(bytes@[i as int]));
        assert(out@ =~= old(out)@ + bytes@.take(i + 1));
        i += 1;
    }
    assert(bytes@.take(i as int) =~= bytes@);
}

/// Appends `text` with its length in front.
pub fn put_text(out: &mut Vec<u8>, text: &str)
    ensures
        final(out)@ == old(out)@ + text_bytes(text@),
{
    let bytes = text.as_bytes();
    put_u64(out, bytes.len() as u64);
    put_bytes(out, bytes);
    assert(final(out)@ =~= old(out)@ + text_bytes(text@));
}

/// Appends `names` with their number in front.
pub fn put_names(out: &mut Vec<u8>, names: &Vec<UserName>)
    ensures
        final(out)@ == old(out)@ + list_bytes(names.deep_view()),
{
    let ghost texts = names.deep_view();
    put_u64(out, names.len() as u64);
    let ghost start = out@;
    let mut i: usize = 0;
    assert(texts.skip(0) =~= texts);
    while i < names.len()
        invariant
            i <= names.len(),
            texts == names.deep_view(),
            out@ + texts_bytes(texts.skip(i as int)) == start + texts_bytes(texts),
        decreases names.len() - i,
    {
        let ghost before = out@;
        put_text(out, names[i].user_name());
        proof {
            let tail = texts.skip(i as int);
            assert(tail[0] == names[i as int]@);
            assert(tail.drop_first() =~= texts.skip(i + 1));
            assert(out@ + texts_bytes(texts.skip(i + 1)) =~= before + texts_bytes(tail));
        }
        i += 1;
    }
    assert(texts.skip(i as int) =~= Seq::<Seq<char>>::empty());
    assert(final(out)@ =~= old(out)@ + list_bytes(texts));
}

/// Reads the `u16` at `pos`.
pub fn take_u16(data: &[u8], pos: usize) -> (read: Option<(u16, usize)>)
    ensures
        match read {
            Some((v, end)) => u16_at(data@, pos as int) == Some((v, end as int)),
            None => u16_at(data@, pos as int) is None,
        },
{
    if data.len() < 2 || pos > data.len() - 2 {
        return None;
    }
    proof {
        lemma_le_value_2(data@.subrange(pos as int, pos + 2));
    }
    let v: u16 = data[pos] as u16 + 256 * (data[pos + 1] as u16);
    Some((v, pos + 2))
}

/// Reads the `u32` at `pos`.
pub fn take_u32(data: &[u8], pos: usize) -> (read: Option<(u32, usize)>)
    ensures
        match read {
            Some((v, end)) => u32_at(data@, pos as int) == Some((v, end as int)),
            None => u32_at(data@, pos as int) is None,
        },
{
    if data.len() < 4 || pos > data.len() - 4 {
        return None;
    }
    proof {
        lemma_le_value_4(data@.subrange(pos as int, pos + 4));
    }
    let v: u32 = data[pos] as u32 + 0x100 * (data[pos + 1] as u32) + 0x1_0000 * (data[pos
        + 2] as u32) + 0x100_0000 * (data[pos + 3] as u32);
    Some((v, pos + 4))
}

/// Reads the `u64` at `pos`.
pub fn take_u64(data: &[u8], pos: usize) -> (read: Option<(u64, usize)>)
    ensures
        match read {
            Some((v, end)) => u64_at(data@, pos as int) == Some((v, end as int)),
            None => u64_at(data@, pos as int) is None,
        },
{
    if data.len() < 8 || pos > data.len() - 8 {
        return None;
    }
    proof {
        lemma_le_value_8(data@.subrange(pos as int, pos + 8));
    }
    let low: u64 = data[pos] as u64 + 0x100 * (data[pos + 1] as u64) + 0x1_0000 * (data[pos
        + 2] as u64) + 0x100_0000 * (data[pos + 3] as u64);
    let high: u64 = data[pos + 4] as u64 + 0x100 * (data[pos + 5] as u64) + 0x1_0000 * (data[pos
        + 6] as u64) + 0x100_0000 * (data[pos + 7] as u64);
    let v: u64 = low + 0x1_0000_0000 * high;
    Some((v, pos + 8))
}

/// `String::from_utf8` of std: the text whose UTF-8 encoding `bytes` is, and
/// none exactly where `bytes` is not valid UTF-8.
#[verifier::external_body]
fn string_from_utf8(bytes: Vec<u8>) -> (text: Option<String>)
    ensures
        text is Some <==> valid_utf8(bytes@),
        text is Some ==> text.unwrap()@ == decode_utf8(bytes@),
{
    String::from_utf8(bytes).ok()
}

/// Reads the text at `pos`.
pub fn take_text(data: &[u8], pos: usize) -> (read: Option<(String, usize)>)
    ensures
        match read {
            Some((text, end)) => text_at(data@, pos as int) == Some((text@, end as int)),
            None => text_at(data@, pos as int) is None,
        },
{
    match take_u64(data, pos) {
        None => None,
        Some((len, start)) => {
            if len > (data.len() - start) as u64 {
                return None;
            }
            let end: usize = start + len as usize;
            let bytes = slice_to_vec(slice_subrange(data, start, end));
            match string_from_utf8(bytes) {
                None => None,
                Some(text) => Some((text, end)),
            }
        },
    }
}

/// With `read` in front of what was found behind it.
spec fn behind(read: Seq<Seq<char>>, found: Option<(Seq<Seq<char>>, int)>) -> Option<
    (Seq<Seq<char>>, int),
> {
    match found {
        None => None,
        Some((rest, end)) => Some((read + rest, end)),
    }
}

/// Reads the list of names at `pos`.
pub fn take_names(data: &[u8], pos: usize) -> (read: Option<(Vec<UserName>, usize)>)
    ensures
        match read {
            Some((names, end)) => list_at(data@, pos as int) == Some(
                (names.deep_view(), end as int),
            ),
            None => list_at(data@, pos as int) is None,
        },
{
    match take_u64(data, pos) {
        None => None,
        Some((count, start)) => {
            let mut names: Vec<UserName> = Vec::new();
            let mut at: usize = start;
            let mut i: u64 = 0;
            proof {
                let found = texts_at(data@, start as int, count as nat);
                assert(names.deep_view() =~= Seq::<Seq<char>>::empty());
                if found is Some {
                    assert(names.deep_view() + found.unwrap().0 =~= found.unwrap().0);
                }
            }
            while i < count
                invariant
                    i <= count,
                    u64_at(data@, pos as int) == Some((count, start as int)),
                    texts_at(data@, start as int, count as nat) == behind(
                        names.deep_view(),
                        texts_at(data@, at as int, (count - i) as nat),
                    ),
                decreases count - i,
            {
                match take_text(data, at) {
                    None => {
                        assert(texts_at(data@, at as int, (count - i) as nat) is None);
                        return None;
                    },
                    Some((text, next)) => {
                        let ghost before = names.deep_view();
                        names.push(UserName::from(text));
                        proof {
                            let after = names.deep_view();
                            assert(after =~= before.push(text@));
                            let found = texts_at(data@, next as int, (count - i - 1) as nat);
                            if found is Some {
                                let rest = found.unwrap().0;
                                assert(before + (seq![text@] + rest) =~= after + rest);
                            }
                        }
                        at = next;
                        i += 1;
                    },
                }
            }
            proof {
                assert(names.deep_view() + Seq::<Seq<char>>::empty() =~= names.deep_view());
            }
            Some((names, at))
        },
    }
}

} // verus!
