//! The base64 text in which an image travels.

use base64::Engine;
use vstd::prelude::*;

verus! {

/// The character of the standard alphabet that stands for the six bits of `v`.
pub open spec fn base64_char(v: int) -> char {
    if v < 26 {
        ('A' as int + v) as char
    } else if v < 52 {
        ('a' as int + (v - 26)) as char
    } else if v < 62 {
        ('0' as int + (v - 52)) as char
    } else if v == 62 {
        '+'
    } else {
        '/'
    }
}

/// The base64 text of `bytes`: four characters for every three bytes, six bits each, and a last
/// group filled up with `=`.
pub open spec fn base64_text(bytes: Seq<u8>) -> Seq<char>
    decreases bytes.len(),
{
    if bytes.len() == 0 {
        seq![]
    } else if bytes.len() == 1 {
        seq![
            base64_char(bytes[0] as int / 4),
            base64_char((bytes[0] as int % 4) * 16),
            '=',
            '=',
        ]
    } else if bytes.len() == 2 {
        seq![
            base64_char(bytes[0] as int / 4),
            base64_char((bytes[0] as int % 4) * 16 + bytes[1] as int / 16),
            base64_char((bytes[1] as int % 16) * 4),
            '=',
        ]
    } else {
        seq![
            base64_char(bytes[0] as int / 4),
            base64_char((bytes[0] as int % 4) * 16 + bytes[1] as int / 16),
            base64_char((bytes[1] as int % 16) * 4 + bytes[2] as int / 64),
            base64_char(bytes[2] as int % 64),
        ] + base64_text(bytes.skip(3))
    }
}

/// The length of the base64 text of that many bytes.
pub open spec fn base64_len(len: nat) -> nat {
    ((len + 2) / 3 * 4) as nat
}

/// `Engine::encode` of `base64::engine::general_purpose::STANDARD`: the standard alphabet, with
/// padding. It cannot make a text that is longer than an allocation may be.
#[verifier::external_body]
pub(crate) fn encode_base64(bytes: &Vec<u8>) -> (text: String)
    requires
        base64_len(bytes@.len()) <= isize::MAX,
    ensures
        text@ == base64_text(bytes@),
{
    base64::engine::general_purpose::STANDARD.encode(bytes)
}

/// Base64 makes four characters of every three bytes, the last group counted as a whole.
pub proof fn base64_text_has_length(bytes: Seq<u8>)
    ensures
        base64_text(bytes).len() == base64_len(bytes.len()),
    decreases bytes.len(),
{
    if bytes.len() >= 3 {
        base64_text_has_length(bytes.skip(3));
    }
}

/// The letters, by the six bits that they stand for.
pub proof fn base64_alphabet(v: int)
    requires
        0 <= v < 64,
    ensures
        base64_char(v) == "ABCDEFGHIJKLMNOPQRSTUVWXYZabcdefghijklmnopqrstuvwxyz0123456789+/"@[v],
{
    reveal_strlit("ABCDEFGHIJKLMNOPQRSTUVWXYZabcdefghijklmnopqrstuvwxyz0123456789+/");
    assert(v == 0 || v == 1 || v == 2 || v == 3 || v == 4 || v == 5 || v == 6 || v == 7 || v == 8
        || v == 9 || v == 10 || v == 11 || v == 12 || v == 13 || v == 14 || v == 15 || v == 16 || v
        == 17 || v == 18 || v == 19 || v == 20 || v == 21 || v == 22 || v == 23 || v == 24 || v
        == 25 || v == 26 || v == 27 || v == 28 || v == 29 || v == 30 || v == 31 || v == 32 || v
        == 33 || v == 34 || v == 35 || v == 36 || v == 37 || v == 38 || v == 39 || v == 40 || v
        == 41 || v == 42 || v == 43 || v == 44 || v == 45 || v == 46 || v == 47 || v == 48 || v
        == 49 || v == 50 || v == 51 || v == 52 || v == 53 || v == 54 || v == 55 || v == 56 || v
        == 57 || v == 58 || v == 59 || v == 60 || v == 61 || v == 62 || v == 63);
}

proof fn lemma_sextets(a: int, b: int, c: int)
    requires
        0 <= a < 256,
        0 <= b < 256,
        0 <= c < 256,
    ensures
        ({
            let word = a * 0x1_0000 + b * 0x100 + c;
            &&& word / 0x4_0000 == a / 4
            &&& word / 0x1000 % 64 == (a % 4) * 16 + b / 16
            &&& word / 64 % 64 == (b % 16) * 4 + c / 64
            &&& word % 64 == c % 64
        }),
{
    let word = a * 0x1_0000 + b * 0x100 + c;
    assert(word / 0x1000 == a * 16 + b / 16);
    assert(word / 64 == a * 0x400 + b * 4 + c / 64);
}

/// Three bytes, read as one number of 24 bits, are spelled by four letters, the highest six bits
/// first. Bytes missing from the last group count as zero, and each of them leaves a `=`.
pub proof fn base64_text_spells_the_bytes(bytes: Seq<u8>, group: int)
    requires
        0 <= 3 * group < bytes.len(),
    ensures
        ({
            let at = 3 * group;
            let second: int = if at + 1 < bytes.len() { bytes[at + 1] as int } else { 0 };
            let third: int = if at + 2 < bytes.len() { bytes[at + 2] as int } else { 0 };
            let word = bytes[at] * 0x1_0000 + second * 0x100 + third;
            let text = base64_text(bytes);
            &&& 4 * group + 4 <= text.len()
            &&& text[4 * group] == base64_char(word / 0x4_0000)
            &&& text[4 * group + 1] == base64_char(word / 0x1000 % 64)
            &&& text[4 * group + 2] == (if at + 1 < bytes.len() {
                base64_char(word / 64 % 64)
            } else {
                '='
            })
            &&& text[4 * group + 3] == (if at + 2 < bytes.len() {
                base64_char(word % 64)
            } else {
                '='
            })
        }),
    decreases bytes.len(),
{
    if group == 0 {
        let second: int = if 1 < bytes.len() { bytes[1] as int } else { 0 };
        let third: int = if 2 < bytes.len() { bytes[2] as int } else { 0 };
        lemma_sextets(bytes[0] as int, second, third);
    } else {
        let rest = bytes.skip(3);
        base64_text_spells_the_bytes(rest, group - 1);
        let text = base64_text(bytes);
        let later = base64_text(rest);
        assert(forall|i: int| 0 <= i < later.len() ==> text[i + 4] == #[trigger] later[i]);
        assert(rest[3 * (group - 1)] == bytes[3 * group]);
        assert(text[4 * group] == later[4 * (group - 1)]);
        assert(text[4 * group + 1] == later[4 * (group - 1) + 1]);
        assert(text[4 * group + 2] == later[4 * (group - 1) + 2]);
        assert(text[4 * group + 3] == later[4 * (group - 1) + 3]);
    }
}

/// The text stays within one megabyte exactly if there are at most 786 432 bytes. So a file of
/// 750 000 bytes stays within it, and even within a million characters.
pub proof fn base64_text_within_a_megabyte(bytes: Seq<u8>)
    ensures
        (base64_text(bytes).len() <= 1_048_576) == (bytes.len() <= 786_432),
        bytes.len() <= 750_000 ==> base64_text(bytes).len() <= 1_000_000,
{
    base64_text_has_length(bytes);
}

} // verus!
