use vstd::prelude::*;
use crate::types::ErrorKind;
use base64::engine::general_purpose::STANDARD;
use base64::Engine;
use risc0_zkvm::Receipt;

verus! {

/// Byte `k` (0 to 3) of `w` in little-endian order.
pub open spec fn byte_of(w: u32, k: int) -> u8 {
    if k == 0 {
        (w & 0xff) as u8
    } else if k == 1 {
        ((w >> 8u32) & 0xff) as u8
    } else if k == 2 {
        ((w >> 16u32) & 0xff) as u8
    } else {
        ((w >> 24u32) & 0xff) as u8
    }
}

/// The word whose little-endian bytes are `b0`, `b1`, `b2`, `b3`.
pub open spec fn word_of(b0: u8, b1: u8, b2: u8, b3: u8) -> u32 {
    (b0 as u32) | ((b1 as u32) << 8u32) | ((b2 as u32) << 16u32) | ((b3 as u32) << 24u32)
}

/// Words laid out as bytes, four per word, little-endian.
pub open spec fn le_bytes(words: Seq<u32>) -> Seq<u8> {
    Seq::new(4 * words.len(), |i: int| byte_of(words[i / 4], i % 4))
}

/// Bytes read back as little-endian words, four bytes per word.
pub open spec fn le_words(bytes: Seq<u8>) -> Seq<u32> {
    Seq::new(
        bytes.len() / 4,
        |i: int| word_of(bytes[4 * i], bytes[4 * i + 1], bytes[4 * i + 2], bytes[4 * i + 3]),
    )
}

/// The standard base64 text of some bytes, as the base64 crate writes it.
pub uninterp spec fn base64_text(bytes: Seq<u8>) -> Seq<char>;

/// A character of standard base64 text: the 64 digits and the `=` pad.
pub open spec fn is_base64_char(c: char) -> bool {
    ('A' <= c && c <= 'Z') || ('a' <= c && c <= 'z') || ('0' <= c && c <= '9') || c == '+' || c
        == '/' || c == '='
}

/// The bytes that standard base64 text stands for, `None` for text that is not
/// standard base64, as the base64 crate reads it.
pub uninterp spec fn base64_bytes(text: Seq<char>) -> Option<Seq<u8>>;

/// What artifact text holds as words: `None` for text that is not base64 or
/// whose bytes are empty or not a whole number of words.
pub open spec fn words_of_text(text: Seq<char>) -> Option<Seq<u32>> {
    match base64_bytes(text) {
        Some(b) => if b.len() > 0 && b.len() % 4 == 0 {
            Some(le_words(b))
        } else {
            None
        },
        None => None,
    }
}

/// A word is rebuilt from its four little-endian bytes.
pub proof fn lemma_word_round_trip(w: u32)
    ensures
        word_of(byte_of(w, 0), byte_of(w, 1), byte_of(w, 2), byte_of(w, 3)) == w,
{
    assert(((w & 0xff) as u8 as u32) | ((((w >> 8u32) & 0xff) as u8 as u32) << 8u32) | ((((w
        >> 16u32) & 0xff) as u8 as u32) << 16u32) | ((((w >> 24u32) & 0xff) as u8 as u32) << 24u32)
        == w) by (bit_vector);
}

/// Reading words back from their little-endian bytes gives the same words.
pub proof fn lemma_le_round_trip(words: Seq<u32>)
    ensures
        le_words(le_bytes(words)) == words,
{
    let b = le_bytes(words);
    assert forall|i: int| 0 <= i < words.len() implies #[trigger] le_words(b)[i] == words[i] by {
        assert((4 * i) / 4 == i && (4 * i) % 4 == 0);
        assert((4 * i + 1) / 4 == i && (4 * i + 1) % 4 == 1);
        assert((4 * i + 2) / 4 == i && (4 * i + 2) % 4 == 2);
        assert((4 * i + 3) / 4 == i && (4 * i + 3) % 4 == 3);
        lemma_word_round_trip(words[i]);
    }
    assert(le_words(b) =~= words);
}

/// Lays words out as little-endian bytes.
pub fn words_to_bytes(words: &Vec<u32>) -> (r: Vec<u8>)
    requires
        4 * words@.len() <= usize::MAX,
    ensures
        r@ == le_bytes(words@),
{
    let mut out: Vec<u8> = Vec::new();
    let mut i: usize = 0;
    while i < words.len()
        invariant
            i <= words.len(),
            4 * words@.len() <= usize::MAX,
            out@.len() == 4 * i,
            forall|j: int| 0 <= j < 4 * i ==> out@[j] == byte_of(words@[j / 4], j % 4),
        decreases words.len() - i,
    {
        let w = words[i];
        out.push((w & 0xff) as u8);
        out.push(((w >> 8u32) & 0xff) as u8);
        out.push(((w >> 16u32) & 0xff) as u8);
        out.push(((w >> 24u32) & 0xff) as u8);
        assert forall|j: int| 4 * i <= j < 4 * i + 4 implies out@[j] == byte_of(
            words@[j / 4],
            j % 4,
        ) by {
            assert(j / 4 == i as int);
        }
        i = i + 1;
    }
    assert(out@ =~= le_bytes(words@));
    out
}

/// Reads bytes back as little-endian words; a trailing part word is left out.
pub fn bytes_to_words(bytes: &Vec<u8>) -> (r: Vec<u32>)
    ensures
        r@ == le_words(bytes@),
{
    let len = bytes.len();
    let n = len / 4;
    let mut out: Vec<u32> = Vec::new();
    let mut i: usize = 0;
    while i < n
        invariant
            i <= n,
            len == bytes@.len(),
            n == len / 4,
            out@.len() == i,
            forall|j: int| 0 <= j < i ==> out@[j] == le_words(bytes@)[j],
        decreases n - i,
    {
        assert(4 * i + 3 < len) by (nonlinear_arith)
            requires
                i < n,
                n == len / 4,
        ;
        let k = 4 * i;
        let w = (bytes[k] as u32) | ((bytes[k + 1] as u32) << 8u32) | ((bytes[k + 2] as u32)
            << 16u32) | ((bytes[k + 3] as u32) << 24u32);
        out.push(w);
        i = i + 1;
    }
    assert(out@ =~= le_words(bytes@));
    out
}

/// Relies on the base64 crate's standard engine `encode`: the text depends on
/// the bytes alone, and is padded, four characters for each started group of
/// three bytes, drawn from the standard alphabet.
#[verifier::external_body]
fn base64_encode(bytes: &Vec<u8>) -> (r: String)
    ensures
        r@ == base64_text(bytes@),
        r@.len() == 4 * ((bytes@.len() + 2) / 3),
        forall|i: int| 0 <= i < r@.len() ==> is_base64_char(#[trigger] r@[i]),
{
    STANDARD.encode(bytes)
}

/// Relies on the base64 crate's standard engine `decode`: the outcome depends
/// on the text alone, decoding what `encode` wrote gives back its bytes, and
/// empty text decodes to no bytes.
#[verifier::external_body]
fn base64_decode(text: &str) -> (r: Option<Vec<u8>>)
    ensures
        match r {
            Some(b) => base64_bytes(text@) == Some(b@),
            None => base64_bytes(text@) is None,
        },
        forall|b: Seq<u8>| #[trigger] base64_text(b) == text@ ==> r.is_some() && r.unwrap()@ == b,
        text@.len() == 0 ==> r.is_some() && r.unwrap()@.len() == 0,
{
    STANDARD.decode(text).ok()
}

/// Writes words as artifact text: their little-endian bytes in standard base64.
pub fn words_to_text(words: &Vec<u32>) -> (r: String)
    requires
        4 * words@.len() <= usize::MAX,
    ensures
        r@ == base64_text(le_bytes(words@)),
        r@.len() == 4 * ((4 * words@.len() + 2) / 3),
        forall|i: int| 0 <= i < r@.len() ==> is_base64_char(#[trigger] r@[i]),
{
    let bytes = words_to_bytes(words);
    base64_encode(&bytes)
}

/// Reads artifact text back as words. Text that is not base64, or whose bytes
/// are empty or not a whole number of words, is a malformed artifact. Text
/// written by `words_to_text` gives back its words.
pub fn text_to_words(text: &str) -> (r: Result<Vec<u32>, ErrorKind>)
    ensures
        match words_of_text(text@) {
            Some(w) => r matches Ok(v) && v@ == w,
            None => r matches Err(ErrorKind::MalformedArtifact),
        },
        text@.len() == 0 ==> r matches Err(ErrorKind::MalformedArtifact),
        forall|w: Seq<u32>|
            w.len() > 0 && #[trigger] base64_text(le_bytes(w)) == text@ ==> r.is_ok()
                && r.unwrap()@ == w,
{
    match base64_decode(text) {
        None => Err(ErrorKind::MalformedArtifact),
        Some(bytes) => {
            if bytes.len() == 0 || bytes.len() % 4 != 0 {
                Err(ErrorKind::MalformedArtifact)
            } else {
                let words = bytes_to_words(&bytes);
                proof {
                    assert forall|w: Seq<u32>|
                        w.len() > 0 && #[trigger] base64_text(le_bytes(w)) == text@ implies words@
                        == w by {
                        assert(base64_bytes(text@) == Some(le_bytes(w)));
                        lemma_le_round_trip(w);
                    }
                }
                Ok(words)
            }
        },
    }
}

} // verus!
