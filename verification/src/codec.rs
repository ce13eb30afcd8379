//! Reinterpretation of raw staging bytes as typed 32-bit elements, and the
//! row-wise stripping of alignment padding.
//!
//! Staging memory holds fixed-width elements least-significant byte first:
//! the byte order the device writes.  A texture-backed copy additionally
//! pads every row to the hardware pitch, so its staging bytes hold more
//! words than the texture has cells; `strip_row_padding` keeps the leading
//! `width` words of each padded row.

use vstd::arithmetic::div_mod::lemma_div_denominator;
use vstd::arithmetic::div_mod::lemma_div_is_ordered;
use vstd::arithmetic::div_mod::lemma_fundamental_div_mod;
use vstd::arithmetic::div_mod::lemma_fundamental_div_mod_converse;
use vstd::arithmetic::div_mod::lemma_mod_bound;
use vstd::prelude::*;

verus! {

/// The 32-bit value stored at four consecutive bytes, least significant
/// first.
pub open spec fn word_of_bytes(b0: u8, b1: u8, b2: u8, b3: u8) -> u32 {
    (b0 as int + 0x100 * (b1 as int) + 0x1_0000 * (b2 as int) + 0x100_0000 * (b3 as int)) as u32
}

/// Byte `j` (0 = least significant) of the 32-bit word `w`.
pub open spec fn byte_of_word(w: u32, j: int) -> u8
    recommends
        0 <= j < 4,
{
    if j == 0 {
        ((w as int) % 0x100) as u8
    } else if j == 1 {
        ((w as int) / 0x100 % 0x100) as u8
    } else if j == 2 {
        ((w as int) / 0x1_0000 % 0x100) as u8
    } else {
        ((w as int) / 0x100_0000) as u8
    }
}

/// The words stored in `bytes`, four bytes each; a trailing fragment
/// shorter than one word carries no element.
pub open spec fn words_of_bytes(bytes: Seq<u8>) -> Seq<u32> {
    Seq::new(
        bytes.len() / 4,
        |i: int| word_of_bytes(bytes[4 * i], bytes[4 * i + 1], bytes[4 * i + 2], bytes[4 * i + 3]),
    )
}

/// The byte encoding of a sequence of words, four bytes per word, least
/// significant first.
pub open spec fn bytes_of_words(words: Seq<u32>) -> Seq<u8> {
    Seq::new(4 * words.len(), |i: int| byte_of_word(words[i / 4], i % 4))
}

/// Reassembling the four bytes of a word gives the word back.
proof fn lemma_word_byte_decomposition(w: u32)
    ensures
        word_of_bytes(byte_of_word(w, 0), byte_of_word(w, 1), byte_of_word(w, 2), byte_of_word(w, 3))
            == w,
{
    let x = w as int;
    lemma_fundamental_div_mod(x, 0x100);
    lemma_fundamental_div_mod(x / 0x100, 0x100);
    lemma_fundamental_div_mod(x / 0x1_0000, 0x100);
    lemma_div_denominator(x, 0x100, 0x100);
    lemma_div_denominator(x, 0x1_0000, 0x100);
    lemma_mod_bound(x, 0x100);
    lemma_mod_bound(x / 0x100, 0x100);
    lemma_mod_bound(x / 0x1_0000, 0x100);
    lemma_div_is_ordered(x, 0xFFFF_FFFF, 0x100_0000);
    vstd::arithmetic::div_mod::lemma_div_pos_is_pos(x, 0x100);
    vstd::arithmetic::div_mod::lemma_div_pos_is_pos(x, 0x1_0000);
    vstd::arithmetic::div_mod::lemma_div_pos_is_pos(x, 0x100_0000);
}

/// Decoding the byte encoding of a sequence of elements yields the original
/// sequence: a host that stages elements and a device that hands the staged
/// bytes back unchanged round-trip exactly.
pub proof fn lemma_words_bytes_round_trip(words: Seq<u32>)
    ensures
        words_of_bytes(bytes_of_words(words)) == words,
{
    let bs = bytes_of_words(words);
    assert(bs.len() == 4 * words.len());
    assert forall|i: int| 0 <= i < words.len() implies words_of_bytes(bs)[i] == words[i] by {
        let w = words[i];
        assert(bs[4 * i] == byte_of_word(w, 0)) by {
            lemma_fundamental_div_mod_converse(4 * i, 4, i, 0);
        }
        assert(bs[4 * i + 1] == byte_of_word(w, 1)) by {
            lemma_fundamental_div_mod_converse(4 * i + 1, 4, i, 1);
        }
        assert(bs[4 * i + 2] == byte_of_word(w, 2)) by {
            lemma_fundamental_div_mod_converse(4 * i + 2, 4, i, 2);
        }
        assert(bs[4 * i + 3] == byte_of_word(w, 3)) by {
            lemma_fundamental_div_mod_converse(4 * i + 3, 4, i, 3);
        }
        lemma_word_byte_decomposition(w);
    }
    assert(words_of_bytes(bs) =~= words);
}

/// Reinterprets raw staging bytes as 32-bit elements in the order they
/// appear: one element per four bytes, least significant byte first.
pub fn words_from_bytes(bytes: &Vec<u8>) -> (r: Vec<u32>)
    ensures
        r@ == words_of_bytes(bytes@),
        r@.len() == bytes@.len() / 4,
{
    let len: usize = bytes.len();
    let n: usize = len / 4;
    let mut out: Vec<u32> = Vec::new();
    let mut i: usize = 0;
    while i < n
        invariant
            i <= n,
            bytes@.len() == len,
            n == bytes@.len() / 4,
            out@.len() == i as int,
            forall|k: int| 0 <= k < i ==> out@[k] == words_of_bytes(bytes@)[k],
        decreases n - i,
    {
        assert(4 * (i as int) + 3 < bytes@.len()) by {
            lemma_fundamental_div_mod(bytes@.len() as int, 4);
        }
        let w: u32 = bytes[4 * i] as u32 + 0x100 * (bytes[4 * i + 1] as u32) + 0x1_0000 * (bytes[4
            * i + 2] as u32) + 0x100_0000 * (bytes[4 * i + 3] as u32);
        out.push(w);
        i = i + 1;
    }
    assert(out@ =~= words_of_bytes(bytes@));
    out
}

/// Encodes 32-bit elements as raw staging bytes, four per element, least
/// significant byte first.
pub fn bytes_from_words(words: &Vec<u32>) -> (r: Vec<u8>)
    requires
        4 * words@.len() <= usize::MAX,
    ensures
        r@ == bytes_of_words(words@),
        r@.len() == 4 * words@.len(),
{
    let mut out: Vec<u8> = Vec::new();
    let mut i: usize = 0;
    while i < words.len()
        invariant
            i <= words@.len(),
            4 * words@.len() <= usize::MAX,
            out@.len() == 4 * (i as int),
            forall|k: int| 0 <= k < 4 * i ==> out@[k] == bytes_of_words(words@)[k],
        decreases words@.len() - i,
    {
        let w = words[i];
        out.push((w % 0x100) as u8);
        out.push(((w / 0x100) % 0x100) as u8);
        out.push(((w / 0x1_0000) % 0x100) as u8);
        out.push((w / 0x100_0000) as u8);
        proof {
            lemma_fundamental_div_mod_converse(4 * (i as int), 4, i as int, 0);
            lemma_fundamental_div_mod_converse(4 * (i as int) + 1, 4, i as int, 1);
            lemma_fundamental_div_mod_converse(4 * (i as int) + 2, 4, i as int, 2);
            lemma_fundamental_div_mod_converse(4 * (i as int) + 3, 4, i as int, 3);
        }
        i = i + 1;
    }
    assert(out@ =~= bytes_of_words(words@));
    out
}

/// The logical elements of a row-padded sequence: of each padded row of
/// `row_words` elements, the leading `width` are kept and the trailing
/// padding is dropped.
pub open spec fn stripped_spec(words: Seq<u32>, width: int, row_words: int, rows: int) -> Seq<u32> {
    Seq::new((width * rows) as nat, |i: int| words[(i / width) * row_words + i % width])
}

/// Drops the per-row alignment padding of a row-padded element sequence,
/// keeping the leading `width` elements of each of the `rows` padded rows,
/// in row order.
pub fn strip_row_padding(words: &Vec<u32>, width: usize, row_words: usize, rows: usize) -> (r: Vec<
    u32,
>)
    requires
        1 <= width <= row_words,
        words@.len() == (rows as int) * (row_words as int),
    ensures
        r@ == stripped_spec(words@, width as int, row_words as int, rows as int),
        r@.len() == (width as int) * (rows as int),
{
    proof {
        assert((width as int) * (rows as int) <= (rows as int) * (row_words as int))
            by (nonlinear_arith)
            requires
                1 <= width <= row_words,
                rows >= 0,
        ;
    }
    let total: usize = words.len();
    let mut out: Vec<u32> = Vec::new();
    let mut row: usize = 0;
    while row < rows
        invariant
            row <= rows,
            1 <= width <= row_words,
            words@.len() == total,
            words@.len() == (rows as int) * (row_words as int),
            (width as int) * (rows as int) <= words@.len(),
            out@.len() == (row as int) * (width as int),
            forall|k: int|
                0 <= k < out@.len() ==> out@[k] == stripped_spec(
                    words@,
                    width as int,
                    row_words as int,
                    rows as int,
                )[k],
        decreases rows - row,
    {
        proof {
            assert((row as int) * (row_words as int) + (row_words as int) <= (rows as int) * (
            row_words as int)) by (nonlinear_arith)
                requires
                    row < rows,
                    row_words >= 1,
            ;
            assert((row as int) * (width as int) + (width as int) <= (rows as int) * (
            width as int)) by (nonlinear_arith)
                requires
                    row < rows,
                    width >= 1,
            ;
            assert((rows as int) * (width as int) == (width as int) * (rows as int))
                by (nonlinear_arith);
        }
        let base: usize = row * row_words;
        let mut col: usize = 0;
        while col < width
            invariant
                col <= width,
                row < rows,
                1 <= width <= row_words,
                words@.len() == total,
                words@.len() == (rows as int) * (row_words as int),
                base == (row as int) * (row_words as int),
                base + row_words <= words@.len(),
                (row as int) * (width as int) + width <= (width as int) * (rows as int),
                out@.len() == (row as int) * (width as int) + col,
                forall|k: int|
                    0 <= k < out@.len() ==> out@[k] == stripped_spec(
                        words@,
                        width as int,
                        row_words as int,
                        rows as int,
                    )[k],
            decreases width - col,
        {
            out.push(words[base + col]);
            proof {
                let k = (row as int) * (width as int) + col;
                lemma_fundamental_div_mod_converse(k, width as int, row as int, col as int);
                assert(stripped_spec(words@, width as int, row_words as int, rows as int)[k]
                    == words@[(row as int) * (row_words as int) + col]);
            }
            col = col + 1;
        }
        proof {
            assert(((row as int) + 1) * (width as int) == (row as int) * (width as int) + (
            width as int)) by (nonlinear_arith);
        }
        row = row + 1;
    }
    proof {
        assert((rows as int) * (width as int) == (width as int) * (rows as int))
            by (nonlinear_arith);
        assert(out@ =~= stripped_spec(words@, width as int, row_words as int, rows as int));
    }
    out
}

} // verus!
