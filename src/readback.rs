use vstd::prelude::*;

verus! {

/// The unsigned integer that eight bytes encode, least significant byte first.
pub open spec fn le_word(b: Seq<u8>) -> u64 {
    (b[0] as u64) | ((b[1] as u64) << 8u64) | ((b[2] as u64) << 16u64) | ((b[3] as u64)
        << 24u64) | ((b[4] as u64) << 32u64) | ((b[5] as u64) << 40u64) | ((b[6] as u64)
        << 48u64) | ((b[7] as u64) << 56u64)
}

/// The eight bytes of `w`, least significant first.
pub open spec fn le_bytes(w: u64) -> Seq<u8> {
    seq![
        (w & 0xff) as u8,
        ((w >> 8u64) & 0xff) as u8,
        ((w >> 16u64) & 0xff) as u8,
        ((w >> 24u64) & 0xff) as u8,
        ((w >> 32u64) & 0xff) as u8,
        ((w >> 40u64) & 0xff) as u8,
        ((w >> 48u64) & 0xff) as u8,
        ((w >> 56u64) & 0xff) as u8,
    ]
}

/// The words that a byte buffer holds: one for each complete group of eight
/// bytes, in order; trailing bytes that make no complete word are ignored.
pub open spec fn words_of(bytes: Seq<u8>) -> Seq<u64> {
    Seq::new(bytes.len() / 8, |i: int| le_word(bytes.subrange(8 * i, 8 * i + 8)))
}

/// The byte image of a sequence of words, each least significant byte first.
pub open spec fn bytes_of(words: Seq<u64>) -> Seq<u8> {
    Seq::new(words.len() * 8, |j: int| le_bytes(words[j / 8])[j % 8])
}

proof fn lemma_word_round_trip(w: u64)
    ensures
        le_word(le_bytes(w)) == w,
{
    let b = le_bytes(w);
    assert(b[0] == (w & 0xff) as u8);
    assert(((w & 0xff) as u8 as u64) | ((((w >> 8u64) & 0xff) as u8 as u64) << 8u64) | ((((w
        >> 16u64) & 0xff) as u8 as u64) << 16u64) | ((((w >> 24u64) & 0xff) as u8 as u64)
        << 24u64) | ((((w >> 32u64) & 0xff) as u8 as u64) << 32u64) | ((((w >> 40u64) & 0xff) as u8
        as u64) << 40u64) | ((((w >> 48u64) & 0xff) as u8 as u64) << 48u64) | ((((w >> 56u64)
        & 0xff) as u8 as u64) << 56u64) == w) by (bit_vector);
}

/// Decoding the byte image of any sequence of words gives back exactly those
/// words, bit for bit.
pub proof fn lemma_readback_round_trip(words: Seq<u64>)
    ensures
        words_of(bytes_of(words)) == words,
{
    let bytes = bytes_of(words);
    assert(bytes.len() / 8 == words.len()) by (nonlinear_arith)
        requires
            bytes.len() == words.len() * 8,
    ;
    assert forall|i: int| 0 <= i < words.len() implies #[trigger] words_of(bytes)[i] == words[i] by {
        let part = bytes.subrange(8 * i, 8 * i + 8);
        assert forall|k: int| 0 <= k < 8 implies part[k] == le_bytes(words[i])[k] by {
            assert((8 * i + k) / 8 == i && (8 * i + k) % 8 == k) by (nonlinear_arith)
                requires
                    0 <= k < 8,
            ;
            assert(8 * i + k < words.len() * 8) by (nonlinear_arith)
                requires
                    0 <= k < 8,
                    0 <= i < words.len(),
            ;
        }
        assert(part =~= le_bytes(words[i]));
        lemma_word_round_trip(words[i]);
    }
    assert(words_of(bytes) =~= words);
}

/// Reads the word stored least significant byte first at `bytes[at..at + 8]`.
fn read_le_word(bytes: &[u8], at: usize) -> (r: u64)
    requires
        at + 8 <= bytes@.len(),
    ensures
        r == le_word(bytes@.subrange(at as int, at + 8)),
{
    let b0 = bytes[at] as u64;
    let b1 = bytes[at + 1] as u64;
    let b2 = bytes[at + 2] as u64;
    let b3 = bytes[at + 3] as u64;
    let b4 = bytes[at + 4] as u64;
    let b5 = bytes[at + 5] as u64;
    let b6 = bytes[at + 6] as u64;
    let b7 = bytes[at + 7] as u64;
    b0 | (b1 << 8u64) | (b2 << 16u64) | (b3 << 24u64) | (b4 << 32u64) | (b5 << 40u64) | (b6
        << 48u64) | (b7 << 56u64)
}

/// Decodes a readback buffer into the 64-bit words it holds, each stored least
/// significant byte first.
pub fn decode_words(bytes: &[u8]) -> (r: Vec<u64>)
    ensures
        r@ == words_of(bytes@),
{
    let len: usize = bytes.len();
    let n: usize = len / 8;
    let mut out: Vec<u64> = Vec::with_capacity(n);
    let mut i: usize = 0;
    while i < n
        invariant
            len == bytes@.len(),
            n == len / 8,
            i <= n,
            out@ == words_of(bytes@).take(i as int),
        decreases n - i,
    {
        assert(8 * i + 8 <= len) by (nonlinear_arith)
            requires
                i < n,
                n == len / 8,
        ;
        let w = read_le_word(bytes, 8 * i);
        out.push(w);
        i = i + 1;
        assert(out@ =~= words_of(bytes@).take(i as int));
    }
    assert(out@ =~= words_of(bytes@));
    out
}

} // verus!
