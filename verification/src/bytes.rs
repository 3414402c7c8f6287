use vstd::prelude::*;

verus! {

/// The 64-bit word stored at node `i` of a little-endian byte image.
pub open spec fn word_at(s: Seq<u8>, i: int) -> u64 {
    (s[8 * i] as u64) | ((s[8 * i + 1] as u64) << 8) | ((s[8 * i + 2] as u64) << 16) | ((s[8 * i
        + 3] as u64) << 24) | ((s[8 * i + 4] as u64) << 32) | ((s[8 * i + 5] as u64) << 40) | ((s[8
        * i + 6] as u64) << 48) | ((s[8 * i + 7] as u64) << 56)
}

/// A byte image read as a sequence of node words.
pub open spec fn bytes_to_words_s(s: Seq<u8>) -> Seq<u64> {
    Seq::new((s.len() / 8) as nat, |i: int| word_at(s, i))
}

/// Byte `k` of a node word, little-endian.
pub open spec fn byte_of_word(w: u64, k: int) -> u8 {
    ((w >> ((8 * k) as u64)) & 0xff) as u8
}

/// A word sequence written back as a little-endian byte image.
pub open spec fn words_to_bytes_s(ws: Seq<u64>) -> Seq<u8> {
    Seq::new((ws.len() * 8) as nat, |i: int| byte_of_word(ws[i / 8], i % 8))
}

proof fn lemma_word_of_bytes(w: u64)
    ensures
        ((byte_of_word(w, 0) as u64) | ((byte_of_word(w, 1) as u64) << 8) | ((byte_of_word(
            w,
            2,
        ) as u64) << 16) | ((byte_of_word(w, 3) as u64) << 24) | ((byte_of_word(w, 4) as u64)
            << 32) | ((byte_of_word(w, 5) as u64) << 40) | ((byte_of_word(w, 6) as u64) << 48) | ((
        byte_of_word(w, 7) as u64) << 56)) == w,
{
    assert((((w >> 0u64) & 0xff) | (((w >> 8u64) & 0xff) << 8) | (((w >> 16u64) & 0xff) << 16) | (((
    w >> 24u64) & 0xff) << 24) | (((w >> 32u64) & 0xff) << 32) | (((w >> 40u64) & 0xff) << 40) | (((
    w >> 48u64) & 0xff) << 48) | (((w >> 56u64) & 0xff) << 56)) == w) by (bit_vector);
    assert(forall|k: u64|
        k <= 7 ==> ((#[trigger] ((w >> (8 * k)) & 0xff)) as u8) as u64 == ((w >> (8 * k)) & 0xff))
        by (bit_vector);
}

proof fn lemma_bytes_of_word(b0: u8, b1: u8, b2: u8, b3: u8, b4: u8, b5: u8, b6: u8, b7: u8)
    ensures
        byte_of_word(word8(b0, b1, b2, b3, b4, b5, b6, b7), 0) == b0,
        byte_of_word(word8(b0, b1, b2, b3, b4, b5, b6, b7), 1) == b1,
        byte_of_word(word8(b0, b1, b2, b3, b4, b5, b6, b7), 2) == b2,
        byte_of_word(word8(b0, b1, b2, b3, b4, b5, b6, b7), 3) == b3,
        byte_of_word(word8(b0, b1, b2, b3, b4, b5, b6, b7), 4) == b4,
        byte_of_word(word8(b0, b1, b2, b3, b4, b5, b6, b7), 5) == b5,
        byte_of_word(word8(b0, b1, b2, b3, b4, b5, b6, b7), 6) == b6,
        byte_of_word(word8(b0, b1, b2, b3, b4, b5, b6, b7), 7) == b7,
{
    let w = word8(b0, b1, b2, b3, b4, b5, b6, b7);
    assert((((w >> 0u64) & 0xff) as u8) == b0 && (((w >> 8u64) & 0xff) as u8) == b1 && (((w
        >> 16u64) & 0xff) as u8) == b2 && (((w >> 24u64) & 0xff) as u8) == b3 && (((w >> 32u64)
        & 0xff) as u8) == b4 && (((w >> 40u64) & 0xff) as u8) == b5 && (((w >> 48u64) & 0xff)
        as u8) == b6 && (((w >> 56u64) & 0xff) as u8) == b7) by (bit_vector)
        requires
            w == (b0 as u64) | ((b1 as u64) << 8) | ((b2 as u64) << 16) | ((b3 as u64) << 24) | ((
            b4 as u64) << 32) | ((b5 as u64) << 40) | ((b6 as u64) << 48) | ((b7 as u64) << 56),
    ;
}

/// A word assembled from eight little-endian bytes.
pub open spec fn word8(b0: u8, b1: u8, b2: u8, b3: u8, b4: u8, b5: u8, b6: u8, b7: u8) -> u64 {
    (b0 as u64) | ((b1 as u64) << 8) | ((b2 as u64) << 16) | ((b3 as u64) << 24) | ((b4 as u64)
        << 32) | ((b5 as u64) << 40) | ((b6 as u64) << 48) | ((b7 as u64) << 56)
}

/// Reading a written word image yields the original words.
pub proof fn lemma_words_bytes_words(ws: Seq<u64>)
    ensures
        bytes_to_words_s(words_to_bytes_s(ws)) =~= ws,
{
    let bs = words_to_bytes_s(ws);
    assert forall|i: int| 0 <= i < ws.len() implies word_at(bs, i) == ws[i] by {
        assert forall|k: int| 0 <= k < 8 implies bs[8 * i + k] == byte_of_word(ws[i], k) by {
            assert((8 * i + k) / 8 == i && (8 * i + k) % 8 == k) by (nonlinear_arith)
                requires
                    0 <= k < 8,
            ;
        }
        lemma_word_of_bytes(ws[i]);
    }
}

/// Writing the words read from a whole-node byte image yields the image.
pub proof fn lemma_bytes_words_bytes(s: Seq<u8>)
    requires
        s.len() % 8 == 0,
    ensures
        words_to_bytes_s(bytes_to_words_s(s)) =~= s,
{
    let ws = bytes_to_words_s(s);
    assert forall|j: int| 0 <= j < s.len() implies byte_of_word(word_at(s, j / 8), j % 8) == s[j] by {
        let i = j / 8;
        let k = j % 8;
        lemma_bytes_of_word(
            s[8 * i],
            s[8 * i + 1],
            s[8 * i + 2],
            s[8 * i + 3],
            s[8 * i + 4],
            s[8 * i + 5],
            s[8 * i + 6],
            s[8 * i + 7],
        );
        assert(word_at(s, i) == word8(
            s[8 * i],
            s[8 * i + 1],
            s[8 * i + 2],
            s[8 * i + 3],
            s[8 * i + 4],
            s[8 * i + 5],
            s[8 * i + 6],
            s[8 * i + 7],
        ));
        assert(8 * i + k == j);
    }
}

/// Reads a whole-node byte image as node words.
pub fn bytes_to_words(data: &Vec<u8>) -> (ws: Vec<u64>)
    requires
        data@.len() % 8 == 0,
    ensures
        ws@ == bytes_to_words_s(data@),
{
    let len = data.len();
    let n = len / 8;
    assert(8 * (len as int / 8) <= len);
    let mut ws: Vec<u64> = Vec::new();
    let mut i: usize = 0;
    while i < n
        invariant
            i <= n,
            n == data@.len() / 8,
            8 * n <= len,
            len == data@.len(),
            data@.len() % 8 == 0,
            ws@.len() == i,
            forall|t: int| 0 <= t < i ==> ws@[t] == word_at(data@, t),
        decreases n - i,
    {
        let base = 8 * i;
        let w = (data[base] as u64) | ((data[base + 1] as u64) << 8) | ((data[base + 2] as u64)
            << 16) | ((data[base + 3] as u64) << 24) | ((data[base + 4] as u64) << 32) | ((data[base
            + 5] as u64) << 40) | ((data[base + 6] as u64) << 48) | ((data[base + 7] as u64) << 56);
        ws.push(w);
        i = i + 1;
    }
    assert(ws@ =~= bytes_to_words_s(data@));
    ws
}

/// Writes node words back as a little-endian byte image.
pub fn words_to_bytes(ws: &Vec<u64>) -> (bs: Vec<u8>)
    requires
        ws@.len() * 8 <= usize::MAX,
    ensures
        bs@ == words_to_bytes_s(ws@),
{
    let n = ws.len();
    let mut bs: Vec<u8> = Vec::new();
    let mut i: usize = 0;
    while i < n
        invariant
            i <= n,
            n == ws@.len(),
            n * 8 <= usize::MAX,
            bs@.len() == 8 * i,
            forall|t: int| 0 <= t < 8 * i ==> bs@[t] == byte_of_word(ws@[t / 8], t % 8),
        decreases n - i,
    {
        let w = ws[i];
        let mut k: u64 = 0;
        while k < 8
            invariant
                k <= 8,
                i < n,
                n == ws@.len(),
                w == ws@[i as int],
                bs@.len() == 8 * i + k,
                forall|t: int| 0 <= t < 8 * i + k ==> bs@[t] == byte_of_word(ws@[t / 8], t % 8),
            decreases 8 - k,
        {
            let b = ((w >> (8 * k)) & 0xff) as u8;
            bs.push(b);
            proof {
                let t = 8 * (i as int) + k;
                assert(t / 8 == i && t % 8 == k) by (nonlinear_arith)
                    requires
                        0 <= k < 8,
                        t == 8 * (i as int) + k,
                ;
                assert(bs@[t] == byte_of_word(ws@[i as int], k as int));
            }
            k = k + 1;
        }
        i = i + 1;
    }
    assert(bs@ =~= words_to_bytes_s(ws@));
    bs
}

} // verus!
