//! Word-alignment codec: padding and byte-to-word conversion.
//!
//! The downstream consumer of signed payloads only accepts buffers whose
//! length is a multiple of the fixed word size of 8 bytes.

use vstd::prelude::*;

verus! {

/// A fixed-width signed machine word, as the downstream consumer defines it.
pub type Word = i64;

/// Where to pad the data to make it word aligned.
#[derive(Clone, Copy, Debug, PartialEq, Eq, Structural)]
pub enum Padding {
    /// Pad the start of the data.
    Start,
    /// Pad the end of the data.
    End,
}

/// True when a buffer of this length is word aligned.
pub open spec fn is_aligned(s: Seq<u8>) -> bool {
    s.len() % 8 == 0
}

/// The number of zero bytes the unconditional padder adds: always in 1..=8.
pub open spec fn pad_count(n: nat) -> nat {
    (8 - n % 8) as nat
}

/// A run of zero bytes.
pub open spec fn zeros(n: nat) -> Seq<u8> {
    Seq::new(n, |i: int| 0u8)
}

/// The result of padding unconditionally on the chosen side.
pub open spec fn padded_always(s: Seq<u8>, side: Padding) -> Seq<u8> {
    match side {
        Padding::Start => zeros(pad_count(s.len())) + s,
        Padding::End => s + zeros(pad_count(s.len())),
    }
}

/// The result of aligning: unchanged when already aligned, else padded.
pub open spec fn aligned_pad(s: Seq<u8>, side: Padding) -> Seq<u8> {
    if is_aligned(s) {
        s
    } else {
        padded_always(s, side)
    }
}

/// Padding on either side always produces an aligned buffer.
pub proof fn lemma_padded_always_aligned(s: Seq<u8>, side: Padding)
    ensures
        is_aligned(padded_always(s, side)),
{
    let n = s.len();
    let m = n % 8;
    assert((n + (8 - m)) % 8 == 0) by (nonlinear_arith)
        requires
            m == n % 8,
    ;
}

/// Aligning always yields an aligned buffer, and an already aligned buffer
/// comes back unchanged.
pub proof fn lemma_align_to_word(s: Seq<u8>, side: Padding)
    ensures
        is_aligned(aligned_pad(s, side)),
        is_aligned(s) ==> aligned_pad(s, side) == s,
{
    if !is_aligned(s) {
        lemma_padded_always_aligned(s, side);
    }
}

/// Check if the data is word aligned.
pub fn is_word_aligned(data: &[u8]) -> (r: bool)
    ensures
        r == is_aligned(data@),
{
    data.len() % 8 == 0
}

/// Pad the data to be word aligned.
///
/// This always adds between 1 and 8 zero bytes, even when the input is
/// already aligned; use `align_to_word` when the data might already be
/// aligned.
pub fn pad_bytes(data: Vec<u8>, padding: Padding) -> (r: Vec<u8>)
    requires
        data@.len() + 8 <= usize::MAX,
    ensures
        r@ == padded_always(data@, padding),
{
    let mut data = data;
    let pad = 8 - data.len() % 8;
    match padding {
        Padding::Start => {
            let mut out: Vec<u8> = Vec::new();
            let mut i: usize = 0;
            while i < pad
                invariant
                    i <= pad,
                    out@ == zeros(i as nat),
                decreases pad - i,
            {
                out.push(0u8);
                proof {
                    assert(out@ =~= zeros((i + 1) as nat));
                }
                i = i + 1;
            }
            let ghost orig = data@;
            out.append(&mut data);
            proof {
                assert(out@ =~= padded_always(orig, Padding::Start));
            }
            out
        }
        Padding::End => {
            let ghost orig = data@;
            let mut i: usize = 0;
            while i < pad
                invariant
                    i <= pad,
                    data@ == orig + zeros(i as nat),
                decreases pad - i,
            {
                data.push(0u8);
                proof {
                    assert(data@ =~= orig + zeros((i + 1) as nat));
                }
                i = i + 1;
            }
            proof {
                assert(data@ =~= padded_always(orig, Padding::End));
            }
            data
        }
    }
}

/// Align the data to be word aligned, padding with zeros on the chosen side
/// only when the data is not already aligned.
pub fn align_to_word(data: Vec<u8>, padding: Padding) -> (r: Vec<u8>)
    requires
        data@.len() + 8 <= usize::MAX,
    ensures
        r@ == aligned_pad(data@, padding),
        is_aligned(r@),
{
    proof {
        lemma_align_to_word(data@, padding);
    }
    if is_word_aligned(data.as_slice()) {
        data
    } else {
        pad_bytes(data, padding)
    }
}

/// The unsigned value a word's 64 bits stand for.
pub open spec fn word_unsigned(w: i64) -> int {
    if w >= 0 {
        w as int
    } else {
        w as int + 0x1_0000_0000_0000_0000
    }
}

/// Byte `k` (0 = most significant) of an unsigned 64-bit value.
pub open spec fn be_byte_of(v: int, k: int) -> u8 {
    let divisor: int = if k == 0 {
        0x100_0000_0000_0000
    } else if k == 1 {
        0x1_0000_0000_0000
    } else if k == 2 {
        0x100_0000_0000
    } else if k == 3 {
        0x1_0000_0000
    } else if k == 4 {
        0x100_0000
    } else if k == 5 {
        0x1_0000
    } else if k == 6 {
        0x100
    } else {
        1
    };
    ((v / divisor) % 256) as u8
}

/// The 8 big-endian bytes of a word.
pub open spec fn word_be_bytes(w: i64) -> Seq<u8> {
    Seq::new(8, |k: int| be_byte_of(word_unsigned(w), k))
}

/// Relies on `essential_types::convert::word_from_bytes`, which is
/// `i64::from_be_bytes`: it returns the unique word whose big-endian byte
/// representation is the input.
#[verifier::external_body]
pub(crate) fn word_from_be_bytes(bytes: &[u8; 8]) -> (r: Word)
    ensures
        word_be_bytes(r) == bytes@,
{
    essential_types::convert::word_from_bytes(*bytes)
}

/// Align and convert the data to words: after padding on the chosen side,
/// every consecutive 8-byte chunk becomes one big-endian word.
pub fn into_words(data: Vec<u8>, padding: Padding) -> (r: Vec<Word>)
    requires
        data@.len() + 8 <= usize::MAX,
    ensures
        ({
            let p = aligned_pad(data@, padding);
            &&& r@.len() * 8 == p.len()
            &&& forall|i: int|
                0 <= i < r@.len() ==> word_be_bytes(r@[i]) == p.subrange(8 * i, 8 * i + 8)
        }),
{
    let ghost orig = data@;
    let aligned = align_to_word(data, padding);
    let ghost p = aligned_pad(orig, padding);
    let n = aligned.len() / 8;
    proof {
        assert(n * 8 == p.len());
    }
    let mut out: Vec<Word> = Vec::new();
    let mut i: usize = 0;
    while i < n
        invariant
            i <= n,
            aligned@ == p,
            n * 8 == p.len(),
            n <= usize::MAX / 8,
            out@.len() == i,
            forall|k: int| 0 <= k < i ==> word_be_bytes(out@[k]) == p.subrange(8 * k, 8 * k + 8),
        decreases n - i,
    {
        let base = 8 * i;
        let mut chunk = [0u8; 8];
        let mut j: usize = 0;
        while j < 8
            invariant
                j <= 8,
                base == 8 * i,
                i < n,
                aligned@ == p,
                n * 8 == p.len(),
                chunk@.len() == 8,
                forall|t: int| 0 <= t < j ==> chunk@[t] == p[base + t],
            decreases 8 - j,
        {
            chunk[j] = aligned[base + j];
            j = j + 1;
        }
        proof {
            assert(chunk@ =~= p.subrange(8 * i, 8 * i + 8));
        }
        let w = word_from_be_bytes(&chunk);
        out.push(w);
        i = i + 1;
    }
    out
}

} // verus!
