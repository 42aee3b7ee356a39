//! The base-and-bitmap scheme of sequence-number and fragment-number
//! sets: bit `i` stands for `base + i`, and lives in word `i / 32`, most
//! significant bit first.
use vstd::prelude::*;

verus! {

/// The largest number of bits a set's bitmap may hold.
pub const MAX_BITS: u32 = 256;

/// Whether bit `i` of `bitmap` is set.
pub open spec fn bit_set(bitmap: Seq<u32>, i: int) -> bool {
    (bitmap[i / 32] >> ((31 - i % 32) as u32)) & 1u32 == 1u32
}

/// Number of words that hold `num_bits` bits.
pub open spec fn words_for(num_bits: int) -> int {
    (num_bits + 31) / 32
}

/// A bitmap of `num_bits` bits, the highest of them set: the shape the
/// wire format asks for.
pub open spec fn bitmap_wf(bitmap: Seq<u32>, num_bits: int) -> bool {
    &&& 0 <= num_bits <= MAX_BITS
    &&& bitmap.len() == words_for(num_bits)
    &&& num_bits > 0 ==> bit_set(bitmap, num_bits - 1)
}

/// Whether `o` is one of `offsets`.
pub open spec fn has_offset(offsets: Seq<u32>, o: int) -> bool {
    exists|k: int| 0 <= k < offsets.len() && offsets[k] == o
}

proof fn lemma_set_bit(w: u32, a: u32, b: u32)
    requires
        a < 32,
        b < 32,
    ensures
        ((w | (1u32 << a)) >> b) & 1u32 == 1u32 <==> (a == b || (w >> b) & 1u32 == 1u32),
{
    assert(((w | (1u32 << a)) >> b) & 1u32 == 1u32 <==> (a == b || (w >> b) & 1u32 == 1u32))
        by (bit_vector)
        requires
            a < 32,
            b < 32,
    ;
}

proof fn lemma_zero_word(b: u32)
    requires
        b < 32,
    ensures
        (0u32 >> b) & 1u32 == 0u32,
{
    assert((0u32 >> b) & 1u32 == 0u32) by (bit_vector);
}

/// The bitmap whose set bits are exactly `offsets`, and its bit count:
/// one more than the largest offset, or 0 for none.
pub fn encode_offsets(offsets: &[u32]) -> (r: (u32, Vec<u32>))
    requires
        forall|k: int| 0 <= k < offsets@.len() ==> offsets@[k] < MAX_BITS,
    ensures
        bitmap_wf(r.1@, r.0 as int),
        forall|i: int| 0 <= i < r.0 ==> (bit_set(r.1@, i) <==> has_offset(offsets@, i)),
        forall|k: int| 0 <= k < offsets@.len() ==> offsets@[k] < r.0,
        offsets@.len() == 0 <==> r.0 == 0,
{
    let mut num_bits: u32 = 0;
    let mut k: usize = 0;
    while k < offsets.len()
        invariant
            0 <= k <= offsets@.len(),
            forall|j: int| 0 <= j < offsets@.len() ==> offsets@[j] < MAX_BITS,
            forall|j: int| 0 <= j < k ==> offsets@[j] < num_bits,
            num_bits <= MAX_BITS,
            k == 0 <==> num_bits == 0,
            num_bits > 0 ==> has_offset(offsets@, num_bits - 1),
        decreases offsets@.len() - k,
    {
        if offsets[k] + 1 > num_bits {
            num_bits = offsets[k] + 1;
        }
        k += 1;
    }
    let n_words: usize = ((num_bits + 31) / 32) as usize;
    let mut bitmap: Vec<u32> = Vec::new();
    while bitmap.len() < n_words
        invariant
            n_words == words_for(num_bits as int),
            bitmap@.len() <= n_words,
            forall|w: int| 0 <= w < bitmap@.len() ==> bitmap@[w] == 0u32,
        decreases n_words - bitmap@.len(),
    {
        bitmap.push(0);
    }
    proof {
        assert forall|i: int| 0 <= i < num_bits implies !bit_set(bitmap@, i) by {
            lemma_zero_word((31 - i % 32) as u32);
            assert(i / 32 < bitmap@.len());
        }
        assert(offsets@.take(0) =~= Seq::<u32>::empty());
    }
    k = 0;
    while k < offsets.len()
        invariant
            0 <= k <= offsets@.len(),
            forall|j: int| 0 <= j < offsets@.len() ==> offsets@[j] < num_bits,
            num_bits <= MAX_BITS,
            bitmap@.len() == words_for(num_bits as int),
            forall|i: int| 0 <= i < num_bits ==> (bit_set(bitmap@, i) <==> has_offset(offsets@.take(k as int), i)),
        decreases offsets@.len() - k,
    {
        let o = offsets[k];
        let w = (o / 32) as usize;
        let a: u32 = 31 - o % 32;
        let old_bitmap = Ghost(bitmap@);
        let word = bitmap[w] | (1u32 << a);
        bitmap.set(w, word);
        proof {
            assert forall|i: int| 0 <= i < num_bits implies (bit_set(bitmap@, i) <==> has_offset(
                offsets@.take(k + 1),
                i,
            )) by {
                let b = (31 - i % 32) as u32;
                assert(i / 32 < bitmap@.len());
                assert(i == 32 * (i / 32) + i % 32);
                assert(o == 32 * (o / 32) + o % 32);
                if i / 32 == w {
                    lemma_set_bit(old_bitmap@[w as int], a, b);
                    assert(a == b <==> i == o);
                    assert(bit_set(bitmap@, i) <==> (bit_set(old_bitmap@, i) || i == o));
                } else {
                    assert(i != o);
                    assert(bitmap@[i / 32] == old_bitmap@[i / 32]);
                    assert(bit_set(bitmap@, i) <==> bit_set(old_bitmap@, i));
                }
                if has_offset(offsets@.take(k as int), i) {
                    let j = choose|j: int| 0 <= j < k && #[trigger] offsets@.take(k as int)[j] == i;
                    assert(offsets@.take(k + 1)[j] == i);
                }
                if has_offset(offsets@.take(k + 1), i) {
                    let j = choose|j: int| 0 <= j < k + 1 && #[trigger] offsets@.take(k + 1)[j] == i;
                    if j < k {
                        assert(offsets@.take(k as int)[j] == i);
                    } else {
                        assert(i == o);
                    }
                }
                if i == o {
                    assert(offsets@.take(k + 1)[k as int] == i);
                }
                assert(has_offset(offsets@.take(k + 1), i) <==> (has_offset(offsets@.take(k as int), i) || i == o));
            }
        }
        k += 1;
    }
    proof {
        assert(offsets@.take(offsets@.len() as int) =~= offsets@);
    }
    (num_bits, bitmap)
}

/// The positions of the set bits among the first `num_bits`, ascending.
pub fn decode_offsets(bitmap: &Vec<u32>, num_bits: u32) -> (r: Vec<u32>)
    requires
        bitmap_wf(bitmap@, num_bits as int),
    ensures
        forall|k: int| 0 <= k < r@.len() ==> r@[k] < num_bits && bit_set(bitmap@, r@[k] as int),
        forall|i: int| 0 <= i < num_bits && bit_set(bitmap@, i) ==> has_offset(r@, i),
        forall|a: int, b: int| 0 <= a < b < r@.len() ==> r@[a] < r@[b],
{
    let mut r: Vec<u32> = Vec::new();
    let mut i: u32 = 0;
    while i < num_bits
        invariant
            bitmap_wf(bitmap@, num_bits as int),
            0 <= i <= num_bits,
            forall|k: int| 0 <= k < r@.len() ==> r@[k] < i && bit_set(bitmap@, r@[k] as int),
            forall|j: int| 0 <= j < i && bit_set(bitmap@, j) ==> has_offset(r@, j),
            forall|a: int, b: int| 0 <= a < b < r@.len() ==> r@[a] < r@[b],
        decreases num_bits - i,
    {
        let w = (i / 32) as usize;
        proof {
            assert(i / 32 < bitmap@.len());
        }
        let bit = (bitmap[w] >> (31 - i % 32)) & 1u32;
        if bit == 1u32 {
            let ghost before = r@;
            r.push(i);
            proof {
                assert forall|j: int| 0 <= j < i && bit_set(bitmap@, j) implies has_offset(r@, j) by {
                    let k = choose|k: int| 0 <= k < before.len() && #[trigger] before[k] == j;
                    assert(r@[k] == j);
                }
                assert(r@[before.len() as int] == i);
            }
        }
        i += 1;
    }
    r
}

} // verus!
