//! Byte strings: big-endian numbers, comparison and cutting.
use vstd::prelude::*;

verus! {

/// The number that a big-endian byte string writes.
pub open spec fn be_nat(bytes: Seq<u8>) -> nat
    decreases bytes.len(),
{
    if bytes.len() == 0 {
        0
    } else {
        be_nat(bytes.drop_last()) * 256 + bytes.last() as nat
    }
}

/// The lowest `len` bytes of `n`, in big-endian order.
pub open spec fn be_bytes(n: nat, len: nat) -> Seq<u8>
    decreases len,
{
    if len == 0 {
        Seq::empty()
    } else {
        be_bytes(n / 256, (len - 1) as nat).push((n % 256) as u8)
    }
}

/// 256 to the power `n`.
pub open spec fn pow256(n: nat) -> nat
    decreases n,
{
    if n == 0 {
        1
    } else {
        256 * pow256((n - 1) as nat)
    }
}

/// A big-endian byte string of length `n` writes a number below `pow256(n)`.
proof fn lemma_be_nat_bound(bytes: Seq<u8>)
    ensures
        be_nat(bytes) < pow256(bytes.len()),
    decreases bytes.len(),
{
    if bytes.len() > 0 {
        lemma_be_nat_bound(bytes.drop_last());
    }
}

/// Writing a number and reading it back gives the number, as long as it fits.
pub proof fn lemma_be_round_trip(n: nat, len: nat)
    requires
        n < pow256(len),
    ensures
        be_bytes(n, len).len() == len,
        be_nat(be_bytes(n, len)) == n,
    decreases len,
{
    if len > 0 {
        lemma_be_round_trip(n / 256, (len - 1) as nat);
        assert(be_bytes(n, len).drop_last() =~= be_bytes(n / 256, (len - 1) as nat));
        assert(be_bytes(n, len).last() == (n % 256) as u8);
    }
}

/// Writing gives exactly `len` bytes.
pub proof fn lemma_be_bytes_len(n: nat, len: nat)
    ensures
        be_bytes(n, len).len() == len,
    decreases len,
{
    if len > 0 {
        lemma_be_bytes_len(n / 256, (len - 1) as nat);
    }
}

/// The number that two big-endian byte strings write together.
proof fn lemma_be_nat_split(head: Seq<u8>, tail: Seq<u8>)
    ensures
        be_nat(head + tail) == be_nat(head) * pow256(tail.len()) + be_nat(tail),
    decreases tail.len(),
{
    if tail.len() == 0 {
        assert(head + tail =~= head);
        assert(pow256(tail.len()) == 1);
        assert(be_nat(head) * pow256(tail.len()) == be_nat(head)) by (nonlinear_arith)
            requires
                pow256(tail.len()) == 1,
        ;
    } else {
        lemma_be_nat_split(head, tail.drop_last());
        assert((head + tail).drop_last() =~= head + tail.drop_last());
        assert((head + tail).last() == tail.last());
        let h = be_nat(head) as int;
        let p = pow256((tail.len() - 1) as nat) as int;
        let t = be_nat(tail.drop_last()) as int;
        assert((h * p + t) * 256 == h * (256 * p) + t * 256) by (nonlinear_arith);
        assert(pow256(tail.len()) == 256 * p);
        assert(be_nat(head + tail) == (h * p + t) * 256 + tail.last());
        assert(be_nat(tail) == t * 256 + tail.last());
    }
}

/// Only zero bytes write zero.
proof fn lemma_be_nat_zero(bytes: Seq<u8>)
    ensures
        (be_nat(bytes) == 0) <==> (forall|i: int| 0 <= i < bytes.len() ==> bytes[i] == 0),
    decreases bytes.len(),
{
    if bytes.len() > 0 {
        let front = bytes.drop_last();
        lemma_be_nat_zero(front);
        if forall|i: int| 0 <= i < bytes.len() ==> bytes[i] == 0 {
            assert forall|i: int| 0 <= i < front.len() implies front[i] == 0 by {
                assert(front[i] == bytes[i]);
            }
        }
        if be_nat(bytes) == 0 {
            assert(be_nat(front) == 0);
            assert forall|i: int| 0 <= i < bytes.len() implies bytes[i] == 0 by {
                if i < front.len() {
                    assert(front[i] == bytes[i]);
                }
            }
        }
    }
}

/// Whether two byte strings are the same.
pub fn same_bytes(a: &[u8], b: &[u8]) -> (same: bool)
    ensures
        same == (a@ == b@),
{
    if a.len() != b.len() {
        return false;
    }
    let mut i: usize = 0;
    while i < a.len()
        invariant
            i <= a@.len(),
            a@.len() == b@.len(),
            forall|j: int| 0 <= j < i ==> a@[j] == b@[j],
        decreases a@.len() - i,
    {
        if a[i] != b[i] {
            return false;
        }
        i += 1;
    }
    assert(a@ =~= b@);
    true
}

/// Whether two hashes are the same.
pub fn same_hash(a: &[u8; 32], b: &[u8; 32]) -> (same: bool)
    ensures
        same == (a@ == b@),
        same == (*a == *b),
{
    let same = same_bytes(a.as_slice(), b.as_slice());
    assert(a@ == b@ ==> *a =~= *b);
    same
}

/// The bytes of `bytes` from `start` up to, but not including, `end`.
pub fn cut(bytes: &[u8], start: usize, end: usize) -> (part: Vec<u8>)
    requires
        start <= end <= bytes@.len(),
    ensures
        part@ == bytes@.subrange(start as int, end as int),
{
    let mut part: Vec<u8> = Vec::new();
    let mut i: usize = start;
    while i < end
        invariant
            start <= i <= end <= bytes@.len(),
            part@ == bytes@.subrange(start as int, i as int),
        decreases end - i,
    {
        part.push(bytes[i]);
        i += 1;
        assert(part@ =~= bytes@.subrange(start as int, i as int));
    }
    part
}

/// The 32 bytes of `bytes` that start at `start`.
pub fn word_at(bytes: &[u8], start: usize) -> (word: [u8; 32])
    requires
        start + 32 <= bytes@.len(),
    ensures
        word@ == bytes@.subrange(start as int, start + 32),
{
    let mut word: [u8; 32] = [0; 32];
    let mut i: usize = 0;
    while i < 32
        invariant
            i <= 32,
            start + 32 <= bytes.len(),
            word@.len() == 32,
            forall|j: int| 0 <= j < i ==> #[trigger] word@[j] == bytes@[start + j],
        decreases 32 - i,
    {
        word[i] = bytes[start + i];
        i += 1;
    }
    assert(word@ =~= bytes@.subrange(start as int, start + 32));
    word
}

/// The number that up to eight big-endian bytes write.
pub fn read_be(bytes: &[u8]) -> (n: u64)
    requires
        bytes@.len() <= 8,
    ensures
        n == be_nat(bytes@),
{
    let mut n: u64 = 0;
    let mut i: usize = 0;
    proof {
        assert(bytes@.take(0) =~= Seq::empty());
    }
    while i < bytes.len()
        invariant
            i <= bytes@.len() <= 8,
            n == be_nat(bytes@.take(i as int)),
        decreases bytes@.len() - i,
    {
        proof {
            let next = bytes@.take(i + 1);
            assert(next.drop_last() =~= bytes@.take(i as int));
            assert(next.last() == bytes@[i as int]);
            lemma_be_nat_bound(bytes@.take(i as int));
            reveal_with_fuel(pow256, 9);
        }
        n = n * 256 + bytes[i] as u64;
        i += 1;
    }
    assert(bytes@.take(bytes@.len() as int) =~= bytes@);
    n
}

/// A 32-byte big-endian number, brought down to the largest `u64` where it does not fit.
pub fn word_to_u64_saturating(word: &[u8; 32]) -> (n: u64)
    ensures
        be_nat(word@) <= u64::MAX ==> n == be_nat(word@),
        be_nat(word@) > u64::MAX ==> n == u64::MAX,
{
    let ghost head = word@.subrange(0, 24);
    let ghost tail = word@.subrange(24, 32);
    proof {
        assert(word@ =~= head + tail);
        lemma_be_nat_split(head, tail);
        lemma_be_nat_bound(tail);
        lemma_be_nat_zero(head);
        reveal_with_fuel(pow256, 9);
    }
    let mut i: usize = 0;
    while i < 24
        invariant
            i <= 24,
            word@.len() == 32,
            head == word@.subrange(0, 24),
            tail == word@.subrange(24, 32),
            tail.len() == 8,
            be_nat(word@) == be_nat(head) * pow256(tail.len()) + be_nat(tail),
            pow256(8) == 0x1_0000_0000_0000_0000,
            (be_nat(head) == 0) <==> (forall|j: int| 0 <= j < head.len() ==> head[j] == 0),
            forall|j: int| 0 <= j < i ==> word@[j] == 0,
        decreases 24 - i,
    {
        if word[i] != 0 {
            proof {
                assert(head[i as int] != 0);
                assert(be_nat(head) * 0x1_0000_0000_0000_0000 >= 0x1_0000_0000_0000_0000)
                    by (nonlinear_arith)
                    requires
                        be_nat(head) >= 1,
                ;
            }
            return u64::MAX;
        }
        i += 1;
    }
    let low: Vec<u8> = cut(word.as_slice(), 24, 32);
    read_be(low.as_slice())
}

/// Appends `n` to `out` as eight big-endian bytes.
pub fn push_be_u64(out: &mut Vec<u8>, n: u64)
    ensures
        final(out)@ == old(out)@ + be_bytes(n as nat, 8),
{
    let d: u64 = 256;
    let n1: u64 = n / d;
    let n2: u64 = n1 / d;
    let n3: u64 = n2 / d;
    let n4: u64 = n3 / d;
    let n5: u64 = n4 / d;
    let n6: u64 = n5 / d;
    let n7: u64 = n6 / d;
    out.push((n7 % d) as u8);
    out.push((n6 % d) as u8);
    out.push((n5 % d) as u8);
    out.push((n4 % d) as u8);
    out.push((n3 % d) as u8);
    out.push((n2 % d) as u8);
    out.push((n1 % d) as u8);
    out.push((n % d) as u8);
    proof {
        reveal_with_fuel(be_bytes, 9);
        assert(out@ =~= old(out)@ + be_bytes(n as nat, 8));
    }
}

/// Byte strings and hashes are the same exactly if they are of the same length and each of their
/// bytes is the same.
pub proof fn law_same_bytes_are_the_same_one_by_one(
    a: &[u8],
    b: &[u8],
    same: bool,
    x: [u8; 32],
    y: [u8; 32],
    same_words: bool,
)
    requires
        call_ensures(same_bytes, (a, b), same),
        call_ensures(same_hash, (&x, &y), same_words),
    ensures
        same <==> a@.len() == b@.len() && forall|i: int|
            0 <= i < a@.len() ==> #[trigger] a@[i] == b@[i],
        same_words <==> forall|i: int| 0 <= i < 32 ==> #[trigger] x@[i] == y@[i],
{
    if a@.len() == b@.len() && forall|i: int| 0 <= i < a@.len() ==> #[trigger] a@[i] == b@[i] {
        assert(a@ =~= b@);
    }
    assert(x@.len() == 32 && y@.len() == 32);
    if forall|i: int| 0 <= i < 32 ==> #[trigger] x@[i] == y@[i] {
        assert(x@ =~= y@);
    }
}

/// What is cut out of a byte string is as long as asked for, and each of its bytes is the one at
/// its place.
pub proof fn law_a_cut_keeps_every_byte_in_its_place(
    bytes: &[u8],
    start: usize,
    end: usize,
    part: Vec<u8>,
    word: [u8; 32],
    i: int,
)
    requires
        start <= end <= bytes@.len(),
        start + 32 <= bytes@.len(),
        call_ensures(cut, (bytes, start, end), part),
        call_ensures(word_at, (bytes, start), word),
    ensures
        part@.len() == end - start,
        0 <= i < end - start ==> part@[i] == bytes@[start + i],
        0 <= i < 32 ==> word@[i] == bytes@[start + i],
{
}

/// No bytes write zero, and one more byte behind others writes 256 times what they write, and the
/// byte.
pub proof fn law_big_endian_numbers_grow_byte_by_byte(
    none: &[u8],
    zero: u64,
    front: &[u8],
    high: u64,
    bytes: &[u8],
    n: u64,
    last: u8,
)
    requires
        none@.len() == 0,
        bytes@ == front@.push(last),
        bytes@.len() <= 8,
        call_ensures(read_be, (none,), zero),
        call_ensures(read_be, (front,), high),
        call_ensures(read_be, (bytes,), n),
    ensures
        zero == 0,
        n == high * 256 + last,
{
    assert(bytes@.drop_last() =~= front@);
}

/// A number is appended as eight bytes, the highest first, and what was there before stays.
pub proof fn law_an_appended_number_is_written_highest_byte_first(out: &mut Vec<u8>, n: u64, i: int)
    requires
        call_ensures(push_be_u64, (out, n), ()),
    ensures
        final(out)@.len() == old(out)@.len() + 8,
        0 <= i < old(out)@.len() ==> final(out)@[i] == old(out)@[i],
        ({
            let written = final(out)@.skip(old(out)@.len() as int);
            n == written[0] * 0x100_0000_0000_0000 + written[1] * 0x1_0000_0000_0000 + written[2]
                * 0x100_0000_0000 + written[3] * 0x1_0000_0000 + written[4] * 0x100_0000 + written[5]
                * 0x1_0000 + written[6] * 0x100 + written[7]
        }),
{
    reveal_with_fuel(be_bytes, 9);
    let written = final(out)@.skip(old(out)@.len() as int);
    assert(written =~= be_bytes(n as nat, 8));
}

/// A word whose high bytes are all zero is the number that its last eight bytes write, the highest
/// first; any other is brought down to the largest number.
pub proof fn law_a_large_word_is_brought_down(word: [u8; 32], n: u64)
    requires
        call_ensures(word_to_u64_saturating, (&word,), n),
    ensures
        (forall|i: int| 0 <= i < 24 ==> #[trigger] word@[i] == 0) ==> n == word@[24]
            * 0x100_0000_0000_0000 + word@[25] * 0x1_0000_0000_0000 + word@[26] * 0x100_0000_0000
            + word@[27] * 0x1_0000_0000 + word@[28] * 0x100_0000 + word@[29] * 0x1_0000 + word@[30]
            * 0x100 + word@[31],
        (exists|i: int| 0 <= i < 24 && #[trigger] word@[i] != 0) ==> n == u64::MAX,
{
    let head = word@.subrange(0, 24);
    let tail = word@.subrange(24, 32);
    assert(word@ =~= head + tail);
    lemma_be_nat_split(head, tail);
    lemma_be_nat_bound(tail);
    lemma_be_nat_zero(head);
    reveal_with_fuel(pow256, 9);
    lemma_eight_bytes(tail);
    if forall|i: int| 0 <= i < 24 ==> #[trigger] word@[i] == 0 {
        assert forall|i: int| 0 <= i < head.len() implies head[i] == 0 by {
            assert(word@[i] == 0);
        }
        assert(be_nat(head) == 0);
    } else {
        let i = choose|i: int| 0 <= i < 24 && #[trigger] word@[i] != 0;
        assert(head[i] != 0);
        assert(be_nat(head) * 0x1_0000_0000_0000_0000 >= 0x1_0000_0000_0000_0000)
            by (nonlinear_arith)
            requires
                be_nat(head) >= 1,
        ;
    }
}

/// The number that eight big-endian bytes write.
proof fn lemma_eight_bytes(bytes: Seq<u8>)
    requires
        bytes.len() == 8,
    ensures
        be_nat(bytes) == bytes[0] * 0x100_0000_0000_0000 + bytes[1] * 0x1_0000_0000_0000 + bytes[2]
            * 0x100_0000_0000 + bytes[3] * 0x1_0000_0000 + bytes[4] * 0x100_0000 + bytes[5] * 0x1_0000
            + bytes[6] * 0x100 + bytes[7],
{
    reveal_with_fuel(be_nat, 9);
}

} // verus!
