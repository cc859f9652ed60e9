//! Bit strings as they cross the service access points, most significant bit
//! first.

use vstd::prelude::*;

verus! {

/// A bit string. Its view is the sequence of its bits.
#[derive(Debug)]
pub struct BitBuffer {
    pub bits: Vec<bool>,
}

impl View for BitBuffer {
    type V = Seq<bool>;

    open spec fn view(&self) -> Seq<bool> {
        self.bits@
    }
}

/// The number that a bit string denotes, most significant bit first.
pub open spec fn bits_value(s: Seq<bool>) -> nat
    decreases s.len(),
{
    if s.len() == 0 {
        0
    } else {
        2 * bits_value(s.drop_last()) + (if s.last() {
            1nat
        } else {
            0nat
        })
    }
}

/// `n` bits that are all zero.
pub open spec fn zeros(n: int) -> Seq<bool> {
    Seq::new(n as nat, |i: int| false)
}

/// Fill bits: a one directly after the content, then zeros (cl. 23.4.2.2).
pub open spec fn fill_bits(n: int) -> Seq<bool> {
    Seq::new(n as nat, |i: int| i == 0)
}

/// The bits of `bytes`, most significant bit of each byte first.
pub open spec fn bytes_bits(bytes: Seq<u8>) -> Seq<bool> {
    Seq::new(8 * bytes.len(), |i: int| (bytes[i / 8] >> ((7 - i % 8) as u8)) & 1 == 1)
}

/// The first `n` bits of `s`, or all of it where it is shorter.
pub open spec fn first_bits(s: Seq<bool>, n: int) -> Seq<bool> {
    if s.len() <= n {
        s
    } else {
        s.take(n)
    }
}

pub proof fn lemma_bits_value_bound(s: Seq<bool>)
    ensures
        bits_value(s) < vstd::arithmetic::power2::pow2(s.len()),
    decreases s.len(),
{
    if s.len() == 0 {
        vstd::arithmetic::power2::lemma2_to64();
    } else {
        lemma_bits_value_bound(s.drop_last());
        vstd::arithmetic::power2::lemma_pow2_unfold(s.len());
    }
}

impl BitBuffer {
    /// An empty bit string.
    pub fn new() -> (r: BitBuffer)
        ensures
            r@ == Seq::<bool>::empty(),
    {
        BitBuffer { bits: Vec::new() }
    }

    /// The bit string with the given bits.
    pub fn from_bits(bits: Vec<bool>) -> (r: BitBuffer)
        ensures
            r@ == bits@,
    {
        BitBuffer { bits }
    }

    /// Number of bits.
    pub fn len(&self) -> (r: usize)
        ensures
            r == self@.len(),
    {
        self.bits.len()
    }

    /// A copy of the bit string.
    pub fn duplicate(&self) -> (r: BitBuffer)
        ensures
            r@ == self@,
    {
        self.slice(0, self.bits.len())
    }

    /// The bits from `start` up to, and without, `end`.
    pub fn slice(&self, start: usize, end: usize) -> (r: BitBuffer)
        requires
            start <= end <= self@.len(),
        ensures
            r@ == self@.subrange(start as int, end as int),
    {
        let mut bits: Vec<bool> = Vec::new();
        let mut i: usize = start;
        while i < end
            invariant
                start <= i <= end <= self@.len(),
                bits@ == self@.subrange(start as int, i as int),
            decreases end - i,
        {
            bits.push(self.bits[i]);
            i = i + 1;
        }
        BitBuffer { bits }
    }

    /// Append the bits of `other`.
    pub fn append(&mut self, other: &BitBuffer)
        ensures
            final(self)@ == old(self)@ + other@,
    {
        let mut i: usize = 0;
        while i < other.bits.len()
            invariant
                i <= other@.len(),
                self@ == old(self)@ + other@.take(i as int),
            decreases other@.len() - i,
        {
            self.bits.push(other.bits[i]);
            i = i + 1;
        }
        assert(other@.take(i as int) == other@);
    }

    /// Append `n` zero bits.
    pub fn append_zeros(&mut self, n: usize)
        ensures
            final(self)@ == old(self)@ + zeros(n as int),
    {
        let mut i: usize = 0;
        while i < n
            invariant
                i <= n,
                self@ == old(self)@ + zeros(i as int),
            decreases n - i,
        {
            self.bits.push(false);
            i = i + 1;
        }
    }

    /// Append `n` fill bits: a one, then zeros.
    pub fn append_fill(&mut self, n: usize)
        ensures
            final(self)@ == old(self)@ + fill_bits(n as int),
    {
        let mut i: usize = 0;
        while i < n
            invariant
                i <= n,
                self@ == old(self)@ + fill_bits(i as int),
            decreases n - i,
        {
            self.bits.push(i == 0);
            i = i + 1;
        }
    }

    /// The number denoted by the `n` bits from `pos`, or `None` where fewer than
    /// `n` bits are left there.
    pub fn peek_bits(&self, pos: usize, n: usize) -> (r: Option<u8>)
        requires
            n <= 8,
            pos <= self@.len(),
        ensures
            r is Some <==> pos + n <= self@.len(),
            r matches Some(v) ==> v == bits_value(self@.subrange(pos as int, pos + n)),
    {
        if self.bits.len() - pos < n {
            return None;
        }
        let total: usize = self.bits.len();
        let mut v: u16 = 0;
        let mut i: usize = 0;
        while i < n
            invariant
                i <= n <= 8,
                pos + n <= total,
                total == self@.len(),
                pos + n <= self@.len(),
                v == bits_value(self@.subrange(pos as int, pos + i)),
                v < 256,
            decreases n - i,
        {
            let b: bool = self.bits[pos + i];
            proof {
                let t = self@.subrange(pos as int, pos + i + 1);
                assert(t.drop_last() == self@.subrange(pos as int, pos + i));
                lemma_bits_value_bound(t);
                vstd::arithmetic::power2::lemma2_to64();
                if t.len() < 8 {
                    vstd::arithmetic::power2::lemma_pow2_strictly_increases(t.len(), 8);
                }
            }
            v = 2 * v + (if b { 1u16 } else { 0u16 });
            i = i + 1;
        }
        Some(v as u8)
    }
}

/// The most significant bit comes first: a bit string denotes twice what it denotes without its last bit, plus that bit, and nothing denotes
/// zero.
pub proof fn law_bits_value(s: Seq<bool>, b: bool)
    ensures
        bits_value(Seq::empty()) == 0,
        bits_value(s.push(b)) == 2 * bits_value(s) + if b {
            1int
        } else {
            0int
        },
{
    assert(s.push(b).drop_last() == s);
}

/// Fill bits are a one and zeros behind it; padding is zeros alone; a byte gives
/// its eight bits from the most significant one down.
pub proof fn law_fill_and_bytes(n: int, i: int, bytes: Seq<u8>)
    requires
        n >= 0,
    ensures
        fill_bits(n).len() == n,
        zeros(n).len() == n,
        0 <= i < n ==> fill_bits(n)[i] == (i == 0) && !zeros(n)[i],
        bytes_bits(bytes).len() == 8 * bytes.len(),
        0 <= i < bytes.len() ==> {
            let b = bytes[i];
            bytes_bits(bytes).subrange(8 * i, 8 * i + 8) == seq![
                b & 0x80 != 0,
                b & 0x40 != 0,
                b & 0x20 != 0,
                b & 0x10 != 0,
                b & 0x08 != 0,
                b & 0x04 != 0,
                b & 0x02 != 0,
                b & 0x01 != 0,
            ]
        },
{
    if 0 <= i < bytes.len() {
        let b = bytes[i];
        assert((b >> 7u8) & 1 == 1 <==> b & 0x80 != 0) by (bit_vector);
        assert((b >> 6u8) & 1 == 1 <==> b & 0x40 != 0) by (bit_vector);
        assert((b >> 5u8) & 1 == 1 <==> b & 0x20 != 0) by (bit_vector);
        assert((b >> 4u8) & 1 == 1 <==> b & 0x10 != 0) by (bit_vector);
        assert((b >> 3u8) & 1 == 1 <==> b & 0x08 != 0) by (bit_vector);
        assert((b >> 2u8) & 1 == 1 <==> b & 0x04 != 0) by (bit_vector);
        assert((b >> 1u8) & 1 == 1 <==> b & 0x02 != 0) by (bit_vector);
        assert((b >> 0u8) & 1 == 1 <==> b & 0x01 != 0) by (bit_vector);
        let all = bytes_bits(bytes);
        assert((8 * i) / 8 == i && (8 * i) % 8 == 0);
        assert(all[8 * i] == ((b >> 7u8) & 1 == 1));
        assert((8 * i + 1) / 8 == i && (8 * i + 1) % 8 == 1);
        assert(all[8 * i + 1] == ((b >> 6u8) & 1 == 1));
        assert((8 * i + 2) / 8 == i && (8 * i + 2) % 8 == 2);
        assert(all[8 * i + 2] == ((b >> 5u8) & 1 == 1));
        assert((8 * i + 3) / 8 == i && (8 * i + 3) % 8 == 3);
        assert(all[8 * i + 3] == ((b >> 4u8) & 1 == 1));
        assert((8 * i + 4) / 8 == i && (8 * i + 4) % 8 == 4);
        assert(all[8 * i + 4] == ((b >> 3u8) & 1 == 1));
        assert((8 * i + 5) / 8 == i && (8 * i + 5) % 8 == 5);
        assert(all[8 * i + 5] == ((b >> 2u8) & 1 == 1));
        assert((8 * i + 6) / 8 == i && (8 * i + 6) % 8 == 6);
        assert(all[8 * i + 6] == ((b >> 1u8) & 1 == 1));
        assert((8 * i + 7) / 8 == i && (8 * i + 7) % 8 == 7);
        assert(all[8 * i + 7] == ((b >> 0u8) & 1 == 1));
    }
}

/// The first bits of a bit string are its prefix of that length, or all of it.
pub proof fn law_first_bits(s: Seq<bool>, n: int, i: int)
    requires
        n >= 0,
    ensures
        first_bits(s, n).len() == (if s.len() < n {
            s.len() as int
        } else {
            n
        }),
        0 <= i < first_bits(s, n).len() ==> first_bits(s, n)[i] == s[i],
{
}

} // verus!
