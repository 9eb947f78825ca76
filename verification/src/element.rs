//! Field elements: 256-bit unsigned values held as 32 big-endian bytes.

use vstd::prelude::*;

verus! {

/// A 256-bit unsigned value, stored most significant byte first.
#[derive(Clone, Copy, Debug, PartialEq, Eq)]
pub struct Element {
    pub bytes: [u8; 32],
}

impl View for Element {
    type V = Seq<u8>;

    /// The 32 bytes of the value, most significant first.
    open spec fn view(&self) -> Seq<u8> {
        self.bytes@
    }
}

/// The number that a big-endian byte string denotes.
pub open spec fn be_value(bytes: Seq<u8>) -> nat
    decreases bytes.len(),
{
    if bytes.len() == 0 {
        0
    } else {
        be_value(bytes.drop_last()) * 256 + bytes.last() as nat
    }
}

/// The 32 bytes of the value zero.
pub open spec fn zero_bytes() -> Seq<u8> {
    Seq::new(32, |i: int| 0u8)
}

/// The byte at position `i` (0 is most significant) of the 32-byte
/// big-endian form of a 64-bit number.
pub open spec fn u64_be_byte(v: u64, i: int) -> u8 {
    if 24 <= i < 32 {
        ((v as nat / pow256((31 - i) as nat)) % 256) as u8
    } else {
        0u8
    }
}

/// 256 raised to the power `k`.
pub open spec fn pow256(k: nat) -> nat
    decreases k,
{
    if k == 0 {
        1
    } else {
        256 * pow256((k - 1) as nat)
    }
}

/// The 32-byte big-endian form of a 64-bit number.
pub open spec fn u64_be_bytes(v: u64) -> Seq<u8> {
    Seq::new(32, |i: int| u64_be_byte(v, i))
}

impl Element {
    /// The value zero.
    pub fn zero() -> (e: Element)
        ensures
            e@ == zero_bytes(),
            be_value(e@) == 0,
    {
        proof {
            lemma_zero_bytes_value();
        }
        let e = Element { bytes: [0u8; 32] };
        assert(e@ =~= zero_bytes());
        e
    }

    /// Builds an element from its big-endian bytes.
    pub fn from_be_bytes(bytes: [u8; 32]) -> (e: Element)
        ensures
            e@ == bytes@,
    {
        Element { bytes }
    }

    /// The big-endian bytes of the element.
    pub fn to_be_bytes(&self) -> (bytes: [u8; 32])
        ensures
            bytes@ == self@,
    {
        self.bytes
    }

    /// Whether the element is the value zero.
    pub fn is_zero(&self) -> (zero: bool)
        ensures
            zero == (self@ == zero_bytes()),
    {
        let mut i: usize = 0;
        while i < 32
            invariant
                i <= 32,
                forall|j: int| 0 <= j < i ==> self.bytes@[j] == 0,
            decreases 32 - i,
        {
            if self.bytes[i] != 0 {
                assert(zero_bytes()[i as int] == 0);
                return false;
            }
            i = i + 1;
        }
        assert(self@ =~= zero_bytes());
        true
    }

    /// Whether two elements hold the same value.
    pub fn same(&self, other: &Element) -> (eq: bool)
        ensures
            eq == (self@ == other@),
    {
        let mut i: usize = 0;
        while i < 32
            invariant
                i <= 32,
                forall|j: int| 0 <= j < i ==> self.bytes@[j] == other.bytes@[j],
            decreases 32 - i,
        {
            if self.bytes[i] != other.bytes[i] {
                return false;
            }
            i = i + 1;
        }
        assert(self@ =~= other@);
        true
    }

    /// The element whose value is the 64-bit number `v`.
    pub fn from_u64(v: u64) -> (e: Element)
        ensures
            e@ == u64_be_bytes(v),
            be_value(e@) == v,
    {
        proof {
            lemma_u64_be_bytes_value(v);
        }
        let mut bytes: [u8; 32] = [0u8; 32];
        let mut rest: u64 = v;
        let mut k: usize = 0;
        assert(pow256(0) == 1);
        while k < 8
            invariant
                k <= 8,
                rest as nat == v as nat / pow256(k as nat),
                forall|j: int| 0 <= j < 32 - k ==> bytes@[j] == 0,
                forall|j: int| 32 - k <= j < 32 ==> bytes@[j] == u64_be_byte(v, j),
            decreases 8 - k,
        {
            let low: u8 = (rest % 256) as u8;
            proof {
                lemma_div_step(v as nat, k as nat);
            }
            bytes[31 - k] = low;
            rest = rest / 256;
            k = k + 1;
        }
        let e = Element { bytes };
        assert(e@ =~= u64_be_bytes(v));
        e
    }
}

/// The first `k` bytes of the big-endian form of `v` denote `v` without
/// its last `32 - k` bytes.
proof fn lemma_u64_be_prefix_value(v: u64, k: nat)
    requires
        k <= 32,
    ensures
        be_value(u64_be_bytes(v).take(k as int)) == v as nat / pow256((32 - k) as nat),
    decreases k,
{
    let bytes = u64_be_bytes(v);
    let rest = (32 - k) as nat;
    if k == 0 {
        lemma_pow256_exceeds_u64(rest);
        vstd::arithmetic::div_mod::lemma_basic_div(v as int, pow256(rest) as int);
    } else {
        let front = bytes.take(k as int);
        assert(front.drop_last() =~= bytes.take(k - 1));
        assert(front.last() == bytes[k - 1]);
        lemma_u64_be_prefix_value(v, (k - 1) as nat);
        lemma_div_step(v as nat, rest);
        let shifted = v as nat / pow256(rest);
        if k <= 24 {
            lemma_pow256_exceeds_u64(rest);
            vstd::arithmetic::div_mod::lemma_basic_div(v as int, pow256(rest) as int);
            lemma_pow256_exceeds_u64((rest + 1) as nat);
            vstd::arithmetic::div_mod::lemma_basic_div(v as int, pow256(rest + 1) as int);
        } else {
            assert(bytes[k - 1] as nat == shifted % 256);
            assert(shifted == (shifted / 256) * 256 + shifted % 256) by {
                vstd::arithmetic::div_mod::lemma_fundamental_div_mod(shifted as int, 256);
            }
            assert(pow256(rest + 1) == pow256((rest + 1) as nat));
        }
    }
}

/// From the eighth power on, the powers of 256 exceed every 64-bit number.
proof fn lemma_pow256_exceeds_u64(k: nat)
    requires
        k >= 8,
    ensures
        pow256(k) > u64::MAX,
    decreases k,
{
    if k == 8 {
        reveal_with_fuel(pow256, 9);
        assert(pow256(8) == 0x1_0000_0000_0000_0000);
    } else {
        lemma_pow256_exceeds_u64((k - 1) as nat);
        assert(256 * pow256((k - 1) as nat) > u64::MAX) by (nonlinear_arith)
            requires
                pow256((k - 1) as nat) > u64::MAX,
        ;
    }
}

/// The big-endian form of a 64-bit number denotes that number.
pub proof fn lemma_u64_be_bytes_value(v: u64)
    ensures
        be_value(u64_be_bytes(v)) == v,
{
    lemma_u64_be_prefix_value(v, 32);
    assert(u64_be_bytes(v).take(32) =~= u64_be_bytes(v));
    assert(pow256(0) == 1);
    assert(be_value(u64_be_bytes(v).take(32)) == v as nat / pow256(0));
    assert(v as nat / 1 == v as nat);
}

/// Thirty-two zero bytes denote the number zero.
pub proof fn lemma_zero_bytes_value()
    ensures
        be_value(zero_bytes()) == 0,
{
    assert(zero_bytes() =~= u64_be_bytes(0)) by {
        assert forall|i: int| 0 <= i < 32 implies u64_be_byte(0, i) == 0 by {
            if 24 <= i {
                lemma_pow256_positive((31 - i) as nat);
                vstd::arithmetic::div_mod::lemma_basic_div(0, pow256((31 - i) as nat) as int);
            }
        }
    }
    lemma_u64_be_bytes_value(0);
}

/// Dividing by the next power of 256 is dividing once more by 256.
proof fn lemma_div_step(v: nat, k: nat)
    ensures
        v / pow256(k + 1) == (v / pow256(k)) / 256,
        pow256(k) > 0,
{
    lemma_pow256_positive(k);
    assert(pow256(k + 1) == 256 * pow256(k));
    vstd::arithmetic::div_mod::lemma_div_denominator(v as int, pow256(k) as int, 256);
    assert(pow256(k) * 256 == 256 * pow256(k)) by (nonlinear_arith);
}

proof fn lemma_pow256_positive(k: nat)
    ensures
        pow256(k) > 0,
    decreases k,
{
    if k > 0 {
        lemma_pow256_positive((k - 1) as nat);
        assert(256 * pow256((k - 1) as nat) > 0) by (nonlinear_arith)
            requires
                pow256((k - 1) as nat) > 0,
        ;
    }
}

} // verus!
