use crate::components::error::Error;
use vstd::arithmetic::div_mod::{lemma_mod_multiples_vanish, lemma_small_mod};
use vstd::prelude::*;
use vstd::utf8::{decode_utf8, valid_utf8};

verus! {

/// 256 to the `n`th power: how many values `n` bytes can hold.
pub open spec fn pow256(n: nat) -> nat
    decreases n,
{
    if n == 0 {
        1
    } else {
        256 * pow256((n - 1) as nat)
    }
}

/// The powers of 256 for every register-sized width.
pub proof fn lemma_pow256_values()
    ensures
        pow256(1) == 0x100,
        pow256(2) == 0x1_0000,
        pow256(4) == 0x1_0000_0000,
        pow256(8) == 0x1_0000_0000_0000_0000,
{
    reveal_with_fuel(pow256, 9);
}

/// Powers of 256 never shrink as the width grows.
pub proof fn lemma_pow256_monotonic(a: nat, b: nat)
    requires
        a <= b,
    ensures
        pow256(a) <= pow256(b),
    decreases b - a,
{
    if a < b {
        lemma_pow256_monotonic(a, (b - 1) as nat);
        assert(pow256(b) == 256 * pow256((b - 1) as nat));
        assert(pow256((b - 1) as nat) >= 1) by {
            lemma_pow256_positive((b - 1) as nat);
        }
    }
}

/// Powers of 256 are positive.
pub proof fn lemma_pow256_positive(n: nat)
    ensures
        pow256(n) >= 1,
    decreases n,
{
    if n > 0 {
        lemma_pow256_positive((n - 1) as nat);
    }
}

/// The big-endian value of a byte sequence.
pub open spec fn be_value(s: Seq<u8>) -> nat
    decreases s.len(),
{
    if s.len() == 0 {
        0
    } else {
        (be_value(s.drop_last()) * 256 + s.last()) as nat
    }
}

/// An integer type that can be read from a big-endian byte slice: it is
/// `spec_size` bytes wide, each value has a bit pattern below
/// `pow256(spec_size)` that determines it, and it can absorb one more
/// low-order byte at a time.
pub trait HexInt: Sized + Copy {
    /// Width of the type in bytes.
    spec fn spec_size() -> nat;

    /// The value's bit pattern — its two's-complement representation — as
    /// a natural number.
    spec fn spec_bits(self) -> nat;

    /// Every type is at least one byte wide.
    proof fn lemma_size_positive()
        ensures
            Self::spec_size() >= 1,
    ;

    /// Width of the type in bytes.
    fn size() -> (n: usize)
        ensures
            n == Self::spec_size(),
    ;

    /// The value a single byte denotes.
    fn from_byte(b: u8) -> (v: Self)
        ensures
            v.spec_bits() == b,
    ;

    /// Shifts the value one byte left — dropping what leaves the type's
    /// width — and ors the next byte into the low end.
    fn shl8_or(self, b: u8) -> (v: Self)
        ensures
            v.spec_bits() == (self.spec_bits() * 256 + b) % (pow256(Self::spec_size()) as int),
    ;
}

/// Reads `bytes` — exactly as many as the target type is wide — as one
/// big-endian integer: the result's bit pattern is the bytes' big-endian
/// value.
pub fn to_int<T: HexInt>(bytes: &[u8]) -> (value: T)
    requires
        bytes@.len() == T::spec_size(),
    ensures
        value.spec_bits() == be_value(bytes@),
{
    proof {
        T::lemma_size_positive();
    }
    let size = T::size();

    let mut value = T::from_byte(bytes[0]);
    proof {
        let s1 = bytes@.take(1);
        assert(s1.len() == 1);
        assert(s1.drop_last() =~= Seq::<u8>::empty());
        assert(be_value(Seq::<u8>::empty()) == 0);
        assert(s1.last() == bytes@[0]);
        assert(be_value(s1) == bytes@[0]);
        lemma_pow256_values();
        assert(pow256(1) == 0x100);
    }

    let mut i: usize = 1;
    while i < size
        invariant
            1 <= i <= T::spec_size(),
            size == T::spec_size(),
            bytes@.len() == T::spec_size(),
            value.spec_bits() == be_value(bytes@.take(i as int)),
            be_value(bytes@.take(i as int)) < pow256(i as nat),
        decreases size - i,
    {
        let ghost bits = value.spec_bits();
        value = value.shl8_or(bytes[i]);
        proof {
            assert(bytes@.take(i + 1).drop_last() =~= bytes@.take(i as int));
            assert(bytes@.take(i + 1).last() == bytes@[i as int]);
            assert(pow256((i + 1) as nat) == 256 * pow256(i as nat));
            lemma_pow256_monotonic((i + 1) as nat, T::spec_size());
            lemma_small_mod((bits * 256 + bytes@[i as int]) as nat, pow256(T::spec_size()));
        }
        i = i + 1;
    }
    proof {
        assert(bytes@.take(T::spec_size() as int) =~= bytes@);
    }
    value
}

impl HexInt for u8 {
    open spec fn spec_size() -> nat {
        1
    }

    open spec fn spec_bits(self) -> nat {
        self as nat
    }

    proof fn lemma_size_positive() {
    }

    fn size() -> (n: usize) {
        1
    }

    fn from_byte(b: u8) -> (v: Self) {
        b
    }

    fn shl8_or(self, b: u8) -> (v: Self) {
        proof {
            lemma_pow256_values();
            lemma_mod_multiples_vanish(self as int, b as int, 0x100);
            lemma_small_mod(b as nat, 0x100);
        }
        b
    }
}

impl HexInt for u16 {
    open spec fn spec_size() -> nat {
        2
    }

    open spec fn spec_bits(self) -> nat {
        self as nat
    }

    proof fn lemma_size_positive() {
    }

    fn size() -> (n: usize) {
        2
    }

    fn from_byte(b: u8) -> (v: Self) {
        b as u16
    }

    fn shl8_or(self, b: u8) -> (v: Self) {
        proof {
            lemma_pow256_values();
        }
        (((self as u32) * 0x100 + (b as u32)) % 0x1_0000) as u16
    }
}

impl HexInt for u32 {
    open spec fn spec_size() -> nat {
        4
    }

    open spec fn spec_bits(self) -> nat {
        self as nat
    }

    proof fn lemma_size_positive() {
    }

    fn size() -> (n: usize) {
        4
    }

    fn from_byte(b: u8) -> (v: Self) {
        b as u32
    }

    fn shl8_or(self, b: u8) -> (v: Self) {
        proof {
            lemma_pow256_values();
        }
        (((self as u64) * 0x100 + (b as u64)) % 0x1_0000_0000) as u32
    }
}

impl HexInt for u64 {
    open spec fn spec_size() -> nat {
        8
    }

    open spec fn spec_bits(self) -> nat {
        self as nat
    }

    proof fn lemma_size_positive() {
    }

    fn size() -> (n: usize) {
        8
    }

    fn from_byte(b: u8) -> (v: Self) {
        b as u64
    }

    fn shl8_or(self, b: u8) -> (v: Self) {
        proof {
            lemma_pow256_values();
        }
        (((self as u128) * 0x100 + (b as u128)) % 0x1_0000_0000_0000_0000) as u64
    }
}

impl HexInt for i16 {
    open spec fn spec_size() -> nat {
        2
    }

    open spec fn spec_bits(self) -> nat {
        (self as u16) as nat
    }

    proof fn lemma_size_positive() {
    }

    fn size() -> (n: usize) {
        2
    }

    fn from_byte(b: u8) -> (v: Self) {
        proof {
            assert((b as i16) as u16 == b as u16) by (bit_vector);
        }
        b as i16
    }

    fn shl8_or(self, b: u8) -> (v: Self) {
        proof {
            lemma_pow256_values();
        }
        let u: u16 = self as u16;
        let r: u16 = (((u as u32) * 0x100 + (b as u32)) % 0x1_0000) as u16;
        proof {
            assert((r as i16) as u16 == r) by (bit_vector);
        }
        r as i16
    }
}

impl HexInt for i32 {
    open spec fn spec_size() -> nat {
        4
    }

    open spec fn spec_bits(self) -> nat {
        (self as u32) as nat
    }

    proof fn lemma_size_positive() {
    }

    fn size() -> (n: usize) {
        4
    }

    fn from_byte(b: u8) -> (v: Self) {
        proof {
            assert((b as i32) as u32 == b as u32) by (bit_vector);
        }
        b as i32
    }

    fn shl8_or(self, b: u8) -> (v: Self) {
        proof {
            lemma_pow256_values();
        }
        let u: u32 = self as u32;
        let r: u32 = (((u as u64) * 0x100 + (b as u64)) % 0x1_0000_0000) as u32;
        proof {
            assert((r as i32) as u32 == r) by (bit_vector);
        }
        r as i32
    }
}

impl HexInt for i64 {
    open spec fn spec_size() -> nat {
        8
    }

    open spec fn spec_bits(self) -> nat {
        (self as u64) as nat
    }

    proof fn lemma_size_positive() {
    }

    fn size() -> (n: usize) {
        8
    }

    fn from_byte(b: u8) -> (v: Self) {
        proof {
            assert((b as i64) as u64 == b as u64) by (bit_vector);
        }
        b as i64
    }

    fn shl8_or(self, b: u8) -> (v: Self) {
        proof {
            lemma_pow256_values();
        }
        let u: u64 = self as u64;
        let r: u64 = (((u as u128) * 0x100 + (b as u128)) % 0x1_0000_0000_0000_0000) as u64;
        proof {
            assert((r as i64) as u64 == r) by (bit_vector);
        }
        r as i64
    }
}

/// Relies on `core::str::from_utf8`: it returns the string viewing `bytes`
/// exactly when they are valid UTF-8 — the characters being those that
/// `decode_utf8` gives — and reports an error otherwise.
#[verifier::external_body]
fn utf8_from_bytes(bytes: &[u8]) -> (r: Option<&str>)
    ensures
        r is Some <==> valid_utf8(bytes@),
        r matches Some(s) ==> s@ == decode_utf8(bytes@),
{
    core::str::from_utf8(bytes).ok()
}

/// Reads `bytes` as UTF-8 text: succeeds with the decoded string exactly
/// when the bytes are valid UTF-8, and rejects anything else with
/// `Error::ByteToString`.
pub fn to_str(bytes: &[u8]) -> (r: Result<&str, Error>)
    ensures
        r is Ok <==> valid_utf8(bytes@),
        r matches Ok(s) ==> s@ == decode_utf8(bytes@),
        r matches Err(e) ==> e == Error::ByteToString,
{
    match utf8_from_bytes(bytes) {
        Some(s) => Ok(s),
        None => Err(Error::ByteToString),
    }
}

} // verus!
