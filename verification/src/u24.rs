//! A 24-bit unsigned integer with wraparound arithmetic.
//!
//! Addresses, the program counter, the stack pointer and register triples
//! are all values of [`U24`]. A value is its number, a `nat` below `2^24`;
//! every operation is stated over that number.

use std::cmp::Ordering;
use crate::text::{chars_of, hex_string, hex_text, number_u32, parse_number};
use std::ops::{Add, AddAssign, BitAnd, BitOr, BitXor, Not, Shl, Shr, Sub, SubAssign};
use std::str::FromStr;
use vstd::prelude::*;
use vstd::std_specs::cmp::{PartialEqSpecImpl, PartialOrdSpecImpl};
use vstd::std_specs::convert::FromSpecImpl;
use vstd::std_specs::ops::{
    AddSpec, AddSpecImpl, BitAndSpecImpl, BitOrSpecImpl, BitXorSpecImpl, NotSpecImpl, ShlSpecImpl,
    ShrSpecImpl, SubSpec, SubSpecImpl,
};

verus! {

/// A 24-bit unsigned integer. Every value is kept below `2^24`; arithmetic
/// wraps silently instead of overflowing.
#[derive(Debug, Clone, Copy, PartialEq, Eq, Structural, Ord)]
pub struct U24(u32);

impl View for U24 {
    type V = nat;

    /// The number this value stands for.
    closed spec fn view(&self) -> nat {
        self.0 as nat
    }
}

/// Masking with `0xFFFFFF` is the remainder modulo `2^24`.
pub proof fn lemma_mask24(v: u32)
    ensures
        v & 0x00FF_FFFF == v % 0x0100_0000,
{
    assert(v & 0x00FF_FFFF == v % 0x0100_0000) by (bit_vector);
}

/// The three bytes of a 24-bit number, joined by shifts and `|`, give the
/// number that they spell in base 256.
pub proof fn lemma_join_bytes(high: u8, mid: u8, low: u8)
    ensures
        ((high as u32) << 16) | ((mid as u32) << 8) | (low as u32) == high * 0x1_0000 + mid
            * 0x100 + low,
{
    assert(((high as u32) << 16) | ((mid as u32) << 8) | (low as u32) == (high as u32) * 0x1_0000
        + (mid as u32) * 0x100 + (low as u32)) by (bit_vector);
}

/// Shifting and masking a number below `2^24` takes out its base-256 digits.
pub proof fn lemma_split_bytes(v: u32)
    requires
        v < 0x0100_0000,
    ensures
        (v & 0xFF) == v % 0x100,
        ((v >> 8) & 0xFF) == (v / 0x100) % 0x100,
        ((v >> 16) & 0xFF) == v / 0x1_0000,
        (v >> 16) == v / 0x1_0000,
        (v >> 16) < 0x100,
        (v & 0xFFFF) == v % 0x1_0000,
{
    assert((v & 0xFF) == v % 0x100) by (bit_vector);
    assert(((v >> 8) & 0xFF) == (v / 0x100) % 0x100) by (bit_vector);
    assert(v < 0x0100_0000 ==> ((v >> 16) & 0xFF) == v / 0x1_0000 && (v >> 16) == v / 0x1_0000
        && (v >> 16) < 0x100) by (bit_vector);
    assert((v & 0xFFFF) == v % 0x1_0000) by (bit_vector);
}

/// Bitwise operations on numbers below `2^24` stay below `2^24`, and the
/// complement within 24 bits is the distance to `0xFFFFFF`.
pub proof fn lemma_bits24(a: u32, b: u32)
    requires
        a < 0x0100_0000,
    ensures
        (a & b) < 0x0100_0000,
        b < 0x0100_0000 ==> (a | b) < 0x0100_0000,
        b < 0x0100_0000 ==> (a ^ b) < 0x0100_0000,
        (!a) & 0x00FF_FFFF == 0x00FF_FFFF - a,
{
    assert(a < 0x0100_0000 ==> (a & b) < 0x0100_0000) by (bit_vector);
    assert(a < 0x0100_0000 && b < 0x0100_0000 ==> (a | b) < 0x0100_0000 && (a ^ b) < 0x0100_0000)
        by (bit_vector);
    assert(a < 0x0100_0000 ==> (!a) & 0x00FF_FFFF == 0x00FF_FFFF - a) by (bit_vector);
}

impl U24 {
    const MASK: u32 = 0x00FF_FFFF;

    /// What holds of every value that executable code holds: its number is
    /// below `2^24`.
    #[verifier::type_invariant]
    pub open spec fn in_range(self) -> bool {
        self@ < 0x0100_0000
    }

    /// The 24-bit value that the integer `v` wraps to: the one whose number
    /// is `v` modulo `2^24`.
    pub closed spec fn wrap(v: int) -> U24 {
        U24((v % 0x0100_0000) as u32)
    }

    /// The number of `wrap(v)` is `v` modulo `2^24`, so it never exceeds 24
    /// bits.
    pub proof fn lemma_wrap(v: int)
        ensures
            U24::wrap(v)@ == v % 0x0100_0000,
            U24::wrap(v)@ < 0x0100_0000,
    {
    }

    /// Arithmetic never exceeds 24 bits: the number of a sum is the sum of
    /// the numbers modulo `2^24`, the number of a difference the difference
    /// modulo `2^24`, whether the other side is a value or a plain number.
    pub proof fn lemma_arithmetic_wraps(a: U24, b: U24, n: u32)
        ensures
            <U24 as AddSpec<U24>>::add_spec(a, b)@ == (a@ + b@) % 0x0100_0000,
            <U24 as SubSpec<U24>>::sub_spec(a, b)@ == (a@ - b@) % 0x0100_0000,
            <U24 as AddSpec<u32>>::add_spec(a, n)@ == (a@ + n) % 0x0100_0000,
            <U24 as SubSpec<u32>>::sub_spec(a, n)@ == (a@ - n) % 0x0100_0000,
            <U24 as AddSpec<U24>>::add_spec(a, b)@ < 0x0100_0000,
            <U24 as SubSpec<U24>>::sub_spec(a, b)@ < 0x0100_0000,
            <U24 as AddSpec<u32>>::add_spec(a, n)@ < 0x0100_0000,
            <U24 as SubSpec<u32>>::sub_spec(a, n)@ < 0x0100_0000,
    {
    }

    /// Two values with the same number are the same value.
    pub proof fn lemma_view_injective(a: U24, b: U24)
        requires
            a@ == b@,
        ensures
            a == b,
    {
    }

    /// Builds a value from the low 24 bits of `val`.
    pub fn new(val: u32) -> (r: U24)
        ensures
            r@ == val % 0x0100_0000,
            r == U24::wrap(val as int),
    {
        proof {
            lemma_mask24(val);
        }
        U24(val & Self::MASK)
    }

    /// The number as a `u32`, always below `2^24`.
    pub fn value(&self) -> (v: u32)
        ensures
            v == self@,
            v < 0x0100_0000,
    {
        proof {
            use_type_invariant(self);
        }
        self.0
    }

    /// Builds a value from its three bytes, most significant first.
    pub fn from_bytes(high: u8, mid: u8, low: u8) -> (r: U24)
        ensures
            r@ == high * 0x1_0000 + mid * 0x100 + low,
    {
        proof {
            lemma_join_bytes(high, mid, low);
        }
        U24::new(((high as u32) << 16) | ((mid as u32) << 8) | (low as u32))
    }

    /// The three bytes of the value, most significant first.
    pub fn to_bytes(self) -> (r: (u8, u8, u8))
        ensures
            r.0 == self@ / 0x1_0000,
            r.1 == (self@ / 0x100) % 0x100,
            r.2 == self@ % 0x100,
    {
        proof {
            use_type_invariant(self);
            lemma_split_bytes(self.0);
        }
        ((self.0 >> 16) as u8, ((self.0 >> 8) & 0xFF) as u8, (self.0 & 0xFF) as u8)
    }

    /// The low 8 bits.
    pub fn as_u8(self) -> (r: u8)
        ensures
            r == self@ % 0x100,
    {
        proof {
            use_type_invariant(self);
            lemma_split_bytes(self.0);
        }
        (self.0 & 0xFF) as u8
    }

    /// The low 16 bits.
    pub fn as_u16(self) -> (r: u16)
        ensures
            r == self@ % 0x1_0000,
    {
        proof {
            use_type_invariant(self);
            lemma_split_bytes(self.0);
        }
        (self.0 & 0xFFFF) as u16
    }

    /// The full 24-bit number as a `u32`.
    pub fn as_u32(self) -> (r: u32)
        ensures
            r == self@,
            r < 0x0100_0000,
    {
        proof {
            use_type_invariant(self);
        }
        self.0
    }

    /// The three bytes of the value, least significant first.
    pub fn to_le_bytes(self) -> (r: [u8; 3])
        ensures
            r@ == le_bytes3(self@),
    {
        proof {
            use_type_invariant(self);
            lemma_split_bytes(self.0);
        }
        let r = [(self.0 & 0xFF) as u8, ((self.0 >> 8) & 0xFF) as u8, ((self.0 >> 16) & 0xFF) as u8];
        assert(r@ =~= le_bytes3(self@));
        r
    }

    /// Builds a value from its three bytes, least significant first.
    pub fn from_le_bytes(bytes: [u8; 3]) -> (r: U24)
        ensures
            r@ == from_le_bytes3(bytes@),
    {
        U24::from_bytes(bytes[2], bytes[1], bytes[0])
    }
}

/// The three base-256 digits of `v`, least significant first.
pub open spec fn le_bytes3(v: nat) -> Seq<u8> {
    seq![(v % 0x100) as u8, ((v / 0x100) % 0x100) as u8, ((v / 0x1_0000) % 0x100) as u8]
}

/// The number that the first three bytes of `b` spell, least significant
/// first.
pub open spec fn from_le_bytes3(b: Seq<u8>) -> nat {
    (b[0] + b[1] * 0x100 + b[2] * 0x1_0000) as nat
}

/// The two base-256 digits of `v`, least significant first.
pub open spec fn le_bytes2(v: nat) -> Seq<u8> {
    seq![(v % 0x100) as u8, ((v / 0x100) % 0x100) as u8]
}

/// Splitting a number below `2^24` into bytes and joining them again gives
/// the number back, and the other way round.
pub proof fn lemma_le_bytes3_round_trip(v: nat, b: Seq<u8>)
    ensures
        v < 0x0100_0000 ==> from_le_bytes3(le_bytes3(v)) == v,
        b.len() == 3 ==> le_bytes3(from_le_bytes3(b)) == b,
        from_le_bytes3(b) < 0x0100_0000,
{
    if b.len() == 3 {
        assert(le_bytes3(from_le_bytes3(b)) =~= b);
    }
}

impl Add for U24 {
    type Output = U24;

    /// Addition modulo `2^24`.
    fn add(self, rhs: U24) -> (r: U24)
        ensures
            r@ == (self@ + rhs@) % 0x0100_0000,
    {
        proof {
            use_type_invariant(self);
            use_type_invariant(rhs);
        }
        U24::new(self.0.wrapping_add(rhs.0))
    }
}

impl AddSpecImpl for U24 {
    open spec fn obeys_add_spec() -> bool {
        true
    }

    open spec fn add_req(self, rhs: U24) -> bool {
        true
    }

    open spec fn add_spec(self, rhs: U24) -> U24 {
        U24::wrap(self@ + rhs@ as int)
    }
}

impl Add<u32> for U24 {
    type Output = U24;

    /// Addition of a plain number modulo `2^24`.
    fn add(self, rhs: u32) -> (r: U24)
        ensures
            r@ == (self@ + rhs) % 0x0100_0000,
    {
        proof {
            use_type_invariant(self);
            lemma_mask24(rhs);
        }
        U24::new(self.0.wrapping_add(rhs & Self::MASK))
    }
}

impl AddSpecImpl<u32> for U24 {
    open spec fn obeys_add_spec() -> bool {
        true
    }

    open spec fn add_req(self, rhs: u32) -> bool {
        true
    }

    open spec fn add_spec(self, rhs: u32) -> U24 {
        U24::wrap(self@ + rhs as int)
    }
}

impl Sub for U24 {
    type Output = U24;

    /// Subtraction modulo `2^24`.
    fn sub(self, rhs: U24) -> (r: U24)
        ensures
            r@ == (self@ - rhs@) % 0x0100_0000,
    {
        proof {
            use_type_invariant(self);
            use_type_invariant(rhs);
        }
        U24::new(self.0.wrapping_sub(rhs.0))
    }
}

impl SubSpecImpl for U24 {
    open spec fn obeys_sub_spec() -> bool {
        true
    }

    open spec fn sub_req(self, rhs: U24) -> bool {
        true
    }

    open spec fn sub_spec(self, rhs: U24) -> U24 {
        U24::wrap(self@ - rhs@)
    }
}

impl Sub<u32> for U24 {
    type Output = U24;

    /// Subtraction of a plain number modulo `2^24`.
    fn sub(self, rhs: u32) -> (r: U24)
        ensures
            r@ == (self@ - rhs) % 0x0100_0000,
    {
        proof {
            use_type_invariant(self);
            lemma_mask24(rhs);
        }
        U24::new(self.0.wrapping_sub(rhs & Self::MASK))
    }
}

impl SubSpecImpl<u32> for U24 {
    open spec fn obeys_sub_spec() -> bool {
        true
    }

    open spec fn sub_req(self, rhs: u32) -> bool {
        true
    }

    open spec fn sub_spec(self, rhs: u32) -> U24 {
        U24::wrap(self@ - rhs)
    }
}

impl BitAnd for U24 {
    type Output = U24;

    /// Bitwise AND.
    fn bitand(self, rhs: U24) -> (r: U24)
        ensures
            r@ == (self@ as u32) & (rhs@ as u32),
    {
        proof {
            use_type_invariant(self);
            lemma_bits24(self.0, rhs.0);
        }
        U24::new(self.0 & rhs.0)
    }
}

impl BitAndSpecImpl for U24 {
    open spec fn obeys_bitand_spec() -> bool {
        true
    }

    open spec fn bitand_req(self, rhs: U24) -> bool {
        true
    }

    open spec fn bitand_spec(self, rhs: U24) -> U24 {
        U24::wrap(((self@ as u32) & (rhs@ as u32)) as int)
    }
}

impl BitAnd<u32> for U24 {
    type Output = U24;

    /// Bitwise AND with a plain number.
    fn bitand(self, rhs: u32) -> (r: U24)
        ensures
            r@ == (self@ as u32) & rhs,
    {
        proof {
            use_type_invariant(self);
            lemma_bits24(self.0, rhs);
        }
        U24::new(self.0 & rhs)
    }
}

impl BitAndSpecImpl<u32> for U24 {
    open spec fn obeys_bitand_spec() -> bool {
        true
    }

    open spec fn bitand_req(self, rhs: u32) -> bool {
        true
    }

    open spec fn bitand_spec(self, rhs: u32) -> U24 {
        U24::wrap(((self@ as u32) & rhs) as int)
    }
}

impl BitOr for U24 {
    type Output = U24;

    /// Bitwise OR.
    fn bitor(self, rhs: U24) -> (r: U24)
        ensures
            r@ == (self@ as u32) | (rhs@ as u32),
    {
        proof {
            use_type_invariant(self);
            use_type_invariant(rhs);
            lemma_bits24(self.0, rhs.0);
        }
        U24::new(self.0 | rhs.0)
    }
}

impl BitOrSpecImpl for U24 {
    open spec fn obeys_bitor_spec() -> bool {
        true
    }

    open spec fn bitor_req(self, rhs: U24) -> bool {
        true
    }

    open spec fn bitor_spec(self, rhs: U24) -> U24 {
        U24::wrap(((self@ as u32) | (rhs@ as u32)) as int)
    }
}

impl BitOr<u32> for U24 {
    type Output = U24;

    /// Bitwise OR with the low 24 bits of a plain number.
    fn bitor(self, rhs: u32) -> (r: U24)
        ensures
            r@ == ((self@ as u32) | rhs) % 0x0100_0000,
    {
        U24::new(self.0 | rhs)
    }
}

impl BitOrSpecImpl<u32> for U24 {
    open spec fn obeys_bitor_spec() -> bool {
        true
    }

    open spec fn bitor_req(self, rhs: u32) -> bool {
        true
    }

    open spec fn bitor_spec(self, rhs: u32) -> U24 {
        U24::wrap(((self@ as u32) | rhs) as int)
    }
}

impl BitXor for U24 {
    type Output = U24;

    /// Bitwise XOR.
    fn bitxor(self, rhs: U24) -> (r: U24)
        ensures
            r@ == (self@ as u32) ^ (rhs@ as u32),
    {
        proof {
            use_type_invariant(self);
            use_type_invariant(rhs);
            lemma_bits24(self.0, rhs.0);
        }
        U24::new(self.0 ^ rhs.0)
    }
}

impl BitXorSpecImpl for U24 {
    open spec fn obeys_bitxor_spec() -> bool {
        true
    }

    open spec fn bitxor_req(self, rhs: U24) -> bool {
        true
    }

    open spec fn bitxor_spec(self, rhs: U24) -> U24 {
        U24::wrap(((self@ as u32) ^ (rhs@ as u32)) as int)
    }
}

impl BitXor<u32> for U24 {
    type Output = U24;

    /// Bitwise XOR with the low 24 bits of a plain number.
    fn bitxor(self, rhs: u32) -> (r: U24)
        ensures
            r@ == ((self@ as u32) ^ rhs) % 0x0100_0000,
    {
        U24::new(self.0 ^ rhs)
    }
}

impl BitXorSpecImpl<u32> for U24 {
    open spec fn obeys_bitxor_spec() -> bool {
        true
    }

    open spec fn bitxor_req(self, rhs: u32) -> bool {
        true
    }

    open spec fn bitxor_spec(self, rhs: u32) -> U24 {
        U24::wrap(((self@ as u32) ^ rhs) as int)
    }
}

impl Not for U24 {
    type Output = U24;

    /// Bitwise complement within 24 bits.
    fn not(self) -> (r: U24)
        ensures
            r@ == 0x00FF_FFFF - self@,
    {
        proof {
            use_type_invariant(self);
            lemma_bits24(self.0, 0);
            lemma_mask24(!self.0);
        }
        U24::new(!self.0)
    }
}

impl NotSpecImpl for U24 {
    open spec fn obeys_not_spec() -> bool {
        true
    }

    open spec fn not_req(self) -> bool {
        true
    }

    open spec fn not_spec(self) -> U24 {
        U24::wrap(0x00FF_FFFF - self@)
    }
}

impl Shl<u32> for U24 {
    type Output = U24;

    /// Left shift; bits that leave the low 24 are lost. The shift distance
    /// must be below 32.
    fn shl(self, rhs: u32) -> (r: U24)
        ensures
            r@ == ((self@ as u32) << rhs) % 0x0100_0000,
    {
        U24::new(self.0 << rhs)
    }
}

impl ShlSpecImpl<u32> for U24 {
    open spec fn obeys_shl_spec() -> bool {
        true
    }

    open spec fn shl_req(self, rhs: u32) -> bool {
        rhs < 32
    }

    open spec fn shl_spec(self, rhs: u32) -> U24 {
        U24::wrap(((self@ as u32) << rhs) as int)
    }
}

impl Shr<u32> for U24 {
    type Output = U24;

    /// Right shift. The shift distance must be below 32.
    fn shr(self, rhs: u32) -> (r: U24)
        ensures
            r@ == (self@ as u32) >> rhs,
    {
        proof {
            use_type_invariant(self);
            let a = self.0;
            assert(a < 0x0100_0000 && rhs < 32 ==> (a >> rhs) < 0x0100_0000) by (bit_vector);
        }
        U24::new(self.0 >> rhs)
    }
}

impl ShrSpecImpl<u32> for U24 {
    open spec fn obeys_shr_spec() -> bool {
        true
    }

    open spec fn shr_req(self, rhs: u32) -> bool {
        rhs < 32
    }

    open spec fn shr_spec(self, rhs: u32) -> U24 {
        U24::wrap(((self@ as u32) >> rhs) as int)
    }
}

impl From<U24> for u8 {
    /// The low 8 bits.
    fn from(value: U24) -> (r: u8) {
        value.as_u8()
    }
}

impl FromSpecImpl<U24> for u8 {
    open spec fn obeys_from_spec() -> bool {
        true
    }

    open spec fn from_spec(value: U24) -> u8 {
        (value@ % 0x100) as u8
    }
}

impl From<U24> for u16 {
    /// The low 16 bits.
    fn from(value: U24) -> (r: u16) {
        value.as_u16()
    }
}

impl FromSpecImpl<U24> for u16 {
    open spec fn obeys_from_spec() -> bool {
        true
    }

    open spec fn from_spec(value: U24) -> u16 {
        (value@ % 0x1_0000) as u16
    }
}

impl From<U24> for u32 {
    /// The full 24-bit number.
    fn from(value: U24) -> (r: u32) {
        value.as_u32()
    }
}

impl FromSpecImpl<U24> for u32 {
    open spec fn obeys_from_spec() -> bool {
        true
    }

    open spec fn from_spec(value: U24) -> u32 {
        value@ as u32
    }
}

impl PartialOrd for U24 {
    /// Values are ordered as their numbers are.
    fn partial_cmp(&self, other: &Self) -> (r: Option<Ordering>) {
        if self.0 < other.0 {
            Some(Ordering::Less)
        } else if self.0 == other.0 {
            Some(Ordering::Equal)
        } else {
            Some(Ordering::Greater)
        }
    }
}

impl PartialOrdSpecImpl for U24 {
    open spec fn obeys_partial_cmp_spec() -> bool {
        true
    }

    open spec fn partial_cmp_spec(&self, other: &Self) -> Option<Ordering> {
        if self@ < other@ {
            Some(Ordering::Less)
        } else if self@ == other@ {
            Some(Ordering::Equal)
        } else {
            Some(Ordering::Greater)
        }
    }
}

/// Why a text is not the literal of a 24-bit value: it is no number
/// literal, or its value does not fit 32 bits.
#[derive(Debug, Clone, Copy, PartialEq, Eq, Structural)]
pub struct ParseU24Error;

impl U24 {
    /// The value that a number literal spells: `0x` and hexadecimal digits,
    /// or decimal digits, which a `+` may precede. The literal must fit 32
    /// bits; its low 24 bits are the value.
    pub fn from_str(s: &str) -> (r: Result<U24, ParseU24Error>)
        ensures
            match number_u32(s@) {
                Some(v) => r matches Ok(u) && u@ == v % 0x0100_0000,
                None => r is Err,
            },
    {
        let chars = chars_of(s);
        match parse_number(chars.as_slice()) {
            Some(v) => Ok(U24::new(v)),
            None => Err(ParseU24Error),
        }
    }

    /// The value as six hexadecimal digits in lower case.
    pub fn to_string(&self) -> (s: String)
        ensures
            s@ == hex_text(self@, false),
    {
        hex_string(self.value(), false)
    }

    /// The value as six hexadecimal digits in upper case.
    pub fn to_upper_hex(&self) -> (s: String)
        ensures
            s@ == hex_text(self@, true),
    {
        hex_string(self.value(), true)
    }
}

impl FromStr for U24 {
    type Err = ParseU24Error;

    /// The value that a number literal spells.
    fn from_str(s: &str) -> (r: Result<Self, Self::Err>)
        ensures
            match number_u32(s@) {
                Some(v) => r matches Ok(u) && u@ == v % 0x0100_0000,
                None => r is Err,
            },
    {
        U24::from_str(s)
    }
}

impl AddAssign for U24 {
    /// Adds `rhs` to the value in place, modulo `2^24`.
    fn add_assign(&mut self, rhs: U24)
        ensures
            final(self)@ == (old(self)@ + rhs@) % 0x0100_0000,
    {
        *self = *self + rhs;
    }
}

impl AddAssign<u32> for U24 {
    /// Adds a plain number to the value in place, modulo `2^24`.
    fn add_assign(&mut self, rhs: u32)
        ensures
            final(self)@ == (old(self)@ + rhs) % 0x0100_0000,
    {
        *self = *self + rhs;
    }
}

impl SubAssign for U24 {
    /// Subtracts `rhs` from the value in place, modulo `2^24`.
    fn sub_assign(&mut self, rhs: U24)
        ensures
            final(self)@ == (old(self)@ - rhs@) % 0x0100_0000,
    {
        *self = *self - rhs;
    }
}

impl SubAssign<u32> for U24 {
    /// Subtracts a plain number from the value in place, modulo `2^24`.
    fn sub_assign(&mut self, rhs: u32)
        ensures
            final(self)@ == (old(self)@ - rhs) % 0x0100_0000,
    {
        *self = *self - rhs;
    }
}

impl PartialEq<u32> for U24 {
    /// Whether the number of the value is `rhs`.
    fn eq(&self, rhs: &u32) -> (r: bool) {
        self.value() == *rhs
    }
}

impl PartialEqSpecImpl<u32> for U24 {
    open spec fn obeys_eq_spec() -> bool {
        true
    }

    open spec fn eq_spec(&self, rhs: &u32) -> bool {
        self@ == *rhs
    }
}

} // verus!
