use vstd::prelude::*;

use crate::ir_type::IntoIRType;

verus! {

/// A Rust value that crosses the wasm boundary as a machine integer.
///
/// `Abi` is the wasm-side representation; `convert_to_abi` lowers a value to
/// it and `create_from_abi` lifts it back.  Every implementation proves that
/// lifting undoes lowering.
pub trait AbiPrimitive: Sized {
    type Abi: IntoIRType;

    /// The ABI value that `self` is lowered to.
    spec fn spec_to_abi(self) -> Self::Abi;

    /// The value that the ABI value `a` is lifted to.
    spec fn spec_from_abi(a: Self::Abi) -> Self;

    /// Whether the ABI value `a` is the lowering of some value of `Self`.
    spec fn represents(a: Self::Abi) -> bool;

    fn convert_to_abi(self) -> (r: Self::Abi)
        ensures
            r == self.spec_to_abi(),
    ;

    fn create_from_abi(ret: Self::Abi) -> (r: Self)
        ensures
            r == Self::spec_from_abi(ret),
    ;

    /// Lifting the lowering of a value gives the value back.
    proof fn lemma_abi_roundtrip(v: Self)
        ensures
            Self::spec_from_abi(v.spec_to_abi()) == v,
            Self::represents(v.spec_to_abi()),
    ;

    /// Lowering the lifting of an ABI value that some value lowers to gives
    /// that ABI value back.
    proof fn lemma_abi_inverse(a: Self::Abi)
        requires
            Self::represents(a),
        ensures
            Self::spec_from_abi(a).spec_to_abi() == a,
    ;
}

impl AbiPrimitive for i8 {
    type Abi = i32;

    open spec fn spec_to_abi(self) -> i32 {
        self as i32
    }

    open spec fn spec_from_abi(a: i32) -> i8 {
        a as i8
    }

    open spec fn represents(a: i32) -> bool {
        i8::MIN <= a <= i8::MAX
    }

    fn convert_to_abi(self) -> (r: i32) {
        self as i32
    }

    fn create_from_abi(p: i32) -> (r: i8) {
        p as i8
    }

    proof fn lemma_abi_roundtrip(v: i8) {
    }

    proof fn lemma_abi_inverse(a: i32) {
    }
}

impl AbiPrimitive for i16 {
    type Abi = i32;

    open spec fn spec_to_abi(self) -> i32 {
        self as i32
    }

    open spec fn spec_from_abi(a: i32) -> i16 {
        a as i16
    }

    open spec fn represents(a: i32) -> bool {
        i16::MIN <= a <= i16::MAX
    }

    fn convert_to_abi(self) -> (r: i32) {
        self as i32
    }

    fn create_from_abi(p: i32) -> (r: i16) {
        p as i16
    }

    proof fn lemma_abi_roundtrip(v: i16) {
    }

    proof fn lemma_abi_inverse(a: i32) {
    }
}

impl AbiPrimitive for i32 {
    type Abi = i32;

    open spec fn spec_to_abi(self) -> i32 {
        self as i32
    }

    open spec fn spec_from_abi(a: i32) -> i32 {
        a as i32
    }

    open spec fn represents(a: i32) -> bool {
        true
    }

    fn convert_to_abi(self) -> (r: i32) {
        self as i32
    }

    fn create_from_abi(p: i32) -> (r: i32) {
        p as i32
    }

    proof fn lemma_abi_roundtrip(v: i32) {}

    proof fn lemma_abi_inverse(a: i32) {}
}

impl AbiPrimitive for u8 {
    type Abi = i32;

    open spec fn spec_to_abi(self) -> i32 {
        self as i32
    }

    open spec fn spec_from_abi(a: i32) -> u8 {
        a as u8
    }

    open spec fn represents(a: i32) -> bool {
        u8::MIN <= a <= u8::MAX
    }

    fn convert_to_abi(self) -> (r: i32) {
        self as i32
    }

    fn create_from_abi(p: i32) -> (r: u8) {
        p as u8
    }

    proof fn lemma_abi_roundtrip(v: u8) {
    }

    proof fn lemma_abi_inverse(a: i32) {
    }
}

impl AbiPrimitive for u16 {
    type Abi = i32;

    open spec fn spec_to_abi(self) -> i32 {
        self as i32
    }

    open spec fn spec_from_abi(a: i32) -> u16 {
        a as u16
    }

    open spec fn represents(a: i32) -> bool {
        u16::MIN <= a <= u16::MAX
    }

    fn convert_to_abi(self) -> (r: i32) {
        self as i32
    }

    fn create_from_abi(p: i32) -> (r: u16) {
        p as u16
    }

    proof fn lemma_abi_roundtrip(v: u16) {
    }

    proof fn lemma_abi_inverse(a: i32) {
    }
}

impl AbiPrimitive for u32 {
    type Abi = i32;

    open spec fn spec_to_abi(self) -> i32 {
        self as i32
    }

    open spec fn spec_from_abi(a: i32) -> u32 {
        a as u32
    }

    open spec fn represents(a: i32) -> bool {
        true
    }

    fn convert_to_abi(self) -> (r: i32) {
        self as i32
    }

    fn create_from_abi(p: i32) -> (r: u32) {
        p as u32
    }

    proof fn lemma_abi_roundtrip(v: u32) {
        assert((v as i32) as u32 == v) by (bit_vector);
    }

    proof fn lemma_abi_inverse(a: i32) {
        assert((a as u32) as i32 == a) by (bit_vector);
    }
}

impl AbiPrimitive for i64 {
    type Abi = i64;

    open spec fn spec_to_abi(self) -> i64 {
        self as i64
    }

    open spec fn spec_from_abi(a: i64) -> i64 {
        a as i64
    }

    open spec fn represents(a: i64) -> bool {
        true
    }

    fn convert_to_abi(self) -> (r: i64) {
        self as i64
    }

    fn create_from_abi(p: i64) -> (r: i64) {
        p as i64
    }

    proof fn lemma_abi_roundtrip(v: i64) {}

    proof fn lemma_abi_inverse(a: i64) {}
}

impl AbiPrimitive for u64 {
    type Abi = i64;

    open spec fn spec_to_abi(self) -> i64 {
        self as i64
    }

    open spec fn spec_from_abi(a: i64) -> u64 {
        a as u64
    }

    open spec fn represents(a: i64) -> bool {
        true
    }

    fn convert_to_abi(self) -> (r: i64) {
        self as i64
    }

    fn create_from_abi(p: i64) -> (r: u64) {
        p as u64
    }

    proof fn lemma_abi_roundtrip(v: u64) {
        assert((v as i64) as u64 == v) by (bit_vector);
    }

    proof fn lemma_abi_inverse(a: i64) {
        assert((a as u64) as i64 == a) by (bit_vector);
    }
}


/// Lowering a value of a narrower type to `i32` keeps its value, and lifting
/// an `i32` that such a value lowers to gives that value back; `i32` itself
/// crosses unchanged.
pub proof fn law_abi_i32_values(a: i32, v8: i8, v16: i16, v32: i32, u_8: u8, u_16: u16)
    ensures
        v8.spec_to_abi() as int == v8 as int,
        v16.spec_to_abi() as int == v16 as int,
        v32.spec_to_abi() == v32,
        u_8.spec_to_abi() as int == u_8 as int,
        u_16.spec_to_abi() as int == u_16 as int,
        <i32 as AbiPrimitive>::spec_from_abi(a) == a,
        i8::MIN <= a <= i8::MAX ==> <i8 as AbiPrimitive>::spec_from_abi(a) as int == a as int,
        i16::MIN <= a <= i16::MAX ==> <i16 as AbiPrimitive>::spec_from_abi(a) as int == a as int,
        0 <= a <= u8::MAX ==> <u8 as AbiPrimitive>::spec_from_abi(a) as int == a as int,
        0 <= a <= u16::MAX ==> <u16 as AbiPrimitive>::spec_from_abi(a) as int == a as int,
{
}

/// Lifting to an unsigned type of the ABI width keeps the low bits: an
/// `i32` lifts to `u8` and `u16` as its low 8 and 16 bits.
pub proof fn law_abi_low_bits(a: i32)
    ensures
        <u8 as AbiPrimitive>::spec_from_abi(a) as i32 == a & 0xff,
        <u16 as AbiPrimitive>::spec_from_abi(a) as i32 == a & 0xffff,
{
    assert((a as u8) as i32 == a & 0xff) by (bit_vector);
    assert((a as u16) as i32 == a & 0xffff) by (bit_vector);
}

/// Unsigned values of the ABI width cross as the signed integer with the same
/// bits: values up to the signed maximum keep their value, larger ones lose
/// 2^32 (or 2^64); `i64` crosses unchanged.
pub proof fn law_abi_same_width_values(u_32: u32, a: i32, v64: i64, u_64: u64, b: i64)
    ensures
        u_32.spec_to_abi() as int == if u_32 <= i32::MAX as u32 {
            u_32 as int
        } else {
            u_32 as int - 0x1_0000_0000
        },
        <u32 as AbiPrimitive>::spec_from_abi(a) as int == if a >= 0 {
            a as int
        } else {
            a as int + 0x1_0000_0000
        },
        v64.spec_to_abi() == v64,
        <i64 as AbiPrimitive>::spec_from_abi(b) == b,
        u_64.spec_to_abi() as int == if u_64 <= i64::MAX as u64 {
            u_64 as int
        } else {
            u_64 as int - 0x1_0000_0000_0000_0000
        },
        <u64 as AbiPrimitive>::spec_from_abi(b) as int == if b >= 0 {
            b as int
        } else {
            b as int + 0x1_0000_0000_0000_0000
        },
{
    assert(u_32 <= 0x7fff_ffff ==> (u_32 as i32) as int == u_32 as int) by (bit_vector);
    assert(u_32 > 0x7fff_ffff ==> (u_32 as i32) as int == u_32 as int - 0x1_0000_0000) by (bit_vector);
    assert(a >= 0 ==> (a as u32) as int == a as int) by (bit_vector);
    assert(a < 0 ==> (a as u32) as int == a as int + 0x1_0000_0000) by (bit_vector);
    assert(u_64 <= 0x7fff_ffff_ffff_ffff ==> (u_64 as i64) as int == u_64 as int) by (bit_vector);
    assert(u_64 > 0x7fff_ffff_ffff_ffff ==> (u_64 as i64) as int == u_64 as int - 0x1_0000_0000_0000_0000) by (bit_vector);
    assert(b >= 0 ==> (b as u64) as int == b as int) by (bit_vector);
    assert(b < 0 ==> (b as u64) as int == b as int + 0x1_0000_0000_0000_0000) by (bit_vector);
}

} // verus!
