use vstd::prelude::*;

use crate::abi::AbiPrimitive;

verus! {

/// A result code that crosses the wasm boundary as an `i32`.
pub struct MyResult(u32);

impl MyResult {
    /// The code held.
    pub closed spec fn code(self) -> u32 {
        self.0
    }
}

impl AbiPrimitive for MyResult {
    type Abi = i32;

    closed spec fn spec_to_abi(self) -> i32 {
        self.0 as i32
    }

    closed spec fn spec_from_abi(a: i32) -> MyResult {
        MyResult(a as u32)
    }

    open spec fn represents(a: i32) -> bool {
        true
    }

    fn create_from_abi(i: i32) -> (r: MyResult) {
        MyResult(i as u32)
    }

    fn convert_to_abi(self) -> (r: i32) {
        self.0 as i32
    }

    proof fn lemma_abi_roundtrip(v: MyResult) {
        let c = v.0;
        assert((c as i32) as u32 == c) by (bit_vector);
    }

    proof fn lemma_abi_inverse(a: i32) {
        assert((a as u32) as i32 == a) by (bit_vector);
    }
}

impl MyResult {
    /// A code is lowered to the `i32` with the same bits, and an `i32` is
    /// lifted to the code with the same bits.
    pub proof fn lemma_abi_bits(r: MyResult, a: i32)
        ensures
            r.spec_to_abi() == r.code() as i32,
            MyResult::spec_from_abi(a).code() == a as u32,
    {
    }
}

impl MyResult {
    /// A code crosses as the `i32` with the same bits: codes up to `i32::MAX`
    /// keep their value, larger ones lose 2^32; lifting gives the code with
    /// the bits of the `i32`.
    pub proof fn law_abi_values(r: MyResult, a: i32)
        ensures
            r.spec_to_abi() as int == if r.code() <= i32::MAX as u32 {
                r.code() as int
            } else {
                r.code() as int - 0x1_0000_0000
            },
            MyResult::spec_from_abi(a).code() as int == if a >= 0 {
                a as int
            } else {
                a as int + 0x1_0000_0000
            },
    {
        let c = r.0;
        assert(c <= 0x7fff_ffff ==> (c as i32) as int == c as int) by (bit_vector);
        assert(c > 0x7fff_ffff ==> (c as i32) as int == c as int - 0x1_0000_0000) by (bit_vector);
        assert(a >= 0 ==> (a as u32) as int == a as int) by (bit_vector);
        assert(a < 0 ==> (a as u32) as int == a as int + 0x1_0000_0000) by (bit_vector);
    }
}

/// The host context handed to the exported functions of the example modules.
pub struct WasiCtx;

/// The exported `test2` of the example module `test2_mod`: it returns the
/// null pointer, given here by its address.
pub fn test2() -> (addr: usize)
    ensures
        addr == 0,
{
    0
}

} // verus!
