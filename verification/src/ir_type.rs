use vstd::prelude::*;

use cranelift_codegen::ir::Type;

verus! {

#[verifier::external_type_specification]
#[verifier::external_body]
pub struct ExIrType(cranelift_codegen::ir::Type);

/// What cranelift's `Type::int(bits)` returns: the integer type of `bits`
/// bits, if cranelift has one.
pub uninterp spec fn int_type(bits: u16) -> Option<Type>;

/// `Type::int` of cranelift is a function of the width alone: it gives the
/// integer type of the requested width for the widths 8, 16, 32, 64 and 128,
/// and `None` for every other width; the five types are distinct.
pub assume_specification[ cranelift_codegen::ir::Type::int ](bits: u16) -> (r: Option<Type>)
    ensures
        r == int_type(bits),
        r is Some <==> (bits == 8 || bits == 16 || bits == 32 || bits == 64 || bits == 128),
        r is Some ==> forall|b: u16|
            #![trigger int_type(b)]
            b != bits && int_type(b) is Some ==> int_type(b) != r,
;

/// An ABI representation that has a cranelift IR type.
pub trait IntoIRType {
    /// The IR type of the representation.
    spec fn spec_ir_type() -> Type;

    fn into_ir_type() -> (r: Type)
        ensures
            r == Self::spec_ir_type(),
    ;
}

/// The ABI representation `i32` has the 32-bit integer type.
impl IntoIRType for i32 {
    open spec fn spec_ir_type() -> Type {
        int_type(32)->0
    }

    fn into_ir_type() -> (r: Type) {
        Type::int(32).unwrap()
    }
}

/// The ABI representation `i64` has the 64-bit integer type.
impl IntoIRType for i64 {
    open spec fn spec_ir_type() -> Type {
        int_type(64)->0
    }

    fn into_ir_type() -> (r: Type) {
        Type::int(64).unwrap()
    }
}

/// The cranelift IR type of the ABI representation `T`.
pub fn get_ir_type<T: IntoIRType>() -> (r: Type)
    ensures
        r == T::spec_ir_type(),
{
    T::into_ir_type()
}

} // verus!
