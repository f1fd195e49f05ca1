use cranelift_codegen::ir::types;
use wasmtime_bindings::abi::AbiPrimitive;
use wasmtime_bindings::demo::{test2, MyResult};
use wasmtime_bindings::ir_type::{get_ir_type, IntoIRType};

#[test]
fn narrow_values_widen_to_i32() {
    assert_eq!((-1i8).convert_to_abi(), -1i32);
    assert_eq!(i16::MIN.convert_to_abi(), -32768i32);
    assert_eq!(200u8.convert_to_abi(), 200i32);
    assert_eq!(u16::MAX.convert_to_abi(), 65535i32);
    assert_eq!(i32::MIN.convert_to_abi(), i32::MIN);
}

#[test]
fn unsigned_values_keep_their_bits() {
    assert_eq!(u32::MAX.convert_to_abi(), -1i32);
    assert_eq!(0x8000_0000u32.convert_to_abi(), i32::MIN);
    assert_eq!(u64::MAX.convert_to_abi(), -1i64);
    assert_eq!(i64::MIN.convert_to_abi(), i64::MIN);
}

#[test]
fn lifting_truncates_to_the_target_width() {
    assert_eq!(u8::create_from_abi(300), 44u8);
    assert_eq!(u8::create_from_abi(-1), 255u8);
    assert_eq!(i8::create_from_abi(200), -56i8);
    assert_eq!(i16::create_from_abi(0x1_8000), i16::MIN);
    assert_eq!(u16::create_from_abi(-2), 65534u16);
    assert_eq!(u32::create_from_abi(-1), u32::MAX);
    assert_eq!(u64::create_from_abi(-1), u64::MAX);
    assert_eq!(i64::create_from_abi(7), 7i64);
}

#[test]
fn lifting_undoes_lowering() {
    for v in [i8::MIN, -1, 0, 1, i8::MAX] {
        assert_eq!(i8::create_from_abi(v.convert_to_abi()), v);
    }
    for v in [u16::MIN, 1, 0x8000, u16::MAX] {
        assert_eq!(u16::create_from_abi(v.convert_to_abi()), v);
    }
    for v in [0u32, 1, 0x7fff_ffff, 0x8000_0000, u32::MAX] {
        assert_eq!(u32::create_from_abi(v.convert_to_abi()), v);
    }
    for v in [0u64, 1, u64::MAX / 2 + 1, u64::MAX] {
        assert_eq!(u64::create_from_abi(v.convert_to_abi()), v);
    }
}

#[test]
fn lowering_undoes_lifting_of_represented_values() {
    for a in [-128i32, -1, 0, 127] {
        assert_eq!(i8::create_from_abi(a).convert_to_abi(), a);
    }
    for a in [i32::MIN, -1, 0, i32::MAX] {
        assert_eq!(u32::create_from_abi(a).convert_to_abi(), a);
    }
    // 300 is no lowering of a u8: lifting it loses bits
    assert_ne!(u8::create_from_abi(300).convert_to_abi(), 300);
}

#[test]
fn my_result_crosses_as_its_bits() {
    assert_eq!(MyResult::create_from_abi(-1).convert_to_abi(), -1);
    assert_eq!(MyResult::create_from_abi(42).convert_to_abi(), 42);
    assert_eq!(MyResult::create_from_abi(i32::MIN).convert_to_abi(), i32::MIN);
}

#[test]
fn abi_representations_have_integer_ir_types() {
    assert_eq!(get_ir_type::<i32>(), types::I32);
    assert_eq!(get_ir_type::<i64>(), types::I64);
    assert_eq!(<i32 as IntoIRType>::into_ir_type().bits(), 32);
    assert_eq!(<i64 as IntoIRType>::into_ir_type().bits(), 64);
    assert_eq!(<i32 as IntoIRType>::into_ir_type(), types::I32);
    assert_eq!(<i64 as IntoIRType>::into_ir_type(), types::I64);
    assert_eq!(get_ir_type::<<u8 as AbiPrimitive>::Abi>(), types::I32);
    assert_eq!(get_ir_type::<<u64 as AbiPrimitive>::Abi>(), types::I64);
    assert_eq!(get_ir_type::<<MyResult as AbiPrimitive>::Abi>(), types::I32);
}

#[test]
fn test2_returns_the_null_address() {
    assert_eq!(test2(), 0);
    assert_eq!(test2(), std::ptr::null_mut::<u32>() as usize);
}
