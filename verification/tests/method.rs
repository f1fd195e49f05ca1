use wasmtime_bindings::method::{check_item, transform_sig, wrap_method, ItemFnModel, TransformAttributes};
use wasmtime_bindings::signature::{
    read_signature, FnArgModel, PatModel, SignatureModel, TypeModel, Unsupported,
};

const W: &str = ":: wasmtime_bindings_common";

fn path_ty(p: &str) -> TypeModel {
    TypeModel::Path { path: p.to_string(), text: p.to_string() }
}

fn arg(name: &str, ty: TypeModel) -> FnArgModel {
    FnArgModel::Typed {
        pat: PatModel::Ident { name: name.to_string(), has_attrs: false, has_subpat: false },
        ty,
    }
}

fn test_sig() -> SignatureModel {
    SignatureModel {
        inputs: vec![
            arg(
                "ctx",
                TypeModel::Ptr {
                    mutable: true,
                    elem: Box::new(path_ty("VMContext")),
                    text: "*mut VMContext".to_string(),
                },
            ),
            arg("wasi", path_ty("WasiCtx")),
            arg(
                "s",
                TypeModel::Reference {
                    mutable: true,
                    elem: Box::new(path_ty("u8")),
                    text: "&mut u8".to_string(),
                },
            ),
            arg("t", path_ty("u8")),
        ],
        output: Some(path_ty("MyResult")),
    }
}

fn item(name: &str, inputs: &str, output: &str, block: &str, sig: SignatureModel) -> ItemFnModel {
    ItemFnModel {
        vis: "pub".to_string(),
        name: name.to_string(),
        inputs: inputs.to_string(),
        output: output.to_string(),
        block: block.to_string(),
        sig,
        is_const: false,
        is_async: false,
        is_unsafe: false,
        has_abi: false,
        is_variadic: false,
    }
}

#[test]
fn transform_lays_out_every_place() {
    let rsig = read_signature(&test_sig(), &Some("WasiCtx".to_string()));
    let t = transform_sig(&rsig, &"WasiCtx".to_string(), &W.to_string());
    assert_eq!(
        t.abi_params,
        "vmctx: *mut VMContext, _a2: <&mut u8 as :: wasmtime_bindings_common :: AbiPrimitive>::Abi, _a3: <u8 as :: wasmtime_bindings_common :: AbiPrimitive>::Abi, "
    );
    assert_eq!(t.abi_return, "-> <MyResult as :: wasmtime_bindings_common :: AbiPrimitive>::Abi");
    assert_eq!(
        t.params_conversion,
        "let s = <&mut u8 as :: wasmtime_bindings_common :: AbiPrimitive>::create_from_abi(_a2); let t = <u8 as :: wasmtime_bindings_common :: AbiPrimitive>::create_from_abi(_a3); "
    );
    assert_eq!(t.ret_conversion, "_res.convert_to_abi()");
    assert_eq!(t.call_args, "vmctx, _ctx, s, t, ");
    assert_eq!(
        t.sig_build,
        "let mut sig = ir::Signature::new(isa::CallConv::SystemV); sig.params.push(ir::AbiParam::special(ir::types::I64, ir::ArgumentPurpose::VMContext, )); sig.params.push(ir::AbiParam::new(:: wasmtime_bindings_common :: get_ir_type::<<&mut u8 as :: wasmtime_bindings_common :: AbiPrimitive>::Abi>())); sig.params.push(ir::AbiParam::new(:: wasmtime_bindings_common :: get_ir_type::<<u8 as :: wasmtime_bindings_common :: AbiPrimitive>::Abi>())); sig.returns.push(ir::AbiParam::new(:: wasmtime_bindings_common :: get_ir_type::<<MyResult as :: wasmtime_bindings_common :: AbiPrimitive>::Abi>())); "
    );
    assert_eq!(
        t.cb_params_conversion,
        "let _a2 = s.convert_to_abi(); let _a3 = t.convert_to_abi(); "
    );
    assert_eq!(
        t.cb_ret_conversion,
        "<MyResult as :: wasmtime_bindings_common :: AbiPrimitive>::create_from_abi(_res)"
    );
    assert_eq!(t.cb_call_args, "vmctx, _a2, _a3, ");
}

#[test]
fn pointers_cross_as_memory_offsets() {
    let sig = SignatureModel {
        inputs: vec![arg(
            "p",
            TypeModel::Ptr {
                mutable: false,
                elem: Box::new(path_ty("u8")),
                text: "*const u8".to_string(),
            },
        )],
        output: Some(TypeModel::Ptr {
            mutable: true,
            elem: Box::new(path_ty("u32")),
            text: "*mut u32".to_string(),
        }),
    };
    let rsig = read_signature(&sig, &None);
    let t = transform_sig(&rsig, &"Ctx".to_string(), &W.to_string());
    assert_eq!(
        t.abi_params,
        "vmctx: *mut VMContext, _a0: <Ctx as :: wasmtime_bindings_common :: WasmMem>::Abi, "
    );
    assert_eq!(t.abi_return, "-> <Ctx as :: wasmtime_bindings_common :: WasmMem>::Abi");
    assert_eq!(t.params_conversion, "let p = _ctx.as_ptr(_a0); ");
    assert_eq!(t.ret_conversion, "_ctx.as_off(_res)");
    assert_eq!(t.call_args, "p, ");
    assert_eq!(t.cb_params_conversion, "let _a0 = _ctx.as_off(p); ");
    assert_eq!(t.cb_ret_conversion, "_ctx.as_ptr(_res)");
    assert_eq!(t.cb_call_args, "vmctx, _a0, ");
}

#[test]
fn receivers_are_fetched_from_the_context_pointer() {
    let sig = SignatureModel {
        inputs: vec![
            FnArgModel::Receiver { has_attrs: false, reference: true, mutable: true },
            FnArgModel::Receiver { has_attrs: false, reference: true, mutable: false },
        ],
        output: None,
    };
    let rsig = read_signature(&sig, &None);
    let t = transform_sig(&rsig, &"C".to_string(), &W.to_string());
    assert_eq!(t.params_conversion, "let _self = get_self_mut(vmctx); let _self = get_self(vmctx); ");
    assert_eq!(t.abi_params, "vmctx: *mut VMContext, ");
    assert_eq!(t.abi_return, "");
    assert_eq!(t.call_args, "");
    assert_eq!(t.cb_call_args, "vmctx, ");
}

#[test]
fn wraps_a_function_without_module() {
    let f = item("callback", "", "", "{ println!(\"x\"); }", SignatureModel { inputs: vec![], output: None });
    let attr = TransformAttributes { context: None, module: None };
    assert_eq!(
        wrap_method(&f, &attr),
        "pub extern fn callback (vmctx: *mut VMContext, )  { let _closure = |  |  { println!(\"x\"); }; let _res = _closure( );  } "
    );
}

#[test]
fn wraps_a_function_into_extern_fn_and_module() {
    let f = item(
        "test",
        "ctx: *mut VMContext, wasi: WasiCtx, s: &mut u8, t: u8",
        "-> MyResult",
        "{ panic!(\"test method\") }",
        test_sig(),
    );
    let attr =
        TransformAttributes { context: Some("WasiCtx".to_string()), module: Some("test_mod".to_string()) };
    let out = wrap_method(&f, &attr);
    assert!(out.starts_with("pub extern fn test (vmctx: *mut VMContext, _a2: "));
    assert!(out.contains("let _ctx = WasiCtx :: from_vmctx(vmctx); "));
    assert!(out.contains("let _res = _closure( vmctx, _ctx, s, t, ); _res.convert_to_abi() } pub mod test_mod { "));
    assert!(out.contains("let _ctx = WasiCtx :: from_vmctx(self.vmctx); let _a2 = s.convert_to_abi(); "));
    assert!(out.contains("let _res = unsafe { (*_f)(vmctx, _a2, _a3, ) }; "));
    let file: syn::File = syn::parse_str(&out).expect("generated code is Rust");
    assert_eq!(file.items.len(), 2);
}

#[test]
fn pointer_signatures_without_context_use_the_vmcontext_wrapper() {
    let sig = SignatureModel {
        inputs: vec![],
        output: Some(TypeModel::Ptr {
            mutable: true,
            elem: Box::new(path_ty("u32")),
            text: "*mut u32".to_string(),
        }),
    };
    let f = item("test2", "", "-> *mut u32", "{ std::ptr::null_mut() }", sig);
    let attr = TransformAttributes { context: None, module: Some("test2_mod".to_string()) };
    let out = wrap_method(&f, &attr);
    assert!(out.contains(
        "-> <:: wasmtime_bindings_common :: VMContextWrapper as :: wasmtime_bindings_common :: WasmMem>::Abi"
    ));
    assert!(out.contains("let _ctx = :: wasmtime_bindings_common :: VMContextWrapper(vmctx); "));
    assert!(out.contains("let _ctx = :: wasmtime_bindings_common :: VMContextWrapper(self.vmctx); "));
    let file: syn::File = syn::parse_str(&out).expect("generated code is Rust");
    assert_eq!(file.items.len(), 2);
}

#[test]
fn signatures_without_context_never_build_one() {
    let sig = SignatureModel { inputs: vec![arg("t", path_ty("u8"))], output: Some(path_ty("u8")) };
    let f = item("id", "t: u8", "-> u8", "{ t }", sig);
    let attr = TransformAttributes { context: Some("WasiCtx".to_string()), module: Some("m".to_string()) };
    let out = wrap_method(&f, &attr);
    assert!(!out.contains("_ctx"));
    assert!(!out.contains("context n/a"));
    assert!(!out.contains("WasiCtx"));
    let file: syn::File = syn::parse_str(&out).expect("generated code is Rust");
    assert_eq!(file.items.len(), 2);
}

#[test]
fn check_item_reports_the_first_problem() {
    let ok = item("f", "t: u8", "", "{}", SignatureModel { inputs: vec![arg("t", path_ty("u8"))], output: None });
    assert!(check_item(&ok).is_ok());

    let mut f = item("f", "", "", "{}", SignatureModel { inputs: vec![], output: None });
    f.is_const = true;
    f.is_unsafe = true;
    assert!(check_item(&f) == Err(Unsupported::ConstFn));
    f.is_const = false;
    assert!(check_item(&f) == Err(Unsupported::UnsafeFn));
    f.is_unsafe = false;
    f.is_async = true;
    assert!(check_item(&f) == Err(Unsupported::AsyncFn));
    f.is_async = false;
    f.has_abi = true;
    assert!(check_item(&f) == Err(Unsupported::ExternAbi));
    f.has_abi = false;
    f.is_variadic = true;
    assert!(check_item(&f) == Err(Unsupported::Variadic));

    let sig = |inputs: Vec<FnArgModel>, output: Option<TypeModel>| {
        item("f", "", "", "{}", SignatureModel { inputs, output })
    };
    let other = || TypeModel::Other { text: "[u8; 4]".to_string() };
    let pat = |attrs: bool, sub: bool| FnArgModel::Typed {
        pat: PatModel::Ident { name: "x".to_string(), has_attrs: attrs, has_subpat: sub },
        ty: path_ty("u8"),
    };
    assert!(check_item(&sig(vec![pat(true, true)], None)) == Err(Unsupported::PatternAttributes));
    assert!(check_item(&sig(vec![pat(false, true)], None)) == Err(Unsupported::Subpattern));
    let no_id = FnArgModel::Typed { pat: PatModel::Other, ty: path_ty("u8") };
    assert!(check_item(&sig(vec![no_id], None)) == Err(Unsupported::NoIdentifier));
    assert!(check_item(&sig(vec![arg("a", other())], None)) == Err(Unsupported::ParamType));
    let recv = |attrs: bool, reference: bool| FnArgModel::Receiver { has_attrs: attrs, reference, mutable: false };
    assert!(check_item(&sig(vec![recv(true, false)], None)) == Err(Unsupported::ReceiverAttributes));
    assert!(check_item(&sig(vec![recv(false, false)], None)) == Err(Unsupported::ReceiverByValue));
    assert!(check_item(&sig(vec![], Some(other()))) == Err(Unsupported::ResultType));
    // inputs are looked at in order, and before the result
    assert!(
        check_item(&sig(vec![arg("a", path_ty("u8")), recv(false, false), arg("b", other())], Some(other())))
            == Err(Unsupported::ReceiverByValue)
    );
}

fn has_ctx_ident(text: &str) -> bool {
    text.split(|c: char| !(c == '_' || c.is_alphanumeric())).any(|w| w == "_ctx")
}

#[test]
fn context_identifier_appears_exactly_when_needed() {
    let sig = SignatureModel { inputs: vec![arg("my_ctx", path_ty("u8"))], output: Some(path_ty("u8")) };
    let f = item("f", "my_ctx: u8", "-> u8", "{ my_ctx }", sig);
    let attr = TransformAttributes { context: Some("WasiCtx".to_string()), module: Some("m".to_string()) };
    let out = wrap_method(&f, &attr);
    assert!(out.contains("my_ctx"));
    assert!(!has_ctx_ident(&out));

    let f = item("test", "ctx: *mut VMContext, wasi: WasiCtx, s: &mut u8, t: u8", "-> MyResult", "{ panic!() }", test_sig());
    let out = wrap_method(&f, &attr);
    assert!(has_ctx_ident(&out));
}
