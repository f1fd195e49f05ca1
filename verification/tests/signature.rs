use wasmtime_bindings::signature::{
    need_context, read_signature, FnArgModel, MethodSignature, MutToken, Parameter, ParameterType,
    PatModel, RefFlag, Return, SignatureModel, TypeModel,
};

fn path_ty(p: &str) -> TypeModel {
    TypeModel::Path { path: p.to_string(), text: p.to_string() }
}

fn arg(name: &str, ty: TypeModel) -> FnArgModel {
    FnArgModel::Typed {
        pat: PatModel::Ident { name: name.to_string(), has_attrs: false, has_subpat: false },
        ty,
    }
}

fn ptr(mutable: bool, elem: TypeModel, text: &str) -> TypeModel {
    TypeModel::Ptr { mutable, elem: Box::new(elem), text: text.to_string() }
}

fn reference(mutable: bool, elem: TypeModel, text: &str) -> TypeModel {
    TypeModel::Reference { mutable, elem: Box::new(elem), text: text.to_string() }
}

fn kind(p: &Parameter) -> String {
    match &p.ty {
        ParameterType::VMContextMutPtr => "vmctx".to_string(),
        ParameterType::SelfRef(r) => format!("self(mut={})", r.mutable()),
        ParameterType::Context(None) => "context".to_string(),
        ParameterType::Context(Some(r)) => format!("context(mut={})", r.mutable()),
        ParameterType::Ptr(t) => format!("ptr({})", t),
        ParameterType::Simple(t, None) => format!("simple({})", t),
        ParameterType::Simple(t, Some(r)) => format!("simple({}, mut={})", t, r.mutable()),
    }
}

fn read(sig: &SignatureModel, ctx: Option<&str>) -> MethodSignature {
    read_signature(sig, &ctx.map(|c| c.to_string()))
}

#[test]
fn ref_flag_reports_the_mut_token() {
    assert!(RefFlag::from(Some(MutToken)).mutable());
    assert!(!RefFlag::from(None).mutable());
}

#[test]
fn classifies_each_kind_of_parameter() {
    let sig = SignatureModel {
        inputs: vec![
            arg("ctx", ptr(true, path_ty("VMContext"), "*mut VMContext")),
            arg("wasi", path_ty("WasiCtx")),
            arg("s", reference(true, path_ty("u8"), "&mut u8")),
            arg("t", path_ty("u8")),
            arg("c", ptr(false, path_ty("VMContext"), "*const VMContext")),
            arg("w", reference(false, path_ty("WasiCtx"), "&WasiCtx")),
            arg("p", ptr(true, path_ty("u32"), "*mut u32")),
        ],
        output: Some(path_ty("MyResult")),
    };
    let r = read(&sig, Some("WasiCtx"));
    let kinds: Vec<String> = r.params.iter().map(kind).collect();
    assert_eq!(
        kinds,
        vec![
            "vmctx",
            "context",
            "simple(&mut u8, mut=true)",
            "simple(u8)",
            "ptr(*const VMContext)",
            "context(mut=false)",
            "ptr(*mut u32)",
        ]
    );
    let ids: Vec<Option<String>> = r.params.iter().map(|p| p.id.clone()).collect();
    assert_eq!(ids[0].as_deref(), Some("ctx"));
    assert_eq!(ids[6].as_deref(), Some("p"));
    assert!(matches!(r.result, Some(Return::Simple(ref t)) if t == "MyResult"));
}

#[test]
fn without_a_context_type_paths_are_simple() {
    let sig = SignatureModel { inputs: vec![arg("wasi", path_ty("WasiCtx"))], output: None };
    let r = read(&sig, None);
    assert_eq!(kind(&r.params[0]), "simple(WasiCtx)");
    assert!(r.result.is_none());
}

#[test]
fn receivers_are_self_references() {
    let sig = SignatureModel {
        inputs: vec![
            FnArgModel::Receiver { has_attrs: false, reference: true, mutable: false },
            arg("x", path_ty("i64")),
        ],
        output: Some(ptr(true, path_ty("u8"), "*mut u8")),
    };
    let r = read(&sig, Some("WasiCtx"));
    assert_eq!(kind(&r.params[0]), "self(mut=false)");
    assert!(r.params[0].id.is_none());
    assert_eq!(kind(&r.params[1]), "simple(i64)");
    assert!(matches!(r.result, Some(Return::Ptr(ref t)) if t == "*mut u8"));
}

#[test]
fn context_is_needed_for_pointers_and_the_context() {
    let plain = SignatureModel { inputs: vec![arg("t", path_ty("u8"))], output: Some(path_ty("u8")) };
    assert!(!need_context(&read(&plain, Some("WasiCtx"))));
    let vmctx_only = SignatureModel {
        inputs: vec![arg("ctx", ptr(true, path_ty("VMContext"), "*mut VMContext"))],
        output: None,
    };
    assert!(!need_context(&read(&vmctx_only, None)));
    let with_ctx = SignatureModel { inputs: vec![arg("w", path_ty("WasiCtx"))], output: None };
    assert!(need_context(&read(&with_ctx, Some("WasiCtx"))));
    let with_ptr = SignatureModel {
        inputs: vec![arg("p", ptr(false, path_ty("u8"), "*const u8"))],
        output: None,
    };
    assert!(need_context(&read(&with_ptr, None)));
    let ptr_result =
        SignatureModel { inputs: vec![], output: Some(ptr(true, path_ty("u32"), "*mut u32")) };
    assert!(need_context(&read(&ptr_result, None)));
    let empty = SignatureModel { inputs: vec![], output: None };
    assert!(!need_context(&read(&empty, None)));
}
