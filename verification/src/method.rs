use vstd::prelude::*;

use crate::ident::{internal_id, internal_id_text};
use crate::signature::{
    check_signature, lemma_signature_problem, need_context, needs_context, read_signature,
    signature_problem, signature_supported, spec_params, spec_read_result, MethodSignature,
    Parameter, ParameterType, Return, SignatureModel, Unsupported,
};

verus! {

/// The glue code that a signature expands to, as Rust source text, one field
/// per place of the generated code.
pub struct TransformSignatureResult {
    /// Parameters of the exported `extern fn`.
    pub abi_params: String,
    /// Its return type.
    pub abi_return: String,
    /// Statements that lift the ABI arguments into the Rust parameters.
    pub params_conversion: String,
    /// The expression that lowers the Rust result to the ABI result.
    pub ret_conversion: String,
    /// Arguments of the call of the wrapped function.
    pub call_args: String,
    /// Statements that build the cranelift signature `sig`.
    pub sig_build: String,
    /// Statements that lower the Rust arguments of a call into wasm.
    pub cb_params_conversion: String,
    /// The expression that lifts the ABI result of a call into wasm.
    pub cb_ret_conversion: String,
    /// Arguments of the call into wasm.
    pub cb_call_args: String,
}

/// The places of the generated code that hold one piece per parameter.
pub enum Stream {
    AbiParams,
    ParamsConversion,
    CallArgs,
    SigParams,
    CbParamsConversion,
    CbCallArgs,
}

/// The identifier of a parameter, or nothing for a receiver.
pub open spec fn name_text(id: Option<String>) -> Seq<char> {
    match id {
        Some(s) => s@,
        None => Seq::empty(),
    }
}

/// The ABI type of values that cross as wasm memory offsets of the context `ctx`.
pub open spec fn mem_abi_text(ctx: Seq<char>, common: Seq<char>) -> Seq<char> {
    "<"@ + ctx + " as "@ + common + " :: WasmMem>::Abi"@
}

/// The ABI type of values of type `ty`.
pub open spec fn prim_abi_text(ty: Seq<char>, common: Seq<char>) -> Seq<char> {
    "<"@ + ty + " as "@ + common + " :: AbiPrimitive>::Abi"@
}

/// The ABI type that a parameter crosses as, if it crosses as an ABI value.
pub open spec fn param_abi_text(p: Parameter, ctx: Seq<char>, common: Seq<char>) -> Option<Seq<char>> {
    match p.ty {
        ParameterType::Ptr(_) => Some(mem_abi_text(ctx, common)),
        ParameterType::Simple(ty, _) => Some(prim_abi_text(ty@, common)),
        _ => None,
    }
}

/// The statement that adds an ABI value of type `t` to the cranelift signature
/// list `list` (`params` or `returns`).
pub open spec fn sig_push_text(list: Seq<char>, t: Seq<char>, common: Seq<char>) -> Seq<char> {
    "sig."@ + list + ".push(ir::AbiParam::new("@ + common + " :: get_ir_type::<"@ + t + ">())); "@
}

/// What the `i`-th parameter `p` contributes to the place `s`.
pub open spec fn piece(s: Stream, p: Parameter, i: nat, ctx: Seq<char>, common: Seq<char>) -> Seq<char> {
    let id = internal_id_text(i);
    let name = name_text(p.id);
    match s {
        Stream::AbiParams => match param_abi_text(p, ctx, common) {
            Some(t) => id + ": "@ + t + ", "@,
            None => Seq::empty(),
        },
        Stream::ParamsConversion => match p.ty {
            ParameterType::Ptr(_) => "let "@ + name + " = _ctx.as_ptr("@ + id + "); "@,
            ParameterType::Simple(ty, _) => "let "@ + name + " = <"@ + ty@ + " as "@ + common
                + " :: AbiPrimitive>::create_from_abi("@ + id + "); "@,
            ParameterType::SelfRef(r) => if r.is_mutable() {
                "let _self = get_self_mut(vmctx); "@
            } else {
                "let _self = get_self(vmctx); "@
            },
            _ => Seq::empty(),
        },
        Stream::CallArgs => match p.ty {
            ParameterType::VMContextMutPtr => "vmctx, "@,
            ParameterType::Context(_) => "_ctx, "@,
            ParameterType::Ptr(_) => name + ", "@,
            ParameterType::Simple(_, _) => name + ", "@,
            ParameterType::SelfRef(_) => Seq::empty(),
        },
        Stream::SigParams => match param_abi_text(p, ctx, common) {
            Some(t) => sig_push_text("params"@, t, common),
            None => Seq::empty(),
        },
        Stream::CbParamsConversion => match p.ty {
            ParameterType::Ptr(_) => "let "@ + id + " = _ctx.as_off("@ + name + "); "@,
            ParameterType::Simple(_, _) => "let "@ + id + " = "@ + name + ".convert_to_abi(); "@,
            _ => Seq::empty(),
        },
        Stream::CbCallArgs => match param_abi_text(p, ctx, common) {
            Some(_) => id + ", "@,
            None => Seq::empty(),
        },
    }
}

/// The pieces that the parameters `ps` contribute to the place `s`, in order.
pub open spec fn pieces(s: Stream, ps: Seq<Parameter>, ctx: Seq<char>, common: Seq<char>) -> Seq<char>
    decreases ps.len(),
{
    if ps.len() == 0 {
        Seq::empty()
    } else {
        pieces(s, ps.drop_last(), ctx, common) + piece(s, ps.last(), (ps.len() - 1) as nat, ctx, common)
    }
}

/// The start of the cranelift signature: the calling convention and the
/// context pointer.
pub open spec fn sig_prelude_text() -> Seq<char> {
    "let mut sig = ir::Signature::new(isa::CallConv::SystemV); sig.params.push(ir::AbiParam::special(ir::types::I64, ir::ArgumentPurpose::VMContext, )); "@
}

/// The ABI type of the result, if there is a result.
pub open spec fn result_abi_text(r: Option<Return>, ctx: Seq<char>, common: Seq<char>) -> Option<Seq<char>> {
    match r {
        Some(Return::Ptr(_)) => Some(mem_abi_text(ctx, common)),
        Some(Return::Simple(ty)) => Some(prim_abi_text(ty@, common)),
        None => None,
    }
}

pub open spec fn abi_return_text(r: Option<Return>, ctx: Seq<char>, common: Seq<char>) -> Seq<char> {
    match result_abi_text(r, ctx, common) {
        Some(t) => "-> "@ + t,
        None => Seq::empty(),
    }
}

pub open spec fn sig_return_text(r: Option<Return>, ctx: Seq<char>, common: Seq<char>) -> Seq<char> {
    match result_abi_text(r, ctx, common) {
        Some(t) => sig_push_text("returns"@, t, common),
        None => Seq::empty(),
    }
}

pub open spec fn ret_conversion_text(r: Option<Return>) -> Seq<char> {
    match r {
        Some(Return::Ptr(_)) => "_ctx.as_off(_res)"@,
        Some(Return::Simple(_)) => "_res.convert_to_abi()"@,
        None => Seq::empty(),
    }
}

pub open spec fn cb_ret_conversion_text(r: Option<Return>, common: Seq<char>) -> Seq<char> {
    match r {
        Some(Return::Ptr(_)) => "_ctx.as_ptr(_res)"@,
        Some(Return::Simple(ty)) => "<"@ + ty@ + " as "@ + common + " :: AbiPrimitive>::create_from_abi(_res)"@,
        None => Seq::empty(),
    }
}

/// What `transform_sig` produces for the parameters `ps` and the result `r`,
/// with host context type `ctx` and support crate path `common`.
pub open spec fn spec_transform(
    ps: Seq<Parameter>,
    r: Option<Return>,
    ctx: Seq<char>,
    common: Seq<char>,
    t: TransformSignatureResult,
) -> bool {
    &&& t.abi_params@ == "vmctx: *mut VMContext, "@ + pieces(Stream::AbiParams, ps, ctx, common)
    &&& t.abi_return@ == abi_return_text(r, ctx, common)
    &&& t.params_conversion@ == pieces(Stream::ParamsConversion, ps, ctx, common)
    &&& t.ret_conversion@ == ret_conversion_text(r)
    &&& t.call_args@ == pieces(Stream::CallArgs, ps, ctx, common)
    &&& t.sig_build@ == sig_prelude_text() + pieces(Stream::SigParams, ps, ctx, common)
        + sig_return_text(r, ctx, common)
    &&& t.cb_params_conversion@ == pieces(Stream::CbParamsConversion, ps, ctx, common)
    &&& t.cb_ret_conversion@ == cb_ret_conversion_text(r, common)
    &&& t.cb_call_args@ == "vmctx, "@ + pieces(Stream::CbCallArgs, ps, ctx, common)
}

proof fn lemma_pieces_step(s: Stream, ps: Seq<Parameter>, i: int, ctx: Seq<char>, common: Seq<char>)
    requires
        0 <= i < ps.len(),
    ensures
        pieces(s, ps.take(i + 1), ctx, common) == pieces(s, ps.take(i), ctx, common) + piece(
            s,
            ps[i],
            i as nat,
            ctx,
            common,
        ),
{
    assert(ps.take(i + 1).drop_last() =~= ps.take(i));
}

fn cat(s: &mut String, t: &String)
    ensures
        final(s)@ == old(s)@ + t@,
{
    s.append(t.as_str());
}

fn name_of(id: &Option<String>) -> (r: String)
    ensures
        r@ == name_text(*id),
{
    match id {
        Some(s) => s.clone(),
        None => String::new(),
    }
}

fn mem_abi(ctx: &String, common: &String) -> (r: String)
    ensures
        r@ == mem_abi_text(ctx@, common@),
{
    let mut r = String::from_str("<");
    cat(&mut r, ctx);
    r.append(" as ");
    cat(&mut r, common);
    r.append(" :: WasmMem>::Abi");
    r
}

fn prim_abi(ty: &String, common: &String) -> (r: String)
    ensures
        r@ == prim_abi_text(ty@, common@),
{
    let mut r = String::from_str("<");
    cat(&mut r, ty);
    r.append(" as ");
    cat(&mut r, common);
    r.append(" :: AbiPrimitive>::Abi");
    r
}

fn sig_push(list: &str, t: &String, common: &String) -> (r: String)
    ensures
        r@ == sig_push_text(list@, t@, common@),
{
    let mut r = String::from_str("sig.");
    r.append(list);
    r.append(".push(ir::AbiParam::new(");
    cat(&mut r, common);
    r.append(" :: get_ir_type::<");
    cat(&mut r, t);
    r.append(">())); ");
    r
}

fn param_abi(p: &Parameter, ctx: &String, common: &String) -> (r: Option<String>)
    ensures
        r matches Some(t) ==> param_abi_text(*p, ctx@, common@) == Some(t@),
        r is None ==> param_abi_text(*p, ctx@, common@) is None,
{
    match &p.ty {
        ParameterType::Ptr(_) => Some(mem_abi(ctx, common)),
        ParameterType::Simple(ty, _) => Some(prim_abi(ty, common)),
        _ => None,
    }
}

/// The pieces that one parameter contributes to each place.
struct PieceTexts {
    abi_param: String,
    param_conversion: String,
    call_arg: String,
    sig_param: String,
    cb_param_conversion: String,
    cb_call_arg: String,
}

fn param_pieces(p: &Parameter, i: usize, ctx: &String, common: &String) -> (r: PieceTexts)
    ensures
        r.abi_param@ == piece(Stream::AbiParams, *p, i as nat, ctx@, common@),
        r.param_conversion@ == piece(Stream::ParamsConversion, *p, i as nat, ctx@, common@),
        r.call_arg@ == piece(Stream::CallArgs, *p, i as nat, ctx@, common@),
        r.sig_param@ == piece(Stream::SigParams, *p, i as nat, ctx@, common@),
        r.cb_param_conversion@ == piece(Stream::CbParamsConversion, *p, i as nat, ctx@, common@),
        r.cb_call_arg@ == piece(Stream::CbCallArgs, *p, i as nat, ctx@, common@),
{
    let id = internal_id(i);
    let name = name_of(&p.id);
    let abi = param_abi(p, ctx, common);
    let (abi_param, sig_param, cb_call_arg) = match &abi {
        Some(t) => {
            let mut a = id.clone();
            a.append(": ");
            cat(&mut a, t);
            a.append(", ");
            let s = sig_push("params", t, common);
            let mut c = id.clone();
            c.append(", ");
            (a, s, c)
        },
        None => (String::new(), String::new(), String::new()),
    };
    let param_conversion = match &p.ty {
        ParameterType::Ptr(_) => {
            let mut s = String::from_str("let ");
            cat(&mut s, &name);
            s.append(" = _ctx.as_ptr(");
            cat(&mut s, &id);
            s.append("); ");
            s
        },
        ParameterType::Simple(ty, _) => {
            let mut s = String::from_str("let ");
            cat(&mut s, &name);
            s.append(" = <");
            cat(&mut s, ty);
            s.append(" as ");
            cat(&mut s, common);
            s.append(" :: AbiPrimitive>::create_from_abi(");
            cat(&mut s, &id);
            s.append("); ");
            s
        },
        ParameterType::SelfRef(r) => {
            if r.mutable() {
                String::from_str("let _self = get_self_mut(vmctx); ")
            } else {
                String::from_str("let _self = get_self(vmctx); ")
            }
        },
        _ => String::new(),
    };
    let call_arg = match &p.ty {
        ParameterType::VMContextMutPtr => String::from_str("vmctx, "),
        ParameterType::Context(_) => String::from_str("_ctx, "),
        ParameterType::Ptr(_) | ParameterType::Simple(_, _) => {
            let mut s = name.clone();
            s.append(", ");
            s
        },
        ParameterType::SelfRef(_) => String::new(),
    };
    let cb_param_conversion = match &p.ty {
        ParameterType::Ptr(_) => {
            let mut s = String::from_str("let ");
            cat(&mut s, &id);
            s.append(" = _ctx.as_off(");
            cat(&mut s, &name);
            s.append("); ");
            s
        },
        ParameterType::Simple(_, _) => {
            let mut s = String::from_str("let ");
            cat(&mut s, &id);
            s.append(" = ");
            cat(&mut s, &name);
            s.append(".convert_to_abi(); ");
            s
        },
        _ => String::new(),
    };
    PieceTexts { abi_param, param_conversion, call_arg, sig_param, cb_param_conversion, cb_call_arg }
}

fn result_abi(r: &Option<Return>, ctx: &String, common: &String) -> (t: Option<String>)
    ensures
        t matches Some(t) ==> result_abi_text(*r, ctx@, common@) == Some(t@),
        t is None ==> result_abi_text(*r, ctx@, common@) is None,
{
    match r {
        Some(Return::Ptr(_)) => Some(mem_abi(ctx, common)),
        Some(Return::Simple(ty)) => Some(prim_abi(ty, common)),
        None => None,
    }
}

/// Lays out the glue code for the classified signature `sig`: the host
/// context type is written `context_name` and the support crate `common`.
pub fn transform_sig(
    sig: &MethodSignature,
    context_name: &String,
    common: &String,
) -> (t: TransformSignatureResult)
    ensures
        spec_transform(sig.params@, sig.result, context_name@, common@, t),
{
    let ghost ps = sig.params@;
    let ghost ctx = context_name@;
    let ghost w = common@;
    let mut abi_params = String::from_str("vmctx: *mut VMContext, ");
    let mut params_conversion = String::new();
    let mut call_args = String::new();
    let mut sig_build = String::from_str(
        "let mut sig = ir::Signature::new(isa::CallConv::SystemV); sig.params.push(ir::AbiParam::special(ir::types::I64, ir::ArgumentPurpose::VMContext, )); ",
    );
    let mut cb_params_conversion = String::new();
    let mut cb_call_args = String::from_str("vmctx, ");
    assert(ps.take(0) =~= Seq::<Parameter>::empty());
    assert(params_conversion@ =~= pieces(Stream::ParamsConversion, ps.take(0), ctx, w));
    assert(call_args@ =~= pieces(Stream::CallArgs, ps.take(0), ctx, w));
    assert(cb_params_conversion@ =~= pieces(Stream::CbParamsConversion, ps.take(0), ctx, w));
    assert(abi_params@ =~= "vmctx: *mut VMContext, "@ + pieces(Stream::AbiParams, ps.take(0), ctx, w));
    assert(sig_build@ =~= sig_prelude_text() + pieces(Stream::SigParams, ps.take(0), ctx, w));
    assert(cb_call_args@ =~= "vmctx, "@ + pieces(Stream::CbCallArgs, ps.take(0), ctx, w));
    let n = sig.params.len();
    for i in 0..n
        invariant
            n == ps.len(),
            ps == sig.params@,
            ctx == context_name@,
            w == common@,
            abi_params@ == "vmctx: *mut VMContext, "@ + pieces(Stream::AbiParams, ps.take(i as int), ctx, w),
            params_conversion@ == pieces(Stream::ParamsConversion, ps.take(i as int), ctx, w),
            call_args@ == pieces(Stream::CallArgs, ps.take(i as int), ctx, w),
            sig_build@ == sig_prelude_text() + pieces(Stream::SigParams, ps.take(i as int), ctx, w),
            cb_params_conversion@ == pieces(Stream::CbParamsConversion, ps.take(i as int), ctx, w),
            cb_call_args@ == "vmctx, "@ + pieces(Stream::CbCallArgs, ps.take(i as int), ctx, w),
    {
        let pt = param_pieces(&sig.params[i], i, context_name, common);
        proof {
            lemma_pieces_step(Stream::AbiParams, ps, i as int, ctx, w);
            lemma_pieces_step(Stream::ParamsConversion, ps, i as int, ctx, w);
            lemma_pieces_step(Stream::CallArgs, ps, i as int, ctx, w);
            lemma_pieces_step(Stream::SigParams, ps, i as int, ctx, w);
            lemma_pieces_step(Stream::CbParamsConversion, ps, i as int, ctx, w);
            lemma_pieces_step(Stream::CbCallArgs, ps, i as int, ctx, w);
        }
        cat(&mut abi_params, &pt.abi_param);
        cat(&mut params_conversion, &pt.param_conversion);
        cat(&mut call_args, &pt.call_arg);
        cat(&mut sig_build, &pt.sig_param);
        cat(&mut cb_params_conversion, &pt.cb_param_conversion);
        cat(&mut cb_call_args, &pt.cb_call_arg);
        assert(abi_params@ =~= "vmctx: *mut VMContext, "@ + pieces(Stream::AbiParams, ps.take(i + 1), ctx, w));
        assert(sig_build@ =~= sig_prelude_text() + pieces(Stream::SigParams, ps.take(i + 1), ctx, w));
        assert(cb_call_args@ =~= "vmctx, "@ + pieces(Stream::CbCallArgs, ps.take(i + 1), ctx, w));
    }
    assert(ps.take(n as int) =~= ps);
    let (abi_return, sig_return) = match result_abi(&sig.result, context_name, common) {
        Some(t) => {
            let mut a = String::from_str("-> ");
            cat(&mut a, &t);
            (a, sig_push("returns", &t, common))
        },
        None => (String::new(), String::new()),
    };
    cat(&mut sig_build, &sig_return);
    let ret_conversion = match &sig.result {
        Some(Return::Ptr(_)) => String::from_str("_ctx.as_off(_res)"),
        Some(Return::Simple(_)) => String::from_str("_res.convert_to_abi()"),
        None => String::new(),
    };
    let cb_ret_conversion = match &sig.result {
        Some(Return::Ptr(_)) => String::from_str("_ctx.as_ptr(_res)"),
        Some(Return::Simple(ty)) => {
            let mut s = String::from_str("<");
            cat(&mut s, ty);
            s.append(" as ");
            cat(&mut s, common);
            s.append(" :: AbiPrimitive>::create_from_abi(_res)");
            s
        },
        None => String::new(),
    };
    TransformSignatureResult {
        abi_params,
        abi_return,
        params_conversion,
        ret_conversion,
        call_args,
        sig_build,
        cb_params_conversion,
        cb_ret_conversion,
        cb_call_args,
    }
}

/// The options of a binding attribute: the host context type (a path written
/// out as Rust tokens) and the name of the module to generate for calls into
/// wasm.
pub struct TransformAttributes {
    pub context: Option<String>,
    pub module: Option<String>,
}

/// A function that a binding attribute is put on: its signature, and the
/// parts of its text that the glue code repeats.  `inputs` is the parameter
/// list without parentheses, `output` the return type with its arrow (empty
/// when there is none), `block` the body with its braces.
pub struct ItemFnModel {
    pub vis: String,
    pub name: String,
    pub inputs: String,
    pub output: String,
    pub block: String,
    pub sig: SignatureModel,
    pub is_const: bool,
    pub is_async: bool,
    pub is_unsafe: bool,
    pub has_abi: bool,
    pub is_variadic: bool,
}

/// The path of the support crate in generated code.
pub open spec fn common_text() -> Seq<char> {
    ":: wasmtime_bindings_common"@
}

/// How generated code names the host context type.
pub open spec fn context_name_text(need: bool, context: Option<String>) -> Seq<char> {
    if need {
        match context {
            Some(c) => c@,
            None => common_text() + " :: VMContextWrapper"@,
        }
    } else {
        "panic!(\"context n/a\")"@
    }
}

/// The statement that builds the host context `_ctx` from the context pointer
/// `target`, when the signature needs it.
pub open spec fn build_context_text(need: bool, context: Option<String>, target: Seq<char>) -> Seq<char> {
    if need {
        match context {
            Some(c) => "let _ctx = "@ + c@ + " :: from_vmctx("@ + target + "); "@,
            None => "let _ctx = "@ + common_text() + " :: VMContextWrapper("@ + target + "); "@,
        }
    } else {
        Seq::empty()
    }
}

/// The `call` method of the generated `Wrapper`: it calls the export through
/// the function pointer type `F`, whose parameters are `abi_params` and whose
/// result is `abi_return`.
pub open spec fn wrapper_call_text(
    inputs: Seq<char>,
    output: Seq<char>,
    abi_params: Seq<char>,
    abi_return: Seq<char>,
    build_cb: Seq<char>,
    cb_params_conversion: Seq<char>,
    cb_call_args: Seq<char>,
    cb_ret_conversion: Seq<char>,
) -> Seq<char> {
    "pub fn call(&self, "@ + inputs + ") "@ + output + " { type F = extern fn("@ + abi_params + ") "@
        + abi_return + "; let (_f, vmctx) = "@ + common_text() + " :: get_body_as::<F>(&self . export); "@
        + build_cb + cb_params_conversion + "let _res = unsafe { (*_f)("@ + cb_call_args + ") }; "@
        + cb_ret_conversion + " }"@
}

/// The start of the module named `m`, up to the `call` method of its
/// `Wrapper`.
pub open spec fn module_head_text(vis: Seq<char>, m: Seq<char>, sig_build: Seq<char>) -> Seq<char> {
    vis + " mod "@ + m + " { use super::*; use "@ + common_text() + " :: codegen :: {ir, isa}; use "@
        + common_text() + " :: { VMContext, InstanceHandle, InstanceHandleExport }; pub fn signature() -> ir::Signature { "@
        + sig_build + "sig } pub struct Wrapper { vmctx: *mut VMContext, export: InstanceHandleExport, } impl Wrapper { pub fn new(mut instance: InstanceHandle, export: InstanceHandleExport) -> Self { Wrapper { vmctx: instance.vmctx_mut_ptr(), export, } } "@
}

/// The module generated for calls into wasm, named `m`.
pub open spec fn module_text(
    vis: Seq<char>,
    m: Seq<char>,
    inputs: Seq<char>,
    output: Seq<char>,
    abi_params: Seq<char>,
    abi_return: Seq<char>,
    sig_build: Seq<char>,
    build_cb: Seq<char>,
    cb_params_conversion: Seq<char>,
    cb_call_args: Seq<char>,
    cb_ret_conversion: Seq<char>,
) -> Seq<char> {
    module_head_text(vis, m, sig_build) + wrapper_call_text(
        inputs,
        output,
        abi_params,
        abi_return,
        build_cb,
        cb_params_conversion,
        cb_call_args,
        cb_ret_conversion,
    ) + " } } "@
}

/// The signature of the exported `extern fn` named `name`.
pub open spec fn extern_fn_sig_text(name: Seq<char>, abi_params: Seq<char>, abi_return: Seq<char>) -> Seq<char> {
    "pub extern fn "@ + name + " ("@ + abi_params + ") "@ + abi_return
}

/// The body of the exported `extern fn`: it lifts the ABI arguments, calls the
/// function's own body as a closure, and lowers the result.
pub open spec fn extern_fn_body_text(
    inputs: Seq<char>,
    output: Seq<char>,
    block: Seq<char>,
    build: Seq<char>,
    params_conversion: Seq<char>,
    call_args: Seq<char>,
    ret_conversion: Seq<char>,
) -> Seq<char> {
    " { let _closure = | "@ + inputs + " | "@ + output + " "@ + block + "; "@ + build + params_conversion
        + "let _res = _closure( "@ + call_args + "); "@ + ret_conversion + " } "@
}

/// What a binding attribute with options `attr` expands the function `f` to,
/// given the classified parameters `ps` and result `r`, whether a host context
/// is needed, and the name `ctx` that the generated code gives its type.
pub open spec fn expansion_text(
    f: ItemFnModel,
    attr: TransformAttributes,
    ps: Seq<Parameter>,
    r: Option<Return>,
    need: bool,
    ctx: Seq<char>,
) -> Seq<char> {
    let w = common_text();
    let abi_params = "vmctx: *mut VMContext, "@ + pieces(Stream::AbiParams, ps, ctx, w);
    let abi_return = abi_return_text(r, ctx, w);
    let module = match attr.module {
        Some(m) => module_text(
            f.vis@,
            m@,
            f.inputs@,
            f.output@,
            abi_params,
            abi_return,
            sig_prelude_text() + pieces(Stream::SigParams, ps, ctx, w) + sig_return_text(r, ctx, w),
            build_context_text(need, attr.context, "self.vmctx"@),
            pieces(Stream::CbParamsConversion, ps, ctx, w),
            "vmctx, "@ + pieces(Stream::CbCallArgs, ps, ctx, w),
            cb_ret_conversion_text(r, w),
        ),
        None => Seq::empty(),
    };
    extern_fn_sig_text(f.name@, abi_params, abi_return) + extern_fn_body_text(
        f.inputs@,
        f.output@,
        f.block@,
        build_context_text(need, attr.context, "vmctx"@),
        pieces(Stream::ParamsConversion, ps, ctx, w),
        pieces(Stream::CallArgs, ps, ctx, w),
        ret_conversion_text(r),
    ) + module
}

/// What a binding attribute with options `attr` expands the function `f` to.
pub open spec fn wrap_method_text(f: ItemFnModel, attr: TransformAttributes) -> Seq<char> {
    let ps = spec_params(f.sig, attr.context);
    let r = spec_read_result(f.sig.output);
    let need = needs_context(ps, r);
    expansion_text(f, attr, ps, r, need, context_name_text(need, attr.context))
}

/// The ABI type that a result crosses as: the ABI type of the primitive type
/// `T` for a result of type `T`, the memory offset type of the context for a
/// pointer result.
pub open spec fn result_abi_type(r: Option<Return>, ctx: Seq<char>, common: Seq<char>) -> Option<Seq<char>> {
    match r {
        Some(Return::Simple(ty)) => Some("<"@ + ty@ + " as "@ + common + " :: AbiPrimitive>::Abi"@),
        Some(Return::Ptr(_)) => Some("<"@ + ctx + " as "@ + common + " :: WasmMem>::Abi"@),
        None => None,
    }
}

/// The return type written for a result that crosses as `t`, if any.
pub open spec fn arrow_text(t: Option<Seq<char>>) -> Seq<char> {
    match t {
        Some(t) => "-> "@ + t,
        None => Seq::empty(),
    }
}

/// The `Wrapper::call` of the generated module calls the export through a
/// function pointer type `F` with exactly the parameters and the result of the
/// generated `extern fn`: the expansion is the `extern fn` with parameters `P`
/// and return type `R`, its body, the module's head, and `call`, whose `F` is
/// `extern fn(P) R`; `R` is the ABI type of the function's result (nothing
/// when there is none).
pub proof fn law_wrapper_call_matches_extern_fn(f: ItemFnModel, attr: TransformAttributes)
    requires
        attr.module is Some,
    ensures
        ({
            let ps = spec_params(f.sig, attr.context);
            let r = spec_read_result(f.sig.output);
            let need = needs_context(ps, r);
            let ctx = context_name_text(need, attr.context);
            let w = common_text();
            let p = "vmctx: *mut VMContext, "@ + pieces(Stream::AbiParams, ps, ctx, w);
            let rt = arrow_text(result_abi_type(r, ctx, w));
            wrap_method_text(f, attr) == ("pub extern fn "@ + f.name@ + " ("@ + p + ") "@ + rt)
                + extern_fn_body_text(
                f.inputs@,
                f.output@,
                f.block@,
                build_context_text(need, attr.context, "vmctx"@),
                pieces(Stream::ParamsConversion, ps, ctx, w),
                pieces(Stream::CallArgs, ps, ctx, w),
                ret_conversion_text(r),
            ) + (module_head_text(
                f.vis@,
                attr.module->0@,
                sig_prelude_text() + pieces(Stream::SigParams, ps, ctx, w) + sig_return_text(r, ctx, w),
            ) + ("pub fn call(&self, "@ + f.inputs@ + ") "@ + f.output@ + " { type F = extern fn("@ + p
                + ") "@ + rt + "; let (_f, vmctx) = "@ + w + " :: get_body_as::<F>(&self . export); "@
                + build_context_text(need, attr.context, "self.vmctx"@)
                + pieces(Stream::CbParamsConversion, ps, ctx, w) + "let _res = unsafe { (*_f)("@
                + ("vmctx, "@ + pieces(Stream::CbCallArgs, ps, ctx, w)) + ") }; "@
                + cb_ret_conversion_text(r, w) + " }"@) + " } } "@)
        }),
{
}

/// The cranelift signature declares a result exactly when the `extern fn`
/// has a return type, and of the same ABI type: with no result the
/// `extern fn` has no return type and the signature only its parameters;
/// with a result that crosses as `t`, the `extern fn` returns `-> t` and the
/// signature ends by pushing `t` on its returns.
pub proof fn law_signature_declares_result(
    ps: Seq<Parameter>,
    r: Option<Return>,
    ctx: Seq<char>,
    common: Seq<char>,
    t: TransformSignatureResult,
)
    requires
        spec_transform(ps, r, ctx, common, t),
    ensures
        match result_abi_type(r, ctx, common) {
            Some(a) => {
                &&& t.abi_return@ == "-> "@ + a
                &&& t.sig_build@ == sig_prelude_text() + pieces(Stream::SigParams, ps, ctx, common)
                    + ("sig."@ + "returns"@ + ".push(ir::AbiParam::new("@ + common + " :: get_ir_type::<"@ + a
                    + ">())); "@)
            },
            None => {
                &&& t.abi_return@ == Seq::<char>::empty()
                &&& t.sig_build@ == sig_prelude_text() + pieces(Stream::SigParams, ps, ctx, common)
                    + Seq::<char>::empty()
            },
        },
{
}

/// Whether a function can carry a binding attribute: a plain function whose
/// signature can be classified.
pub open spec fn item_supported(f: ItemFnModel) -> bool {
    &&& !f.is_const
    &&& !f.is_async
    &&& !f.is_unsafe
    &&& !f.has_abi
    &&& !f.is_variadic
    &&& signature_supported(f.sig)
}

/// The first reason why `f` cannot carry a binding attribute, if any: the
/// qualifiers of the function are looked at before its signature.
pub open spec fn item_problem(f: ItemFnModel) -> Option<Unsupported> {
    if f.is_const {
        Some(Unsupported::ConstFn)
    } else if f.is_async {
        Some(Unsupported::AsyncFn)
    } else if f.is_unsafe {
        Some(Unsupported::UnsafeFn)
    } else if f.has_abi {
        Some(Unsupported::ExternAbi)
    } else if f.is_variadic {
        Some(Unsupported::Variadic)
    } else {
        signature_problem(f.sig)
    }
}

/// Looks for the first reason why `f` cannot carry a binding attribute;
/// `Ok` exactly when `wrap_method` accepts it.
pub fn check_item(f: &ItemFnModel) -> (r: Result<(), Unsupported>)
    ensures
        r == (match item_problem(*f) {
            Some(e) => Err(e),
            None => Ok(()),
        }),
        r is Ok <==> item_supported(*f),
{
    proof {
        lemma_signature_problem(f.sig);
    }
    if f.is_const {
        Err(Unsupported::ConstFn)
    } else if f.is_async {
        Err(Unsupported::AsyncFn)
    } else if f.is_unsafe {
        Err(Unsupported::UnsafeFn)
    } else if f.has_abi {
        Err(Unsupported::ExternAbi)
    } else if f.is_variadic {
        Err(Unsupported::Variadic)
    } else {
        check_signature(&f.sig)
    }
}

/// A function can carry a binding attribute exactly when it is neither
/// `const`, `async`, `unsafe`, `extern` nor variadic and its signature can be
/// classified; otherwise the first reason is the first qualifier found, then
/// the first problem of the signature.
pub proof fn law_item_accepted(f: ItemFnModel)
    ensures
        item_supported(f) <==> item_problem(f) is None,
        item_supported(f) <==> (!f.is_const && !f.is_async && !f.is_unsafe && !f.has_abi
            && !f.is_variadic && signature_problem(f.sig) is None),
{
    lemma_signature_problem(f.sig);
}

fn build_context(need: bool, context: &Option<String>, common: &String, target: &str) -> (r: String)
    requires
        common@ == common_text(),
    ensures
        r@ == build_context_text(need, *context, target@),
{
    if need {
        match context {
            Some(c) => {
                let mut s = String::from_str("let _ctx = ");
                cat(&mut s, c);
                s.append(" :: from_vmctx(");
                s.append(target);
                s.append("); ");
                s
            },
            None => {
                let mut s = String::from_str("let _ctx = ");
                cat(&mut s, common);
                s.append(" :: VMContextWrapper(");
                s.append(target);
                s.append("); ");
                s
            },
        }
    } else {
        String::new()
    }
}

fn context_name(need: bool, context: &Option<String>, common: &String) -> (r: String)
    requires
        common@ == common_text(),
    ensures
        r@ == context_name_text(need, *context),
{
    if need {
        match context {
            Some(c) => c.clone(),
            None => {
                let mut s = common.clone();
                s.append(" :: VMContextWrapper");
                s
            },
        }
    } else {
        String::from_str("panic!(\"context n/a\")")
    }
}

fn wrapper_call(
    inputs: &String,
    output: &String,
    common: &String,
    t: &TransformSignatureResult,
    build_cb: &String,
) -> (r: String)
    requires
        common@ == common_text(),
    ensures
        r@ == wrapper_call_text(
            inputs@,
            output@,
            t.abi_params@,
            t.abi_return@,
            build_cb@,
            t.cb_params_conversion@,
            t.cb_call_args@,
            t.cb_ret_conversion@,
        ),
{
    let mut s = String::from_str("pub fn call(&self, ");
    cat(&mut s, inputs);
    s.append(") ");
    cat(&mut s, output);
    s.append(" { type F = extern fn(");
    cat(&mut s, &t.abi_params);
    s.append(") ");
    cat(&mut s, &t.abi_return);
    s.append("; let (_f, vmctx) = ");
    cat(&mut s, common);
    s.append(" :: get_body_as::<F>(&self . export); ");
    cat(&mut s, build_cb);
    cat(&mut s, &t.cb_params_conversion);
    s.append("let _res = unsafe { (*_f)(");
    cat(&mut s, &t.cb_call_args);
    s.append(") }; ");
    cat(&mut s, &t.cb_ret_conversion);
    s.append(" }");
    s
}

fn module(
    vis: &String,
    m: &String,
    inputs: &String,
    output: &String,
    common: &String,
    t: &TransformSignatureResult,
    build_cb: &String,
) -> (r: String)
    requires
        common@ == common_text(),
    ensures
        r@ == module_text(
            vis@,
            m@,
            inputs@,
            output@,
            t.abi_params@,
            t.abi_return@,
            t.sig_build@,
            build_cb@,
            t.cb_params_conversion@,
            t.cb_call_args@,
            t.cb_ret_conversion@,
        ),
{
    let mut s = vis.clone();
    s.append(" mod ");
    cat(&mut s, m);
    s.append(" { use super::*; use ");
    cat(&mut s, common);
    s.append(" :: codegen :: {ir, isa}; use ");
    cat(&mut s, common);
    s.append(" :: { VMContext, InstanceHandle, InstanceHandleExport }; pub fn signature() -> ir::Signature { ");
    cat(&mut s, &t.sig_build);
    s.append("sig } pub struct Wrapper { vmctx: *mut VMContext, export: InstanceHandleExport, } impl Wrapper { pub fn new(mut instance: InstanceHandle, export: InstanceHandleExport) -> Self { Wrapper { vmctx: instance.vmctx_mut_ptr(), export, } } ");
    let call = wrapper_call(inputs, output, common, t, build_cb);
    cat(&mut s, &call);
    s.append(" } } ");
    s
}

/// Expands a function that carries a binding attribute with options `attr`:
/// an `extern fn` with the function's name that wasm calls with ABI values,
/// and, when the options name a module, that module with a `Wrapper` that
/// calls the export from Rust.
pub fn wrap_method(f: &ItemFnModel, attr: &TransformAttributes) -> (r: String)
    requires
        item_supported(*f),
    ensures
        r@ == wrap_method_text(*f, *attr),
{
    let rsig = read_signature(&f.sig, &attr.context);
    let common = String::from_str(":: wasmtime_bindings_common");
    let need = need_context(&rsig);
    let build = build_context(need, &attr.context, &common, "vmctx");
    let build_cb = build_context(need, &attr.context, &common, "self.vmctx");
    let ctx = context_name(need, &attr.context, &common);
    let t = transform_sig(&rsig, &ctx, &common);
    let def_module = match &attr.module {
        Some(m) => module(&f.vis, m, &f.inputs, &f.output, &common, &t, &build_cb),
        None => String::new(),
    };
    let mut s = String::from_str("pub extern fn ");
    cat(&mut s, &f.name);
    s.append(" (");
    cat(&mut s, &t.abi_params);
    s.append(") ");
    cat(&mut s, &t.abi_return);
    let mut body = String::from_str(" { let _closure = | ");
    cat(&mut body, &f.inputs);
    body.append(" | ");
    cat(&mut body, &f.output);
    body.append(" ");
    cat(&mut body, &f.block);
    body.append("; ");
    cat(&mut body, &build);
    cat(&mut body, &t.params_conversion);
    body.append("let _res = _closure( ");
    cat(&mut body, &t.call_args);
    body.append("); ");
    cat(&mut body, &t.ret_conversion);
    body.append(" } ");
    cat(&mut s, &body);
    cat(&mut s, &def_module);
    s
}

/// The ABI arguments of the parameters `ps`, in order: for each parameter
/// that crosses as an ABI value, its position and its ABI type.
pub open spec fn abi_slots(ps: Seq<Parameter>, ctx: Seq<char>, common: Seq<char>) -> Seq<(nat, Seq<char>)>
    decreases ps.len(),
{
    if ps.len() == 0 {
        Seq::empty()
    } else {
        let i = (ps.len() - 1) as nat;
        abi_slots(ps.drop_last(), ctx, common) + match param_abi_text(ps.last(), ctx, common) {
            Some(t) => seq![(i, t)],
            None => Seq::empty(),
        }
    }
}

/// The text that the ABI arguments `slots` give in the place `s`: a parameter
/// of the `extern fn`, a parameter of the cranelift signature, or an argument
/// of the call into wasm, one per slot.
pub open spec fn slots_text(s: Stream, slots: Seq<(nat, Seq<char>)>, common: Seq<char>) -> Seq<char>
    decreases slots.len(),
{
    if slots.len() == 0 {
        Seq::empty()
    } else {
        slots_text(s, slots.drop_last(), common) + slot_text(s, slots.last(), common)
    }
}

/// The text that one ABI argument gives in the place `s`.
pub open spec fn slot_text(s: Stream, slot: (nat, Seq<char>), common: Seq<char>) -> Seq<char> {
    let (i, t) = slot;
    match s {
        Stream::AbiParams => internal_id_text(i) + ": "@ + t + ", "@,
        Stream::SigParams => sig_push_text("params"@, t, common),
        _ => internal_id_text(i) + ", "@,
    }
}

proof fn lemma_slots_text_push(s: Stream, slots: Seq<(nat, Seq<char>)>, x: (nat, Seq<char>), common: Seq<char>)
    ensures
        slots_text(s, slots + seq![x], common) == slots_text(s, slots, common) + slot_text(s, x, common),
{
    assert((slots + seq![x]).drop_last() =~= slots);
    assert((slots + seq![x]).last() == x);
}

/// The exported `extern fn`, the cranelift signature and the call into wasm
/// agree on the ABI arguments: each of the three lists exactly the ABI
/// arguments of `abi_slots`, in the same order and with the same types, and
/// the positions of the slots strictly increase, so their names are distinct.
pub proof fn law_abi_slots_agree(ps: Seq<Parameter>, ctx: Seq<char>, common: Seq<char>)
    ensures
        pieces(Stream::AbiParams, ps, ctx, common) == slots_text(Stream::AbiParams, abi_slots(ps, ctx, common), common),
        pieces(Stream::SigParams, ps, ctx, common) == slots_text(Stream::SigParams, abi_slots(ps, ctx, common), common),
        pieces(Stream::CbCallArgs, ps, ctx, common) == slots_text(Stream::CbCallArgs, abi_slots(ps, ctx, common), common),
        forall|j: int, k: int|
            0 <= j < k < abi_slots(ps, ctx, common).len() ==> abi_slots(ps, ctx, common)[j].0
                < abi_slots(ps, ctx, common)[k].0,
        forall|j: int|
            0 <= j < abi_slots(ps, ctx, common).len() ==> abi_slots(ps, ctx, common)[j].0 < ps.len(),
    decreases ps.len(),
{
    if ps.len() > 0 {
        let rest = ps.drop_last();
        law_abi_slots_agree(rest, ctx, common);
        let i = (ps.len() - 1) as nat;
        let prev = abi_slots(rest, ctx, common);
        match param_abi_text(ps.last(), ctx, common) {
            Some(t) => {
                let x = (i, t);
                lemma_slots_text_push(Stream::AbiParams, prev, x, common);
                lemma_slots_text_push(Stream::SigParams, prev, x, common);
                lemma_slots_text_push(Stream::CbCallArgs, prev, x, common);
                let all = abi_slots(ps, ctx, common);
                assert(all == prev + seq![x]);
                assert forall|j: int, k: int| 0 <= j < k < all.len() implies all[j].0 < all[k].0 by {
                    if k == all.len() - 1 {
                        assert(all[j] == prev[j]);
                    } else {
                        assert(all[j] == prev[j]);
                        assert(all[k] == prev[k]);
                    }
                }
            },
            None => {
                assert(abi_slots(ps, ctx, common) =~= prev);
                assert(pieces(Stream::AbiParams, ps, ctx, common) =~= pieces(Stream::AbiParams, rest, ctx, common));
                assert(pieces(Stream::SigParams, ps, ctx, common) =~= pieces(Stream::SigParams, rest, ctx, common));
                assert(pieces(Stream::CbCallArgs, ps, ctx, common) =~= pieces(Stream::CbCallArgs, rest, ctx, common));
            },
        }
    }
}

} // verus!
