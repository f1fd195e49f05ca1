use vstd::prelude::*;

use crate::ident::{decimal, digit_char, internal_id_text};
use crate::method::{
    abi_return_text, build_context_text, cb_ret_conversion_text, common_text, context_name_text,
    expansion_text, extern_fn_body_text, extern_fn_sig_text, module_head_text, module_text,
    name_text, piece,
    pieces, prim_abi_text, ret_conversion_text, sig_prelude_text, sig_return_text,
    wrap_method_text, wrapper_call_text, ItemFnModel, Stream, TransformAttributes,
};
use crate::signature::{
    needs_context, param_needs_context, spec_params, spec_read_result, Parameter, ParameterType,
    Return,
};

verus! {

/// The characters `_ctx` are written in `s` at position `k`.
pub open spec fn ctx_at(s: Seq<char>, k: int) -> bool {
    &&& 0 <= k
    &&& k + 4 <= s.len()
    &&& s[k] == '_'
    &&& s[k + 1] == 'c'
    &&& s[k + 2] == 't'
    &&& s[k + 3] == 'x'
}

/// Whether `c` can continue a Rust identifier (every non-ASCII character is
/// taken to be able to).
pub open spec fn ident_char(c: char) -> bool {
    c == '_' || ('a' <= c && c <= 'z') || ('A' <= c && c <= 'Z') || ('0' <= c && c <= '9')
        || '\u{80}' <= c
}

/// The identifier `_ctx` is written in `s` at position `k`: the characters
/// `_ctx`, with no identifier character just before or just after them.
pub open spec fn ctx_ident_at(s: Seq<char>, k: int) -> bool {
    &&& ctx_at(s, k)
    &&& (k == 0 || !ident_char(s[k - 1]))
    &&& (k + 4 == s.len() || !ident_char(s[k + 4]))
}

/// The identifier `_ctx` is written somewhere in `s`.
pub open spec fn mentions_ctx(s: Seq<char>) -> bool {
    exists|k: int| ctx_ident_at(s, k)
}

/// The characters `_ctx` are written somewhere in `s`.
spec fn writes_ctx(s: Seq<char>) -> bool {
    exists|k: int| ctx_at(s, k)
}

/// Whether the characters `_ctx` are written in `s` at position `k` or later.
spec fn scan_from(s: Seq<char>, k: int) -> bool
    decreases s.len() - k,
{
    if k < 0 || k + 4 > s.len() {
        false
    } else {
        ctx_at(s, k) || scan_from(s, k + 1)
    }
}

proof fn lemma_scan_from(s: Seq<char>, k: int)
    requires
        0 <= k,
        !scan_from(s, k),
    ensures
        forall|j: int| j >= k ==> !ctx_at(s, j),
    decreases s.len() - k,
{
    if k + 4 <= s.len() {
        lemma_scan_from(s, k + 1);
    }
}

/// Nothing written before `s` can end a `_ctx` that `s` starts.
pub open spec fn starts_safe(s: Seq<char>) -> bool {
    s.len() == 0 || !(s[0] == 'c' || s[0] == 't' || s[0] == 'x')
}

/// Nothing written after `s` can end a `_ctx` that `s` starts to write.
pub open spec fn ends_safe(s: Seq<char>) -> bool {
    s.len() == 0 || !(s.last() == '_' || s.last() == 'c' || s.last() == 't')
}

/// A fixed fragment of the templates: it does not hold the characters `_ctx`
/// and cannot form them with its neighbours.
spec fn plain(s: Seq<char>) -> bool {
    !writes_ctx(s) && !mentions_ctx(s) && starts_safe(s) && ends_safe(s) && s.len() > 0
}

proof fn lemma_plain(s: Seq<char>)
    requires
        !scan_from(s, 0),
        s.len() > 0,
        starts_safe(s),
        ends_safe(s),
    ensures
        plain(s),
{
    lemma_scan_from(s, 0);
}

/// The empty text writes nothing.
proof fn lemma_empty_free()
    ensures
        !mentions_ctx(Seq::<char>::empty()),
        ends_safe(Seq::<char>::empty()),
{
    if mentions_ctx(Seq::<char>::empty()) {
        let k = choose|k: int| ctx_ident_at(Seq::<char>::empty(), k);
    }
}

proof fn lemma_join(a: Seq<char>, b: Seq<char>)
    requires
        !mentions_ctx(a),
        !mentions_ctx(b),
        ends_safe(a) || starts_safe(b),
    ensures
        !mentions_ctx(a + b),
        b.len() > 0 ==> (ends_safe(a + b) == ends_safe(b)),
        b.len() == 0 ==> a + b == a,
{
    let c = a + b;
    if mentions_ctx(c) {
        let k = choose|k: int| ctx_ident_at(c, k);
        if k + 4 <= a.len() {
            assert(ctx_ident_at(a, k));
        } else if k >= a.len() {
            assert(ctx_ident_at(b, k - a.len()));
        } else {
            assert(c[a.len() - 1] == a.last());
            assert(c[a.len() as int] == b[0]);
        }
    }
    if b.len() == 0 {
        assert(c =~= a);
    } else {
        assert(c.last() == b.last());
    }
}

/// Joining texts that do not write the identifier `_ctx` gives a text that
/// does not write it, where the join cannot form one.
proof fn lemma_joins()
    ensures
        forall|a: Seq<char>, b: Seq<char>|
            !mentions_ctx(a) && !mentions_ctx(b) && (ends_safe(a) || starts_safe(b)) ==> {
                &&& !mentions_ctx(#[trigger] (a + b))
                &&& b.len() > 0 ==> (ends_safe(a + b) == ends_safe(b))
                &&& b.len() == 0 ==> a + b == a
            },
{
    assert forall|a: Seq<char>, b: Seq<char>|
        !mentions_ctx(a) && !mentions_ctx(b) && (ends_safe(a) || starts_safe(b)) implies {
            &&& !mentions_ctx(#[trigger] (a + b))
            &&& b.len() > 0 ==> (ends_safe(a + b) == ends_safe(b))
            &&& b.len() == 0 ==> a + b == a
        } by {
        lemma_join(a, b);
    }
}

/// `s` writes the identifier `_ctx` with characters of `s` on both sides.
spec fn inner_ctx(s: Seq<char>) -> bool {
    exists|k: int| ctx_ident_at(s, k) && 0 < k && k + 4 < s.len()
}

/// `s` writes the identifier `_ctx` with a character of `s` after it.
spec fn anchored_ctx(s: Seq<char>) -> bool {
    exists|k: int| ctx_ident_at(s, k) && k + 4 < s.len()
}

/// An identifier `_ctx` with characters on both sides stays one in any text
/// that holds it.
proof fn lemma_inner_joins()
    ensures
        forall|a: Seq<char>, b: Seq<char>|
            (inner_ctx(a) || inner_ctx(b)) ==> #[trigger] inner_ctx(a + b),
{
    assert forall|a: Seq<char>, b: Seq<char>| (inner_ctx(a) || inner_ctx(b)) implies #[trigger] inner_ctx(a + b) by {
        let c = a + b;
        if inner_ctx(a) {
            let k = choose|k: int| ctx_ident_at(a, k) && 0 < k && k + 4 < a.len();
            assert(ctx_ident_at(c, k) && 0 < k && k + 4 < c.len());
        } else {
            let k = choose|k: int| ctx_ident_at(b, k) && 0 < k && k + 4 < b.len();
            assert(ctx_ident_at(c, k + a.len()) && 0 < k + a.len() && k + a.len() + 4 < c.len());
        }
    }
}

proof fn lemma_anchored_left(a: Seq<char>, b: Seq<char>)
    requires
        anchored_ctx(a),
    ensures
        anchored_ctx(a + b),
{
    let k = choose|k: int| ctx_ident_at(a, k) && k + 4 < a.len();
    assert(ctx_ident_at(a + b, k));
}

proof fn lemma_anchored_right(a: Seq<char>, b: Seq<char>)
    requires
        anchored_ctx(b),
        a.len() == 0 || !ident_char(a.last()),
    ensures
        anchored_ctx(a + b),
{
    let k = choose|k: int| ctx_ident_at(b, k) && k + 4 < b.len();
    let c = a + b;
    if k == 0 && a.len() > 0 {
        assert(c[a.len() - 1] == a.last());
    }
    assert(ctx_ident_at(c, k + a.len()));
}

proof fn lemma_anchored_mentions(s: Seq<char>)
    requires
        anchored_ctx(s) || inner_ctx(s),
    ensures
        mentions_ctx(s),
{
}

/// The fixed fragments of the templates that write no host context.
proof fn lemma_fragments()
    ensures
        plain("let "@),
        plain(" = <"@),
        plain(" as "@),
        plain(" :: AbiPrimitive>::create_from_abi("@),
        plain("); "@),
        plain("let _self = get_self_mut(vmctx); "@),
        plain("let _self = get_self(vmctx); "@),
        plain("vmctx, "@),
        plain(", "@),
        plain(" = "@),
        plain(".convert_to_abi(); "@),
        plain("_res.convert_to_abi()"@),
        plain("<"@),
        plain(" :: AbiPrimitive>::create_from_abi(_res)"@),
        plain("_a"@),
        plain(" :: AbiPrimitive>::Abi"@),
        plain(": "@),
        plain("sig."@),
        plain("params"@),
        plain("returns"@),
        plain(".push(ir::AbiParam::new("@),
        plain(" :: get_ir_type::<"@),
        plain(">())); "@),
        plain("-> "@),
        plain(":: wasmtime_bindings_common"@),
{
    reveal_strlit("let ");
    reveal_strlit(" = <");
    reveal_strlit(" as ");
    reveal_strlit(" :: AbiPrimitive>::create_from_abi(");
    reveal_strlit("); ");
    reveal_strlit("let _self = get_self_mut(vmctx); ");
    reveal_strlit("let _self = get_self(vmctx); ");
    reveal_strlit("vmctx, ");
    reveal_strlit(", ");
    reveal_strlit(" = ");
    reveal_strlit(".convert_to_abi(); ");
    reveal_strlit("_res.convert_to_abi()");
    reveal_strlit("<");
    reveal_strlit(" :: AbiPrimitive>::create_from_abi(_res)");
    reveal_strlit("_a");
    reveal_strlit(" :: AbiPrimitive>::Abi");
    reveal_strlit(": ");
    reveal_strlit("sig.");
    reveal_strlit("params");
    reveal_strlit("returns");
    reveal_strlit(".push(ir::AbiParam::new(");
    reveal_strlit(" :: get_ir_type::<");
    reveal_strlit(">())); ");
    reveal_strlit("-> ");
    reveal_strlit(":: wasmtime_bindings_common");
    reveal_with_fuel(scan_from, 45);
    lemma_plain("let "@);
    lemma_plain(" = <"@);
    lemma_plain(" as "@);
    lemma_plain(" :: AbiPrimitive>::create_from_abi("@);
    lemma_plain("); "@);
    lemma_plain("let _self = get_self_mut(vmctx); "@);
    lemma_plain("let _self = get_self(vmctx); "@);
    lemma_plain("vmctx, "@);
    lemma_plain(", "@);
    lemma_plain(" = "@);
    lemma_plain(".convert_to_abi(); "@);
    lemma_plain("_res.convert_to_abi()"@);
    lemma_plain("<"@);
    lemma_plain(" :: AbiPrimitive>::create_from_abi(_res)"@);
    lemma_plain("_a"@);
    lemma_plain(" :: AbiPrimitive>::Abi"@);
    lemma_plain(": "@);
    lemma_plain("sig."@);
    lemma_plain("params"@);
    lemma_plain("returns"@);
    lemma_plain(".push(ir::AbiParam::new("@);
    lemma_plain(" :: get_ir_type::<"@);
    lemma_plain(">())); "@);
    lemma_plain("-> "@);
    lemma_plain(":: wasmtime_bindings_common"@);
}

/// The fixed fragments of the expansion around the glue pieces.
proof fn lemma_expansion_fragments()
    ensures
        plain("pub extern fn "@),
        plain(" ("@),
        plain(") "@),
        plain("vmctx: *mut VMContext, "@),
        plain(" { let _closure = | "@),
        plain(" | "@),
        plain(" "@),
        plain("; "@),
        plain("let _res = _closure( "@),
        plain(" } "@),
        plain(" mod "@),
        plain(" { use super::*; use "@),
        plain(" :: codegen :: {ir, isa}; use "@),
        plain("pub fn call(&self, "@),
        plain(" { type F = extern fn("@),
        plain("; let (_f, vmctx) = "@),
        plain(" :: get_body_as::<F>(&self . export); "@),
        plain("let _res = unsafe { (*_f)("@),
        plain(") }; "@),
        plain(" }"@),
        plain(" } } "@),
{
    reveal_strlit("pub extern fn ");
    reveal_strlit(" (");
    reveal_strlit(") ");
    reveal_strlit("vmctx: *mut VMContext, ");
    reveal_strlit(" { let _closure = | ");
    reveal_strlit(" | ");
    reveal_strlit(" ");
    reveal_strlit("; ");
    reveal_strlit("let _res = _closure( ");
    reveal_strlit(" } ");
    reveal_strlit(" mod ");
    reveal_strlit(" { use super::*; use ");
    reveal_strlit(" :: codegen :: {ir, isa}; use ");
    reveal_strlit("pub fn call(&self, ");
    reveal_strlit(" { type F = extern fn(");
    reveal_strlit("; let (_f, vmctx) = ");
    reveal_strlit(" :: get_body_as::<F>(&self . export); ");
    reveal_strlit("let _res = unsafe { (*_f)(");
    reveal_strlit(") }; ");
    reveal_strlit(" }");
    reveal_strlit(" } } ");
    reveal_with_fuel(scan_from, 45);
    lemma_plain("pub extern fn "@);
    lemma_plain(" ("@);
    lemma_plain(") "@);
    lemma_plain("vmctx: *mut VMContext, "@);
    lemma_plain(" { let _closure = | "@);
    lemma_plain(" | "@);
    lemma_plain(" "@);
    lemma_plain("; "@);
    lemma_plain("let _res = _closure( "@);
    lemma_plain(" } "@);
    lemma_plain(" mod "@);
    lemma_plain(" { use super::*; use "@);
    lemma_plain(" :: codegen :: {ir, isa}; use "@);
    lemma_plain("pub fn call(&self, "@);
    lemma_plain(" { type F = extern fn("@);
    lemma_plain("; let (_f, vmctx) = "@);
    lemma_plain(" :: get_body_as::<F>(&self . export); "@);
    lemma_plain("let _res = unsafe { (*_f)("@);
    lemma_plain(") }; "@);
    lemma_plain(" }"@);
    lemma_plain(" } } "@);
}

/// The long fixed fragments of the module: its imports, its `Wrapper`, and
/// the start of the cranelift signature.
proof fn lemma_long_fragments()
    ensures
        plain(" :: { VMContext, InstanceHandle, InstanceHandleExport }; pub fn signature() -> ir::Signature { "@),
        plain("sig } pub struct Wrapper { vmctx: *mut VMContext, export: InstanceHandleExport, } impl Wrapper { pub fn new(mut instance: InstanceHandle, export: InstanceHandleExport) -> Self { Wrapper { vmctx: instance.vmctx_mut_ptr(), export, } } "@),
        plain(sig_prelude_text()),
{
    reveal_strlit(" :: { VMContext, InstanceHandle, InstanceHandleExport }; pub fn signature() -> ir::Signature { ");
    reveal_strlit("sig } pub struct Wrapper { vmctx: *mut VMContext, export: InstanceHandleExport, } impl Wrapper { pub fn new(mut instance: InstanceHandle, export: InstanceHandleExport) -> Self { Wrapper { vmctx: instance.vmctx_mut_ptr(), export, } } ");
    reveal_strlit("let mut sig = ir::Signature::new(isa::CallConv::SystemV); sig.params.push(ir::AbiParam::special(ir::types::I64, ir::ArgumentPurpose::VMContext, )); ");
    let h = " :: { VMContext, InstanceHandle, InstanceHandleExport }; pub fn signature() -> ir::Signature { "@;
    let w = "sig } pub struct Wrapper { vmctx: *mut VMContext, export: InstanceHandleExport, } impl Wrapper { pub fn new(mut instance: InstanceHandle, export: InstanceHandleExport) -> Self { Wrapper { vmctx: instance.vmctx_mut_ptr(), export, } } "@;
    let p = sig_prelude_text();
    assert(!scan_from(h, 50)) by {
        reveal_with_fuel(scan_from, 60);
    }
    assert(!scan_from(h, 0)) by {
        reveal_with_fuel(scan_from, 60);
    }
    assert(!scan_from(w, 200)) by {
        reveal_with_fuel(scan_from, 50);
    }
    assert(!scan_from(w, 160)) by {
        reveal_with_fuel(scan_from, 50);
    }
    assert(!scan_from(w, 120)) by {
        reveal_with_fuel(scan_from, 50);
    }
    assert(!scan_from(w, 80)) by {
        reveal_with_fuel(scan_from, 50);
    }
    assert(!scan_from(w, 40)) by {
        reveal_with_fuel(scan_from, 50);
    }
    assert(!scan_from(w, 0)) by {
        reveal_with_fuel(scan_from, 50);
    }
    assert(!scan_from(p, 120)) by {
        reveal_with_fuel(scan_from, 50);
    }
    assert(!scan_from(p, 80)) by {
        reveal_with_fuel(scan_from, 50);
    }
    assert(!scan_from(p, 40)) by {
        reveal_with_fuel(scan_from, 50);
    }
    assert(!scan_from(p, 0)) by {
        reveal_with_fuel(scan_from, 50);
    }
    lemma_plain(h);
    lemma_plain(w);
    lemma_plain(p);
}

/// The fixed fragments of the templates that use the host context.
proof fn lemma_context_fragments()
    ensures
        inner_ctx(" = _ctx.as_ptr("@),
        anchored_ctx("_ctx, "@),
        mentions_ctx("_ctx.as_off(_res)"@),
        inner_ctx("let _ctx = "@),
{
    reveal_strlit(" = _ctx.as_ptr(");
    reveal_strlit("_ctx, ");
    reveal_strlit("_ctx.as_off(_res)");
    reveal_strlit("let _ctx = ");
    assert(ctx_ident_at(" = _ctx.as_ptr("@, 3));
    assert(ctx_ident_at("_ctx, "@, 0));
    assert(ctx_ident_at("_ctx.as_off(_res)"@, 0));
    assert(ctx_ident_at("let _ctx = "@, 4));
}

proof fn lemma_decimal_digits(n: nat)
    ensures
        forall|j: int| 0 <= j < decimal(n).len() ==> '0' <= #[trigger] decimal(n)[j] <= '9',
        decimal(n).len() > 0,
    decreases n,
{
    if n >= 10 {
        lemma_decimal_digits(n / 10);
        let d = decimal(n);
        let e = decimal(n / 10);
        assert(d == e.push(digit_char(n % 10)));
        assert forall|j: int| 0 <= j < d.len() implies '0' <= #[trigger] d[j] <= '9' by {
            if j < e.len() {
                assert(d[j] == e[j]);
            }
        }
    }
}

/// The names of the ABI arguments never write the characters `_ctx`, and
/// cannot form them with their neighbours.
proof fn lemma_id_free(i: nat)
    ensures
        !mentions_ctx(internal_id_text(i)),
        starts_safe(internal_id_text(i)),
        ends_safe(internal_id_text(i)),
{
    lemma_fragments();
    lemma_decimal_digits(i);
    let d = decimal(i);
    if mentions_ctx(d) {
        let k = choose|k: int| ctx_ident_at(d, k);
        assert('0' <= d[k] <= '9');
    }
    lemma_join("_a"@, d);
    reveal_strlit("_a");
    assert(internal_id_text(i)[0] == '_');
    assert('0' <= d.last() <= '9');
}

/// The texts that the generated glue copies from the signature, and the path
/// of the support crate, do not write the identifier `_ctx`.
pub open spec fn texts_free(ps: Seq<Parameter>, r: Option<Return>, common: Seq<char>) -> bool {
    &&& !mentions_ctx(common)
    &&& forall|i: int| 0 <= i < ps.len() ==> !mentions_ctx(#[trigger] name_text(ps[i].id))
    &&& forall|i: int|
        0 <= i < ps.len() ==> (#[trigger] ps[i].ty matches ParameterType::Simple(t, _) ==> !mentions_ctx(t@))
    &&& (r matches Some(Return::Simple(t)) ==> !mentions_ctx(t@))
}

/// Every piece of glue ends with a space, or is empty.
proof fn lemma_piece_ends(s: Stream, p: Parameter, i: nat, ctx: Seq<char>, common: Seq<char>)
    ensures
        piece(s, p, i, ctx, common).len() == 0 || piece(s, p, i, ctx, common).last() == ' ',
{
    reveal_strlit(", ");
    reveal_strlit(">())); ");
    reveal_strlit("); ");
    reveal_strlit(".convert_to_abi(); ");
    reveal_strlit("let _self = get_self_mut(vmctx); ");
    reveal_strlit("let _self = get_self(vmctx); ");
    reveal_strlit("vmctx, ");
    reveal_strlit("_ctx, ");
    let x = piece(s, p, i, ctx, common);
    if x.len() > 0 {
        assert(x.last() == ' ');
    }
}

proof fn lemma_prim_abi_free(ty: Seq<char>, common: Seq<char>)
    requires
        !mentions_ctx(ty),
        !mentions_ctx(common),
    ensures
        !mentions_ctx(prim_abi_text(ty, common)),
        ends_safe(prim_abi_text(ty, common)),
{
    lemma_fragments();
    lemma_joins();
}

proof fn lemma_piece_free(s: Stream, p: Parameter, i: nat, ctx: Seq<char>, common: Seq<char>)
    requires
        !param_needs_context(p),
        !mentions_ctx(common),
        !mentions_ctx(name_text(p.id)),
        p.ty matches ParameterType::Simple(t, _) ==> !mentions_ctx(t@),
    ensures
        !mentions_ctx(piece(s, p, i, ctx, common)),
        ends_safe(piece(s, p, i, ctx, common)),
{
    lemma_fragments();
    lemma_empty_free();
    lemma_id_free(i);
    lemma_joins();
    lemma_piece_ends(s, p, i, ctx, common);
    if let ParameterType::Simple(t, _) = p.ty {
        lemma_prim_abi_free(t@, common);
    }
}

proof fn lemma_pieces_free(s: Stream, ps: Seq<Parameter>, ctx: Seq<char>, common: Seq<char>)
    requires
        forall|i: int| 0 <= i < ps.len() ==> !#[trigger] param_needs_context(ps[i]),
        !mentions_ctx(common),
        forall|i: int| 0 <= i < ps.len() ==> !mentions_ctx(#[trigger] name_text(ps[i].id)),
        forall|i: int|
            0 <= i < ps.len() ==> (#[trigger] ps[i].ty matches ParameterType::Simple(t, _) ==> !mentions_ctx(t@)),
    ensures
        !mentions_ctx(pieces(s, ps, ctx, common)),
        ends_safe(pieces(s, ps, ctx, common)),
    decreases ps.len(),
{
    lemma_empty_free();
    if ps.len() > 0 {
        let rest = ps.drop_last();
        assert forall|i: int| 0 <= i < rest.len() implies !#[trigger] param_needs_context(rest[i]) by {
            assert(rest[i] == ps[i]);
        }
        assert forall|i: int| 0 <= i < rest.len() implies !mentions_ctx(#[trigger] name_text(rest[i].id)) by {
            assert(rest[i] == ps[i]);
        }
        assert forall|i: int|
            0 <= i < rest.len() implies (#[trigger] rest[i].ty matches ParameterType::Simple(t, _) ==> !mentions_ctx(t@)) by {
            assert(rest[i] == ps[i]);
        }
        lemma_pieces_free(s, rest, ctx, common);
        let last = ps[ps.len() - 1];
        assert(!param_needs_context(last));
        assert(!mentions_ctx(name_text(last.id)));
        assert(last.ty matches ParameterType::Simple(t, _) ==> !mentions_ctx(t@));
        lemma_piece_free(s, last, (ps.len() - 1) as nat, ctx, common);
        lemma_join(pieces(s, rest, ctx, common), piece(s, last, (ps.len() - 1) as nat, ctx, common));
    }
}

/// The glue pieces together end with a space, or are empty.
proof fn lemma_pieces_ends(s: Stream, ps: Seq<Parameter>, ctx: Seq<char>, common: Seq<char>)
    ensures
        pieces(s, ps, ctx, common).len() == 0 || pieces(s, ps, ctx, common).last() == ' ',
    decreases ps.len(),
{
    if ps.len() > 0 {
        lemma_pieces_ends(s, ps.drop_last(), ctx, common);
        lemma_piece_ends(s, ps.last(), (ps.len() - 1) as nat, ctx, common);
    }
}

proof fn lemma_pieces_mention(s: Stream, ps: Seq<Parameter>, i: int, ctx: Seq<char>, common: Seq<char>)
    requires
        0 <= i < ps.len(),
        anchored_ctx(piece(s, ps[i], i as nat, ctx, common)),
    ensures
        anchored_ctx(pieces(s, ps, ctx, common)),
    decreases ps.len(),
{
    let rest = ps.drop_last();
    let last = piece(s, ps.last(), (ps.len() - 1) as nat, ctx, common);
    if i < ps.len() - 1 {
        assert(rest[i] == ps[i]);
        lemma_pieces_mention(s, rest, i, ctx, common);
        lemma_anchored_left(pieces(s, rest, ctx, common), last);
    } else {
        lemma_pieces_ends(s, rest, ctx, common);
        lemma_anchored_right(pieces(s, rest, ctx, common), last);
    }
}

/// Generated glue uses the host context `_ctx` exactly when the signature
/// needs it: one of the statements and arguments that lift, pass and lower
/// values writes the identifier `_ctx` if and only if a parameter is a
/// pointer or the host context, or the result is a pointer.  The texts that
/// the glue copies from the signature, and the support crate's path, are
/// taken not to be or hold the identifier `_ctx` themselves.
pub proof fn law_context_used_iff_needed(ps: Seq<Parameter>, r: Option<Return>, ctx: Seq<char>, common: Seq<char>)
    requires
        texts_free(ps, r, common),
    ensures
        needs_context(ps, r) <==> (mentions_ctx(pieces(Stream::ParamsConversion, ps, ctx, common))
            || mentions_ctx(pieces(Stream::CallArgs, ps, ctx, common))
            || mentions_ctx(ret_conversion_text(r))
            || mentions_ctx(pieces(Stream::CbParamsConversion, ps, ctx, common))
            || mentions_ctx(cb_ret_conversion_text(r, common))),
{
    lemma_fragments();
    lemma_context_fragments();
    lemma_empty_free();
    lemma_inner_joins();
    if needs_context(ps, r) {
        if r matches Some(Return::Ptr(_)) {
        } else {
            let i = choose|i: int| 0 <= i < ps.len() && #[trigger] param_needs_context(ps[i]);
            let p = ps[i];
            match p.ty {
                ParameterType::Ptr(_) => {
                    let x = piece(Stream::ParamsConversion, p, i as nat, ctx, common);
                    assert(inner_ctx(x));
                    assert(anchored_ctx(x));
                    lemma_pieces_mention(Stream::ParamsConversion, ps, i, ctx, common);
                    lemma_anchored_mentions(pieces(Stream::ParamsConversion, ps, ctx, common));
                },
                _ => {
                    lemma_pieces_mention(Stream::CallArgs, ps, i, ctx, common);
                    lemma_anchored_mentions(pieces(Stream::CallArgs, ps, ctx, common));
                },
            }
        }
    } else {
        lemma_joins();
        lemma_pieces_free(Stream::ParamsConversion, ps, ctx, common);
        lemma_pieces_free(Stream::CallArgs, ps, ctx, common);
        lemma_pieces_free(Stream::CbParamsConversion, ps, ctx, common);
        if let Some(Return::Simple(t)) = r {
            lemma_prim_abi_free(t@, common);
        }
    }
}

/// The texts that the expansion of `f` copies from it, and from the binding
/// attribute's options, do not write the identifier `_ctx`.
pub open spec fn copied_free(f: ItemFnModel, attr: TransformAttributes) -> bool {
    &&& !mentions_ctx(f.name@)
    &&& !mentions_ctx(f.inputs@)
    &&& !mentions_ctx(f.output@)
    &&& !mentions_ctx(f.block@)
    &&& !mentions_ctx(f.vis@)
    &&& (attr.module matches Some(m) ==> !mentions_ctx(m@))
    &&& texts_free(spec_params(f.sig, attr.context), spec_read_result(f.sig.output), common_text())
}

/// The expansion of a function uses the host context `_ctx` exactly when its
/// signature needs one: it writes the identifier `_ctx` if and only if a
/// parameter is a pointer or the host context, or the result is a pointer.
/// The texts copied from the function and the options are taken not to write
/// the identifier `_ctx` themselves.
pub proof fn law_expansion_uses_context_iff_needed(f: ItemFnModel, attr: TransformAttributes)
    requires
        copied_free(f, attr),
    ensures
        needs_context(spec_params(f.sig, attr.context), spec_read_result(f.sig.output))
            <==> mentions_ctx(wrap_method_text(f, attr)),
{
    let ps = spec_params(f.sig, attr.context);
    let r = spec_read_result(f.sig.output);
    let need = needs_context(ps, r);
    let ctx = context_name_text(need, attr.context);
    let w = common_text();
    lemma_fragments();
    lemma_expansion_fragments();
    lemma_long_fragments();
    lemma_context_fragments();
    lemma_empty_free();
    if need {
        lemma_inner_joins();
        assert(inner_ctx(build_context_text(need, attr.context, "vmctx"@)));
        lemma_anchored_mentions(wrap_method_text(f, attr));
    } else {
        lemma_joins();
        lemma_pieces_free(Stream::AbiParams, ps, ctx, w);
        lemma_pieces_free(Stream::ParamsConversion, ps, ctx, w);
        lemma_pieces_free(Stream::CallArgs, ps, ctx, w);
        lemma_pieces_free(Stream::SigParams, ps, ctx, w);
        lemma_pieces_free(Stream::CbParamsConversion, ps, ctx, w);
        lemma_pieces_free(Stream::CbCallArgs, ps, ctx, w);
        if let Some(Return::Simple(t)) = r {
            lemma_prim_abi_free(t@, w);
        }
        let abi_params = "vmctx: *mut VMContext, "@ + pieces(Stream::AbiParams, ps, ctx, w);
        let abi_return = abi_return_text(r, ctx, w);
        assert(!mentions_ctx(abi_params));
        assert(!mentions_ctx(abi_return));
        let sig = extern_fn_sig_text(f.name@, abi_params, abi_return);
        assert(!mentions_ctx(sig));
        let body = extern_fn_body_text(
            f.inputs@,
            f.output@,
            f.block@,
            build_context_text(need, attr.context, "vmctx"@),
            pieces(Stream::ParamsConversion, ps, ctx, w),
            pieces(Stream::CallArgs, ps, ctx, w),
            ret_conversion_text(r),
        );
        assert(!mentions_ctx(body) && ends_safe(body));
        assert(!mentions_ctx(sig + body) && ends_safe(sig + body));
        if let Some(m) = attr.module {
            let sig_build = sig_prelude_text() + pieces(Stream::SigParams, ps, ctx, w) + sig_return_text(r, ctx, w);
            assert(!mentions_ctx(sig_build));
            let head = module_head_text(f.vis@, m@, sig_build);
            assert(!mentions_ctx(head));
            let call = wrapper_call_text(
                f.inputs@,
                f.output@,
                abi_params,
                abi_return,
                build_context_text(need, attr.context, "self.vmctx"@),
                pieces(Stream::CbParamsConversion, ps, ctx, w),
                "vmctx, "@ + pieces(Stream::CbCallArgs, ps, ctx, w),
                cb_ret_conversion_text(r, w),
            );
            assert(!mentions_ctx(call));
            assert(!mentions_ctx(head + call + " } } "@));
        }
    }
}

/// Where no host context is needed, the name of the context type never enters
/// the glue: every place reads the same whatever that name is.
pub proof fn law_context_name_unused(
    s: Stream,
    ps: Seq<Parameter>,
    r: Option<Return>,
    ctx1: Seq<char>,
    ctx2: Seq<char>,
    common: Seq<char>,
)
    requires
        !needs_context(ps, r),
    ensures
        pieces(s, ps, ctx1, common) == pieces(s, ps, ctx2, common),
        abi_return_text(r, ctx1, common) == abi_return_text(r, ctx2, common),
        sig_return_text(r, ctx1, common) == sig_return_text(r, ctx2, common),
    decreases ps.len(),
{
    if ps.len() > 0 {
        let rest = ps.drop_last();
        assert(!needs_context(rest, None)) by {
            if needs_context(rest, None) {
                let i = choose|i: int| 0 <= i < rest.len() && #[trigger] param_needs_context(rest[i]);
                assert(rest[i] == ps[i]);
            }
        }
        law_context_name_unused(s, rest, None, ctx1, ctx2, common);
        assert(!param_needs_context(ps[ps.len() - 1]));
    }
}

/// Where no host context is needed, the placeholder that names the context
/// type (`panic!("context n/a")`) never enters the expansion: the expansion is
/// the same with any other name in its place.
pub proof fn law_expansion_without_context_name(f: ItemFnModel, attr: TransformAttributes, ctx: Seq<char>)
    requires
        !needs_context(spec_params(f.sig, attr.context), spec_read_result(f.sig.output)),
    ensures
        expansion_text(f, attr, spec_params(f.sig, attr.context), spec_read_result(f.sig.output), false, ctx)
            == wrap_method_text(f, attr),
{
    let ps = spec_params(f.sig, attr.context);
    let r = spec_read_result(f.sig.output);
    let c0 = context_name_text(false, attr.context);
    let w = common_text();
    law_context_name_unused(Stream::AbiParams, ps, r, ctx, c0, w);
    law_context_name_unused(Stream::ParamsConversion, ps, r, ctx, c0, w);
    law_context_name_unused(Stream::CallArgs, ps, r, ctx, c0, w);
    law_context_name_unused(Stream::SigParams, ps, r, ctx, c0, w);
    law_context_name_unused(Stream::CbParamsConversion, ps, r, ctx, c0, w);
    law_context_name_unused(Stream::CbCallArgs, ps, r, ctx, c0, w);
}

/// The fixed fragments around the statement that builds the host context.
proof fn lemma_binding_fragments()
    ensures
        plain(" :: WasmMem>::Abi"@),
        plain(" :: VMContextWrapper"@),
        "let _ctx = "@.len() == 11,
{
    reveal_strlit(" :: WasmMem>::Abi");
    reveal_strlit(" :: VMContextWrapper");
    reveal_strlit("let _ctx = ");
    reveal_with_fuel(scan_from, 25);
    lemma_plain(" :: WasmMem>::Abi"@);
    lemma_plain(" :: VMContextWrapper"@);
}

proof fn lemma_abi_piece_free(p: Parameter, i: nat, ctx: Seq<char>, common: Seq<char>)
    requires
        !mentions_ctx(ctx),
        !mentions_ctx(common),
        p.ty matches ParameterType::Simple(t, _) ==> !mentions_ctx(t@),
    ensures
        !mentions_ctx(piece(Stream::AbiParams, p, i, ctx, common)),
        ends_safe(piece(Stream::AbiParams, p, i, ctx, common)),
{
    lemma_fragments();
    lemma_binding_fragments();
    lemma_empty_free();
    lemma_id_free(i);
    lemma_joins();
    lemma_piece_ends(Stream::AbiParams, p, i, ctx, common);
    if let ParameterType::Simple(t, _) = p.ty {
        lemma_prim_abi_free(t@, common);
    }
}

proof fn lemma_abi_pieces_free(ps: Seq<Parameter>, ctx: Seq<char>, common: Seq<char>)
    requires
        !mentions_ctx(ctx),
        !mentions_ctx(common),
        forall|i: int|
            0 <= i < ps.len() ==> (#[trigger] ps[i].ty matches ParameterType::Simple(t, _) ==> !mentions_ctx(t@)),
    ensures
        !mentions_ctx(pieces(Stream::AbiParams, ps, ctx, common)),
        ends_safe(pieces(Stream::AbiParams, ps, ctx, common)),
    decreases ps.len(),
{
    lemma_empty_free();
    if ps.len() > 0 {
        let rest = ps.drop_last();
        assert forall|i: int|
            0 <= i < rest.len() implies (#[trigger] rest[i].ty matches ParameterType::Simple(t, _) ==> !mentions_ctx(t@)) by {
            assert(rest[i] == ps[i]);
        }
        lemma_abi_pieces_free(rest, ctx, common);
        let last = ps[ps.len() - 1];
        assert(last.ty matches ParameterType::Simple(t, _) ==> !mentions_ctx(t@));
        lemma_abi_piece_free(last, (ps.len() - 1) as nat, ctx, common);
        lemma_join(pieces(Stream::AbiParams, rest, ctx, common), piece(Stream::AbiParams, last, (ps.len() - 1) as nat, ctx, common));
    }
}

proof fn lemma_prefix_cat(a: Seq<char>, b: Seq<char>)
    ensures
        a.is_prefix_of(a + b),
{
    assert(a =~= (a + b).subrange(0, a.len() as int));
}

proof fn lemma_prefix_trans(a: Seq<char>, b: Seq<char>, c: Seq<char>)
    requires
        a.is_prefix_of(b),
        b.is_prefix_of(c),
    ensures
        a.is_prefix_of(c),
{
    assert forall|i: int| 0 <= i < a.len() implies a[i] == c[i] by {
        assert(a[i] == b.subrange(0, a.len() as int)[i]);
        assert(b[i] == c.subrange(0, b.len() as int)[i]);
    }
    assert(a =~= c.subrange(0, a.len() as int));
}

proof fn lemma_prefix_after(c: Seq<char>, a: Seq<char>, b: Seq<char>)
    requires
        a.is_prefix_of(b),
    ensures
        (c + a).is_prefix_of(c + b),
{
    assert forall|i: int| 0 <= i < (c + a).len() implies (c + a)[i] == (c + b)[i] by {
        if i >= c.len() {
            assert(a[i - c.len()] == b.subrange(0, a.len() as int)[i - c.len()]);
        }
    }
    assert((c + a) =~= (c + b).subrange(0, (c + a).len() as int));
}

/// The statement that builds the host context starts with `let _ctx = `.
proof fn lemma_build_starts(context: Option<String>, target: Seq<char>)
    ensures
        "let _ctx = "@.is_prefix_of(build_context_text(true, context, target)),
{
    reveal_strlit("let _ctx = ");
    let l = "let _ctx = "@;
    let b = build_context_text(true, context, target);
    assert(l =~= b.subrange(0, 11));
}

proof fn lemma_abi_return_free(r: Option<Return>, ctx: Seq<char>, common: Seq<char>)
    requires
        !mentions_ctx(ctx),
        !mentions_ctx(common),
        r matches Some(Return::Simple(t)) ==> !mentions_ctx(t@),
    ensures
        !mentions_ctx(abi_return_text(r, ctx, common)),
{
    lemma_fragments();
    lemma_binding_fragments();
    lemma_empty_free();
    lemma_joins();
    if let Some(Return::Simple(t)) = r {
        lemma_prim_abi_free(t@, common);
    }
}

/// The `extern fn` up to the statement that builds the host context does not
/// write `_ctx`.
proof fn lemma_extern_head_free(
    name: Seq<char>,
    inputs: Seq<char>,
    output: Seq<char>,
    block: Seq<char>,
    p: Seq<char>,
    rt: Seq<char>,
)
    requires
        !mentions_ctx(name),
        !mentions_ctx(inputs),
        !mentions_ctx(output),
        !mentions_ctx(block),
        !mentions_ctx(p),
        !mentions_ctx(rt),
    ensures
        !mentions_ctx("pub extern fn "@ + name + " ("@ + p + ") "@ + rt + " { let _closure = | "@ + inputs + " | "@
            + output + " "@ + block + "; "@),
{
    lemma_expansion_fragments();
    lemma_empty_free();
    lemma_joins();
}

/// `Wrapper::call` up to the statement that builds the host context does not
/// write `_ctx`.
proof fn lemma_call_head_free(inputs: Seq<char>, output: Seq<char>, p: Seq<char>, rt: Seq<char>)
    requires
        !mentions_ctx(inputs),
        !mentions_ctx(output),
        !mentions_ctx(p),
        !mentions_ctx(rt),
    ensures
        !mentions_ctx("pub fn call(&self, "@ + inputs + ") "@ + output + " { type F = extern fn("@ + p + ") "@ + rt
            + "; let (_f, vmctx) = "@ + common_text() + " :: get_body_as::<F>(&self . export); "@),
{
    lemma_fragments();
    lemma_expansion_fragments();
    lemma_empty_free();
    lemma_joins();
}

/// Where the signature needs a host context, the `extern fn` builds it right
/// after the closure: the text up to there, followed by `let _ctx = `, starts
/// the expansion.
proof fn lemma_extern_binding(f: ItemFnModel, attr: TransformAttributes)
    requires
        needs_context(spec_params(f.sig, attr.context), spec_read_result(f.sig.output)),
    ensures
        ({
            let ps = spec_params(f.sig, attr.context);
            let r = spec_read_result(f.sig.output);
            let ctx = context_name_text(true, attr.context);
            let w = common_text();
            let p = "vmctx: *mut VMContext, "@ + pieces(Stream::AbiParams, ps, ctx, w);
            let rt = abi_return_text(r, ctx, w);
            let pre = "pub extern fn "@ + f.name@ + " ("@ + p + ") "@ + rt + " { let _closure = | "@ + f.inputs@
                + " | "@ + f.output@ + " "@ + f.block@ + "; "@;
            (pre + "let _ctx = "@).is_prefix_of(wrap_method_text(f, attr))
        }),
{
    let ps = spec_params(f.sig, attr.context);
    let r = spec_read_result(f.sig.output);
    let ctx = context_name_text(true, attr.context);
    let w = common_text();
    let p = "vmctx: *mut VMContext, "@ + pieces(Stream::AbiParams, ps, ctx, w);
    let rt = abi_return_text(r, ctx, w);
    let l = "let _ctx = "@;
    let text = wrap_method_text(f, attr);
    let sig = extern_fn_sig_text(f.name@, p, rt);
    let bodyp = " { let _closure = | "@ + f.inputs@ + " | "@ + f.output@ + " "@ + f.block@ + "; "@;
    let build = build_context_text(true, attr.context, "vmctx"@);
    let pc = pieces(Stream::ParamsConversion, ps, ctx, w);
    let ca = pieces(Stream::CallArgs, ps, ctx, w);
    let rc = ret_conversion_text(r);
    let body = extern_fn_body_text(f.inputs@, f.output@, f.block@, build, pc, ca, rc);
    let b1 = bodyp + build;
    let b2 = b1 + pc;
    let b3 = b2 + "let _res = _closure( "@;
    let b4 = b3 + ca;
    let b5 = b4 + "); "@;
    let b6 = b5 + rc;
    assert(body == b6 + " } "@);
    lemma_prefix_cat(b1, pc);
    lemma_prefix_cat(b2, "let _res = _closure( "@);
    lemma_prefix_trans(b1, b2, b3);
    lemma_prefix_cat(b3, ca);
    lemma_prefix_trans(b1, b3, b4);
    lemma_prefix_cat(b4, "); "@);
    lemma_prefix_trans(b1, b4, b5);
    lemma_prefix_cat(b5, rc);
    lemma_prefix_trans(b1, b5, b6);
    lemma_prefix_cat(b6, " } "@);
    lemma_prefix_trans(b1, b6, body);
    lemma_build_starts(attr.context, "vmctx"@);
    lemma_prefix_after(bodyp, l, build);
    lemma_prefix_trans(bodyp + l, b1, body);
    lemma_prefix_after(sig, bodyp + l, body);
    let module = text.subrange((sig + body).len() as int, text.len() as int);
    assert(text =~= (sig + body) + module);
    lemma_prefix_cat(sig + body, module);
    lemma_prefix_trans(sig + (bodyp + l), sig + body, text);
    assert(sig + (bodyp + l) =~= sig + bodyp + l);
}

/// Where the signature needs a host context and a module is generated, its
/// `Wrapper::call` builds the context right after the lookup of the export.
proof fn lemma_call_binding(f: ItemFnModel, attr: TransformAttributes)
    requires
        needs_context(spec_params(f.sig, attr.context), spec_read_result(f.sig.output)),
        attr.module is Some,
    ensures
        ({
            let ps = spec_params(f.sig, attr.context);
            let r = spec_read_result(f.sig.output);
            let ctx = context_name_text(true, attr.context);
            let w = common_text();
            let p = "vmctx: *mut VMContext, "@ + pieces(Stream::AbiParams, ps, ctx, w);
            let rt = abi_return_text(r, ctx, w);
            let sig = extern_fn_sig_text(f.name@, p, rt);
            let body = extern_fn_body_text(
                f.inputs@,
                f.output@,
                f.block@,
                build_context_text(true, attr.context, "vmctx"@),
                pieces(Stream::ParamsConversion, ps, ctx, w),
                pieces(Stream::CallArgs, ps, ctx, w),
                ret_conversion_text(r),
            );
            let head = module_head_text(
                f.vis@,
                attr.module.unwrap()@,
                sig_prelude_text() + pieces(Stream::SigParams, ps, ctx, w) + sig_return_text(r, ctx, w),
            );
            let callp = "pub fn call(&self, "@ + f.inputs@ + ") "@ + f.output@ + " { type F = extern fn("@ + p
                + ") "@ + rt + "; let (_f, vmctx) = "@ + w + " :: get_body_as::<F>(&self . export); "@;
            (sig + body + head + callp + "let _ctx = "@).is_prefix_of(wrap_method_text(f, attr))
        }),
{
    let ps = spec_params(f.sig, attr.context);
    let r = spec_read_result(f.sig.output);
    let ctx = context_name_text(true, attr.context);
    let w = common_text();
    let m = attr.module.unwrap();
    let p = "vmctx: *mut VMContext, "@ + pieces(Stream::AbiParams, ps, ctx, w);
    let rt = abi_return_text(r, ctx, w);
    let l = "let _ctx = "@;
    let text = wrap_method_text(f, attr);
    let sig = extern_fn_sig_text(f.name@, p, rt);
    let body = extern_fn_body_text(
        f.inputs@,
        f.output@,
        f.block@,
        build_context_text(true, attr.context, "vmctx"@),
        pieces(Stream::ParamsConversion, ps, ctx, w),
        pieces(Stream::CallArgs, ps, ctx, w),
        ret_conversion_text(r),
    );
    let sb = sig_prelude_text() + pieces(Stream::SigParams, ps, ctx, w) + sig_return_text(r, ctx, w);
    let head = module_head_text(f.vis@, m@, sb);
    let callp = "pub fn call(&self, "@ + f.inputs@ + ") "@ + f.output@ + " { type F = extern fn("@ + p + ") "@
        + rt + "; let (_f, vmctx) = "@ + w + " :: get_body_as::<F>(&self . export); "@;
    let build = build_context_text(true, attr.context, "self.vmctx"@);
    let cpc = pieces(Stream::CbParamsConversion, ps, ctx, w);
    let cca = "vmctx, "@ + pieces(Stream::CbCallArgs, ps, ctx, w);
    let crc = cb_ret_conversion_text(r, w);
    let call = wrapper_call_text(f.inputs@, f.output@, p, rt, build, cpc, cca, crc);
    let module = module_text(f.vis@, m@, f.inputs@, f.output@, p, rt, sb, build, cpc, cca, crc);
    assert(text == (sig + body) + module);
    assert(module == (head + call) + " } } "@);
    let c1 = callp + build;
    let c2 = c1 + cpc;
    let c3 = c2 + "let _res = unsafe { (*_f)("@;
    let c4 = c3 + cca;
    let c5 = c4 + ") }; "@;
    let c6 = c5 + crc;
    assert(call == c6 + " }"@);
    lemma_prefix_cat(c1, cpc);
    lemma_prefix_cat(c2, "let _res = unsafe { (*_f)("@);
    lemma_prefix_trans(c1, c2, c3);
    lemma_prefix_cat(c3, cca);
    lemma_prefix_trans(c1, c3, c4);
    lemma_prefix_cat(c4, ") }; "@);
    lemma_prefix_trans(c1, c4, c5);
    lemma_prefix_cat(c5, crc);
    lemma_prefix_trans(c1, c5, c6);
    lemma_prefix_cat(c6, " }"@);
    lemma_prefix_trans(c1, c6, call);
    lemma_build_starts(attr.context, "self.vmctx"@);
    lemma_prefix_after(callp, l, build);
    lemma_prefix_trans(callp + l, c1, call);
    lemma_prefix_after(head, callp + l, call);
    lemma_prefix_cat(head + call, " } } "@);
    lemma_prefix_trans(head + (callp + l), head + call, module);
    lemma_prefix_after(sig + body, head + (callp + l), module);
    assert((sig + body) + (head + (callp + l)) =~= sig + body + head + callp + l);
}

/// In generated code the host context is built before it is used.  Where the
/// signature needs it, the `extern fn` is written as its signature, the
/// closure holding the function's body, and then the statement
/// `let _ctx = ...` that builds the context, before any argument is lifted;
/// nothing before that statement writes the identifier `_ctx`.  Likewise, in
/// the generated `Wrapper::call`, the context is built right after the call's
/// signature, the type `F` and the lookup of the export, and nothing in
/// between writes `_ctx`.  The texts copied from the function and the options
/// are taken not to write the identifier `_ctx`.
pub proof fn law_context_built_before_use(f: ItemFnModel, attr: TransformAttributes)
    requires
        copied_free(f, attr),
        attr.context matches Some(c) ==> !mentions_ctx(c@),
        needs_context(spec_params(f.sig, attr.context), spec_read_result(f.sig.output)),
    ensures
        ({
            let ps = spec_params(f.sig, attr.context);
            let r = spec_read_result(f.sig.output);
            let ctx = context_name_text(true, attr.context);
            let w = common_text();
            let p = "vmctx: *mut VMContext, "@ + pieces(Stream::AbiParams, ps, ctx, w);
            let rt = abi_return_text(r, ctx, w);
            let text = wrap_method_text(f, attr);
            let pre = "pub extern fn "@ + f.name@ + " ("@ + p + ") "@ + rt + " { let _closure = | "@ + f.inputs@
                + " | "@ + f.output@ + " "@ + f.block@ + "; "@;
            &&& !mentions_ctx(pre)
            &&& (pre + "let _ctx = "@).is_prefix_of(text)
            &&& attr.module matches Some(m) ==> {
                let body = extern_fn_body_text(
                    f.inputs@,
                    f.output@,
                    f.block@,
                    build_context_text(true, attr.context, "vmctx"@),
                    pieces(Stream::ParamsConversion, ps, ctx, w),
                    pieces(Stream::CallArgs, ps, ctx, w),
                    ret_conversion_text(r),
                );
                let head = module_head_text(
                    f.vis@,
                    m@,
                    sig_prelude_text() + pieces(Stream::SigParams, ps, ctx, w) + sig_return_text(r, ctx, w),
                );
                let callp = "pub fn call(&self, "@ + f.inputs@ + ") "@ + f.output@ + " { type F = extern fn("@
                    + p + ") "@ + rt + "; let (_f, vmctx) = "@ + w + " :: get_body_as::<F>(&self . export); "@;
                &&& !mentions_ctx(callp)
                &&& (extern_fn_sig_text(f.name@, p, rt) + body + head + callp + "let _ctx = "@).is_prefix_of(text)
            }
        }),
{
    let ps = spec_params(f.sig, attr.context);
    let r = spec_read_result(f.sig.output);
    let ctx = context_name_text(true, attr.context);
    let w = common_text();
    lemma_fragments();
    lemma_binding_fragments();
    lemma_empty_free();
    lemma_joins();
    assert(!mentions_ctx(ctx));
    lemma_abi_pieces_free(ps, ctx, w);
    lemma_abi_return_free(r, ctx, w);
    let p = "vmctx: *mut VMContext, "@ + pieces(Stream::AbiParams, ps, ctx, w);
    let rt = abi_return_text(r, ctx, w);
    lemma_expansion_fragments();
    assert(!mentions_ctx(p));
    lemma_extern_head_free(f.name@, f.inputs@, f.output@, f.block@, p, rt);
    lemma_extern_binding(f, attr);
    if attr.module is Some {
        lemma_call_head_free(f.inputs@, f.output@, p, rt);
        lemma_call_binding(f, attr);
    }
}

} // verus!
