use vstd::prelude::*;

verus! {

/// The `mut` keyword of a reference type or a `self` receiver.
#[derive(Clone, Copy)]
pub struct MutToken;

/// Whether a reference is mutable: it holds the `mut` keyword when it is.
#[derive(Clone, Copy)]
pub struct RefFlag(pub Option<MutToken>);

impl RefFlag {
    /// Whether the reference is mutable.
    pub open spec fn is_mutable(self) -> bool {
        self.0 is Some
    }

    pub fn mutable(&self) -> (r: bool)
        ensures
            r == self.is_mutable(),
    {
        self.0.is_some()
    }
}

impl From<Option<MutToken>> for RefFlag {
    fn from(m: Option<MutToken>) -> (r: RefFlag)
        ensures
            r == RefFlag(m),
    {
        RefFlag(m)
    }
}

impl vstd::std_specs::convert::FromSpecImpl<Option<MutToken>> for RefFlag {
    open spec fn obeys_from_spec() -> bool {
        true
    }

    open spec fn from_spec(m: Option<MutToken>) -> RefFlag {
        RefFlag(m)
    }
}

/// A type written in a signature, as far as its classification reads it.
/// `text` is the type written out as Rust tokens; `path` is the path of a
/// path type (without its qualified self type).
pub enum TypeModel {
    Ptr { mutable: bool, elem: Box<TypeModel>, text: String },
    Path { path: String, text: String },
    Reference { mutable: bool, elem: Box<TypeModel>, text: String },
    Other { text: String },
}

/// The pattern of a typed argument.
pub enum PatModel {
    Ident { name: String, has_attrs: bool, has_subpat: bool },
    Other,
}

/// One input of a signature: a typed argument or a `self` receiver.
pub enum FnArgModel {
    Typed { pat: PatModel, ty: TypeModel },
    Receiver { has_attrs: bool, reference: bool, mutable: bool },
}

/// A function signature: its inputs and its declared return type, if any.
pub struct SignatureModel {
    pub inputs: Vec<FnArgModel>,
    pub output: Option<TypeModel>,
}

/// How a parameter crosses the wasm boundary.
pub enum ParameterType {
    /// `*mut VMContext`: the callee's own context pointer.
    VMContextMutPtr,
    /// A `self` receiver.
    SelfRef(RefFlag),
    /// The host context type given in the attribute.
    Context(Option<RefFlag>),
    /// Any other raw pointer; it crosses as a wasm memory offset.
    Ptr(String),
    /// A value that crosses as its ABI primitive.
    Simple(String, Option<RefFlag>),
}

/// How the result crosses the wasm boundary.
pub enum Return {
    Ptr(String),
    Simple(String),
}

pub struct Parameter {
    pub id: Option<String>,
    pub ty: ParameterType,
}

pub struct MethodSignature {
    pub params: Vec<Parameter>,
    pub result: Option<Return>,
}

/// The path of a type, when the type is a path type.
pub open spec fn type_path(ty: TypeModel) -> Option<Seq<char>> {
    match ty {
        TypeModel::Path { path, .. } => Some(path@),
        _ => None,
    }
}

/// Whether the path type `path` names the context type.
pub open spec fn is_context_path(path: Seq<char>, context: Option<String>) -> bool {
    context matches Some(c) && c@ == path
}

/// Whether an input can be classified.
pub open spec fn arg_supported(arg: FnArgModel) -> bool {
    match arg {
        FnArgModel::Typed { pat, ty } => {
            &&& pat matches PatModel::Ident { has_attrs, has_subpat, .. } && !has_attrs && !has_subpat
            &&& !(ty is Other)
        },
        FnArgModel::Receiver { has_attrs, reference, .. } => !has_attrs && reference,
    }
}

/// Whether a declared return type can be classified.
pub open spec fn output_supported(output: Option<TypeModel>) -> bool {
    match output {
        Some(ty) => ty is Ptr || ty is Path,
        None => true,
    }
}

/// Whether a whole signature can be classified.
pub open spec fn signature_supported(sig: SignatureModel) -> bool {
    &&& forall|i: int| 0 <= i < sig.inputs@.len() ==> #[trigger] arg_supported(sig.inputs@[i])
    &&& output_supported(sig.output)
}

/// Why a signature or a function cannot carry a binding attribute.
#[derive(Clone, Copy, PartialEq, Eq, Structural)]
pub enum Unsupported {
    ConstFn,
    AsyncFn,
    UnsafeFn,
    ExternAbi,
    Variadic,
    PatternAttributes,
    Subpattern,
    NoIdentifier,
    ParamType,
    ReceiverAttributes,
    ReceiverByValue,
    ResultType,
}

/// The first reason why the input `arg` cannot be classified, if any.
pub open spec fn arg_problem(arg: FnArgModel) -> Option<Unsupported> {
    match arg {
        FnArgModel::Typed { pat, ty } => match pat {
            PatModel::Ident { has_attrs, has_subpat, .. } => if has_attrs {
                Some(Unsupported::PatternAttributes)
            } else if has_subpat {
                Some(Unsupported::Subpattern)
            } else if ty is Other {
                Some(Unsupported::ParamType)
            } else {
                None
            },
            PatModel::Other => Some(Unsupported::NoIdentifier),
        },
        FnArgModel::Receiver { has_attrs, reference, .. } => if has_attrs {
            Some(Unsupported::ReceiverAttributes)
        } else if !reference {
            Some(Unsupported::ReceiverByValue)
        } else {
            None
        },
    }
}

/// The first reason, in the order of the inputs, why one of `args` cannot be
/// classified, if any.
pub open spec fn inputs_problem(args: Seq<FnArgModel>) -> Option<Unsupported>
    decreases args.len(),
{
    if args.len() == 0 {
        None
    } else {
        match inputs_problem(args.drop_last()) {
            Some(e) => Some(e),
            None => arg_problem(args.last()),
        }
    }
}

/// The first reason why `sig` cannot be classified, if any: its inputs are
/// looked at before its result.
pub open spec fn signature_problem(sig: SignatureModel) -> Option<Unsupported> {
    match inputs_problem(sig.inputs@) {
        Some(e) => Some(e),
        None => if output_supported(sig.output) {
            None
        } else {
            Some(Unsupported::ResultType)
        },
    }
}

proof fn lemma_inputs_problem(args: Seq<FnArgModel>)
    ensures
        inputs_problem(args) is None <==> forall|i: int|
            0 <= i < args.len() ==> #[trigger] arg_supported(args[i]),
    decreases args.len(),
{
    if args.len() > 0 {
        let rest = args.drop_last();
        lemma_inputs_problem(rest);
        if inputs_problem(args) is None {
            assert forall|i: int| 0 <= i < args.len() implies #[trigger] arg_supported(args[i]) by {
                if i < args.len() - 1 {
                    assert(rest[i] == args[i]);
                }
            }
        } else if forall|i: int| 0 <= i < args.len() ==> #[trigger] arg_supported(args[i]) {
            assert forall|i: int| 0 <= i < rest.len() implies #[trigger] arg_supported(rest[i]) by {
                assert(rest[i] == args[i]);
            }
            assert(arg_supported(args[args.len() - 1]));
        }
    }
}

/// A signature can be classified exactly when no problem is found in it.
pub proof fn lemma_signature_problem(sig: SignatureModel)
    ensures
        signature_problem(sig) is None <==> signature_supported(sig),
{
    lemma_inputs_problem(sig.inputs@);
}

fn arg_check(arg: &FnArgModel) -> (r: Option<Unsupported>)
    ensures
        r == arg_problem(*arg),
{
    match arg {
        FnArgModel::Typed { pat, ty } => match pat {
            PatModel::Ident { has_attrs, has_subpat, .. } => {
                if *has_attrs {
                    Some(Unsupported::PatternAttributes)
                } else if *has_subpat {
                    Some(Unsupported::Subpattern)
                } else if let TypeModel::Other { .. } = ty {
                    Some(Unsupported::ParamType)
                } else {
                    None
                }
            },
            PatModel::Other => Some(Unsupported::NoIdentifier),
        },
        FnArgModel::Receiver { has_attrs, reference, .. } => {
            if *has_attrs {
                Some(Unsupported::ReceiverAttributes)
            } else if !*reference {
                Some(Unsupported::ReceiverByValue)
            } else {
                None
            }
        },
    }
}

/// Looks for the first reason why `sig` cannot be classified, in the order in
/// which `read_signature` reads it; `Ok` exactly when it can be.
pub fn check_signature(sig: &SignatureModel) -> (r: Result<(), Unsupported>)
    ensures
        r == (match signature_problem(*sig) {
            Some(e) => Err(e),
            None => Ok(()),
        }),
        r is Ok <==> signature_supported(*sig),
{
    proof {
        lemma_signature_problem(*sig);
    }
    let n = sig.inputs.len();
    for i in 0..n
        invariant
            n == sig.inputs@.len(),
            inputs_problem(sig.inputs@.take(i as int)) is None,
    {
        proof {
            let t = sig.inputs@.take(i + 1);
            assert(t.drop_last() =~= sig.inputs@.take(i as int));
            assert(t.last() == sig.inputs@[i as int]);
        }
        match arg_check(&sig.inputs[i]) {
            Some(e) => {
                proof {
                    lemma_inputs_prefix(sig.inputs@, i + 1);
                    lemma_signature_problem(*sig);
                }
                return Err(e);
            },
            None => {},
        }
    }
    assert(sig.inputs@.take(n as int) =~= sig.inputs@);
    match &sig.output {
        Some(TypeModel::Ptr { .. }) | Some(TypeModel::Path { .. }) | None => Ok(()),
        _ => Err(Unsupported::ResultType),
    }
}

/// A problem in a prefix of the inputs is the first problem of all of them.
proof fn lemma_inputs_prefix(args: Seq<FnArgModel>, k: int)
    requires
        0 <= k <= args.len(),
        inputs_problem(args.take(k)) is Some,
    ensures
        inputs_problem(args) == inputs_problem(args.take(k)),
    decreases args.len() - k,
{
    if k < args.len() {
        assert(args.take(k + 1).drop_last() =~= args.take(k));
        lemma_inputs_prefix(args, k + 1);
    } else {
        assert(args.take(k) =~= args);
    }
}

/// The parameter that a supported input is classified as.
pub open spec fn spec_read_param(arg: FnArgModel, context: Option<String>) -> Parameter {
    match arg {
        FnArgModel::Typed { pat, ty } => Parameter {
            id: match pat {
                PatModel::Ident { name, .. } => Some(name),
                PatModel::Other => None,
            },
            ty: match ty {
                TypeModel::Ptr { mutable, elem, text } =>
                    if mutable && type_path(*elem) == Some("VMContext"@) {
                        ParameterType::VMContextMutPtr
                    } else {
                        ParameterType::Ptr(text)
                    },
                TypeModel::Path { path, text } =>
                    if is_context_path(path@, context) {
                        ParameterType::Context(None)
                    } else {
                        ParameterType::Simple(text, None)
                    },
                TypeModel::Reference { mutable, elem, text } => {
                    let flag = RefFlag(if mutable { Some(MutToken) } else { None });
                    if type_path(*elem) matches Some(p) && is_context_path(p, context) {
                        ParameterType::Context(Some(flag))
                    } else {
                        ParameterType::Simple(text, Some(flag))
                    }
                },
                TypeModel::Other { text } => ParameterType::Simple(text, None),
            },
        },
        FnArgModel::Receiver { mutable, .. } => Parameter {
            id: None,
            ty: ParameterType::SelfRef(RefFlag(if mutable { Some(MutToken) } else { None })),
        },
    }
}

/// The classification of a supported return type.
pub open spec fn spec_read_result(output: Option<TypeModel>) -> Option<Return> {
    match output {
        Some(TypeModel::Ptr { text, .. }) => Some(Return::Ptr(text)),
        Some(TypeModel::Path { text, .. }) => Some(Return::Simple(text)),
        _ => None,
    }
}

fn path_is(path: &String, name: &str) -> (r: bool)
    ensures
        r == (path@ == name@),
{
    let n = String::from_str(name);
    *path == n
}

fn elem_path_is_vmcontext(elem: &TypeModel) -> (r: bool)
    ensures
        r == (type_path(*elem) == Some("VMContext"@)),
{
    match elem {
        TypeModel::Path { path, .. } => path_is(path, "VMContext"),
        _ => false,
    }
}

fn path_is_context(path: &String, context: &Option<String>) -> (r: bool)
    ensures
        r == is_context_path(path@, *context),
{
    match context {
        Some(c) => *c == *path,
        None => false,
    }
}

fn read_param(arg: &FnArgModel, context: &Option<String>) -> (p: Parameter)
    requires
        arg_supported(*arg),
    ensures
        p == spec_read_param(*arg, *context),
{
    match arg {
        FnArgModel::Typed { pat, ty } => {
            let id = match pat {
                PatModel::Ident { name, .. } => Some(name.clone()),
                PatModel::Other => None,
            };
            let ty = match ty {
                TypeModel::Ptr { mutable, elem, text } => {
                    if *mutable && elem_path_is_vmcontext(elem) {
                        ParameterType::VMContextMutPtr
                    } else {
                        ParameterType::Ptr(text.clone())
                    }
                },
                TypeModel::Path { path, text } => {
                    if path_is_context(path, context) {
                        ParameterType::Context(None)
                    } else {
                        ParameterType::Simple(text.clone(), None)
                    }
                },
                TypeModel::Reference { mutable, elem, text } => {
                    let flag = RefFlag::from(if *mutable { Some(MutToken) } else { None });
                    let is_context = match &**elem {
                        TypeModel::Path { path, .. } => path_is_context(path, context),
                        _ => false,
                    };
                    if is_context {
                        ParameterType::Context(Some(flag))
                    } else {
                        ParameterType::Simple(text.clone(), Some(flag))
                    }
                },
                TypeModel::Other { text } => ParameterType::Simple(text.clone(), None),
            };
            Parameter { id, ty }
        },
        FnArgModel::Receiver { mutable, .. } => Parameter {
            id: None,
            ty: ParameterType::SelfRef(RefFlag::from(if *mutable { Some(MutToken) } else { None })),
        },
    }
}

/// Classifies each input of `sig`, in order, against the host context type
/// `context` (a path written out as Rust tokens), and classifies its result.
pub fn read_signature(sig: &SignatureModel, context: &Option<String>) -> (r: MethodSignature)
    requires
        signature_supported(*sig),
    ensures
        r.params@.len() == sig.inputs@.len(),
        forall|i: int|
            0 <= i < sig.inputs@.len() ==> #[trigger] r.params@[i] == spec_read_param(
                sig.inputs@[i],
                *context,
            ),
        r.result == spec_read_result(sig.output),
        r.params@ == spec_params(*sig, *context),
{
    let mut params: Vec<Parameter> = Vec::new();
    let n = sig.inputs.len();
    for i in 0..n
        invariant
            n == sig.inputs@.len(),
            signature_supported(*sig),
            params@.len() == i,
            forall|j: int|
                0 <= j < i ==> #[trigger] params@[j] == spec_read_param(sig.inputs@[j], *context),
    {
        assert(arg_supported(sig.inputs@[i as int]));
        params.push(read_param(&sig.inputs[i], context));
    }
    let result = match &sig.output {
        Some(TypeModel::Ptr { text, .. }) => Some(Return::Ptr(text.clone())),
        Some(TypeModel::Path { text, .. }) => Some(Return::Simple(text.clone())),
        _ => None,
    };
    assert(params@ =~= spec_params(*sig, *context));
    MethodSignature { params, result }
}

/// Whether a parameter needs the host context to cross the boundary.
pub open spec fn param_needs_context(p: Parameter) -> bool {
    p.ty is Ptr || p.ty is Context
}

/// Whether parameters and result need the host context: some parameter is a
/// pointer or the context itself, or the result is a pointer.
pub open spec fn needs_context(params: Seq<Parameter>, result: Option<Return>) -> bool {
    ||| exists|i: int| 0 <= i < params.len() && #[trigger] param_needs_context(params[i])
    ||| result matches Some(Return::Ptr(_))
}

/// The parameters that the inputs of a supported signature are classified as.
pub open spec fn spec_params(sig: SignatureModel, context: Option<String>) -> Seq<Parameter> {
    sig.inputs@.map_values(|a: FnArgModel| spec_read_param(a, context))
}

pub fn need_context(sig: &MethodSignature) -> (r: bool)
    ensures
        r == needs_context(sig.params@, sig.result),
{
    let n = sig.params.len();
    for i in 0..n
        invariant
            n == sig.params@.len(),
            forall|j: int| 0 <= j < i ==> !#[trigger] param_needs_context(sig.params@[j]),
    {
        if let ParameterType::Ptr(_) = sig.params[i].ty {
            assert(param_needs_context(sig.params@[i as int]));
            return true;
        }
        if let ParameterType::Context(_) = sig.params[i].ty {
            assert(param_needs_context(sig.params@[i as int]));
            return true;
        }
    }
    if let Some(Return::Ptr(_)) = sig.result {
        return true;
    }
    false
}


/// The host context is recognised by its path, whether it is taken by value
/// or by reference: an input whose type is the context path, or a reference
/// (`&` or `&mut`) to it, is classified as the host context (with the
/// reference's mutability), and then the signature needs the context.  Any
/// other path type, or reference to one, is a value that crosses as its ABI
/// primitive.
pub proof fn law_context_inputs(sig: SignatureModel, context: Option<String>, i: int)
    requires
        0 <= i < sig.inputs@.len(),
    ensures
        ({
            let ps = spec_params(sig, context);
            match sig.inputs@[i] {
                FnArgModel::Typed { ty: TypeModel::Path { path, text }, .. } =>
                    if context matches Some(c) && c@ == path@ {
                        ps[i].ty == ParameterType::Context(None) && needs_context(ps, None)
                    } else {
                        ps[i].ty == ParameterType::Simple(text, None) && !param_needs_context(ps[i])
                    },
                FnArgModel::Typed { ty: TypeModel::Reference { mutable, elem, text }, .. } =>
                    match type_path(*elem) {
                        Some(path) => if context matches Some(c) && c@ == path {
                            &&& ps[i].ty matches ParameterType::Context(Some(flag))
                            &&& flag.is_mutable() == mutable
                            &&& needs_context(ps, None)
                        } else {
                            &&& ps[i].ty matches ParameterType::Simple(t, Some(flag))
                            &&& t == text
                            &&& flag.is_mutable() == mutable
                            &&& !param_needs_context(ps[i])
                        },
                        None => true,
                    },
                _ => true,
            }
        }),
{
    let ps = spec_params(sig, context);
    assert(ps[i] == spec_read_param(sig.inputs@[i], context));
    if param_needs_context(ps[i]) {
        assert(needs_context(ps, None));
    }
}

} // verus!
