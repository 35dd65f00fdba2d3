use vstd::prelude::*;
use vstd::string::StringExecFns;

verus! {

/// A declared type in a procedure's signature: unit, a bare name, or a named
/// type applied to one or two arguments (`State<S>`, `Option<T>`,
/// `Result<T, E>`).
#[derive(Debug)]
pub enum TypeExpr {
    Unit,
    Named(String),
    App1(String, Box<TypeExpr>),
    App2(String, Box<TypeExpr>, Box<TypeExpr>),
}

/// A declared parameter pattern: a simple bound identifier, or anything else.
#[derive(Debug)]
pub enum Pattern {
    Ident(String),
    Other,
}

/// One declared parameter.
#[derive(Debug)]
pub struct Param {
    pub pat: Pattern,
    pub ty: TypeExpr,
}

impl TypeExpr {
    /// An owned copy, equal to the original.
    pub fn dup(&self) -> (r: TypeExpr)
        ensures
            r == *self,
        decreases self,
    {
        match self {
            TypeExpr::Unit => TypeExpr::Unit,
            TypeExpr::Named(n) => TypeExpr::Named(n.clone()),
            TypeExpr::App1(n, a) => TypeExpr::App1(n.clone(), Box::new(a.dup())),
            TypeExpr::App2(n, a, b) => TypeExpr::App2(
                n.clone(),
                Box::new(a.dup()),
                Box::new(b.dup()),
            ),
        }
    }
}

impl Pattern {
    /// An owned copy, equal to the original.
    pub fn dup(&self) -> (r: Pattern)
        ensures
            r == *self,
    {
        match self {
            Pattern::Ident(n) => Pattern::Ident(n.clone()),
            Pattern::Other => Pattern::Other,
        }
    }
}

impl Param {
    /// An owned copy, equal to the original.
    pub fn dup(&self) -> (r: Param)
        ensures
            r == *self,
    {
        Param { pat: self.pat.dup(), ty: self.ty.dup() }
    }
}

/// A declared function signature: the parameters in declaration order, and
/// the return type (`None` when the function declares none).
#[derive(Debug)]
pub struct FnSig {
    pub params: Vec<Param>,
    pub ret: Option<TypeExpr>,
}

/// A construction-time rejection of a signature. Each variant is fatal to
/// router construction; none of them can occur at request time.
#[derive(Debug, Clone, Copy, PartialEq, Eq, Structural)]
pub enum SigError {
    /// More than one shared-context parameter was declared.
    MultipleContext,
    /// A context wrapper without its type argument (a bare `State`).
    ContextNotGeneric,
    /// A data parameter whose pattern is not a simple identifier.
    PatternNotIdent,
    /// Two data parameters bound to one identifier.
    DuplicateParamName,
    /// A two-armed result type with other than exactly two arms.
    ResultArity,
    /// A two-armed result whose second arm is not the uniform error type.
    ResultErrNotRpcError,
}

/// What the analyzer concluded about a signature: the shared-context type if
/// one was declared, the data parameters in declaration order, the output
/// type, and whether the function returns the two-armed result type.
#[derive(Debug)]
pub struct Analysis {
    pub context: Option<TypeExpr>,
    pub data: Vec<Param>,
    pub output: TypeExpr,
    pub returns_result: bool,
}

/// The head name of a type expression, if it has one.
pub open spec fn head_name(t: TypeExpr) -> Option<Seq<char>> {
    match t {
        TypeExpr::Unit => None,
        TypeExpr::Named(n) => Some(n@),
        TypeExpr::App1(n, _) => Some(n@),
        TypeExpr::App2(n, _, _) => Some(n@),
    }
}

/// How one parameter is classified, looked at alone.
pub enum ParamClass {
    Context(TypeExpr),
    ContextBad,
    BadPattern,
    Data,
}

pub open spec fn classify_param(p: Param) -> ParamClass {
    if head_name(p.ty) == Some("State"@) {
        match p.ty {
            TypeExpr::App1(_, inner) => ParamClass::Context(*inner),
            TypeExpr::App2(_, first, _) => ParamClass::Context(*first),
            _ => ParamClass::ContextBad,
        }
    } else {
        match p.pat {
            Pattern::Ident(_) => ParamClass::Data,
            Pattern::Other => ParamClass::BadPattern,
        }
    }
}

pub open spec fn param_name_of(p: Param) -> Seq<char> {
    match p.pat {
        Pattern::Ident(n) => n@,
        Pattern::Other => Seq::empty(),
    }
}

/// Whether some data parameter in `data` is bound to the identifier `name`.
pub open spec fn has_param_name(data: Seq<Param>, name: Seq<char>) -> bool {
    exists|j: int|
        0 <= j < data.len() && (#[trigger] data[j].pat matches Pattern::Ident(n) && n@ == name)
}

/// The result of scanning a parameter list left to right: the first
/// rejection if there is one, the context type, and the data parameters in
/// declaration order.
pub struct ParamScan {
    pub err: Option<SigError>,
    pub ctx: Option<TypeExpr>,
    pub data: Seq<Param>,
}

pub open spec fn scan_params(params: Seq<Param>) -> ParamScan
    decreases params.len(),
{
    if params.len() == 0 {
        ParamScan { err: None, ctx: None, data: Seq::empty() }
    } else {
        let prev = scan_params(params.drop_last());
        let p = params.last();
        if prev.err is Some {
            prev
        } else {
            match classify_param(p) {
                ParamClass::Context(t) => if prev.ctx is Some {
                    ParamScan { err: Some(SigError::MultipleContext), ctx: prev.ctx, data: prev.data }
                } else {
                    ParamScan { err: None, ctx: Some(t), data: prev.data }
                },
                ParamClass::ContextBad => ParamScan {
                    err: Some(SigError::ContextNotGeneric),
                    ctx: prev.ctx,
                    data: prev.data,
                },
                ParamClass::BadPattern => ParamScan {
                    err: Some(SigError::PatternNotIdent),
                    ctx: prev.ctx,
                    data: prev.data,
                },
                ParamClass::Data => if has_param_name(prev.data, param_name_of(p)) {
                    ParamScan {
                        err: Some(SigError::DuplicateParamName),
                        ctx: prev.ctx,
                        data: prev.data,
                    }
                } else {
                    ParamScan { err: None, ctx: prev.ctx, data: prev.data.push(p) }
                },
            }
        }
    }
}

/// The return-type classification: the output type and whether the function
/// returns the two-armed result type, or the rejection.
pub open spec fn return_class(ret: Option<TypeExpr>) -> Result<(TypeExpr, bool), SigError> {
    match ret {
        None => Ok((TypeExpr::Unit, false)),
        Some(t) => if head_name(t) == Some("Result"@) {
            match t {
                TypeExpr::App2(_, ok, err) => if head_name(*err) == Some("RpcError"@) {
                    Ok(((*ok), true))
                } else {
                    Err(SigError::ResultErrNotRpcError)
                },
                _ => Err(SigError::ResultArity),
            }
        } else {
            Ok((t, false))
        },
    }
}

/// Once a prefix of the parameter list is rejected, the whole list is
/// rejected the same way: the scan reports the first rejection.
proof fn lemma_scan_prefix_err(params: Seq<Param>, k: int)
    requires
        0 <= k <= params.len(),
        scan_params(params.subrange(0, k)).err is Some,
    ensures
        scan_params(params) == scan_params(params.subrange(0, k)),
    decreases params.len() - k,
{
    if k == params.len() {
        assert(params.subrange(0, k) =~= params);
    } else {
        assert(params.subrange(0, k + 1).drop_last() =~= params.subrange(0, k));
        lemma_scan_prefix_err(params, k + 1);
    }
}

fn name_is(n: &String, lit: &str) -> (r: bool)
    ensures
        r == (n@ == lit@),
{
    let l = String::from_str(lit);
    *n == l
}

fn head_is(t: &TypeExpr, lit: &str) -> (r: bool)
    ensures
        r == (head_name(*t) == Some(lit@)),
{
    match t {
        TypeExpr::Unit => false,
        TypeExpr::Named(n) => name_is(n, lit),
        TypeExpr::App1(n, _) => name_is(n, lit),
        TypeExpr::App2(n, _, _) => name_is(n, lit),
    }
}

fn has_name(data: &Vec<Param>, name: &String) -> (r: bool)
    ensures
        r == has_param_name(data@, name@),
{
    let mut j: usize = 0;
    while j < data.len()
        invariant
            0 <= j <= data.len(),
            forall|l: int|
                0 <= l < j ==> !(#[trigger] data@[l].pat matches Pattern::Ident(n) && n@ == name@),
        decreases data.len() - j,
    {
        match &data[j].pat {
            Pattern::Ident(n) => {
                if name_is(n, name.as_str()) {
                    return true;
                }
            },
            Pattern::Other => {},
        }
        j += 1;
    }
    false
}

fn classify_return(ret: &Option<TypeExpr>) -> (r: Result<(TypeExpr, bool), SigError>)
    ensures
        r == return_class(*ret),
{
    match ret {
        None => Ok((TypeExpr::Unit, false)),
        Some(t) => {
            if head_is(t, "Result") {
                match t {
                    TypeExpr::App2(_, ok, err) => {
                        if head_is(err, "RpcError") {
                            Ok((ok.dup(), true))
                        } else {
                            Err(SigError::ResultErrNotRpcError)
                        }
                    },
                    _ => Err(SigError::ResultArity),
                }
            } else {
                Ok((t.dup(), false))
            }
        },
    }
}

/// Inspect a declared signature and classify it, or reject it.
///
/// Parameters are inspected in declaration order: a `State<S>` parameter is
/// the shared-context parameter (at most one is allowed), every other
/// parameter must be a simple bound identifier and becomes a named input
/// field. The return type is either a bare value type or the two-armed
/// result `Result<T, RpcError>`; a two-armed result with any other error arm,
/// or with other than two arms, is rejected. The first offending parameter
/// decides the rejection; parameter rejections precede return-type
/// rejections.
pub fn analyze(sig: &FnSig) -> (r: Result<Analysis, SigError>)
    ensures
        ({
            let scan = scan_params(sig.params@);
            let rc = return_class(sig.ret);
            match r {
                Err(e) => if scan.err is Some {
                    scan.err == Some(e)
                } else {
                    rc == Err::<(TypeExpr, bool), SigError>(e)
                },
                Ok(a) => scan.err is None && (rc matches Ok(p) && a.context == scan.ctx
                    && a.data@ == scan.data && a.output == p.0 && a.returns_result == p.1),
            }
        }),
{
    let ghost orig = sig.params@;
    let mut ctx: Option<TypeExpr> = None;
    let mut data: Vec<Param> = Vec::new();
    let mut i: usize = 0;
    while i < sig.params.len()
        invariant
            0 <= i <= sig.params.len(),
            orig == sig.params@,
            scan_params(orig.subrange(0, i as int)) == (ParamScan {
                err: None,
                ctx: ctx,
                data: data@,
            }),
        decreases sig.params.len() - i,
    {
        let ghost prefix = orig.subrange(0, i as int);
        let ghost ext = orig.subrange(0, i as int + 1);
        proof {
            assert(ext.drop_last() =~= prefix);
            assert(ext.last() == orig[i as int]);
        }
        let p = &sig.params[i];
        let is_state = head_is(&p.ty, "State");
        if is_state {
            match &p.ty {
                TypeExpr::App1(_, inner) => {
                    if ctx.is_some() {
                        proof {
                            assert(scan_params(ext).err == Some(SigError::MultipleContext));
                            lemma_scan_prefix_err(orig, i as int + 1);
                        }
                        return Err(SigError::MultipleContext);
                    }
                    ctx = Some(inner.dup());
                },
                TypeExpr::App2(_, first, _) => {
                    if ctx.is_some() {
                        proof {
                            assert(scan_params(ext).err == Some(SigError::MultipleContext));
                            lemma_scan_prefix_err(orig, i as int + 1);
                        }
                        return Err(SigError::MultipleContext);
                    }
                    ctx = Some(first.dup());
                },
                _ => {
                    proof {
                        assert(classify_param(*p) is ContextBad);
                        assert(scan_params(ext).err == Some(SigError::ContextNotGeneric));
                        lemma_scan_prefix_err(orig, i as int + 1);
                    }
                    return Err(SigError::ContextNotGeneric);
                },
            }
        } else {
            match &p.pat {
                Pattern::Ident(name) => {
                    if has_name(&data, name) {
                        proof {
                            assert(classify_param(*p) is Data);
                            assert(param_name_of(*p) == name@);
                            assert(scan_params(ext).err == Some(SigError::DuplicateParamName));
                            lemma_scan_prefix_err(orig, i as int + 1);
                        }
                        return Err(SigError::DuplicateParamName);
                    }
                    data.push(p.dup());
                },
                Pattern::Other => {
                    proof {
                        assert(classify_param(*p) is BadPattern);
                        assert(scan_params(ext).err == Some(SigError::PatternNotIdent));
                        lemma_scan_prefix_err(orig, i as int + 1);
                    }
                    return Err(SigError::PatternNotIdent);
                },
            }
        }
        i += 1;
    }
    proof {
        assert(orig.subrange(0, i as int) =~= orig);
    }
    match classify_return(&sig.ret) {
        Err(e) => Err(e),
        Ok((output, returns_result)) => Ok(Analysis { context: ctx, data, output, returns_result }),
    }
}

} // verus!
