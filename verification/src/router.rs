use vstd::prelude::*;
use vstd::string::StringExecFns;
use crate::errors::{RpcError, RpcStatus};
use crate::response::{
    is_error_body,
    is_success_body,
    response_of_outcome,
    success_response,
    RpcResponse,
};
use crate::schema::{
    decode_input,
    decode_seq,
    deser_msg,
    empty_input_ok,
    shape_for,
    shape_of,
    validate_no_input,
    DecodeErr,
    FieldDecl,
    Shape,
    TypeDescriptor,
    TypeRegistry,
};
use crate::sig::{
    analyze,
    param_name_of,
    return_class,
    scan_params,
    Analysis,
    FnSig,
    Param,
    Pattern,
    SigError,
    TypeExpr,
};
use crate::value::Value;

verus! {

/// The call kind of a procedure: a query reads, a mutation writes — by
/// convention only, the core does not enforce it.
#[derive(Debug, Clone, Copy, PartialEq, Eq, Structural)]
pub enum RpcType {
    Query,
    Mutation,
}

/// What a procedure does when it is invoked: the caller supplies one of
/// these for every registered procedure, and it plays the part of the
/// procedure's function body.
/// `call_value` serves a procedure whose signature returns a bare value (it
/// cannot fail intrinsically); `call_result` serves one that returns the
/// two-armed result type. The dispatcher picks the method that matches the
/// procedure's analyzed return classification and never calls the other.
pub trait RpcHandler<C> {
    fn call_value(&self, ctx: Option<&C>, args: &Vec<Value>) -> Value;

    fn call_result(&self, ctx: Option<&C>, args: &Vec<Value>) -> Result<Value, RpcError>;
}

/// A registered procedure: its name, call kind, input schema (if it has data
/// parameters), output shape (if it returns anything), the two analyzed
/// flags, and its handler.
pub struct RpcMethod<H> {
    pub name: String,
    pub rpc_type: RpcType,
    pub input_type: Option<TypeDescriptor>,
    pub output_type: Option<Shape>,
    pub has_context: bool,
    pub returns_result: bool,
    pub handler: H,
}

/// The name an input schema takes: the pascal-cased procedure name followed
/// by `Input`.
pub uninterp spec fn pascal_of(s: Seq<char>) -> Seq<char>;

/// Relies on heck's `ToPascalCase::to_pascal_case` (an alias of
/// `ToUpperCamelCase`) to pascal-case a procedure name: the result is a
/// function of the input characters alone.
#[verifier::external_body]
fn pascal_case(s: &String) -> (r: String)
    ensures
        r@ == pascal_of(s@),
{
    heck::ToPascalCase::to_pascal_case(s.as_str())
}

/// How an input-schema field list mirrors the analyzed data parameters: one
/// field per data parameter, name and declared shape preserved, in
/// declaration order.
pub open spec fn fields_match(data: Seq<Param>, fields: Seq<FieldDecl>) -> bool {
    &&& fields.len() == data.len()
    &&& forall|i: int|
        0 <= i < data.len() ==> (#[trigger] fields[i]).name@ == param_name_of(data[i])
            && shape_for(data[i].ty, fields[i].shape)
}

/// How the stored output shape mirrors the analyzed output type: absent for
/// unit, the declared type's shape otherwise.
pub open spec fn output_matches(out: TypeExpr, o: Option<Shape>) -> bool {
    if out is Unit {
        o is None
    } else {
        o matches Some(s) && shape_for(out, s)
    }
}

/// Build a procedure from its declarative description: analyze the
/// signature, synthesize the input schema (one field per data parameter,
/// named after the pascal-cased procedure name) and the output shape, and
/// attach the handler. A rejected signature fails construction.
#[verifier::loop_isolation(false)]
pub fn rpc<H>(name: &String, kind: RpcType, sig: &FnSig, handler: H) -> (r: Result<
    RpcMethod<H>,
    SigError,
>)
    ensures
        ({
            let scan = scan_params(sig.params@);
            let rc = return_class(sig.ret);
            match r {
                Err(e) => if scan.err is Some {
                    scan.err == Some(e)
                } else {
                    rc == Err::<(TypeExpr, bool), SigError>(e)
                },
                Ok(m) => {
                    &&& scan.err is None
                    &&& (rc matches Ok(p) && m.returns_result == p.1 && output_matches(
                        p.0,
                        m.output_type,
                    ))
                    &&& m.name == name
                    &&& m.rpc_type == kind
                    &&& m.has_context == (scan.ctx is Some)
                    &&& (scan.data.len() == 0 ==> m.input_type is None)
                    &&& (scan.data.len() > 0 ==> (m.input_type matches Some(d) && d.name@
                        == pascal_of(name@) + "Input"@ && fields_match(scan.data, d.fields@)))
                },
            }
        }),
{
    let analysis = match analyze(sig) {
        Err(e) => {
            return Err(e);
        },
        Ok(a) => a,
    };
    let Analysis { context, data, output, returns_result } = analysis;
    let has_context = context.is_some();
    let input_type = if data.len() == 0 {
        None
    } else {
        let mut schema_name = pascal_case(name);
        schema_name.append("Input");
        let mut fields: Vec<FieldDecl> = Vec::new();
        let mut i: usize = 0;
        while i < data.len()
            invariant
                0 <= i <= data.len(),
                fields@.len() == i,
                forall|j: int|
                    0 <= j < i ==> (#[trigger] fields@[j]).name@ == param_name_of(data@[j])
                        && shape_for(data@[j].ty, fields@[j].shape),
            decreases data.len() - i,
        {
            let f = &data[i];
            let fname = match &f.pat {
                Pattern::Ident(n) => n.clone(),
                Pattern::Other => String::new(),
            };
            fields.push(FieldDecl { name: fname, shape: shape_of(&f.ty) });
            i += 1;
        }
        Some(TypeDescriptor { name: schema_name, fields })
    };
    let output_type = match &output {
        TypeExpr::Unit => None,
        _ => Some(shape_of(&output)),
    };
    Ok(
        RpcMethod {
            name: name.clone(),
            rpc_type: kind,
            input_type,
            output_type,
            has_context,
            returns_result,
            handler,
        },
    )
}

/// A construction-time failure of router assembly.
#[derive(Debug)]
pub enum BuildError {
    /// The declared signature was rejected.
    Sig(SigError),
    /// A procedure with this name is already registered.
    DuplicateName(String),
}

/// Whether some registered procedure carries `name`.
pub open spec fn has_proc<H>(procs: Seq<RpcMethod<H>>, name: Seq<char>) -> bool {
    exists|i: int| 0 <= i < procs.len() && #[trigger] procs[i].name@ == name
}

/// Pairwise-distinct procedure names.
pub open spec fn unique_names<H>(procs: Seq<RpcMethod<H>>) -> bool {
    forall|i: int, j: int|
        0 <= i < j < procs.len() ==> (#[trigger] procs[i].name@) != (#[trigger] procs[j].name@)
}

/// Law: successful registration keeps procedure names pairwise distinct. A
/// colliding name is rejected before it reaches the table, so a router built
/// by `add` alone — and any table compiled from it — has unique names.
pub proof fn lemma_add_keeps_names_unique<H>(procs: Seq<RpcMethod<H>>, m: RpcMethod<H>)
    requires
        unique_names(procs),
        !has_proc(procs, m.name@),
    ensures
        unique_names(procs.push(m)),
{
    let extended = procs.push(m);
    assert forall|i: int, j: int|
        0 <= i < j < extended.len() implies (#[trigger] extended[i].name@) != (
    #[trigger] extended[j].name@) by {
        if j == procs.len() {
            assert(extended[i] == procs[i]);
            assert(procs[i].name@ != m.name@);
        } else {
            assert(extended[i] == procs[i]);
            assert(extended[j] == procs[j]);
        }
    }
}

/// The index of the first registered procedure named `name`, if any.
pub open spec fn find_proc<H>(procs: Seq<RpcMethod<H>>, name: Seq<char>) -> Option<int>
    decreases procs.len(),
{
    if procs.len() == 0 {
        None
    } else if procs.first().name@ == name {
        Some(0int)
    } else {
        match find_proc(procs.drop_first(), name) {
            None => None,
            Some(j) => Some(j + 1),
        }
    }
}

proof fn lemma_find_proc_at<H>(procs: Seq<RpcMethod<H>>, name: Seq<char>, j: int)
    requires
        0 <= j < procs.len(),
        procs[j].name@ == name,
        forall|l: int| 0 <= l < j ==> procs[l].name@ != name,
    ensures
        find_proc(procs, name) == Some(j),
    decreases procs.len(),
{
    if j == 0 {
    } else {
        assert(forall|l: int| 0 <= l < j - 1 ==> procs.drop_first()[l].name@ != name);
        lemma_find_proc_at(procs.drop_first(), name, j - 1);
    }
}

proof fn lemma_find_proc_none<H>(procs: Seq<RpcMethod<H>>, name: Seq<char>)
    requires
        forall|l: int| 0 <= l < procs.len() ==> procs[l].name@ != name,
    ensures
        find_proc(procs, name) is None,
    decreases procs.len(),
{
    if procs.len() > 0 {
        assert(forall|l: int| 0 <= l < procs.len() - 1 ==> procs.drop_first()[l].name@ != name);
        lemma_find_proc_none(procs.drop_first(), name);
    }
}

/// How a registry changes when a declaration equivalent to `d` is recorded:
/// unchanged if the name is taken, else `d`'s name and fields appended.
pub open spec fn registered_with(oldr: TypeRegistry, newr: TypeRegistry, d: TypeDescriptor) -> bool {
    if oldr.contains_name(d.name@) {
        newr.types@ == oldr.types@
    } else {
        &&& newr.types@.len() == oldr.types@.len() + 1
        &&& newr.types@.subrange(0, oldr.types@.len() as int) == oldr.types@
        &&& newr.types@.last().name@ == d.name@
        &&& newr.types@.last().fields@ == d.fields@
    }
}

/// The method registry while it accumulates procedures, bound to one shared
/// context type through the handlers it stores. Procedure names must be
/// unique; a duplicate registration fails construction before anything can
/// be dispatched.
pub struct RpcRouter<H> {
    pub procs: Vec<RpcMethod<H>>,
    pub types: TypeRegistry,
}

/// The compiled, read-only dispatch table: built once from an accumulating
/// router, then only consulted.
pub struct CompiledRouter<H> {
    pub procs: Vec<RpcMethod<H>>,
    pub types: TypeRegistry,
}

impl<H> RpcRouter<H> {
    pub fn new() -> (r: Self)
        ensures
            r.procs@.len() == 0,
            r.types.types@.len() == 0,
    {
        RpcRouter { procs: Vec::new(), types: TypeRegistry::new() }
    }

    /// Record a caller-supplied structural type declaration, so that the
    /// client binding can declare it: the explicit type-description
    /// capability for record types that appear in signatures.
    pub fn register_type(&mut self, d: TypeDescriptor)
        ensures
            final(self).procs@ == old(self).procs@,
            registered_with(old(self).types, final(self).types, d),
    {
        let ghost oldt = self.types.types@;
        let ghost dg = d;
        self.types.register(d);
        proof {
            if !old(self).types.contains_name(dg.name@) {
                assert(self.types.types@.subrange(0, oldt.len() as int) =~= oldt);
            }
        }
    }

    fn find_name(&self, name: &String) -> (r: bool)
        ensures
            r == has_proc(self.procs@, name@),
    {
        let mut i: usize = 0;
        while i < self.procs.len()
            invariant
                0 <= i <= self.procs.len(),
                forall|l: int| 0 <= l < i ==> #[trigger] self.procs@[l].name@ != name@,
            decreases self.procs.len() - i,
        {
            if crate::schema::name_is(&self.procs[i].name, name.as_str()) {
                return true;
            }
            i += 1;
        }
        false
    }

    /// Register a procedure. A name that is already registered fails the
    /// construction and leaves the router unchanged; otherwise the
    /// procedure is appended and its input schema (if it has one) is
    /// recorded in the type registry.
    pub fn add(&mut self, m: RpcMethod<H>) -> (r: Result<(), BuildError>)
        ensures
            match r {
                Ok(_) => {
                    &&& !has_proc(old(self).procs@, m.name@)
                    &&& final(self).procs@ == old(self).procs@.push(m)
                    &&& (match m.input_type {
                        Some(d) => registered_with(old(self).types, final(self).types, d),
                        None => final(self).types == old(self).types,
                    })
                },
                Err(e) => {
                    &&& e matches BuildError::DuplicateName(n) && n@ == m.name@
                    &&& has_proc(old(self).procs@, m.name@)
                    &&& *final(self) == *old(self)
                },
            },
    {
        if self.find_name(&m.name) {
            return Err(BuildError::DuplicateName(m.name.clone()));
        }
        match &m.input_type {
            Some(d) => {
                let ghost oldt = self.types.types@;
                let dup = d.dup();
                let ghost dg = dup;
                self.types.register(dup);
                proof {
                    if !old(self).types.contains_name(dg.name@) {
                        assert(self.types.types@.subrange(0, oldt.len() as int) =~= oldt);
                    }
                }
            },
            None => {},
        }
        self.procs.push(m);
        Ok(())
    }

    /// Freeze the accumulated procedures into the read-only dispatch table.
    pub fn compile(self) -> (r: CompiledRouter<H>)
        ensures
            r.procs@ == self.procs@,
            r.types.types@ == self.types.types@,
    {
        CompiledRouter { procs: self.procs, types: self.types }
    }
}

/// What a completed invocation may look like on the wire: always a success
/// envelope for a procedure that returns a bare value; a success envelope
/// or a failure envelope for one that returns the two-armed result.
pub open spec fn dispatched_ok<H>(m: RpcMethod<H>, r: RpcResponse) -> bool {
    if m.returns_result {
        (r.0 == 200 && exists|d: Value| is_success_body(r.1, d)) || (exists|
            st: RpcStatus,
            msg: Seq<char>,
        |
            r.0 == st.http_status_spec() && is_error_body(r.1, st, msg))
    } else {
        r.0 == 200 && exists|d: Value| is_success_body(r.1, d)
    }
}

impl<H> CompiledRouter<H> {
    fn find(&self, name: &String) -> (r: Option<usize>)
        ensures
            match r {
                Some(j) => j < self.procs@.len() && find_proc(self.procs@, name@) == Some(j as int),
                None => find_proc(self.procs@, name@) is None,
            },
    {
        let mut i: usize = 0;
        while i < self.procs.len()
            invariant
                0 <= i <= self.procs.len(),
                forall|l: int| 0 <= l < i ==> #[trigger] self.procs@[l].name@ != name@,
            decreases self.procs.len() - i,
        {
            if crate::schema::name_is(&self.procs[i].name, name.as_str()) {
                proof {
                    lemma_find_proc_at(self.procs@, name@, i as int);
                }
                return Some(i);
            }
            i += 1;
        }
        proof {
            lemma_find_proc_none(self.procs@, name@);
        }
        None
    }

    /// Dispatch one inbound call: look the procedure up by name, check the
    /// call kind, extract the shared context if the procedure declared one,
    /// validate and decode the raw input against the input schema, invoke
    /// the handler, and shape the outcome into the uniform wire envelope.
    /// Every failure is a failure envelope; nothing escapes the envelope.
    #[verifier::loop_isolation(false)]
    pub fn dispatch<C>(
        &self,
        name: &String,
        kind: RpcType,
        input: Option<Value>,
        ctx: &Result<C, String>,
    ) -> (r: RpcResponse) where H: RpcHandler<C>
        ensures
            crate::response::is_envelope(r),
            ({
                let procs = self.procs@;
                match find_proc(procs, name@) {
                    None => r.0 == 404 && is_error_body(
                        r.1,
                        RpcStatus::NotFound,
                        "Procedure not found"@,
                    ),
                    Some(pi) => {
                        let m = procs[pi];
                        if m.rpc_type != kind {
                            r.0 == 405 && is_error_body(
                                r.1,
                                RpcStatus::MethodNotSupported,
                                "Unsupported call kind for this procedure"@,
                            )
                        } else if m.has_context && ctx is Err {
                            ctx matches Err(rej) && r.0 == 500 && is_error_body(
                                r.1,
                                RpcStatus::InternalServerError,
                                "Failed to extract state: "@ + rej@,
                            )
                        } else {
                            match m.input_type {
                                None => if !empty_input_ok(input) {
                                    r.0 == 400 && is_error_body(
                                        r.1,
                                        RpcStatus::BadRequest,
                                        "This RPC method does not accept any parameters, but parameters were provided"@,
                                    )
                                } else {
                                    dispatched_ok(m, r)
                                },
                                Some(schema) => match input {
                                    None => r.0 == 400 && is_error_body(
                                        r.1,
                                        RpcStatus::BadRequest,
                                        "missing input arguments"@,
                                    ),
                                    Some(v) => match v {
                                        Value::Obj(fs) => match decode_seq(fs@, schema.fields@) {
                                            Ok(_) => dispatched_ok(m, r),
                                            Err(de) => r.0 == 400 && is_error_body(
                                                r.1,
                                                RpcStatus::BadRequest,
                                                deser_msg(schema.name@, de),
                                            ),
                                        },
                                        _ => r.0 == 400 && is_error_body(
                                            r.1,
                                            RpcStatus::BadRequest,
                                            deser_msg(schema.name@, DecodeErr::NotObject),
                                        ),
                                    },
                                },
                            }
                        }
                    },
                }
            }),
    {
        let idx = match self.find(name) {
            None => {
                return RpcError::new(
                    RpcStatus::NotFound,
                    String::from_str("Procedure not found"),
                ).to_response();
            },
            Some(i) => i,
        };
        let m = &self.procs[idx];
        if m.rpc_type != kind {
            return RpcError::new(
                RpcStatus::MethodNotSupported,
                String::from_str("Unsupported call kind for this procedure"),
            ).to_response();
        }
        let ctx_opt: Option<&C> = if m.has_context {
            match ctx {
                Ok(c) => Some(c),
                Err(rej) => {
                    let mut msg = String::from_str("Failed to extract state: ");
                    msg.append(rej.as_str());
                    return RpcError::new(RpcStatus::InternalServerError, msg).to_response();
                },
            }
        } else {
            None
        };
        let mut payload = input;
        let args: Vec<Value> = match &m.input_type {
            None => {
                match validate_no_input(&payload) {
                    Err(e) => {
                        return e.to_response();
                    },
                    Ok(_) => Vec::new(),
                }
            },
            Some(schema) => {
                match decode_input(schema, &mut payload) {
                    Err(e) => {
                        return e.to_response();
                    },
                    Ok(a) => a,
                }
            },
        };
        if m.returns_result {
            response_of_outcome(m.handler.call_result(ctx_opt, &args))
        } else {
            success_response(m.handler.call_value(ctx_opt, &args))
        }
    }
}

} // verus!
