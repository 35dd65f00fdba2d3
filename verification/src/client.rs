use vstd::prelude::*;
use vstd::string::StringExecFns;
use crate::router::{RpcMethod, RpcRouter, RpcType};
use crate::schema::{FieldDecl, Shape, TypeDescriptor};

verus! {

/// The client-side type text a shape renders to.
pub open spec fn ts_shape(s: Shape) -> Seq<char>
    decreases s,
{
    match s {
        Shape::Unit => "void"@,
        Shape::Bool => "boolean"@,
        Shape::Int => "number"@,
        Shape::Str => "string"@,
        Shape::Optional(inner) => "("@ + ts_shape(*inner) + " | null)"@,
        Shape::List(inner) => "("@ + ts_shape(*inner) + ")[]"@,
        Shape::Ref(n) => n@,
    }
}

pub fn ts_shape_text(s: &Shape) -> (r: String)
    ensures
        r@ == ts_shape(*s),
    decreases s,
{
    match s {
        Shape::Unit => String::from_str("void"),
        Shape::Bool => String::from_str("boolean"),
        Shape::Int => String::from_str("number"),
        Shape::Str => String::from_str("string"),
        Shape::Optional(inner) => {
            let mut t = String::from_str("(");
            let it = ts_shape_text(inner);
            t.append(it.as_str());
            t.append(" | null)");
            t
        },
        Shape::List(inner) => {
            let mut t = String::from_str("(");
            let it = ts_shape_text(inner);
            t.append(it.as_str());
            t.append(")[]");
            t
        },
        Shape::Ref(n) => n.clone(),
    }
}

/// The field list of one structural type declaration, in declaration order.
pub open spec fn render_fields(fs: Seq<FieldDecl>) -> Seq<char>
    decreases fs.len(),
{
    if fs.len() == 0 {
        Seq::empty()
    } else {
        render_fields(fs.drop_last()) + fs.last().name@ + ": "@ + ts_shape(fs.last().shape)
            + "; "@
    }
}

/// One structural type declaration.
pub open spec fn render_type(d: TypeDescriptor) -> Seq<char> {
    "export type "@ + d.name@ + " = { "@ + render_fields(d.fields@) + "};"@ + "\n"@
}

/// All registered type declarations, in insertion order.
pub open spec fn render_types(ts: Seq<TypeDescriptor>) -> Seq<char>
    decreases ts.len(),
{
    if ts.len() == 0 {
        Seq::empty()
    } else {
        render_types(ts.drop_last()) + render_type(ts.last())
    }
}

pub open spec fn kind_text(k: RpcType) -> Seq<char> {
    match k {
        RpcType::Query => "query"@,
        RpcType::Mutation => "mutation"@,
    }
}

/// One callable declaration: name, call kind, parameter shape and return
/// shape.
pub open spec fn render_proc<H>(m: RpcMethod<H>) -> Seq<char> {
    "export const "@ + m.name@ + ": "@ + kind_text(m.rpc_type) + "("@ + (match m.input_type {
        None => "void"@,
        Some(d) => d.name@,
    }) + ") => "@ + (match m.output_type {
        None => "void"@,
        Some(s) => ts_shape(s),
    }) + ";"@ + "\n"@
}

/// All callable declarations, in registration order.
pub open spec fn render_procs<H>(procs: Seq<RpcMethod<H>>) -> Seq<char>
    decreases procs.len(),
{
    if procs.len() == 0 {
        Seq::empty()
    } else {
        render_procs(procs.drop_last()) + render_proc(procs.last())
    }
}

/// The whole client binding: every type declaration, then every callable
/// declaration, both in insertion order.
pub open spec fn render_client<H>(ts: Seq<TypeDescriptor>, procs: Seq<RpcMethod<H>>) -> Seq<char> {
    render_types(ts) + render_procs(procs)
}

/// Law: emission is deterministic — a pure function of the registry
/// snapshot and the procedure list alone — so emitting twice from an
/// unchanged registry and procedure list yields byte-identical output.
pub proof fn lemma_emission_deterministic<H>(
    t1: Seq<TypeDescriptor>,
    p1: Seq<RpcMethod<H>>,
    t2: Seq<TypeDescriptor>,
    p2: Seq<RpcMethod<H>>,
)
    requires
        t1 == t2,
        p1 == p2,
    ensures
        render_client(t1, p1) == render_client(t2, p2),
{
}

#[verifier::loop_isolation(false)]
fn field_list_text(fields: &Vec<FieldDecl>) -> (r: String)
    ensures
        r@ == render_fields(fields@),
{
    let mut out = String::new();
    let mut i: usize = 0;
    while i < fields.len()
        invariant
            0 <= i <= fields.len(),
            out@ == render_fields(fields@.subrange(0, i as int)),
        decreases fields.len() - i,
    {
        proof {
            assert(fields@.subrange(0, i as int + 1).drop_last() =~= fields@.subrange(0, i as int));
            assert(fields@.subrange(0, i as int + 1).last() == fields@[i as int]);
        }
        let f = &fields[i];
        out.append(f.name.as_str());
        out.append(": ");
        let st = ts_shape_text(&f.shape);
        out.append(st.as_str());
        out.append("; ");
        i += 1;
    }
    proof {
        assert(fields@.subrange(0, i as int) =~= fields@);
    }
    out
}

fn type_text(d: &TypeDescriptor) -> (r: String)
    ensures
        r@ == render_type(*d),
{
    let mut out = String::from_str("export type ");
    out.append(d.name.as_str());
    out.append(" = { ");
    let fl = field_list_text(&d.fields);
    out.append(fl.as_str());
    out.append("};");
    out.append("\n");
    out
}

fn kind_str(k: RpcType) -> (r: String)
    ensures
        r@ == kind_text(k),
{
    match k {
        RpcType::Query => String::from_str("query"),
        RpcType::Mutation => String::from_str("mutation"),
    }
}

fn proc_text<H>(m: &RpcMethod<H>) -> (r: String)
    ensures
        r@ == render_proc(*m),
{
    let mut out = String::from_str("export const ");
    out.append(m.name.as_str());
    out.append(": ");
    let kt = kind_str(m.rpc_type);
    out.append(kt.as_str());
    out.append("(");
    match &m.input_type {
        None => out.append("void"),
        Some(d) => out.append(d.name.as_str()),
    }
    out.append(") => ");
    match &m.output_type {
        None => out.append("void"),
        Some(s) => {
            let st = ts_shape_text(s);
            out.append(st.as_str());
        },
    }
    out.append(";");
    out.append("\n");
    out
}

/// Serialize a registry snapshot and a procedure list into the typed client
/// description: a structural declaration for every registered type, then a
/// callable declaration for every procedure, in stable insertion order.
#[verifier::loop_isolation(false)]
pub fn emit_client<H>(types: &Vec<TypeDescriptor>, procs: &Vec<RpcMethod<H>>) -> (r: String)
    ensures
        r@ == render_client(types@, procs@),
{
    let mut out = String::new();
    let mut i: usize = 0;
    while i < types.len()
        invariant
            0 <= i <= types.len(),
            out@ == render_types(types@.subrange(0, i as int)),
        decreases types.len() - i,
    {
        proof {
            assert(types@.subrange(0, i as int + 1).drop_last() =~= types@.subrange(0, i as int));
            assert(types@.subrange(0, i as int + 1).last() == types@[i as int]);
        }
        let line = type_text(&types[i]);
        out.append(line.as_str());
        i += 1;
    }
    proof {
        assert(types@.subrange(0, i as int) =~= types@);
    }
    let mut j: usize = 0;
    while j < procs.len()
        invariant
            0 <= j <= procs.len(),
            out@ == render_types(types@) + render_procs(procs@.subrange(0, j as int)),
        decreases procs.len() - j,
    {
        proof {
            assert(procs@.subrange(0, j as int + 1).drop_last() =~= procs@.subrange(0, j as int));
            assert(procs@.subrange(0, j as int + 1).last() == procs@[j as int]);
        }
        let line = proc_text(&procs[j]);
        out.append(line.as_str());
        proof {
            assert(out@ =~= render_types(types@) + render_procs(
                procs@.subrange(0, j as int + 1),
            ));
        }
        j += 1;
    }
    proof {
        assert(procs@.subrange(0, j as int) =~= procs@);
    }
    out
}

impl<H> RpcRouter<H> {
    /// The client binding for the current registry snapshot and procedure
    /// list. Writing it to its destination file is the transport
    /// boundary's job; the text itself is a pure function of the two
    /// inputs.
    pub fn client_binding(&self) -> (r: String)
        ensures
            r@ == render_client(self.types.types@, self.procs@),
    {
        emit_client(&self.types.types, &self.procs)
    }
}

} // verus!
