use vstd::prelude::*;
use vstd::string::StringExecFns;
use crate::errors::{RpcError, RpcStatus};
use crate::sig::TypeExpr;
use crate::value::Value;

verus! {

/// The structural shape of a declared type, as the client binding and the
/// input validator see it: a primitive, an optional or list of a shape, or a
/// reference to a named record type whose fields live in the registry.
#[derive(Debug)]
pub enum Shape {
    Unit,
    Bool,
    Int,
    Str,
    Optional(Box<Shape>),
    List(Box<Shape>),
    Ref(String),
}

impl Shape {
    /// An owned copy, equal to the original.
    pub fn dup(&self) -> (r: Shape)
        ensures
            r == *self,
        decreases self,
    {
        match self {
            Shape::Unit => Shape::Unit,
            Shape::Bool => Shape::Bool,
            Shape::Int => Shape::Int,
            Shape::Str => Shape::Str,
            Shape::Optional(inner) => Shape::Optional(Box::new(inner.dup())),
            Shape::List(inner) => Shape::List(Box::new(inner.dup())),
            Shape::Ref(n) => Shape::Ref(n.clone()),
        }
    }
}

/// One named field of a record type.
#[derive(Debug)]
pub struct FieldDecl {
    pub name: String,
    pub shape: Shape,
}

impl FieldDecl {
    /// An owned copy, equal to the original.
    pub fn dup(&self) -> (r: FieldDecl)
        ensures
            r == *self,
    {
        FieldDecl { name: self.name.clone(), shape: self.shape.dup() }
    }
}

/// A structural type declaration: a record with named fields, identified by
/// its type name.
#[derive(Debug)]
pub struct TypeDescriptor {
    pub name: String,
    pub fields: Vec<FieldDecl>,
}

impl TypeDescriptor {
    /// An owned copy whose name and fields equal the original's.
    pub fn dup(&self) -> (r: TypeDescriptor)
        ensures
            r.name == self.name,
            r.fields@ == self.fields@,
    {
        let mut fields: Vec<FieldDecl> = Vec::new();
        let mut i: usize = 0;
        while i < self.fields.len()
            invariant
                0 <= i <= self.fields.len(),
                fields@ =~= self.fields@.subrange(0, i as int),
            decreases self.fields.len() - i,
        {
            fields.push(self.fields[i].dup());
            proof {
                assert(fields@ =~= self.fields@.subrange(0, i as int + 1));
            }
            i += 1;
        }
        proof {
            assert(self.fields@.subrange(0, i as int) =~= self.fields@);
        }
        TypeDescriptor { name: self.name.clone(), fields }
    }
}

pub(crate) fn name_is(n: &String, lit: &str) -> (r: bool)
    ensures
        r == (n@ == lit@),
{
    let l = String::from_str(lit);
    *n == l
}

/// The names of the built-in integer types.
pub open spec fn is_int_type_name(n: Seq<char>) -> bool {
    ||| n == "i8"@
    ||| n == "i16"@
    ||| n == "i32"@
    ||| n == "i64"@
    ||| n == "u8"@
    ||| n == "u16"@
    ||| n == "u32"@
    ||| n == "u64"@
    ||| n == "usize"@
    ||| n == "isize"@
}

fn int_name(n: &String) -> (r: bool)
    ensures
        r == is_int_type_name(n@),
{
    name_is(n, "i8") || name_is(n, "i16") || name_is(n, "i32") || name_is(n, "i64") || name_is(
        n,
        "u8",
    ) || name_is(n, "u16") || name_is(n, "u32") || name_is(n, "u64") || name_is(n, "usize")
        || name_is(n, "isize")
}

/// How a declared type maps to a structural shape: the built-in primitives
/// map to themselves, `Option` and `Vec` map to optional and list shapes,
/// and every other name is a reference to a registered record type.
pub open spec fn shape_for(t: TypeExpr, s: Shape) -> bool
    decreases t,
{
    match t {
        TypeExpr::Unit => s is Unit,
        TypeExpr::Named(n) => if n@ == "bool"@ {
            s is Bool
        } else if is_int_type_name(n@) {
            s is Int
        } else if n@ == "String"@ || n@ == "str"@ {
            s is Str
        } else {
            s matches Shape::Ref(m) && m@ == n@
        },
        TypeExpr::App1(h, inner) => if h@ == "Option"@ {
            s matches Shape::Optional(si) && shape_for(*inner, *si)
        } else if h@ == "Vec"@ {
            s matches Shape::List(si) && shape_for(*inner, *si)
        } else {
            s matches Shape::Ref(m) && m@ == h@
        },
        TypeExpr::App2(h, _, _) => s matches Shape::Ref(m) && m@ == h@,
    }
}

/// Derive the structural shape of a declared type.
pub fn shape_of(t: &TypeExpr) -> (s: Shape)
    ensures
        shape_for(*t, s),
    decreases t,
{
    match t {
        TypeExpr::Unit => Shape::Unit,
        TypeExpr::Named(n) => {
            if name_is(n, "bool") {
                Shape::Bool
            } else if int_name(n) {
                Shape::Int
            } else if name_is(n, "String") || name_is(n, "str") {
                Shape::Str
            } else {
                Shape::Ref(n.clone())
            }
        },
        TypeExpr::App1(h, inner) => {
            if name_is(h, "Option") {
                Shape::Optional(Box::new(shape_of(inner)))
            } else if name_is(h, "Vec") {
                Shape::List(Box::new(shape_of(inner)))
            } else {
                Shape::Ref(h.clone())
            }
        },
        TypeExpr::App2(h, _, _) => Shape::Ref(h.clone()),
    }
}

/// Whether a value fits a shape. A reference shape is checked one level
/// deep (the value must be an object); this library is not a general schema
/// validator.
pub open spec fn conforms(v: Value, s: Shape) -> bool
    decreases s,
{
    match s {
        Shape::Unit => v is Null,
        Shape::Bool => v is Bool,
        Shape::Int => v is Int,
        Shape::Str => v is Str,
        Shape::Optional(inner) => v is Null || conforms(v, *inner),
        Shape::List(inner) => v matches Value::Arr(items) && (forall|i: int|
            0 <= i < items@.len() ==> conforms(#[trigger] items@[i], *inner)),
        Shape::Ref(_) => v is Obj,
    }
}

#[verifier::loop_isolation(false)]
pub fn value_conforms(v: &Value, s: &Shape) -> (r: bool)
    ensures
        r == conforms(*v, *s),
    decreases s,
{
    match s {
        Shape::Unit => v.check_null(),
        Shape::Bool => matches!(v, Value::Bool(_)),
        Shape::Int => matches!(v, Value::Int(_)),
        Shape::Str => matches!(v, Value::Str(_)),
        Shape::Optional(inner) => v.check_null() || value_conforms(v, inner),
        Shape::List(inner) => {
            match v {
                Value::Arr(items) => {
                    let mut i: usize = 0;
                    while i < items.len()
                        invariant
                            0 <= i <= items.len(),
                            forall|j: int| 0 <= j < i ==> conforms(#[trigger] items@[j], **inner),
                        decreases items.len() - i,
                    {
                        proof {
                            assert(decreases_to!(*s => **inner));
                        }
                        if !value_conforms(&items[i], inner) {
                            proof {
                                assert(!conforms(items@[i as int], **inner));
                            }
                            return false;
                        }
                        i += 1;
                    }
                    true
                },
                _ => false,
            }
        },
        Shape::Ref(_) => matches!(v, Value::Obj(_)),
    }
}

/// Why an input payload failed to decode against an input schema.
pub enum DecodeErr {
    NotObject,
    MissingField(String),
    WrongShape(String),
}

/// The index of the first object field named `name`, if any.
pub open spec fn find_key(obj: Seq<(String, Value)>, name: Seq<char>) -> Option<int>
    decreases obj.len(),
{
    if obj.len() == 0 {
        None
    } else if obj.first().0@ == name {
        Some(0int)
    } else {
        match find_key(obj.drop_first(), name) {
            None => None,
            Some(j) => Some(j + 1),
        }
    }
}

proof fn lemma_find_key_at(obj: Seq<(String, Value)>, name: Seq<char>, j: int)
    requires
        0 <= j < obj.len(),
        obj[j].0@ == name,
        forall|l: int| 0 <= l < j ==> obj[l].0@ != name,
    ensures
        find_key(obj, name) == Some(j),
    decreases obj.len(),
{
    if j == 0 {
    } else {
        assert(forall|l: int| 0 <= l < j - 1 ==> obj.drop_first()[l].0@ != name);
        lemma_find_key_at(obj.drop_first(), name, j - 1);
    }
}

proof fn lemma_find_key_none(obj: Seq<(String, Value)>, name: Seq<char>)
    requires
        forall|l: int| 0 <= l < obj.len() ==> obj[l].0@ != name,
    ensures
        find_key(obj, name) is None,
    decreases obj.len(),
{
    if obj.len() > 0 {
        assert(forall|l: int| 0 <= l < obj.len() - 1 ==> obj.drop_first()[l].0@ != name);
        lemma_find_key_none(obj.drop_first(), name);
    }
}

fn find_key_index(obj: &Vec<(String, Value)>, name: &String) -> (r: Option<usize>)
    ensures
        match r {
            Some(j) => find_key(obj@, name@) == Some(j as int) && j < obj@.len(),
            None => find_key(obj@, name@) is None,
        },
{
    let mut k: usize = 0;
    while k < obj.len()
        invariant
            0 <= k <= obj.len(),
            forall|l: int| 0 <= l < k ==> obj@[l].0@ != name@,
        decreases obj.len() - k,
    {
        if name_is(&obj[k].0, name.as_str()) {
            proof {
                lemma_find_key_at(obj@, name@, k as int);
            }
            return Some(k);
        }
        k += 1;
    }
    proof {
        lemma_find_key_none(obj@, name@);
    }
    None
}

/// Decode an object's fields against an input schema's field list, in
/// declaration order: each declared field must be present (its first
/// occurrence is taken and consumed) and must fit its declared shape. The
/// first offending declared field decides the rejection.
pub open spec fn decode_seq(obj: Seq<(String, Value)>, fields: Seq<FieldDecl>) -> Result<
    Seq<Value>,
    DecodeErr,
>
    decreases fields.len(),
{
    if fields.len() == 0 {
        Ok(Seq::empty())
    } else {
        let f = fields.first();
        match find_key(obj, f.name@) {
            None => Err(DecodeErr::MissingField(f.name)),
            Some(j) => {
                let v = obj[j].1;
                if !conforms(v, f.shape) {
                    Err(DecodeErr::WrongShape(f.name))
                } else {
                    match decode_seq(obj.remove(j), fields.drop_first()) {
                        Err(e) => Err(e),
                        Ok(rest) => Ok(seq![v] + rest),
                    }
                }
            },
        }
    }
}

/// `r` with `pre` prepended to its success value.
pub open spec fn prepend_ok(pre: Seq<Value>, r: Result<Seq<Value>, DecodeErr>) -> Result<
    Seq<Value>,
    DecodeErr,
> {
    match r {
        Ok(s) => Ok(pre + s),
        Err(e) => Err(e),
    }
}

/// The message of a rejected input payload, which names the input schema and
/// the underlying decoding failure.
pub open spec fn deser_msg(schema: Seq<char>, e: DecodeErr) -> Seq<char> {
    "Failed to deserialize input for '"@ + schema + "': "@ + (match e {
        DecodeErr::NotObject => "expected an object"@,
        DecodeErr::MissingField(n) => "missing field `"@ + n@ + "`"@,
        DecodeErr::WrongShape(n) => "invalid value for field `"@ + n@ + "`"@,
    })
}

fn deser_error(schema_name: &String, detail_prefix: &str, field: Option<&String>) -> (r: String)
    ensures
        ({
            let detail = match field {
                None => detail_prefix@,
                Some(n) => detail_prefix@ + n@ + "`"@,
            };
            r@ == "Failed to deserialize input for '"@ + schema_name@ + "': "@ + detail
        }),
{
    let mut m = String::from_str("Failed to deserialize input for '");
    m.append(schema_name.as_str());
    m.append("': ");
    m.append(detail_prefix);
    match field {
        None => {},
        Some(n) => {
            m.append(n.as_str());
            m.append("`");
        },
    }
    proof {
        match field {
            None => {
                assert(m@ =~= "Failed to deserialize input for '"@ + schema_name@ + "': "@
                    + detail_prefix@);
            },
            Some(n) => {
                assert(m@ =~= "Failed to deserialize input for '"@ + schema_name@ + "': "@ + (
                detail_prefix@ + n@ + "`"@));
            },
        }
    }
    m
}

/// Check and decode the raw input payload of a procedure that declares at
/// least one data parameter: a missing payload, a payload that is not an
/// object, a missing field, or a field of the wrong shape is a
/// BadRequest-class failure; otherwise the field values come back in
/// declaration order.
#[verifier::loop_isolation(false)]
pub fn decode_input(schema: &TypeDescriptor, input: &mut Option<Value>) -> (r: Result<
    Vec<Value>,
    RpcError,
>)
    ensures
        *final(input) is None,
        match *old(input) {
            None => r matches Err(e) && e.status == RpcStatus::BadRequest && e.message@
                == "missing input arguments"@,
            Some(v) => match v {
                Value::Obj(fs) => match decode_seq(fs@, schema.fields@) {
                    Ok(args) => r matches Ok(a) && a@ == args,
                    Err(de) => r matches Err(e) && e.status == RpcStatus::BadRequest && e.message@
                        == deser_msg(schema.name@, de),
                },
                _ => r matches Err(e) && e.status == RpcStatus::BadRequest && e.message@
                    == deser_msg(schema.name@, DecodeErr::NotObject),
            },
        },
{
    let taken = input.take();
    let obj = match taken {
        None => {
            return Err(
                RpcError::new(RpcStatus::BadRequest, String::from_str("missing input arguments")),
            );
        },
        Some(v) => match v {
            Value::Obj(fs) => fs,
            _ => {
                return Err(
                    RpcError::new(
                        RpcStatus::BadRequest,
                        deser_error(&schema.name, "expected an object", None),
                    ),
                );
            },
        },
    };
    let ghost obj0 = obj@;
    proof {
        assert(schema.fields@.skip(0int) =~= schema.fields@);
        match decode_seq(obj0, schema.fields@) {
            Ok(s) => {
                assert(Seq::<Value>::empty() + s =~= s);
            },
            Err(_) => {},
        }
    }
    let mut obj = obj;
    let mut args: Vec<Value> = Vec::new();
    let mut i: usize = 0;
    while i < schema.fields.len()
        invariant
            0 <= i <= schema.fields.len(),
            prepend_ok(args@, decode_seq(obj@, schema.fields@.skip(i as int))) == decode_seq(
                obj0,
                schema.fields@,
            ),
        decreases schema.fields.len() - i,
    {
        let ghost rest_fields = schema.fields@.skip(i as int);
        proof {
            assert(rest_fields.first() == schema.fields@[i as int]);
            assert(rest_fields.drop_first() =~= schema.fields@.skip(i as int + 1));
        }
        let f = &schema.fields[i];
        match find_key_index(&obj, &f.name) {
            None => {
                proof {
                    assert(decode_seq(obj@, rest_fields) == Err::<Seq<Value>, DecodeErr>(
                        DecodeErr::MissingField(schema.fields@[i as int].name),
                    ));
                }
                return Err(
                    RpcError::new(
                        RpcStatus::BadRequest,
                        deser_error(&schema.name, "missing field `", Some(&f.name)),
                    ),
                );
            },
            Some(j) => {
                if !value_conforms(&obj[j].1, &f.shape) {
                    proof {
                        assert(decode_seq(obj@, rest_fields) == Err::<Seq<Value>, DecodeErr>(
                            DecodeErr::WrongShape(schema.fields@[i as int].name),
                        ));
                    }
                    return Err(
                        RpcError::new(
                            RpcStatus::BadRequest,
                            deser_error(&schema.name, "invalid value for field `", Some(&f.name)),
                        ),
                    );
                }
                let pair = obj.remove(j);
                proof {
                    assert(decode_seq(obj@, rest_fields.drop_first()) == decode_seq(
                        obj@,
                        schema.fields@.skip(i as int + 1),
                    ));
                    assert(args@ + (seq![pair.1] + (match decode_seq(
                        obj@,
                        schema.fields@.skip(i as int + 1),
                    ) {
                        Ok(rest) => rest,
                        Err(_) => Seq::empty(),
                    })) =~= args@.push(pair.1) + (match decode_seq(
                        obj@,
                        schema.fields@.skip(i as int + 1),
                    ) {
                        Ok(rest) => rest,
                        Err(_) => Seq::empty(),
                    }));
                }
                args.push(pair.1);
            },
        }
        i += 1;
    }
    proof {
        assert(schema.fields@.skip(i as int) =~= Seq::<FieldDecl>::empty());
        assert(args@ + Seq::<Value>::empty() =~= args@);
    }
    Ok(args)
}

/// Whether the raw input payload counts as "no input": absent, null, or an
/// empty object.
pub open spec fn empty_input_ok(input: Option<Value>) -> bool {
    match input {
        None => true,
        Some(v) => v is Null || v.is_empty_object(),
    }
}

/// Check the raw input payload of a procedure that declares no data
/// parameters: absent, null and empty-object payloads pass, anything else is
/// a BadRequest-class failure.
pub fn validate_no_input(input: &Option<Value>) -> (r: Result<(), RpcError>)
    ensures
        match r {
            Ok(_) => empty_input_ok(*input),
            Err(e) => !empty_input_ok(*input) && e.status == RpcStatus::BadRequest && e.message@
                == "This RPC method does not accept any parameters, but parameters were provided"@,
        },
{
    match input {
        None => Ok(()),
        Some(v) => {
            if v.check_null() || v.check_empty_object() {
                Ok(())
            } else {
                Err(
                    RpcError::new(
                        RpcStatus::BadRequest,
                        String::from_str(
                            "This RPC method does not accept any parameters, but parameters were provided",
                        ),
                    ),
                )
            }
        },
    }
}

/// The shared, append-only collection of structural type declarations seen
/// across all registered procedures, keyed by type name. Registration
/// deduplicates by name: the first declaration registered under a name wins
/// and a later one is ignored, so conflicting declarations under one name
/// never corrupt an earlier registration.
#[derive(Debug)]
pub struct TypeRegistry {
    pub types: Vec<TypeDescriptor>,
}

impl TypeRegistry {
    /// Whether a declaration is registered under `name`.
    pub open spec fn contains_name(self, name: Seq<char>) -> bool {
        exists|i: int| 0 <= i < self.types@.len() && #[trigger] self.types@[i].name@ == name
    }

    pub fn new() -> (r: Self)
        ensures
            r.types@.len() == 0,
    {
        TypeRegistry { types: Vec::new() }
    }

    fn find_name(&self, name: &String) -> (r: bool)
        ensures
            r == self.contains_name(name@),
    {
        let mut i: usize = 0;
        while i < self.types.len()
            invariant
                0 <= i <= self.types.len(),
                forall|l: int| 0 <= l < i ==> #[trigger] self.types@[l].name@ != name@,
            decreases self.types.len() - i,
        {
            if name_is(&self.types[i].name, name.as_str()) {
                return true;
            }
            i += 1;
        }
        false
    }

    /// Record a structural type declaration, idempotently by type identity:
    /// a declaration under an already-registered name leaves the registry
    /// unchanged; a new name is appended, keeping insertion order.
    pub fn register(&mut self, d: TypeDescriptor)
        ensures
            old(self).contains_name(d.name@) ==> final(self).types@ == old(self).types@,
            !old(self).contains_name(d.name@) ==> final(self).types@ == old(self).types@.push(d),
    {
        if !self.find_name(&d.name) {
            self.types.push(d);
        }
    }

    /// The accumulated declarations, in insertion order.
    pub fn snapshot(&self) -> (r: &Vec<TypeDescriptor>)
        ensures
            r == &self.types,
    {
        &self.types
    }
}

} // verus!
