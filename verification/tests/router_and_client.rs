use juno::errors::{RpcError, RpcStatus};
use juno::router::{rpc, BuildError, RpcHandler, RpcRouter, RpcType};
use juno::schema::{FieldDecl, Shape, TypeDescriptor};
use juno::sig::{FnSig, Param, Pattern, TypeExpr};
use juno::value::Value;

fn named(n: &str) -> TypeExpr {
    TypeExpr::Named(n.to_string())
}

fn app1(h: &str, a: TypeExpr) -> TypeExpr {
    TypeExpr::App1(h.to_string(), Box::new(a))
}

fn app2(h: &str, a: TypeExpr, b: TypeExpr) -> TypeExpr {
    TypeExpr::App2(h.to_string(), Box::new(a), Box::new(b))
}

fn ident(n: &str, ty: TypeExpr) -> Param {
    Param {
        pat: Pattern::Ident(n.to_string()),
        ty,
    }
}

fn obj(fields: Vec<(&str, Value)>) -> Value {
    Value::Obj(
        fields
            .into_iter()
            .map(|(k, v)| (k.to_string(), v))
            .collect(),
    )
}

#[derive(Clone)]
struct AppState {
    shared_data: String,
}

enum Demo {
    AddNumbers,
    GetApiVersion,
    GetUser,
}

impl RpcHandler<AppState> for Demo {
    fn call_value(&self, _ctx: Option<&AppState>, _args: &Vec<Value>) -> Value {
        match self {
            Demo::GetApiVersion => Value::Str("1.0.0".to_string()),
            _ => Value::Null,
        }
    }

    fn call_result(&self, ctx: Option<&AppState>, args: &Vec<Value>) -> Result<Value, RpcError> {
        match self {
            Demo::AddNumbers => {
                let first = match &args[0] {
                    Value::Int(x) => *x,
                    _ => 0,
                };
                let second = match &args[1] {
                    Value::Int(x) => *x,
                    _ => 0,
                };
                Ok(Value::Int(first + second))
            }
            Demo::GetUser => {
                let state = ctx.expect("getUser declares a context parameter");
                let id = match &args[0] {
                    Value::Int(x) => *x,
                    _ => 0,
                };
                if id == 1 {
                    Err(RpcError::new(
                        RpcStatus::InternalServerError,
                        "Cannot get user 1".to_string(),
                    ))
                } else {
                    Ok(obj(vec![
                        ("id", Value::Int(id)),
                        ("name", Value::Str(state.shared_data.clone())),
                    ]))
                }
            }
            _ => Err(RpcError::new(
                RpcStatus::InternalServerError,
                "wrong handler".to_string(),
            )),
        }
    }
}

fn add_numbers_sig() -> FnSig {
    FnSig {
        params: vec![ident("first", named("i32")), ident("second", named("i32"))],
        ret: Some(app2("Result", named("i32"), named("RpcError"))),
    }
}

fn get_api_version_sig() -> FnSig {
    FnSig {
        params: vec![],
        ret: Some(named("String")),
    }
}

fn get_user_sig() -> FnSig {
    FnSig {
        params: vec![
            ident("state", app1("State", named("AppState"))),
            ident("user_id", named("u64")),
        ],
        ret: Some(app2("Result", named("User"), named("RpcError"))),
    }
}

fn demo_router() -> RpcRouter<Demo> {
    let mut router = RpcRouter::new();
    router.register_type(TypeDescriptor {
        name: "User".to_string(),
        fields: vec![
            FieldDecl {
                name: "id".to_string(),
                shape: Shape::Int,
            },
            FieldDecl {
                name: "name".to_string(),
                shape: Shape::Str,
            },
        ],
    });
    router
        .add(rpc(&"addNumbers".to_string(), RpcType::Mutation, &add_numbers_sig(), Demo::AddNumbers).unwrap())
        .unwrap();
    router
        .add(
            rpc(
                &"getApiVersion".to_string(),
                RpcType::Query,
                &get_api_version_sig(),
                Demo::GetApiVersion,
            )
            .unwrap(),
        )
        .unwrap();
    router
        .add(rpc(&"getUser".to_string(), RpcType::Query, &get_user_sig(), Demo::GetUser).unwrap())
        .unwrap();
    router
}

fn ok_ctx() -> Result<AppState, String> {
    Ok(AppState {
        shared_data: "shared".to_string(),
    })
}

#[test]
fn rpc_builds_input_schema_with_pascal_cased_name() {
    let m = rpc(
        &"add_numbers".to_string(),
        RpcType::Mutation,
        &add_numbers_sig(),
        Demo::AddNumbers,
    )
    .unwrap();
    let schema = m.input_type.expect("two data parameters make a schema");
    assert_eq!(schema.name, "AddNumbersInput".to_string());
    assert_eq!(schema.fields.len(), 2);
    assert_eq!(schema.fields[0].name, "first".to_string());
    assert!(matches!(schema.fields[0].shape, Shape::Int));
    assert_eq!(schema.fields[1].name, "second".to_string());
    assert!(matches!(m.output_type, Some(Shape::Int)));
    assert!(m.returns_result);
    assert!(!m.has_context);
}

#[test]
fn rpc_zero_data_parameters_make_no_schema() {
    let m = rpc(
        &"getApiVersion".to_string(),
        RpcType::Query,
        &get_api_version_sig(),
        Demo::GetApiVersion,
    )
    .unwrap();
    assert!(m.input_type.is_none());
    assert!(matches!(m.output_type, Some(Shape::Str)));
    assert!(!m.returns_result);
}

#[test]
fn duplicate_registration_fails_before_dispatch() {
    let mut router: RpcRouter<Demo> = RpcRouter::new();
    router
        .add(rpc(&"addNumbers".to_string(), RpcType::Mutation, &add_numbers_sig(), Demo::AddNumbers).unwrap())
        .unwrap();
    let again =
        rpc(&"addNumbers".to_string(), RpcType::Query, &get_api_version_sig(), Demo::GetApiVersion).unwrap();
    match router.add(again) {
        Err(BuildError::DuplicateName(n)) => assert_eq!(n, "addNumbers".to_string()),
        _ => panic!("a duplicate name must fail construction"),
    }
}

#[test]
fn dispatch_add_numbers_yields_result_data_five() {
    let table = demo_router().compile();
    let input = Some(obj(vec![
        ("first", Value::Int(2)),
        ("second", Value::Int(3)),
    ]));
    let r = table.dispatch(&"addNumbers".to_string(), RpcType::Mutation, input, &ok_ctx());
    assert_eq!(r.status(), 200);
    let expected = obj(vec![("result", obj(vec![("data", Value::Int(5))]))]);
    assert_eq!(*r.value(), expected);
}

#[test]
fn dispatch_unknown_name_is_not_found() {
    let table = demo_router().compile();
    let r = table.dispatch(&"foo".to_string(), RpcType::Query, None, &ok_ctx());
    assert_eq!(r.status(), 404);
    let expected = obj(vec![(
        "error",
        obj(vec![
            ("message", Value::Str("Procedure not found".to_string())),
            ("code", Value::Int(-32004)),
            (
                "data",
                obj(vec![
                    ("code", Value::Str("NOT_FOUND".to_string())),
                    ("httpStatus", Value::Int(404)),
                ]),
            ),
        ]),
    )]);
    assert_eq!(*r.value(), expected);
}

#[test]
fn dispatch_kind_mismatch_is_method_not_supported() {
    let table = demo_router().compile();
    let input = Some(obj(vec![
        ("first", Value::Int(2)),
        ("second", Value::Int(3)),
    ]));
    let r = table.dispatch(&"addNumbers".to_string(), RpcType::Query, input, &ok_ctx());
    assert_eq!(r.status(), 405);
}

#[test]
fn dispatch_zero_param_accepts_absent_null_and_empty_object() {
    let table = demo_router().compile();
    let name = "getApiVersion".to_string();
    for input in [None, Some(Value::Null), Some(obj(vec![]))] {
        let r = table.dispatch(&name, RpcType::Query, input, &ok_ctx());
        assert_eq!(r.status(), 200);
        let expected = obj(vec![(
            "result",
            obj(vec![("data", Value::Str("1.0.0".to_string()))]),
        )]);
        assert_eq!(*r.value(), expected);
    }
}

#[test]
fn dispatch_zero_param_rejects_non_empty_input() {
    let table = demo_router().compile();
    let input = Some(obj(vec![("x", Value::Int(1))]));
    let r = table.dispatch(&"getApiVersion".to_string(), RpcType::Query, input, &ok_ctx());
    assert_eq!(r.status(), 400);
    match r.value() {
        Value::Obj(top) => match &top[0].1 {
            Value::Obj(e) => assert_eq!(
                e[0].1,
                Value::Str(
                    "This RPC method does not accept any parameters, but parameters were provided"
                        .to_string()
                )
            ),
            _ => panic!("malformed envelope"),
        },
        _ => panic!("malformed envelope"),
    }
}

fn error_message(r: &juno::response::RpcResponse) -> String {
    match r.value() {
        Value::Obj(top) => match &top[0].1 {
            Value::Obj(e) => match &e[0].1 {
                Value::Str(m) => m.clone(),
                _ => panic!("message is not a string"),
            },
            _ => panic!("malformed envelope"),
        },
        _ => panic!("malformed envelope"),
    }
}

#[test]
fn dispatch_missing_input_is_bad_request() {
    let table = demo_router().compile();
    let r = table.dispatch(&"addNumbers".to_string(), RpcType::Mutation, None, &ok_ctx());
    assert_eq!(r.status(), 400);
    assert_eq!(error_message(&r), "missing input arguments".to_string());
}

#[test]
fn dispatch_missing_field_names_schema() {
    let table = demo_router().compile();
    let input = Some(obj(vec![("first", Value::Int(2))]));
    let r = table.dispatch(&"addNumbers".to_string(), RpcType::Mutation, input, &ok_ctx());
    assert_eq!(r.status(), 400);
    assert_eq!(error_message(&r), "Failed to deserialize input for 'AddNumbersInput': missing field `second`".to_string());
}

#[test]
fn dispatch_wrong_field_shape_names_schema() {
    let table = demo_router().compile();
    let input = Some(obj(vec![
        ("first", Value::Str("two".to_string())),
        ("second", Value::Int(3)),
    ]));
    let r = table.dispatch(&"addNumbers".to_string(), RpcType::Mutation, input, &ok_ctx());
    assert_eq!(r.status(), 400);
    assert_eq!(error_message(&r), "Failed to deserialize input for 'AddNumbersInput': invalid value for field `first`".to_string());
}

#[test]
fn dispatch_context_rejection_is_internal_error() {
    let table = demo_router().compile();
    let input = Some(obj(vec![("user_id", Value::Int(7))]));
    let ctx: Result<AppState, String> = Err("no state configured".to_string());
    let r = table.dispatch(&"getUser".to_string(), RpcType::Query, input, &ctx);
    assert_eq!(r.status(), 500);
    assert_eq!(error_message(&r), "Failed to extract state: no state configured".to_string());
}

#[test]
fn dispatch_context_rejection_ignored_without_context_parameter() {
    let table = demo_router().compile();
    let ctx: Result<AppState, String> = Err("no state configured".to_string());
    let r = table.dispatch(&"getApiVersion".to_string(), RpcType::Query, None, &ctx);
    assert_eq!(r.status(), 200);
}

#[test]
fn dispatch_result_failure_surfaces_returned_error() {
    let table = demo_router().compile();
    let input = Some(obj(vec![("user_id", Value::Int(1))]));
    let r = table.dispatch(&"getUser".to_string(), RpcType::Query, input, &ok_ctx());
    assert_eq!(r.status(), 500);
    assert_eq!(error_message(&r), "Cannot get user 1".to_string());
}

#[test]
fn dispatch_result_success_uses_context() {
    let table = demo_router().compile();
    let input = Some(obj(vec![("user_id", Value::Int(7))]));
    let r = table.dispatch(&"getUser".to_string(), RpcType::Query, input, &ok_ctx());
    assert_eq!(r.status(), 200);
    let expected = obj(vec![(
        "result",
        obj(vec![(
            "data",
            obj(vec![
                ("id", Value::Int(7)),
                ("name", Value::Str("shared".to_string())),
            ]),
        )]),
    )]);
    assert_eq!(*r.value(), expected);
}

#[test]
fn client_binding_lists_types_and_procedures() {
    let router = demo_router();
    let text = router.client_binding();
    let expected = "export type User = { id: number; name: string; };\n\
export type AddNumbersInput = { first: number; second: number; };\n\
export type GetUserInput = { user_id: number; };\n\
export const addNumbers: mutation(AddNumbersInput) => number;\n\
export const getApiVersion: query(void) => string;\n\
export const getUser: query(GetUserInput) => User;\n";
    assert_eq!(text, expected.to_string());
}

#[test]
fn client_binding_emission_is_idempotent() {
    let router = demo_router();
    let first = router.client_binding();
    let second = router.client_binding();
    assert_eq!(first, second);
}

#[test]
fn rpc_result_of_unit_has_no_output_type() {
    let sig = FnSig {
        params: vec![],
        ret: Some(app2("Result", TypeExpr::Unit, named("RpcError"))),
    };
    let m = rpc(&"noOutput".to_string(), RpcType::Query, &sig, Demo::GetApiVersion).unwrap();
    assert!(m.input_type.is_none());
    assert!(m.output_type.is_none());
    assert!(m.returns_result);
}

#[test]
fn client_binding_of_empty_router_is_empty() {
    let router: RpcRouter<Demo> = RpcRouter::new();
    assert_eq!(router.client_binding(), "".to_string());
}

#[test]
fn client_binding_renders_optional_and_list_shapes() {
    let mut router: RpcRouter<Demo> = RpcRouter::new();
    let sig = FnSig {
        params: vec![ident("tags", app1("Vec", named("String")))],
        ret: Some(app1("Option", named("u64"))),
    };
    router
        .add(rpc(&"countTags".to_string(), RpcType::Query, &sig, Demo::GetApiVersion).unwrap())
        .unwrap();
    let text = router.client_binding();
    let expected = "export type CountTagsInput = { tags: (string)[]; };\n\
export const countTags: query(CountTagsInput) => (number | null);\n";
    assert_eq!(text, expected.to_string());
}
