use type_signatures::builder::build;
use type_signatures::builder::signature;
use type_signatures::expr::Declaration;
use type_signatures::expr::Param;
use type_signatures::expr::TypeExpr;
use type_signatures::foo;

fn named(name: &str, args: Vec<TypeExpr>) -> TypeExpr {
    TypeExpr::NamedPath { name: name.to_string(), args }
}

fn typed_param(binding: &str, ty: TypeExpr) -> Param {
    Param { binding: binding.to_string(), ty: Some(ty) }
}

fn receiver_param() -> Param {
    Param { binding: "self".to_string(), ty: None }
}

#[test]
fn full_function_signature_line() {
    let decl = Declaration {
        name: "foo".to_string(),
        params: vec![
            typed_param("x", named("u8", vec![])),
            typed_param(
                "pair",
                TypeExpr::Tuple { elems: vec![named("u8", vec![]), named("u8", vec![])] },
            ),
        ],
        ret: Some(named("Vec", vec![named("u8", vec![])])),
    };
    assert_eq!(
        signature(&decl),
        "function foo(x:number,pair:[number,number]):Array<number>"
    );
}

#[test]
fn receiver_and_no_return_type_end_at_paren() {
    let decl = Declaration {
        name: "touch".to_string(),
        params: vec![receiver_param()],
        ret: None,
    };
    let line = signature(&decl);
    assert_eq!(line, "function touch(self)");
    assert!(line.ends_with(')'));
}

#[test]
fn no_parameters_and_no_return_type() {
    let decl = Declaration { name: "tick".to_string(), params: vec![], ret: None };
    assert_eq!(signature(&decl), "function tick()");
}

#[test]
fn receiver_mixes_with_typed_parameters() {
    let decl = Declaration {
        name: "insert".to_string(),
        params: vec![receiver_param(), typed_param("key", named("String", vec![]))],
        ret: Some(named("bool", vec![])),
    };
    assert_eq!(signature(&decl), "function insert(self,key:string):bool");
}

#[test]
fn unsupported_parameter_type_renders_empty() {
    let decl = Declaration {
        name: "weird".to_string(),
        params: vec![typed_param("x", TypeExpr::Unsupported)],
        ret: None,
    };
    assert_eq!(signature(&decl), "function weird(x:)");
}

#[test]
fn build_appends_one_line_to_the_sink() {
    let decl = Declaration {
        name: "tick".to_string(),
        params: vec![],
        ret: Some(TypeExpr::Never),
    };
    let mut sink: Vec<String> = vec!["earlier".to_string()];
    build(&decl, &mut sink);
    assert_eq!(sink.len(), 2);
    assert_eq!(sink[0], "earlier");
    assert_eq!(sink[1], "function tick():never");
}

#[test]
fn foo_collects_its_arguments_in_order() {
    assert_eq!(foo(1, (2, 3)), vec![1, 2, 3]);
}
