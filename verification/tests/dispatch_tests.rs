use type_signatures::dispatch::dispatch;
use type_signatures::expr::Declaration;
use type_signatures::expr::Item;
use type_signatures::expr::Param;
use type_signatures::expr::SourceSpan;
use type_signatures::expr::TypeExpr;

#[test]
fn data_structure_is_accepted_silently() {
    let mut sink: Vec<String> = Vec::new();
    let result = dispatch(&Item::DataStructure, &mut sink);
    assert!(result.is_ok());
    assert!(sink.is_empty());
}

#[test]
fn other_item_kind_is_rejected_with_its_location() {
    let mut sink: Vec<String> = Vec::new();
    let span = SourceSpan { line: 7, column: 3 };
    let result = dispatch(&Item::Other { span }, &mut sink);
    let err = result.unwrap_err();
    assert_eq!(err.span.line, 7);
    assert_eq!(err.span.column, 3);
    assert!(sink.is_empty());
}

#[test]
fn function_item_emits_its_signature_line() {
    let decl = Declaration {
        name: "foo".to_string(),
        params: vec![Param {
            binding: "x".to_string(),
            ty: Some(TypeExpr::NamedPath { name: "u8".to_string(), args: vec![] }),
        }],
        ret: None,
    };
    let mut sink: Vec<String> = vec!["kept".to_string()];
    let result = dispatch(&Item::Function { decl }, &mut sink);
    assert!(result.is_ok());
    assert_eq!(sink.len(), 2);
    assert_eq!(sink[0], "kept");
    assert_eq!(sink[1], "function foo(x:number)");
}

#[test]
fn each_item_is_dispatched_independently() {
    let mut sink: Vec<String> = Vec::new();
    let span = SourceSpan { line: 1, column: 0 };
    assert!(dispatch(&Item::Other { span }, &mut sink).is_err());
    let decl = Declaration { name: "after".to_string(), params: vec![], ret: None };
    assert!(dispatch(&Item::Function { decl }, &mut sink).is_ok());
    assert_eq!(sink, vec!["function after()".to_string()]);
}
