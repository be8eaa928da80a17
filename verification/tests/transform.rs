//! The whole pass on concrete declaration trees.

use cross_check::config::AnnotationArg;
use cross_check::fault::TransformError;
use cross_check::tree::{
    Attribute, DataTypeDecl, DataTypeKind, Declaration, DeclarationKind, FunctionDecl, OtherDecl,
    Parameter, Statement, Tag,
};
use cross_check::walk::{PassOptions, transform};

fn function(name: &str, params: Vec<Parameter>, body: Vec<Statement>) -> Declaration {
    Declaration {
        annotation: None,
        checked: false,
        kind: DeclarationKind::Function(FunctionDecl {
            identifier: name.to_string(),
            parameters: params,
            attributes: vec![],
            body,
        }),
    }
}

fn annotated(args: Vec<AnnotationArg>, d: Declaration) -> Declaration {
    Declaration { annotation: Some(args), ..d }
}

fn add_function() -> Declaration {
    annotated(
        vec![],
        function(
            "add",
            vec![Parameter::Named("a".to_string()), Parameter::Named("b".to_string())],
            vec![Statement::Opaque("return a + b;".to_string())],
        ),
    )
}

fn body_of(d: &Declaration) -> &Vec<Statement> {
    match &d.kind {
        DeclarationKind::Function(f) => &f.body,
        _ => panic!("expected a function"),
    }
}

#[test]
fn end_to_end_bare_annotation() {
    let out = transform(vec![add_function()], &PassOptions { check_args: false }).unwrap();
    assert_eq!(out.len(), 1);
    assert!(out[0].checked);
    let body = body_of(&out[0]);
    assert_eq!(
        body,
        &vec![
            Statement::VerifyValue(Tag::FunctionEntry, 193486030),
            Statement::Opaque("return a + b;".to_string()),
        ]
    );
}

#[test]
fn end_to_end_with_argument_checks() {
    let out = transform(vec![add_function()], &PassOptions { check_args: true }).unwrap();
    let body = body_of(&out[0]);
    assert_eq!(
        body,
        &vec![
            Statement::VerifyValue(Tag::FunctionEntry, 193486030),
            Statement::VerifyHashOf(Tag::FunctionArgument, "a".to_string()),
            Statement::VerifyHashOf(Tag::FunctionArgument, "b".to_string()),
            Statement::Opaque("return a + b;".to_string()),
        ]
    );
}

#[test]
fn end_to_end_explicit_id() {
    let tree = vec![annotated(
        vec![AnnotationArg::Id(1234)],
        function("add", vec![], vec![Statement::Opaque("return a + b;".to_string())]),
    )];
    let out = transform(tree, &PassOptions { check_args: false }).unwrap();
    let body = body_of(&out[0]);
    assert_eq!(body[0], Statement::VerifyValue(Tag::FunctionEntry, 1234));
}

#[test]
fn unknown_option_aborts() {
    let tree = vec![annotated(
        vec![AnnotationArg::Keyword("frobnicate".to_string())],
        function("foo", vec![], vec![]),
    )];
    let err = transform(tree, &PassOptions { check_args: false }).unwrap_err();
    assert_eq!(err, TransformError::UnknownOption("frobnicate".to_string()));
}

#[test]
fn unsupported_pattern_aborts() {
    let tree = vec![annotated(
        vec![],
        function(
            "swap",
            vec![Parameter::Destructured("(a, b)".to_string())],
            vec![],
        ),
    )];
    let err = transform(tree, &PassOptions { check_args: true }).unwrap_err();
    assert_eq!(err, TransformError::UnsupportedPattern("(a, b)".to_string()));
}

fn scoped_override_tree() -> Vec<Declaration> {
    // A module carrying a blanket enabling annotation, with one function
    // that overrides it and one that inherits it.
    vec![annotated(
        vec![],
        Declaration {
            annotation: None,
            checked: false,
            kind: DeclarationKind::Other(OtherDecl {
                description: "mod m".to_string(),
                children: vec![
                    annotated(
                        vec![AnnotationArg::Id(7)],
                        function("own", vec![], vec![Statement::Opaque("a".to_string())]),
                    ),
                    function("inherits", vec![], vec![Statement::Opaque("b".to_string())]),
                ],
            }),
        },
    )]
}

#[test]
fn override_escape_uses_own_configuration() {
    let out = transform(scoped_override_tree(), &PassOptions { check_args: false }).unwrap();
    let children = match &out[0].kind {
        DeclarationKind::Other(o) => &o.children,
        _ => panic!("expected a scope"),
    };
    // The explicitly annotated function used its own id, not the scope's
    // default, and was instrumented exactly once.
    let own = body_of(&children[0]);
    assert_eq!(
        own,
        &vec![
            Statement::VerifyValue(Tag::FunctionEntry, 7),
            Statement::Opaque("a".to_string()),
        ]
    );
    // The unannotated sibling inherited the blanket default.
    let inherited = body_of(&children[1]);
    assert_eq!(inherited[0], Statement::VerifyValue(Tag::FunctionEntry, 1882600139));
    assert_eq!(inherited.len(), 2);
}

#[test]
fn second_pass_changes_nothing() {
    let opts = PassOptions { check_args: false };
    let once = transform(scoped_override_tree(), &opts).unwrap();
    let twice = transform(transform(scoped_override_tree(), &opts).unwrap(), &opts).unwrap();
    assert_eq!(once, twice);
}

#[test]
fn disable_is_structural_noop() {
    let tree = vec![annotated(
        vec![AnnotationArg::Keyword("never".to_string())],
        function("quiet", vec![], vec![Statement::Opaque("work();".to_string())]),
    )];
    let out = transform(tree, &PassOptions { check_args: false }).unwrap();
    let expected = Declaration {
        checked: true,
        ..annotated(
            vec![AnnotationArg::Keyword("never".to_string())],
            function("quiet", vec![], vec![Statement::Opaque("work();".to_string())]),
        )
    };
    assert_eq!(out, vec![expected]);
}

fn scoped_data_type_tree() -> Vec<Declaration> {
    vec![annotated(
        vec![],
        Declaration {
            annotation: None,
            checked: false,
            kind: DeclarationKind::Other(OtherDecl {
                description: "mod data".to_string(),
                children: vec![Declaration {
                    annotation: None,
                    checked: false,
                    kind: DeclarationKind::DataType(DataTypeDecl {
                        kind: DataTypeKind::Struct,
                        attributes: vec![Attribute { name: "repr(C)".to_string() }],
                    }),
                }],
            }),
        },
    )]
}

#[test]
fn data_type_gains_one_hash_marker() {
    let opts = PassOptions { check_args: false };
    let out = transform(scoped_data_type_tree(), &opts).unwrap();
    let child = match &out[0].kind {
        DeclarationKind::Other(o) => &o.children[0],
        _ => panic!("expected a scope"),
    };
    let attrs = match &child.kind {
        DeclarationKind::DataType(t) => &t.attributes,
        _ => panic!("expected a data type"),
    };
    assert_eq!(
        attrs,
        &vec![
            Attribute { name: "repr(C)".to_string() },
            Attribute { name: "derive(XCheckHash)".to_string() },
        ]
    );
    // A second pass never duplicates the marker.
    let twice = transform(transform(scoped_data_type_tree(), &opts).unwrap(), &opts).unwrap();
    assert_eq!(out, twice);
}

#[test]
fn nested_function_is_walked() {
    // An unannotated outer function is not instrumented, but the
    // annotated function nested in its body is.
    let inner = annotated(
        vec![],
        function("helper", vec![], vec![Statement::Opaque("c".to_string())]),
    );
    let outer = function(
        "outer",
        vec![],
        vec![
            Statement::Opaque("before();".to_string()),
            Statement::Nested(Box::new(inner)),
        ],
    );
    let out = transform(vec![outer], &PassOptions { check_args: false }).unwrap();
    assert!(!out[0].checked);
    let body = body_of(&out[0]);
    assert_eq!(body[0], Statement::Opaque("before();".to_string()));
    let walked_inner = match &body[1] {
        Statement::Nested(d) => d,
        _ => panic!("expected a nested declaration"),
    };
    assert!(walked_inner.checked);
    assert_eq!(
        body_of(walked_inner)[0],
        Statement::VerifyValue(Tag::FunctionEntry, 30954469)
    );
}
