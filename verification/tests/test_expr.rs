use github_actions_models::common::expr::{BoE, ExplicitExpr, LoE};
use github_actions_models::decode::{Decode, DecodeError, Shape};
use github_actions_models::value::Value;

/// The tree of a YAML document.
fn yaml(text: &str) -> Value {
    let parsed: serde_yaml::Value = serde_yaml::from_str(text).unwrap();
    tree(&parsed)
}

fn tree(value: &serde_yaml::Value) -> Value {
    match value {
        serde_yaml::Value::Null => Value::Null,
        serde_yaml::Value::Bool(b) => Value::Bool(*b),
        serde_yaml::Value::Number(n) => {
            if let Some(u) = n.as_u64() {
                Value::Integer(u as i128)
            } else if let Some(i) = n.as_i64() {
                Value::Integer(i as i128)
            } else {
                Value::Real(n.to_string())
            }
        }
        serde_yaml::Value::String(s) => Value::String(s.clone()),
        serde_yaml::Value::Sequence(items) => Value::Sequence(items.iter().map(tree).collect()),
        serde_yaml::Value::Mapping(entries) => {
            Value::Mapping(entries.iter().map(|(k, v)| (tree(k), tree(v))).collect())
        }
        serde_yaml::Value::Tagged(tagged) => {
            Value::Tagged(tagged.tag.to_string(), Box::new(tree(&tagged.value)))
        }
    }
}

#[test]
fn test_expr_invalid() {
    let cases = &[
        "not an expression",
        "${{ missing end ",
        "missing beginning }}",
    ];

    for case in cases {
        let case = format!("\"{case}\"");
        assert!(ExplicitExpr::decode(&yaml(&case)).is_err());
    }
}

#[test]
fn test_expr() {
    let expr = "\"  ${{ foo }} \\t \"";
    let expr: ExplicitExpr = ExplicitExpr::decode(&yaml(expr)).unwrap();
    assert_eq!(expr.as_bare(), "foo");
}

#[test]
fn test_loe() {
    let lit = "\"normal string\"";
    assert_eq!(
        LoE::<String>::decode(&yaml(lit)).unwrap(),
        LoE::Literal("normal string".to_string())
    );

    let expr = "\"${{ expr }}\"";
    assert!(matches!(
        LoE::<String>::decode(&yaml(expr)).unwrap(),
        LoE::Expr(_)
    ));

    // Invalid expr deserializes as string.
    let invalid = "\"${{ invalid \"";
    assert_eq!(
        LoE::<String>::decode(&yaml(invalid)).unwrap(),
        LoE::Literal("${{ invalid ".to_string())
    );
}

#[test]
fn curly_and_bare_forms() {
    let expr = ExplicitExpr::from_curly("  ${{ foo  }} \t").unwrap();
    assert_eq!(expr.as_raw(), "  ${{ foo  }} \t");
    assert_eq!(expr.as_curly(), "${{ foo  }}");
    assert_eq!(expr.as_bare(), "foo");
}

#[test]
fn interior_whitespace_is_kept() {
    let expr = ExplicitExpr::from_curly("\n${{\tfoo \t\n bar\n}}\n").unwrap();
    assert_eq!(expr.as_curly(), "${{\tfoo \t\n bar\n}}");
    assert_eq!(expr.as_bare(), "foo \t\n bar");

    let empty = ExplicitExpr::from_curly("${{}}").unwrap();
    assert_eq!(empty.as_curly(), "${{}}");
    assert_eq!(empty.as_bare(), "");

    let blank = ExplicitExpr::from_curly("${{   }}").unwrap();
    assert_eq!(blank.as_bare(), "");

    let nested = ExplicitExpr::from_curly("${{ ${{ a }} }}").unwrap();
    assert_eq!(nested.as_bare(), "${{ a }}");
}

#[test]
fn from_curly_wants_both_delimiters() {
    assert!(ExplicitExpr::from_curly("${{ a }}").is_some());
    assert!(ExplicitExpr::from_curly(" \t${{ a }}\u{3000}").is_some());
    assert!(ExplicitExpr::from_curly("${{ a }").is_none());
    assert!(ExplicitExpr::from_curly("${ a }}").is_none());
    assert!(ExplicitExpr::from_curly("x ${{ a }}").is_none());
    assert!(ExplicitExpr::from_curly("${{ a }} x").is_none());
    assert!(ExplicitExpr::from_curly("${{}").is_none());
    assert!(ExplicitExpr::from_curly("").is_none());
    assert!(ExplicitExpr::from_curly("success()").is_none());
}

#[test]
fn from_bare_is_the_inverse() {
    for text in ["${{ a }}", "  ${{ a }}\n", "success()", "", " a ", "${{ a }", "}}${{"] {
        assert_eq!(
            ExplicitExpr::from_curly(text).is_some(),
            ExplicitExpr::from_bare(text).is_none()
        );
    }
    let bare = ExplicitExpr::from_bare("  github.ref == 'main' ").unwrap();
    assert_eq!(bare.as_raw(), "  github.ref == 'main' ");
    assert_eq!(bare.as_curly(), "${{ github.ref == 'main' }}");
    assert_eq!(bare.as_bare(), "github.ref == 'main'");

    let nothing = ExplicitExpr::from_bare("").unwrap();
    assert_eq!(nothing.as_curly(), "${{  }}");
    assert_eq!(nothing.as_bare(), "");
}

#[test]
fn curly_form_round_trips() {
    for text in ["  ${{ foo  }} \t", "${{a}}", "\n${{ a\n}}"] {
        let expr = ExplicitExpr::from_curly(text).unwrap();
        let again = ExplicitExpr::from_curly(&expr.as_curly()).unwrap();
        assert_eq!(again.as_curly(), expr.as_curly());
        assert_eq!(again.as_bare(), expr.as_bare());
        assert_eq!(again.as_raw(), expr.as_curly());
    }
    let bare = ExplicitExpr::from_bare(" always() ").unwrap();
    let again = ExplicitExpr::from_curly(&bare.as_curly()).unwrap();
    assert_eq!(again.as_curly(), bare.as_curly());
    assert_eq!(again.as_bare(), bare.as_bare());
}

#[test]
fn expression_decodes_from_curly_strings_only() {
    assert_eq!(
        ExplicitExpr::decode(&Value::String("${{ a }}".into())),
        Ok(ExplicitExpr::from_curly("${{ a }}").unwrap())
    );
    assert_eq!(
        ExplicitExpr::decode(&Value::String("a".into())),
        Err(DecodeError::InvalidExpression)
    );
    assert_eq!(ExplicitExpr::decode(&Value::Bool(true)), Err(DecodeError::Expected(Shape::String)));
    assert_eq!(
        DecodeError::InvalidExpression.message(),
        "invalid expression: expected '${{' and '}}' delimiters"
    );
}

#[test]
fn loe_string_vectors() {
    let expr = LoE::<String>::decode(&Value::String("${{ expr }}".into())).unwrap();
    let LoE::Expr(expr) = expr else {
        panic!("expected an expression");
    };
    assert_eq!(expr.as_bare(), "expr");

    assert_eq!(
        LoE::<String>::decode(&Value::String("plain".into())),
        Ok(LoE::Literal("plain".to_owned()))
    );
    assert_eq!(
        LoE::<String>::decode(&Value::String("${{ unterminated".into())),
        Ok(LoE::Literal("${{ unterminated".to_owned()))
    );
}

#[test]
fn loe_prefers_the_expression() {
    // A literal of another type: the expression still decodes.
    assert!(matches!(BoE::decode(&yaml("${{ always() }}")), Ok(LoE::Expr(_))));
    assert_eq!(BoE::decode(&yaml("true")), Ok(LoE::Literal(true)));
    assert_eq!(LoE::<u64>::decode(&yaml("30")), Ok(LoE::Literal(30)));
    assert!(matches!(LoE::<u64>::decode(&yaml("${{ matrix.timeout }}")), Ok(LoE::Expr(_))));
    assert!(matches!(
        LoE::<Vec<String>>::decode(&yaml("${{ fromJSON(inputs.list) }}")),
        Ok(LoE::Expr(_))
    ));
    assert_eq!(
        LoE::<Vec<String>>::decode(&yaml("[a, b]")),
        Ok(LoE::Literal(vec!["a".to_owned(), "b".to_owned()]))
    );
}

fn neither_number() -> Result<LoE<u64>, DecodeError> {
    Err(DecodeError::ExpectedEither(Shape::Expression, Shape::Literal))
}

#[test]
fn loe_names_both_attempts_when_neither_fits() {
    let neither = Err(DecodeError::ExpectedEither(Shape::Expression, Shape::Literal));
    assert_eq!(BoE::decode(&yaml("plain")), neither);
    assert_eq!(BoE::decode(&yaml("[true]")), neither);
    assert_eq!(LoE::<u64>::decode(&yaml("-1")), neither_number());
    assert_eq!(
        DecodeError::ExpectedEither(Shape::Expression, Shape::Literal).message(),
        "data is neither an expression nor a literal"
    );
}

#[test]
fn loe_default_is_the_default_literal() {
    assert_eq!(BoE::default(), LoE::Literal(false));
    assert_eq!(LoE::<String>::default(), LoE::Literal(String::new()));
    assert_eq!(LoE::<Vec<u64>>::default(), LoE::Literal(vec![]));
}
