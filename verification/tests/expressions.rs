use transpiler::{emit_expr, Expr, InfixOp, PrefixOp};

fn ident(name: &str) -> Expr {
    Expr::Ident(name.to_string())
}

fn infix(op: InfixOp, lhs: Expr, rhs: Expr) -> Expr {
    Expr::Infix { op, lhs: Box::new(lhs), rhs: Box::new(rhs) }
}

fn call(callee: &str, args: Vec<Expr>) -> Expr {
    Expr::Call { callee: Box::new(ident(callee)), args }
}

fn text_of(expr: &Expr) -> String {
    let mut out = String::new();
    emit_expr(&mut out, expr);
    out
}

#[test]
fn int_literal_is_its_decimal_numeral() {
    assert_eq!(text_of(&Expr::Int(5)), "5");
    assert_eq!(text_of(&Expr::Int(0)), "0");
    assert_eq!(text_of(&Expr::Int(9)), "9");
    assert_eq!(text_of(&Expr::Int(10)), "10");
    assert_eq!(text_of(&Expr::Int(-1)), "-1");
    assert_eq!(text_of(&Expr::Int(1234567890)), "1234567890");
    assert_eq!(text_of(&Expr::Int(-4050)), "-4050");
}

#[test]
fn int_literal_at_the_ends_of_its_range() {
    assert_eq!(text_of(&Expr::Int(i64::MAX)), "9223372036854775807");
    assert_eq!(text_of(&Expr::Int(i64::MIN)), "-9223372036854775808");
}

#[test]
fn int_literal_reads_back_as_the_same_value() {
    for v in [0i64, 7, -7, 100, -100, 99999, i64::MAX, i64::MIN] {
        let text = text_of(&Expr::Int(v));
        assert_eq!(text.parse::<i64>().unwrap(), v);
        assert_eq!(text, format!("{}", v));
    }
}

#[test]
fn bool_literal_is_one_or_zero() {
    assert_eq!(text_of(&Expr::Bool(true)), "1");
    assert_eq!(text_of(&Expr::Bool(false)), "0");
}

#[test]
fn nil_is_zero() {
    assert_eq!(text_of(&Expr::Nil), "0");
}

#[test]
fn float_literal_is_written_as_given() {
    assert_eq!(text_of(&Expr::Float("1.5".to_string())), "1.5");
    assert_eq!(text_of(&Expr::Float(format!("{}", 0.25f64))), "0.25");
    assert_eq!(text_of(&Expr::Float(format!("{}", -3.0f64))), "-3");
}

#[test]
fn string_literal_is_quoted() {
    assert_eq!(text_of(&Expr::String("hello".to_string())), "\"hello\"");
    assert_eq!(text_of(&Expr::String(String::new())), "\"\"");
}

#[test]
fn string_literal_with_embedded_quote_is_not_escaped() {
    // three quote characters: the literal ends early in C
    assert_eq!(text_of(&Expr::String("a\"b".to_string())), "\"a\"b\"");
}

#[test]
fn string_literal_with_backslash_or_newline_is_not_escaped() {
    assert_eq!(text_of(&Expr::String("a\\b".to_string())), "\"a\\b\"");
    assert_eq!(text_of(&Expr::String("a\nb".to_string())), "\"a\nb\"");
}

#[test]
fn identifier_is_written_verbatim() {
    assert_eq!(text_of(&ident("counter_1")), "counter_1");
}

#[test]
fn infix_is_wrapped_in_parentheses() {
    let e = infix(InfixOp::Add, ident("a"), ident("b"));
    assert_eq!(text_of(&e), "(a + b)");
}

#[test]
fn infix_tokens_follow_the_table() {
    let table = [
        (InfixOp::Add, "+"),
        (InfixOp::Sub, "-"),
        (InfixOp::Mul, "*"),
        (InfixOp::Div, "/"),
        (InfixOp::Mod, "%"),
        (InfixOp::Eq, "=="),
        (InfixOp::Ne, "!="),
        (InfixOp::Lt, "<"),
        (InfixOp::Le, "<="),
        (InfixOp::Gt, ">"),
        (InfixOp::Ge, ">="),
        (InfixOp::And, "&&"),
        (InfixOp::Or, "||"),
        (InfixOp::Assign, "="),
        (InfixOp::AddAssign, "+="),
        (InfixOp::SubAssign, "-="),
        (InfixOp::MulAssign, "*="),
        (InfixOp::DivAssign, "/="),
    ];
    for (op, token) in table {
        let e = infix(op, ident("x"), Expr::Int(2));
        assert_eq!(text_of(&e), format!("(x {} 2)", token));
    }
}

#[test]
fn nested_infix_on_the_left() {
    let e = infix(InfixOp::Mul, infix(InfixOp::Add, ident("a"), ident("b")), ident("c"));
    assert_eq!(text_of(&e), "((a + b) * c)");
}

#[test]
fn nested_infix_on_the_right() {
    let e = infix(InfixOp::Sub, ident("a"), infix(InfixOp::Div, ident("b"), ident("c")));
    assert_eq!(text_of(&e), "(a - (b / c))");
}

#[test]
fn nested_infix_on_both_sides() {
    let e = infix(
        InfixOp::And,
        infix(InfixOp::Lt, ident("a"), ident("b")),
        infix(InfixOp::Ge, ident("c"), Expr::Int(0)),
    );
    assert_eq!(text_of(&e), "((a < b) && (c >= 0))");
}

#[test]
fn prefix_operators() {
    let neg = Expr::Prefix { op: PrefixOp::Neg, rhs: Box::new(ident("a")) };
    let not = Expr::Prefix { op: PrefixOp::Not, rhs: Box::new(Expr::Bool(true)) };
    assert_eq!(text_of(&neg), "-a");
    assert_eq!(text_of(&not), "!1");
}

#[test]
fn prefix_does_not_group_its_operand() {
    let neg_neg = Expr::Prefix {
        op: PrefixOp::Neg,
        rhs: Box::new(Expr::Prefix { op: PrefixOp::Neg, rhs: Box::new(ident("a")) }),
    };
    assert_eq!(text_of(&neg_neg), "--a");
    let neg_int = Expr::Prefix { op: PrefixOp::Neg, rhs: Box::new(Expr::Int(-5)) };
    assert_eq!(text_of(&neg_int), "--5");
    let neg_sum = Expr::Prefix {
        op: PrefixOp::Neg,
        rhs: Box::new(infix(InfixOp::Add, ident("a"), ident("b"))),
    };
    assert_eq!(text_of(&neg_sum), "-(a + b)");
}

#[test]
fn call_without_arguments() {
    assert_eq!(text_of(&call("f", vec![])), "f()");
}

#[test]
fn call_with_one_argument() {
    assert_eq!(text_of(&call("f", vec![ident("a")])), "f(a)");
}

#[test]
fn call_with_several_arguments_in_order() {
    let e = call("f", vec![ident("a"), Expr::Int(2), infix(InfixOp::Add, ident("b"), ident("c"))]);
    assert_eq!(text_of(&e), "f(a, 2, (b + c))");
}

#[test]
fn call_whose_callee_is_a_call() {
    let e = Expr::Call { callee: Box::new(call("f", vec![ident("a")])), args: vec![ident("b")] };
    assert_eq!(text_of(&e), "f(a)(b)");
}

#[test]
fn group_adds_its_own_parentheses() {
    let e = Expr::Group(Box::new(infix(InfixOp::Add, ident("a"), ident("b"))));
    assert_eq!(text_of(&e), "((a + b))");
    assert_eq!(text_of(&Expr::Group(Box::new(ident("a")))), "(a)");
}

#[test]
fn index_is_a_placeholder() {
    let e = Expr::Index { target: Box::new(ident("xs")), index: Box::new(Expr::Int(0)) };
    assert_eq!(text_of(&e), "/* TODO complex expr */");
}

#[test]
fn struct_literal_is_a_placeholder() {
    let e = Expr::StructLiteral {
        name: "Point".to_string(),
        fields: vec![("x".to_string(), Expr::Int(1)), ("y".to_string(), Expr::Int(2))],
    };
    assert_eq!(text_of(&e), "/* TODO complex expr */");
}

#[test]
fn field_access_is_a_placeholder() {
    let e = Expr::FieldAccess { target: Box::new(ident("p")), field: "x".to_string() };
    assert_eq!(text_of(&e), "/* TODO complex expr */");
}

#[test]
fn placeholder_inside_an_operation_does_not_stop_generation() {
    let e = infix(
        InfixOp::Add,
        Expr::Index { target: Box::new(ident("xs")), index: Box::new(Expr::Int(0)) },
        Expr::Int(1),
    );
    assert_eq!(text_of(&e), "(/* TODO complex expr */ + 1)");
}

#[test]
fn emit_expr_only_appends() {
    let mut out = String::from("x = ");
    emit_expr(&mut out, &Expr::Int(42));
    assert_eq!(out, "x = 42");
    emit_expr(&mut out, &ident("y"));
    assert_eq!(out, "x = 42y");
}
