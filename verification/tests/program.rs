use transpiler::decimal::{emit_int, emit_nat};
use transpiler::{emit_function, transpile, type_to_c, Expr, InfixOp, Program, Stmt, Type};

const PREAMBLE: &str = "#include <stdint.h>\n#include <stdbool.h>\n#include <stdio.h>\n\n";

fn ident(name: &str) -> Expr {
    Expr::Ident(name.to_string())
}

fn add_function() -> Stmt {
    Stmt::Func {
        name: "add".to_string(),
        params: vec![("a".to_string(), Type::Int), ("b".to_string(), Type::Int)],
        returntype: Type::Int,
        body: vec![Stmt::Return(Some(Expr::Infix {
            op: InfixOp::Add,
            lhs: Box::new(ident("a")),
            rhs: Box::new(ident("b")),
        }))],
    }
}

fn main_function() -> Stmt {
    Stmt::Func {
        name: "main".to_string(),
        params: vec![],
        returntype: Type::Int,
        body: vec![Stmt::Return(Some(Expr::Int(0)))],
    }
}

#[test]
fn type_names() {
    assert_eq!(type_to_c(&Type::Int), "int64_t");
    assert_eq!(type_to_c(&Type::Float), "double");
    assert_eq!(type_to_c(&Type::Bool), "bool");
    assert_eq!(type_to_c(&Type::String), "char*");
    assert_eq!(type_to_c(&Type::Nil), "void");
}

#[test]
fn custom_type_is_an_untyped_pointer_whatever_its_name() {
    assert_eq!(type_to_c(&Type::Custom("Point".to_string())), "void*");
    assert_eq!(type_to_c(&Type::Custom(String::new())), "void*");
}

#[test]
fn function_without_parameters() {
    let mut out = String::new();
    emit_function(&mut out, "f", &[], &Type::Nil, &vec![]);
    assert_eq!(out, "void f() {\n}\n\n");
}

#[test]
fn function_with_one_parameter() {
    let mut out = String::new();
    let params = vec![("s".to_string(), Type::String)];
    emit_function(&mut out, "len", &params, &Type::Int, &vec![Stmt::Return(Some(Expr::Int(0)))]);
    assert_eq!(out, "int64_t len(char* s) {\n    return 0;\n}\n\n");
}

#[test]
fn function_parameters_are_typed_and_in_order() {
    let mut out = String::new();
    let params = vec![
        ("a".to_string(), Type::Int),
        ("b".to_string(), Type::Float),
        ("c".to_string(), Type::Bool),
        ("d".to_string(), Type::Custom("Point".to_string())),
    ];
    emit_function(&mut out, "f", &params, &Type::Float, &vec![]);
    assert_eq!(out, "double f(int64_t a, double b, bool c, void* d) {\n}\n\n");
}

#[test]
fn function_body_is_one_level_deep() {
    let mut out = String::new();
    let body = vec![Stmt::While { cond: Expr::Bool(true), body: vec![Stmt::Out] }];
    emit_function(&mut out, "spin", &[], &Type::Nil, &body);
    assert_eq!(out, "void spin() {\n    while (1) {\n        break;\n    }\n}\n\n");
}

#[test]
fn add_function_end_to_end() {
    let file = transpile(Program { stmts: vec![add_function()] }, "out");
    let expected = format!("{}int64_t add(int64_t a, int64_t b) {{\n    return (a + b);\n}}\n\n", PREAMBLE);
    assert_eq!(file.text, expected);
    // after the three headers, their empty line and the signature line:
    // the body at one level, the closing brace, the empty line
    let rest: Vec<&str> = file.text.lines().skip(5).collect();
    assert_eq!(rest, vec!["    return (a + b);", "}", ""]);
}

#[test]
fn two_functions_in_source_order() {
    let file = transpile(Program { stmts: vec![add_function(), main_function()] }, "prog");
    let expected = format!(
        "{}int64_t add(int64_t a, int64_t b) {{\n    return (a + b);\n}}\n\nint64_t main() {{\n    return 0;\n}}\n\n",
        PREAMBLE
    );
    assert_eq!(file.text, expected);
    assert_eq!(file.text.matches(") {\n").count(), 2);
    assert!(file.text.find("add").unwrap() < file.text.find("main").unwrap());
}

#[test]
fn two_functions_in_the_other_order() {
    let file = transpile(Program { stmts: vec![main_function(), add_function()] }, "prog");
    let expected = format!(
        "{}int64_t main() {{\n    return 0;\n}}\n\nint64_t add(int64_t a, int64_t b) {{\n    return (a + b);\n}}\n\n",
        PREAMBLE
    );
    assert_eq!(file.text, expected);
}

#[test]
fn empty_program_is_the_preamble() {
    let file = transpile(Program { stmts: vec![] }, "empty");
    assert_eq!(file.text, PREAMBLE);
    assert_eq!(file.text.lines().take(3).count(), 3);
}

#[test]
fn top_level_statements_that_are_not_functions_are_dropped() {
    let stmts = vec![
        Stmt::Let { name: "g".to_string(), mutable: true, value: Some(Expr::Int(1)) },
        main_function(),
        Stmt::ExprStmt(ident("x")),
        Stmt::Struct { name: "S".to_string(), fields: vec![] },
        Stmt::Return(None),
    ];
    let file = transpile(Program { stmts }, "prog");
    let expected = format!("{}int64_t main() {{\n    return 0;\n}}\n\n", PREAMBLE);
    assert_eq!(file.text, expected);
}

#[test]
fn file_name_is_the_base_name_with_the_c_extension() {
    assert_eq!(transpile(Program { stmts: vec![] }, "result").name, "result.c");
    assert_eq!(transpile(Program { stmts: vec![] }, "dir/a.b").name, "dir/a.b.c");
    assert_eq!(transpile(Program { stmts: vec![] }, "").name, ".c");
}

#[test]
fn numerals_of_naturals() {
    let mut out = String::new();
    emit_nat(&mut out, 0);
    assert_eq!(out, "0");
    emit_nat(&mut out, 907);
    assert_eq!(out, "0907");
    let mut out = String::new();
    emit_nat(&mut out, u64::MAX);
    assert_eq!(out, "18446744073709551615");
}

#[test]
fn numerals_of_integers() {
    let mut out = String::from("n=");
    emit_int(&mut out, -120);
    assert_eq!(out, "n=-120");
    let mut out = String::new();
    emit_int(&mut out, i64::MIN + 1);
    assert_eq!(out, "-9223372036854775807");
}
