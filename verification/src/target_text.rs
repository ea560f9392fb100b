//! What the generator writes, as a function from syntax-tree models to text.
//!
//! These definitions are the specification of the emitters: each emitter
//! appends exactly the text that the function of the same subject gives.

use crate::ast::{ElseModel, ExprModel, InfixOp, PrefixOp, StmtModel, TypeModel};
use crate::decimal::int_text;
use vstd::prelude::*;

verus! {

/// The C name of a source type. Every user-defined type is an untyped
/// pointer, whatever its name.
pub open spec fn c_type_text(t: TypeModel) -> Seq<char> {
    match t {
        TypeModel::Int => "int64_t"@,
        TypeModel::Float => "double"@,
        TypeModel::Bool => "bool"@,
        TypeModel::String => "char*"@,
        TypeModel::Nil => "void"@,
        TypeModel::Custom(_) => "void*"@,
    }
}

/// The C token of a unary operator.
pub open spec fn prefix_token(op: PrefixOp) -> Seq<char> {
    match op {
        PrefixOp::Neg => "-"@,
        PrefixOp::Not => "!"@,
    }
}

/// The C token of a binary operator.
pub open spec fn infix_token(op: InfixOp) -> Seq<char> {
    match op {
        InfixOp::Add => "+"@,
        InfixOp::Sub => "-"@,
        InfixOp::Mul => "*"@,
        InfixOp::Div => "/"@,
        InfixOp::Mod => "%"@,
        InfixOp::Eq => "=="@,
        InfixOp::Ne => "!="@,
        InfixOp::Lt => "<"@,
        InfixOp::Le => "<="@,
        InfixOp::Gt => ">"@,
        InfixOp::Ge => ">="@,
        InfixOp::And => "&&"@,
        InfixOp::Or => "||"@,
        InfixOp::Assign => "="@,
        InfixOp::AddAssign => "+="@,
        InfixOp::SubAssign => "-="@,
        InfixOp::MulAssign => "*="@,
        InfixOp::DivAssign => "/="@,
    }
}

/// What stands in place of an expression that cannot be lowered yet.
pub open spec fn unsupported_expr_text() -> Seq<char> {
    "/* TODO complex expr */"@
}

/// What stands in place of a struct declaration.
pub open spec fn struct_decl_text() -> Seq<char> {
    "/* TODO struct decl */\n"@
}

/// What stands in place of a function declared inside a block.
pub open spec fn nested_func_text() -> Seq<char> {
    "/* nested func? TODO */\n"@
}

/// The headers that open every generated file.
pub open spec fn preamble_text() -> Seq<char> {
    "#include <stdint.h>\n"@ + "#include <stdbool.h>\n"@ + "#include <stdio.h>\n\n"@
}

/// The C text of an expression.
///
/// A binary operation is always wrapped in parentheses; the operand of a
/// unary operator is not; a string literal is quoted without escaping.
pub open spec fn expr_text(e: ExprModel) -> Seq<char>
    decreases e,
{
    match e {
        ExprModel::Int(v) => int_text(v),
        ExprModel::Float(text) => text,
        ExprModel::Bool(b) => if b {
            "1"@
        } else {
            "0"@
        },
        ExprModel::String(s) => "\""@ + s + "\""@,
        ExprModel::Nil => "0"@,
        ExprModel::Ident(name) => name,
        ExprModel::Prefix { op, rhs } => prefix_token(op) + expr_text(*rhs),
        ExprModel::Infix { op, lhs, rhs } => "("@ + expr_text(*lhs) + " "@ + infix_token(op) + " "@
            + expr_text(*rhs) + ")"@,
        ExprModel::Call { callee, args } => expr_text(*callee) + "("@ + args_text(args) + ")"@,
        ExprModel::Index { .. } => unsupported_expr_text(),
        ExprModel::StructLiteral { .. } => unsupported_expr_text(),
        ExprModel::FieldAccess { .. } => unsupported_expr_text(),
        ExprModel::Group(inner) => "("@ + expr_text(*inner) + ")"@,
    }
}

/// The texts of `args` in order, separated by a comma and a space.
pub open spec fn args_text(args: Seq<ExprModel>) -> Seq<char>
    decreases args,
{
    if args.len() == 0 {
        Seq::empty()
    } else if args.len() == 1 {
        expr_text(args[0])
    } else {
        args_text(args.drop_last()) + ", "@ + expr_text(args.last())
    }
}

/// Four spaces for each level of nesting.
pub open spec fn indent_text(level: nat) -> Seq<char> {
    Seq::new(4 * level, |i: int| ' ')
}

/// The text of a statement at nesting depth `level`, from the first
/// character after the indentation of its first line.
///
/// The lines of a nested block sit one level deeper; a closing brace sits at
/// `level`. An `If` in else position continues the line of that brace, at the
/// same `level`.
pub open spec fn stmt_tail_text(s: StmtModel, level: nat) -> Seq<char>
    decreases s, 0nat,
{
    match s {
        StmtModel::Let { name, mutable: _, value } => "int64_t "@ + name + (match value {
            Some(e) => " = "@ + expr_text(e),
            None => Seq::empty(),
        }) + ";\n"@,
        StmtModel::ExprStmt(e) => expr_text(e) + ";\n"@,
        StmtModel::Return(value) => "return"@ + (match value {
            Some(e) => " "@ + expr_text(e),
            None => Seq::empty(),
        }) + ";\n"@,
        StmtModel::While { cond, body } => "while ("@ + expr_text(cond) + ") {\n"@ + block_text(
            body,
            level + 1,
        ) + indent_text(level) + "}\n"@,
        StmtModel::If { cond, then_branch, else_branch } => "if ("@ + expr_text(cond) + ") {\n"@
            + block_text(then_branch, level + 1) + indent_text(level) + "}"@ + (match else_branch {
            Some(ElseModel::Block(b)) => " else {\n"@ + block_text(b, level + 1) + indent_text(
                level,
            ) + "}\n"@,
            Some(ElseModel::If(next)) => " else "@ + stmt_tail_text(*next, level),
            None => "\n"@,
        }),
        StmtModel::Block(b) => "{\n"@ + block_text(b, level + 1) + indent_text(level) + "}\n"@,
        StmtModel::Struct { .. } => struct_decl_text(),
        StmtModel::Out => "break;\n"@,
        StmtModel::Skip => "continue;\n"@,
        StmtModel::Func { .. } => nested_func_text(),
    }
}

/// The text of a statement at nesting depth `level`: whole lines, the first
/// of them indented by `level`.
pub open spec fn stmt_text(s: StmtModel, level: nat) -> Seq<char>
    decreases s, 1nat,
{
    indent_text(level) + stmt_tail_text(s, level)
}

/// The texts of the statements of `body` in order, each at depth `level`.
pub open spec fn block_text(body: Seq<StmtModel>, level: nat) -> Seq<char>
    decreases body, 2nat,
{
    if body.len() == 0 {
        Seq::empty()
    } else {
        block_text(body.drop_last(), level) + stmt_text(body.last(), level)
    }
}

/// One parameter of a signature: its C type, a space, its name.
pub open spec fn param_text(p: (Seq<char>, TypeModel)) -> Seq<char> {
    c_type_text(p.1) + " "@ + p.0
}

/// The parameters of a signature in order, separated by a comma and a space.
pub open spec fn params_text(params: Seq<(Seq<char>, TypeModel)>) -> Seq<char>
    decreases params.len(),
{
    if params.len() == 0 {
        Seq::empty()
    } else if params.len() == 1 {
        param_text(params[0])
    } else {
        params_text(params.drop_last()) + ", "@ + param_text(params.last())
    }
}

/// A complete function definition: the signature line, the body one level
/// deep, the closing brace and an empty line.
pub open spec fn function_text(
    name: Seq<char>,
    params: Seq<(Seq<char>, TypeModel)>,
    returntype: TypeModel,
    body: Seq<StmtModel>,
) -> Seq<char> {
    c_type_text(returntype) + " "@ + name + "("@ + params_text(params) + ") {\n"@ + block_text(body, 1)
        + "}\n\n"@
}

/// What a top-level statement contributes to the file: a function gives its
/// definition, anything else gives nothing.
pub open spec fn top_level_text(s: StmtModel) -> Seq<char> {
    match s {
        StmtModel::Func { name, params, returntype, body } => function_text(
            name,
            params,
            returntype,
            body,
        ),
        _ => Seq::empty(),
    }
}

/// The contributions of the top-level statements, in source order.
pub open spec fn definitions_text(stmts: Seq<StmtModel>) -> Seq<char>
    decreases stmts.len(),
{
    if stmts.len() == 0 {
        Seq::empty()
    } else {
        definitions_text(stmts.drop_last()) + top_level_text(stmts.last())
    }
}

/// The whole generated file: the headers, then the function definitions.
pub open spec fn program_text(stmts: Seq<StmtModel>) -> Seq<char> {
    preamble_text() + definitions_text(stmts)
}

/// The name of the generated file for the base name `name`.
pub open spec fn file_name_text(name: Seq<char>) -> Seq<char> {
    name + ".c"@
}

} // verus!
