//! The emitters: each appends to a text buffer the C text of one piece of the
//! syntax tree, in traversal order.

use crate::ast::{
    block_model, exprs_model, typed_names_model, Block, BlockOrIf, Expr, InfixOp, PrefixOp,
    Program, Stmt, Type,
};
use crate::decimal::emit_int;
use crate::target_text::{
    args_text, block_text, c_type_text, definitions_text, expr_text, file_name_text,
    function_text, indent_text, infix_token, params_text, program_text, stmt_tail_text,
    stmt_text,
};
use vstd::prelude::*;

verus! {

/// Appends the indentation of nesting depth `level`: four spaces per level.
pub fn indent(out: &mut String, level: usize)
    ensures
        final(out)@ == old(out)@ + indent_text(level as nat),
{
    let ghost start = out@;
    let mut i: usize = 0;
    while i < level
        invariant
            i <= level,
            out@ == start + indent_text(i as nat),
        decreases level - i,
    {
        out.append("    ");
        i += 1;
        proof {
            reveal_strlit("    ");
        }
    }
}

/// The C type that stands for a source type.
pub fn type_to_c(t: &Type) -> (name: &'static str)
    ensures
        name@ == c_type_text(t@),
{
    match t {
        Type::Int => "int64_t",
        Type::Float => "double",
        Type::Bool => "bool",
        Type::String => "char*",
        Type::Nil => "void",
        Type::Custom(_) => "void*",
    }
}

/// The C token of a binary operator.
fn infix_op_str(op: InfixOp) -> (token: &'static str)
    ensures
        token@ == infix_token(op),
{
    match op {
        InfixOp::Add => "+",
        InfixOp::Sub => "-",
        InfixOp::Mul => "*",
        InfixOp::Div => "/",
        InfixOp::Mod => "%",
        InfixOp::Eq => "==",
        InfixOp::Ne => "!=",
        InfixOp::Lt => "<",
        InfixOp::Le => "<=",
        InfixOp::Gt => ">",
        InfixOp::Ge => ">=",
        InfixOp::And => "&&",
        InfixOp::Or => "||",
        InfixOp::Assign => "=",
        InfixOp::AddAssign => "+=",
        InfixOp::SubAssign => "-=",
        InfixOp::MulAssign => "*=",
        InfixOp::DivAssign => "/=",
    }
}

/// Appends the C text of `expr`.
#[verifier::loop_isolation(false)]
pub fn emit_expr(out: &mut String, expr: &Expr)
    ensures
        final(out)@ == old(out)@ + expr_text(expr@),
    decreases expr,
{
    match expr {
        Expr::Int(v) => {
            emit_int(out, *v);
        },
        Expr::Float(text) => {
            out.append(text.as_str());
        },
        Expr::Bool(true) => out.append("1"),
        Expr::Bool(false) => out.append("0"),
        Expr::String(s) => {
            out.append("\"");
            out.append(s.as_str());
            out.append("\"");
        },
        Expr::Nil => {
            out.append("0");
        },
        Expr::Ident(name) => {
            out.append(name.as_str());
        },
        Expr::Prefix { op, rhs } => {
            match op {
                PrefixOp::Neg => {
                    out.append("-");
                    emit_expr(out, rhs);
                },
                PrefixOp::Not => {
                    out.append("!");
                    emit_expr(out, rhs);
                },
            }
        },
        Expr::Infix { op, lhs, rhs } => {
            out.append("(");
            emit_expr(out, lhs);
            out.append(" ");
            let op_str = infix_op_str(*op);
            out.append(op_str);
            out.append(" ");
            emit_expr(out, rhs);
            out.append(")");
        },
        Expr::Call { callee, args } => {
            emit_expr(out, callee);
            out.append("(");
            let ghost open = out@;
            let ghost models = exprs_model(args@);
            let mut i: usize = 0;
            while i < args.len()
                invariant
                    i <= args.len(),
                    out@ == open + args_text(models.take(i as int)),
                decreases args.len() - i,
            {
                if i > 0 {
                    out.append(", ");
                }
                emit_expr(out, &args[i]);
                proof {
                    let prefix = models.take(i as int + 1);
                    assert(prefix.drop_last() =~= models.take(i as int));
                }
                i += 1;
            }
            out.append(")");
            assert(models.take(args.len() as int) =~= models);
        },
        Expr::Index { .. } | Expr::StructLiteral { .. } | Expr::FieldAccess { .. } => {
            out.append("/* TODO complex expr */");
        },
        Expr::Group(inner) => {
            out.append("(");
            emit_expr(out, inner);
            out.append(")");
        },
    }
}

/// One more level of indentation is four more spaces.
proof fn lemma_indent_step(level: nat)
    ensures
        indent_text(level) + "    "@ == indent_text(level + 1),
{
    reveal_strlit("    ");
}

/// The indentation one level below `pad`.
fn deeper(pad: &str, Ghost(level): Ghost<nat>) -> (inner: String)
    requires
        pad@ == indent_text(level),
    ensures
        inner@ == indent_text(level + 1),
{
    let mut inner = String::new();
    inner.append(pad);
    inner.append("    ");
    proof {
        lemma_indent_step(level);
    }
    inner
}

/// Appends the statements of `body`, each line of them starting with `pad`,
/// the indentation of depth `level`.
///
/// Below the public entry points the indentation travels as text, not as a
/// counter, so that no depth of nesting can overflow a machine integer.
fn emit_block_padded(out: &mut String, body: &Block, pad: &str, Ghost(level): Ghost<nat>)
    requires
        pad@ == indent_text(level),
    ensures
        final(out)@ == old(out)@ + block_text(block_model(body@), level),
    decreases body, 1nat,
{
    let ghost start = out@;
    let ghost models = block_model(body@);
    let mut i: usize = 0;
    while i < body.len()
        invariant
            i <= body.len(),
            pad@ == indent_text(level),
            models == block_model(body@),
            out@ == start + block_text(models.take(i as int), level),
        decreases body.len() - i,
    {
        out.append(pad);
        emit_stmt_tail(out, &body[i], pad, Ghost(level));
        proof {
            let prefix = models.take(i as int + 1);
            assert(prefix.drop_last() =~= models.take(i as int));
            assert(block_text(prefix, level) == block_text(prefix.drop_last(), level)
                + stmt_text(prefix.last(), level));
        }
        i += 1;
    }
    assert(models.take(body.len() as int) =~= models);
}

/// Appends `stmt` from the first character after the indentation of its first
/// line; `pad` is the indentation of depth `level`.
fn emit_stmt_tail(out: &mut String, stmt: &Stmt, pad: &str, Ghost(level): Ghost<nat>)
    requires
        pad@ == indent_text(level),
    ensures
        final(out)@ == old(out)@ + stmt_tail_text(stmt@, level),
    decreases stmt, 0nat,
{
    match stmt {
        Stmt::Let { name, mutable: _, value } => {
            // every local is a 64-bit integer, whatever its initialiser
            out.append("int64_t ");
            out.append(name.as_str());
            if let Some(expr) = value {
                out.append(" = ");
                emit_expr(out, expr);
            }
            out.append(";\n");
        },
        Stmt::ExprStmt(expr) => {
            emit_expr(out, expr);
            out.append(";\n");
        },
        Stmt::Return(value) => {
            out.append("return");
            if let Some(expr) = value {
                out.append(" ");
                emit_expr(out, expr);
            }
            out.append(";\n");
        },
        Stmt::While { cond, body } => {
            out.append("while (");
            emit_expr(out, cond);
            out.append(") {\n");
            let inner = deeper(pad, Ghost(level));
            emit_block_padded(out, body, inner.as_str(), Ghost(level + 1));
            out.append(pad);
            out.append("}\n");
        },
        Stmt::If { cond, then_branch, else_branch } => {
            out.append("if (");
            emit_expr(out, cond);
            out.append(") {\n");
            let inner = deeper(pad, Ghost(level));
            emit_block_padded(out, then_branch, inner.as_str(), Ghost(level + 1));
            out.append(pad);
            out.append("}");
            match else_branch {
                Some(BlockOrIf::Block(block)) => {
                    out.append(" else {\n");
                    emit_block_padded(out, block, inner.as_str(), Ghost(level + 1));
                    out.append(pad);
                    out.append("}\n");
                },
                Some(BlockOrIf::If(next)) => {
                    // the chain goes on at this depth, on the line of the brace
                    out.append(" else ");
                    emit_stmt_tail(out, next, pad, Ghost(level));
                },
                None => {
                    out.append("\n");
                },
            }
        },
        Stmt::Block(block) => {
            out.append("{\n");
            let inner = deeper(pad, Ghost(level));
            emit_block_padded(out, block, inner.as_str(), Ghost(level + 1));
            out.append(pad);
            out.append("}\n");
        },
        Stmt::Struct { .. } => {
            out.append("/* TODO struct decl */\n");
        },
        Stmt::Out => {
            out.append("break;\n");
        },
        Stmt::Skip => {
            out.append("continue;\n");
        },
        Stmt::Func { .. } => {
            // functions are lowered at top level only
            out.append("/* nested func? TODO */\n");
        },
    }
}

/// Appends `stmt` at nesting depth `indent_level`: one or more whole lines.
pub fn emit_stmt(out: &mut String, stmt: &Stmt, indent_level: usize)
    ensures
        final(out)@ == old(out)@ + stmt_text(stmt@, indent_level as nat),
{
    let mut pad = String::new();
    indent(&mut pad, indent_level);
    out.append(pad.as_str());
    emit_stmt_tail(out, stmt, pad.as_str(), Ghost(indent_level as nat));
}

/// Appends the statements of `body` in order, each at nesting depth
/// `indent_level`.
pub fn emit_block(out: &mut String, body: &Block, indent_level: usize)
    ensures
        final(out)@ == old(out)@ + block_text(block_model(body@), indent_level as nat),
{
    let mut pad = String::new();
    indent(&mut pad, indent_level);
    emit_block_padded(out, body, pad.as_str(), Ghost(indent_level as nat));
}

/// Appends a complete function definition: the signature line, the body one
/// level deep, the closing brace and an empty line.
pub fn emit_function(
    out: &mut String,
    name: &str,
    params: &[(String, Type)],
    return_type: &Type,
    body: &Block,
)
    ensures
        final(out)@ == old(out)@ + function_text(
            name@,
            typed_names_model(params@),
            return_type@,
            block_model(body@),
        ),
{
    let ghost start = out@;
    let ghost models = typed_names_model(params@);
    let ret_ty = type_to_c(return_type);

    indent(out, 0);
    out.append(ret_ty);
    out.append(" ");
    out.append(name);
    out.append("(");
    let ghost open = out@;
    assert(open =~= start + c_type_text(return_type@) + " "@ + name@ + "("@);

    let mut i: usize = 0;
    while i < params.len()
        invariant
            i <= params.len(),
            models == typed_names_model(params@),
            out@ == open + params_text(models.take(i as int)),
        decreases params.len() - i,
    {
        if i > 0 {
            out.append(", ");
        }
        let c_ty = type_to_c(&params[i].1);
        out.append(c_ty);
        out.append(" ");
        out.append(params[i].0.as_str());
        proof {
            let prefix = models.take(i as int + 1);
            assert(prefix.drop_last() =~= models.take(i as int));
        }
        i += 1;
    }
    assert(models.take(params.len() as int) =~= models);

    out.append(") {\n");
    emit_block(out, body, 1);
    indent(out, 0);
    out.append("}\n\n");
}

/// A generated file, ready to be written out.
pub struct SourceFile {
    /// The file's name: the base name with the extension of C sources.
    pub name: String,
    /// The file's whole text.
    pub text: String,
}

/// Generates the C file of `program` for the base name `name`: the headers,
/// then one definition for each top-level function, in source order.
/// Top-level statements that are not functions leave no trace.
pub fn transpile(program: Program, name: &str) -> (file: SourceFile)
    ensures
        file.name@ == file_name_text(name@),
        file.text@ == program_text(program@),
{
    let mut text = String::new();
    text.append("#include <stdint.h>\n");
    text.append("#include <stdbool.h>\n");
    text.append("#include <stdio.h>\n\n");
    let ghost headers = text@;
    let ghost models = program@;

    let mut i: usize = 0;
    while i < program.stmts.len()
        invariant
            i <= program.stmts.len(),
            models == program@,
            text@ == headers + definitions_text(models.take(i as int)),
        decreases program.stmts.len() - i,
    {
        match &program.stmts[i] {
            Stmt::Func { name, params, returntype, body } => {
                emit_function(&mut text, name.as_str(), params.as_slice(), returntype, body);
            },
            _ => {},
        }
        proof {
            let prefix = models.take(i as int + 1);
            assert(prefix.drop_last() =~= models.take(i as int));
        }
        i += 1;
    }
    assert(models.take(program.stmts.len() as int) =~= models);

    let mut file_name = String::new();
    file_name.append(name);
    file_name.append(".c");
    SourceFile { name: file_name, text }
}

} // verus!
