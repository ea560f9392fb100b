//! What holds of the generated text for every input.

use crate::ast::{ElseModel, ExprModel, InfixOp, StmtModel, TypeModel};
use crate::decimal::{int_text, int_value, lemma_int_text_round_trips};
use crate::target_text::{
    block_text, definitions_text, expr_text, function_text, indent_text, infix_token,
    nested_func_text, preamble_text, program_text, stmt_tail_text, stmt_text, struct_decl_text,
    top_level_text, unsupported_expr_text,
};
use vstd::prelude::*;

verus! {

/// A scalar literal is written so that it reads back as its value: an
/// integer as its numeral, `true` as a nonzero and `false` as a zero number,
/// nil as zero. A floating-point literal is written as the text it is held as.
pub proof fn lemma_scalar_literals_round_trip(e: ExprModel)
    ensures
        e matches ExprModel::Int(v) ==> int_value(expr_text(e)) == v,
        e matches ExprModel::Bool(b) ==> (int_value(expr_text(e)) != 0) == b,
        e is Nil ==> int_value(expr_text(e)) == 0,
        e matches ExprModel::Float(text) ==> expr_text(e) == text,
{
    reveal_strlit("0");
    reveal_strlit("1");
    match e {
        ExprModel::Int(v) => {
            lemma_int_text_round_trips(v);
        },
        ExprModel::Bool(b) => {
            lemma_int_text_round_trips(0);
            lemma_int_text_round_trips(1);
            assert("1"@ =~= int_text(1));
        },
        ExprModel::Nil => {
            lemma_int_text_round_trips(0);
            assert("0"@ =~= int_text(0));
        },
        _ => {},
    }
}

/// A binary operation is written between one pair of parentheses that
/// encloses both operands: the text opens with `(`, closes with `)`, and
/// holds the operands' texts around the operator, set off by single spaces.
pub proof fn lemma_infix_is_parenthesized(op: InfixOp, lhs: ExprModel, rhs: ExprModel)
    ensures
        ({
            let text = expr_text(ExprModel::Infix { op, lhs: Box::new(lhs), rhs: Box::new(rhs) });
            &&& text == "("@ + expr_text(lhs) + " "@ + infix_token(op) + " "@ + expr_text(rhs)
                + ")"@
            &&& text.len() >= 2
            &&& text.first() == '('
            &&& text.last() == ')'
        }),
{
    reveal_strlit("(");
    reveal_strlit(")");
}

/// A binary operation that is itself an operand keeps its own parentheses
/// inside those of the operation around it, on the left as on the right and
/// whatever the two operators are.
pub proof fn lemma_nested_infix_composes(
    outer: InfixOp,
    inner: InfixOp,
    a: ExprModel,
    b: ExprModel,
    c: ExprModel,
)
    ensures
        expr_text(
            ExprModel::Infix {
                op: outer,
                lhs: Box::new(ExprModel::Infix { op: inner, lhs: Box::new(a), rhs: Box::new(b) }),
                rhs: Box::new(c),
            },
        ) == "(("@ + expr_text(a) + " "@ + infix_token(inner) + " "@ + expr_text(b) + ") "@
            + infix_token(outer) + " "@ + expr_text(c) + ")"@,
        expr_text(
            ExprModel::Infix {
                op: outer,
                lhs: Box::new(a),
                rhs: Box::new(ExprModel::Infix { op: inner, lhs: Box::new(b), rhs: Box::new(c) }),
            },
        ) == "("@ + expr_text(a) + " "@ + infix_token(outer) + " ("@ + expr_text(b) + " "@
            + infix_token(inner) + " "@ + expr_text(c) + "))"@,
{
    reveal_strlit("(");
    reveal_strlit(")");
    reveal_strlit(" ");
    reveal_strlit("((");
    reveal_strlit("))");
    reveal_strlit(") ");
    reveal_strlit(" (");
    let ab = ExprModel::Infix { op: inner, lhs: Box::new(a), rhs: Box::new(b) };
    let bc = ExprModel::Infix { op: inner, lhs: Box::new(b), rhs: Box::new(c) };
    assert("("@ + expr_text(ab) + " "@ + infix_token(outer) + " "@ + expr_text(c) + ")"@ =~= "(("@
        + expr_text(a) + " "@ + infix_token(inner) + " "@ + expr_text(b) + ") "@ + infix_token(
        outer,
    ) + " "@ + expr_text(c) + ")"@);
    assert("("@ + expr_text(a) + " "@ + infix_token(outer) + " "@ + expr_text(bc) + ")"@ =~= "("@
        + expr_text(a) + " "@ + infix_token(outer) + " ("@ + expr_text(b) + " "@ + infix_token(
        inner,
    ) + " "@ + expr_text(c) + "))"@);
}

/// The `If` statement of a chain of arms: the first arm's `If`, whose else
/// branch is the chain of the arms after it; the last arm's else branch is
/// `last`.
pub open spec fn else_if_chain(
    arms: Seq<(ExprModel, Seq<StmtModel>)>,
    last: Option<Seq<StmtModel>>,
) -> StmtModel
    recommends
        arms.len() >= 1,
    decreases arms.len(),
{
    StmtModel::If {
        cond: arms[0].0,
        then_branch: arms[0].1,
        else_branch: if arms.len() <= 1 {
            match last {
                Some(b) => Some(ElseModel::Block(b)),
                None => None,
            }
        } else {
            Some(ElseModel::If(Box::new(else_if_chain(arms.drop_first(), last))))
        },
    }
}

/// One arm of a chain at depth `level`: the condition, the body one level
/// deeper, and the closing brace at `level`, without a line end.
pub open spec fn arm_text(arm: (ExprModel, Seq<StmtModel>), level: nat) -> Seq<char> {
    "if ("@ + expr_text(arm.0) + ") {\n"@ + block_text(arm.1, level + 1) + indent_text(level)
        + "}"@
}

/// The arms of a chain at one and the same depth `level`, each after the
/// first joined to the brace before it by ` else `.
pub open spec fn arms_text(arms: Seq<(ExprModel, Seq<StmtModel>)>, level: nat) -> Seq<char>
    recommends
        arms.len() >= 1,
    decreases arms.len(),
{
    if arms.len() <= 1 {
        arm_text(arms[0], level)
    } else {
        arm_text(arms[0], level) + " else "@ + arms_text(arms.drop_first(), level)
    }
}

/// How a chain at depth `level` ends: with the final else block, or with the
/// end of the line.
pub open spec fn chain_end_text(last: Option<Seq<StmtModel>>, level: nat) -> Seq<char> {
    match last {
        Some(b) => " else {\n"@ + block_text(b, level + 1) + indent_text(level) + "}\n"@,
        None => "\n"@,
    }
}

/// An else-if chain is flat: however many arms it has, every arm is written
/// at the depth of the first, and every body one level below that.
pub proof fn lemma_else_if_chain_is_flat(
    arms: Seq<(ExprModel, Seq<StmtModel>)>,
    last: Option<Seq<StmtModel>>,
    level: nat,
)
    requires
        arms.len() >= 1,
    ensures
        stmt_tail_text(else_if_chain(arms, last), level) == arms_text(arms, level)
            + chain_end_text(last, level),
        stmt_text(else_if_chain(arms, last), level) == indent_text(level) + arms_text(arms, level)
            + chain_end_text(last, level),
    decreases arms.len(),
{
    if arms.len() > 1 {
        lemma_else_if_chain_is_flat(arms.drop_first(), last, level);
    }
}

/// An expression that cannot be lowered is written as the placeholder
/// comment, whatever it holds.
pub proof fn lemma_unsupported_expr_is_placeholder(e: ExprModel)
    requires
        e is Index || e is StructLiteral || e is FieldAccess,
    ensures
        expr_text(e) == unsupported_expr_text(),
{
}

/// A struct declaration, and a function declared inside a block, are each
/// written as one indented placeholder line, whatever they hold.
pub proof fn lemma_unsupported_stmt_is_placeholder(s: StmtModel, level: nat)
    requires
        s is Struct || s is Func,
    ensures
        s is Struct ==> stmt_text(s, level) == indent_text(level) + struct_decl_text(),
        s is Func ==> stmt_text(s, level) == indent_text(level) + nested_func_text(),
{
}

/// The definitions of a program are those of its first part followed by
/// those of its second part: source order is kept.
pub proof fn lemma_definitions_concat(first: Seq<StmtModel>, second: Seq<StmtModel>)
    ensures
        definitions_text(first + second) == definitions_text(first) + definitions_text(second),
    decreases second.len(),
{
    if second.len() > 0 {
        lemma_definitions_concat(first, second.drop_last());
        assert((first + second).drop_last() =~= first + second.drop_last());
    }
}

/// A program of one statement holds what that statement contributes.
pub proof fn lemma_definitions_single(s: StmtModel)
    ensures
        definitions_text(seq![s]) == top_level_text(s),
{
    let one = seq![s];
    assert(definitions_text(one.drop_last()) =~= Seq::<char>::empty());
}

/// A top-level statement that is not a function changes nothing in the file.
pub proof fn lemma_non_function_is_skipped(
    before: Seq<StmtModel>,
    s: StmtModel,
    after: Seq<StmtModel>,
)
    requires
        !(s is Func),
    ensures
        program_text(before + seq![s] + after) == program_text(before + after),
{
    lemma_definitions_concat(before + seq![s], after);
    lemma_definitions_concat(before, seq![s]);
    lemma_definitions_concat(before, after);
    lemma_definitions_single(s);
}

/// A program of two functions is the headers, the first definition, the
/// second definition: each definition ends with its closing brace and one
/// empty line.
pub proof fn lemma_two_functions(
    first: (Seq<char>, Seq<(Seq<char>, TypeModel)>, TypeModel, Seq<StmtModel>),
    second: (Seq<char>, Seq<(Seq<char>, TypeModel)>, TypeModel, Seq<StmtModel>),
)
    ensures
        ({
            let f = StmtModel::Func {
                name: first.0,
                params: first.1,
                returntype: first.2,
                body: first.3,
            };
            let g = StmtModel::Func {
                name: second.0,
                params: second.1,
                returntype: second.2,
                body: second.3,
            };
            let f_text = function_text(first.0, first.1, first.2, first.3);
            let g_text = function_text(second.0, second.1, second.2, second.3);
            &&& program_text(seq![f, g]) == preamble_text() + f_text + g_text
            &&& f_text.subrange(f_text.len() - 3, f_text.len() as int) == "}\n\n"@
            &&& g_text.subrange(g_text.len() - 3, g_text.len() as int) == "}\n\n"@
        }),
{
    let f = StmtModel::Func { name: first.0, params: first.1, returntype: first.2, body: first.3 };
    let g = StmtModel::Func {
        name: second.0,
        params: second.1,
        returntype: second.2,
        body: second.3,
    };
    lemma_definitions_concat(seq![f], seq![g]);
    assert(seq![f] + seq![g] =~= seq![f, g]);
    lemma_definitions_single(f);
    lemma_definitions_single(g);
    reveal_strlit("}\n\n");
}

} // verus!
