//! Code generation: a single forward walk over the syntax tree that lowers
//! it into a flat instruction stream, driving the environment, the label
//! tracker and (at the top level) the emitter. Semantic failures abort the
//! walk and are reported with the span they arose at.
//!
//! The spec functions here are the mathematical definition of the
//! translation; every executable function is proved to produce exactly
//! what they describe.

use vstd::prelude::*;
use crate::env::{
    env_lookup, spec_dec_sp, spec_get_current, BindingModel, EnvModel, Environment,
};
use crate::expr::{spec_as_lvalue, spec_desugar, Expr, ExprModel};
use crate::instr::{emit_all, instr_seq_chars, push_instr, Instr, InstrModel};
use crate::label_tracker::{LabelCounts, LabelKind, LabelTracker};
use crate::emitter::Emitter;
use crate::op::{
    spec_compound_to_operator, spec_is_compound_assignment, BinaryOperator, UnaryOperator,
};
use crate::span::Span;
use crate::stmt::{lemma_stmt_seq_view_props, stmt_seq_view, FnDeclaration, FnDeclarationModel, Stmt, StmtModel};

verus! {

/// A semantic error found during code generation. Paired with the span it
/// is reported at.
#[derive(Debug, PartialEq, Eq)]
pub enum CodegenError {
    /// A second declaration of a name in one scope; carries the original
    /// declaration's span for a two-label diagnostic.
    RedeclaredVariable(String, Span),
    /// A reference to (or assignment to) a name not found in any open
    /// scope.
    UndeclaredVariable(String),
    /// The left-hand side of an assignment is not a plain variable
    /// reference.
    InvalidAssignmentTarget,
}

/// The mathematical model of a semantic error.
pub enum CodegenErrorModel {
    RedeclaredVariable(Seq<char>, Span),
    UndeclaredVariable(Seq<char>),
    InvalidAssignmentTarget,
}

impl DeepView for CodegenError {
    type V = CodegenErrorModel;

    open spec fn deep_view(&self) -> CodegenErrorModel {
        match self {
            CodegenError::RedeclaredVariable(s, sp) => CodegenErrorModel::RedeclaredVariable(
                s@,
                *sp,
            ),
            CodegenError::UndeclaredVariable(s) => CodegenErrorModel::UndeclaredVariable(s@),
            CodegenError::InvalidAssignmentTarget => CodegenErrorModel::InvalidAssignmentTarget,
        }
    }
}

/// The outcome of generating one expression: its instruction stream and
/// the label state afterwards, or the first semantic error.
pub type ExprGen = Result<(Seq<InstrModel>, LabelCounts), (CodegenErrorModel, Span)>;

/// The outcome of generating statements: instructions, label state and
/// environment afterwards, or the first semantic error.
pub type StmtGen = Result<(Seq<InstrModel>, LabelCounts, EnvModel), (CodegenErrorModel, Span)>;

/// Whether a plain binary operator generates its left operand first.
/// Subtraction, division, remainder and the shifts generate the right
/// operand first, leaving the left operand in the accumulator and the
/// right one in the scratch register when the combining tail runs.
pub open spec fn binop_lhs_first(op: BinaryOperator) -> bool {
    match op {
        BinaryOperator::Minus
        | BinaryOperator::Divide
        | BinaryOperator::Mod
        | BinaryOperator::LeftShift
        | BinaryOperator::RightShift => false,
        _ => true,
    }
}

/// The instructions that combine the two generated operands of a plain
/// binary operator, after the pop into the scratch register.
pub open spec fn binop_tail(op: BinaryOperator) -> Seq<InstrModel> {
    match op {
        BinaryOperator::Plus => seq![InstrModel::Add],
        BinaryOperator::Multiply => seq![InstrModel::Imul],
        BinaryOperator::Minus => seq![InstrModel::Sub],
        BinaryOperator::Divide => seq![InstrModel::Cqo, InstrModel::Idiv],
        BinaryOperator::Mod => seq![InstrModel::Cqo, InstrModel::Idiv, InstrModel::MovRdxRax],
        BinaryOperator::EqEq => seq![
            InstrModel::CmpRaxRcx,
            InstrModel::MovImm(0),
            InstrModel::Sete,
        ],
        BinaryOperator::Ne => seq![InstrModel::CmpRaxRcx, InstrModel::MovImm(0), InstrModel::Setne],
        BinaryOperator::Ge => seq![InstrModel::CmpRaxRcx, InstrModel::MovImm(0), InstrModel::Setge],
        BinaryOperator::Gt => seq![InstrModel::CmpRaxRcx, InstrModel::MovImm(0), InstrModel::Setg],
        BinaryOperator::Le => seq![InstrModel::CmpRaxRcx, InstrModel::MovImm(0), InstrModel::Setle],
        BinaryOperator::Lt => seq![InstrModel::CmpRaxRcx, InstrModel::MovImm(0), InstrModel::Setl],
        BinaryOperator::BitwiseAnd => seq![InstrModel::And],
        BinaryOperator::BitwiseOr => seq![InstrModel::Or],
        BinaryOperator::BitwiseXor => seq![InstrModel::Xor],
        BinaryOperator::LeftShift => seq![InstrModel::Shl],
        BinaryOperator::RightShift => seq![InstrModel::Shr],
        _ => Seq::empty(),
    }
}

/// The full instruction stream of a plain binary operator, given the
/// generated streams of its operands: first operand, push, second operand,
/// pop into scratch, then the combining tail.
pub open spec fn binop_lines(op: BinaryOperator, ll: Seq<InstrModel>, rl: Seq<InstrModel>) -> Seq<
    InstrModel,
> {
    if binop_lhs_first(op) {
        ll + seq![InstrModel::Push] + rl + seq![InstrModel::PopRcx] + binop_tail(op)
    } else {
        rl + seq![InstrModel::Push] + ll + seq![InstrModel::PopRcx] + binop_tail(op)
    }
}

/// The instructions that follow a generated operand of a prefix operator.
/// A prefix plus is folded away entirely.
pub open spec fn unary_tail(op: UnaryOperator) -> Seq<InstrModel> {
    match op {
        UnaryOperator::Plus => Seq::empty(),
        UnaryOperator::Minus => seq![InstrModel::Neg],
        UnaryOperator::LogicalNot => seq![
            InstrModel::CmpZero,
            InstrModel::MovImm(0),
            InstrModel::Sete,
        ],
        UnaryOperator::BitwiseNot => seq![InstrModel::Not],
    }
}

/// Whether an assignment node's own checks fail: its target is not a
/// plain variable reference, or the target name is not declared. When
/// they do, generation of that node stops before emitting anything.
pub open spec fn assignment_checks_fail(e: ExprModel, scopes: Seq<Seq<BindingModel>>) -> bool {
    match e {
        ExprModel::Binary(l, op, r) => (op == BinaryOperator::Eq || spec_is_compound_assignment(
            op,
        )) && (match spec_as_lvalue((*l).0) {
            None => true,
            Some(var) => env_lookup(scopes, var) is None,
        }),
        _ => false,
    }
}

/// What generating one expression produces: the result is always left in
/// the accumulator register. Logical operators synthesize short-circuit
/// control flow with two freshly minted labels each; assignment stores the
/// accumulator into the target's frame slot and keeps it as the
/// expression's value; compound assignment generates exactly the
/// desugared plain assignment (`lemma_compound_assignment_desugars`).
pub open spec fn gen_expr(
    e: ExprModel,
    span: Span,
    lt: LabelCounts,
    scopes: Seq<Seq<BindingModel>>,
) -> ExprGen
    decreases e,
{
    match e {
        ExprModel::LiteralInteger(n) => Ok((seq![InstrModel::MovImm(n)], lt)),
        ExprModel::Variable(name) => match env_lookup(scopes, name) {
            Some(b) => Ok((seq![InstrModel::MovLoad(b.offset)], lt)),
            None => Err((CodegenErrorModel::UndeclaredVariable(name), span)),
        },
        ExprModel::Unary(op, r) => match gen_expr((*r).0, (*r).1, lt, scopes) {
            Err(err) => Err(err),
            Ok((rl, lt1)) => Ok((rl + unary_tail(op), lt1)),
        },
        ExprModel::Binary(l, op, r) => {
            if op == BinaryOperator::Eq {
                match spec_as_lvalue((*l).0) {
                    None => Err((CodegenErrorModel::InvalidAssignmentTarget, (*l).1)),
                    Some(var) => match env_lookup(scopes, var) {
                        None => Err((CodegenErrorModel::UndeclaredVariable(var), (*l).1)),
                        Some(b) => match gen_expr((*r).0, (*r).1, lt, scopes) {
                            Err(err) => Err(err),
                            Ok((rl, lt1)) => Ok(
                                (rl + seq![InstrModel::MovStore(b.offset)], lt1),
                            ),
                        },
                    },
                }
            } else if spec_is_compound_assignment(op) {
                match spec_as_lvalue((*l).0) {
                    None => Err((CodegenErrorModel::InvalidAssignmentTarget, (*l).1)),
                    Some(var) => match env_lookup(scopes, var) {
                        None => Err((CodegenErrorModel::UndeclaredVariable(var), (*l).1)),
                        Some(b) => {
                            let base = spec_compound_to_operator(op)->Some_0;
                            let first = if binop_lhs_first(base) {
                                l
                            } else {
                                r
                            };
                            let second = if binop_lhs_first(base) {
                                r
                            } else {
                                l
                            };
                            match gen_expr((*first).0, (*first).1, lt, scopes) {
                                Err(err) => Err(err),
                                Ok((al, lt1)) => match gen_expr(
                                    (*second).0,
                                    (*second).1,
                                    lt1,
                                    scopes,
                                ) {
                                    Err(err) => Err(err),
                                    Ok((bl, lt2)) => {
                                        let ll = if binop_lhs_first(base) {
                                            al
                                        } else {
                                            bl
                                        };
                                        let rl = if binop_lhs_first(base) {
                                            bl
                                        } else {
                                            al
                                        };
                                        Ok(
                                            (
                                                binop_lines(base, ll, rl) + seq![
                                                    InstrModel::MovStore(b.offset),
                                                ],
                                                lt2,
                                            ),
                                        )
                                    },
                                },
                            }
                        },
                    },
                }
            } else if op == BinaryOperator::LogicalAnd {
                let c1 = lt.get(LabelKind::And);
                let lt1 = lt.inc(LabelKind::And);
                let c2 = lt1.get(LabelKind::AndShortCircuit);
                let lt2 = lt1.inc(LabelKind::AndShortCircuit);
                match gen_expr((*l).0, (*l).1, lt2, scopes) {
                    Err(err) => Err(err),
                    Ok((ll, lt3)) => match gen_expr((*r).0, (*r).1, lt3, scopes) {
                        Err(err) => Err(err),
                        Ok((rl, lt4)) => Ok(
                            (
                                ll + seq![
                                    InstrModel::CmpZero,
                                    InstrModel::Jne(LabelKind::And, c1),
                                    InstrModel::Jmp(LabelKind::AndShortCircuit, c2),
                                    InstrModel::CtlLabel(LabelKind::And, c1),
                                ] + rl + seq![
                                    InstrModel::CmpZero,
                                    InstrModel::MovImm(0),
                                    InstrModel::Setne,
                                    InstrModel::CtlLabel(LabelKind::AndShortCircuit, c2),
                                ],
                                lt4,
                            ),
                        ),
                    },
                }
            } else if op == BinaryOperator::LogicalOr {
                let c1 = lt.get(LabelKind::Or);
                let lt1 = lt.inc(LabelKind::Or);
                let c2 = lt1.get(LabelKind::OrShortCircuit);
                let lt2 = lt1.inc(LabelKind::OrShortCircuit);
                match gen_expr((*l).0, (*l).1, lt2, scopes) {
                    Err(err) => Err(err),
                    Ok((ll, lt3)) => match gen_expr((*r).0, (*r).1, lt3, scopes) {
                        Err(err) => Err(err),
                        Ok((rl, lt4)) => Ok(
                            (
                                ll + seq![
                                    InstrModel::CmpZero,
                                    InstrModel::Je(LabelKind::Or, c1),
                                    InstrModel::MovImm(1),
                                    InstrModel::Jmp(LabelKind::OrShortCircuit, c2),
                                    InstrModel::CtlLabel(LabelKind::Or, c1),
                                ] + rl + seq![
                                    InstrModel::CmpZero,
                                    InstrModel::MovImm(0),
                                    InstrModel::Setne,
                                    InstrModel::CtlLabel(LabelKind::OrShortCircuit, c2),
                                ],
                                lt4,
                            ),
                        ),
                    },
                }
            } else {
                let first = if binop_lhs_first(op) {
                    l
                } else {
                    r
                };
                let second = if binop_lhs_first(op) {
                    r
                } else {
                    l
                };
                match gen_expr((*first).0, (*first).1, lt, scopes) {
                    Err(err) => Err(err),
                    Ok((al, lt1)) => match gen_expr((*second).0, (*second).1, lt1, scopes) {
                        Err(err) => Err(err),
                        Ok((bl, lt2)) => {
                            let ll = if binop_lhs_first(op) {
                                al
                            } else {
                                bl
                            };
                            let rl = if binop_lhs_first(op) {
                                bl
                            } else {
                                al
                            };
                            Ok((binop_lines(op, ll, rl), lt2))
                        },
                    },
                }
            }
        },
        ExprModel::Ternary(c, a, b) => {
            let c1 = lt.get(LabelKind::TernaryElse);
            let lt1 = lt.inc(LabelKind::TernaryElse);
            let c2 = lt1.get(LabelKind::TernaryEnd);
            let lt2 = lt1.inc(LabelKind::TernaryEnd);
            match gen_expr((*c).0, (*c).1, lt2, scopes) {
                Err(err) => Err(err),
                Ok((cl, lt3)) => match gen_expr((*a).0, (*a).1, lt3, scopes) {
                    Err(err) => Err(err),
                    Ok((al, lt4)) => match gen_expr((*b).0, (*b).1, lt4, scopes) {
                        Err(err) => Err(err),
                        Ok((bl, lt5)) => Ok(
                            (
                                cl + seq![
                                    InstrModel::CmpZero,
                                    InstrModel::Je(LabelKind::TernaryElse, c1),
                                ] + al + seq![
                                    InstrModel::Jmp(LabelKind::TernaryEnd, c2),
                                    InstrModel::CtlLabel(LabelKind::TernaryElse, c1),
                                ] + bl + seq![InstrModel::CtlLabel(LabelKind::TernaryEnd, c2)],
                                lt5,
                            ),
                        ),
                    },
                },
            }
        },
    }
}

/// The environment after opening a scope.
pub open spec fn spec_new_scope(env: EnvModel) -> EnvModel {
    EnvModel { sp: env.sp, scopes: env.scopes.push(Seq::empty()) }
}

/// The environment after closing the innermost scope.
pub open spec fn spec_end_scope(env: EnvModel) -> EnvModel {
    if env.scopes.len() > 0 {
        EnvModel { sp: env.sp, scopes: env.scopes.drop_last() }
    } else {
        env
    }
}

/// The environment after declaring a fresh name: the stack-pointer offset
/// falls one word and the binding lands in the innermost scope.
pub open spec fn spec_put(env: EnvModel, name: Seq<char>, span: Span) -> EnvModel {
    let sp2 = spec_dec_sp(env.sp);
    EnvModel {
        sp: sp2,
        scopes: if env.scopes.len() > 0 {
            env.scopes.update(
                env.scopes.len() - 1,
                env.scopes.last().push(BindingModel { name, offset: sp2, span }),
            )
        } else {
            env.scopes
        },
    }
}

/// What generating one statement produces. A block pushes a scope,
/// generates its statements, and pops the scope without restoring the
/// stack-pointer offset. A declaration of a name already bound in the
/// innermost scope fails with `RedeclaredVariable` carrying the original
/// declaration's span; shadowing an outer scope is permitted. An `if`
/// reuses the ternary label kinds, jumping to the else label when an else
/// branch exists and directly to the end label otherwise.
pub open spec fn gen_stmt(s: StmtModel, span: Span, lt: LabelCounts, env: EnvModel) -> StmtGen
    decreases s,
{
    match s {
        StmtModel::Block(stmts) => match gen_stmts(stmts, lt, spec_new_scope(env)) {
            Err(err) => Err(err),
            Ok((lines, lt1, env2)) => Ok((lines, lt1, spec_end_scope(env2))),
        },
        StmtModel::Expression(e) => match gen_expr(e.0, e.1, lt, env.scopes) {
            Err(err) => Err(err),
            Ok((lines, lt1)) => Ok((lines, lt1, env)),
        },
        StmtModel::Declare(nm, init) => match spec_get_current(env.scopes, nm.0) {
            Some(b) => Err((CodegenErrorModel::RedeclaredVariable(nm.0, b.span), nm.1)),
            None => {
                let init_r = match init {
                    Some(e) => gen_expr(e.0, e.1, lt, env.scopes),
                    None => Ok((seq![InstrModel::MovImm(0)], lt)),
                };
                match init_r {
                    Err(err) => Err(err),
                    Ok((il, lt1)) => Ok(
                        (il + seq![InstrModel::Push], lt1, spec_put(env, nm.0, nm.1)),
                    ),
                }
            },
        },
        StmtModel::If(cond, then, els) => {
            let c1 = lt.get(LabelKind::TernaryElse);
            let lt1 = lt.inc(LabelKind::TernaryElse);
            let c2 = lt1.get(LabelKind::TernaryEnd);
            let lt2 = lt1.inc(LabelKind::TernaryEnd);
            match gen_expr(cond.0, cond.1, lt2, env.scopes) {
                Err(err) => Err(err),
                Ok((cl, lt3)) => {
                    let je = if els is Some {
                        InstrModel::Je(LabelKind::TernaryElse, c1)
                    } else {
                        InstrModel::Je(LabelKind::TernaryEnd, c2)
                    };
                    match gen_stmt((*then).0, (*then).1, lt3, env) {
                        Err(err) => Err(err),
                        Ok((tl, lt4, env1)) => match els {
                            Some(eb) => match gen_stmt((*eb).0, (*eb).1, lt4, env1) {
                                Err(err) => Err(err),
                                Ok((el, lt5, env2)) => Ok(
                                    (
                                        cl + seq![InstrModel::CmpZero, je] + tl + seq![
                                            InstrModel::Jmp(LabelKind::TernaryEnd, c2),
                                            InstrModel::CtlLabel(LabelKind::TernaryElse, c1),
                                        ] + el + seq![
                                            InstrModel::CtlLabel(LabelKind::TernaryEnd, c2),
                                        ],
                                        lt5,
                                        env2,
                                    ),
                                ),
                            },
                            None => Ok(
                                (
                                    cl + seq![InstrModel::CmpZero, je] + tl + seq![
                                        InstrModel::Jmp(LabelKind::TernaryEnd, c2),
                                        InstrModel::CtlLabel(LabelKind::TernaryEnd, c2),
                                    ],
                                    lt4,
                                    env1,
                                ),
                            ),
                        },
                    }
                },
            }
        },
        StmtModel::Return(e) => match gen_expr(e.0, e.1, lt, env.scopes) {
            Err(err) => Err(err),
            Ok((lines, lt1)) => Ok(
                (
                    lines + seq![InstrModel::MovRbpRsp, InstrModel::PopRbp, InstrModel::Ret],
                    lt1,
                    env,
                ),
            ),
        },
        StmtModel::Empty => Ok((Seq::empty(), lt, env)),
    }
}

/// Generates a statement list in order, short-circuiting on the first
/// error.
pub open spec fn gen_stmts(
    list: Seq<(StmtModel, Span)>,
    lt: LabelCounts,
    env: EnvModel,
) -> StmtGen
    decreases list,
{
    if list.len() == 0 {
        Ok((Seq::empty(), lt, env))
    } else {
        match gen_stmt(list[0].0, list[0].1, lt, env) {
            Err(err) => Err(err),
            Ok((l1, lt1, env1)) => match gen_stmts(list.drop_first(), lt1, env1) {
                Err(err) => Err(err),
                Ok((l2, lt2, env2)) => Ok((l1 + l2, lt2, env2)),
            },
        }
    }
}

/// What generating one function declaration produces: a global-symbol
/// directive, the entry label, the fixed prologue, then the body inside a
/// fresh scope. No implicit return is synthesized: a body that never
/// executes a `return` produces no trailing `ret`.
pub open spec fn gen_fn(f: FnDeclarationModel, lt: LabelCounts, env: EnvModel) -> StmtGen {
    let head = seq![
        InstrModel::Globl(f.0),
        InstrModel::FnLabel(f.0),
        InstrModel::PushRbp,
        InstrModel::MovRspRbp,
    ];
    match gen_stmts(f.1, lt, spec_new_scope(env)) {
        Err(err) => Err(err),
        Ok((bl, lt1, env2)) => Ok((head + bl, lt1, spec_end_scope(env2))),
    }
}

/// Generates every function of a program in order, short-circuiting on
/// the first error.
pub open spec fn gen_program(
    fns: Seq<(FnDeclarationModel, Span)>,
    lt: LabelCounts,
    env: EnvModel,
) -> StmtGen
    decreases fns,
{
    if fns.len() == 0 {
        Ok((Seq::empty(), lt, env))
    } else {
        match gen_fn(fns[0].0, lt, env) {
            Err(err) => Err(err),
            Ok((l1, lt1, env1)) => match gen_program(fns.drop_first(), lt1, env1) {
                Err(err) => Err(err),
                Ok((l2, lt2, env2)) => Ok((l1 + l2, lt2, env2)),
            },
        }
    }
}

/// The number of nodes in a statement tree; the termination measure for
/// the statement walk.
pub open spec fn stmt_size(s: StmtModel) -> nat
    decreases s,
{
    match s {
        StmtModel::Block(stmts) => 1 + stmt_list_size(stmts),
        StmtModel::If(cond, then, els) => 1 + stmt_size((*then).0) + (match els {
            Some(eb) => stmt_size((*eb).0),
            None => 0,
        }),
        _ => 1,
    }
}

/// The combined size of a statement list.
pub open spec fn stmt_list_size(list: Seq<(StmtModel, Span)>) -> nat
    decreases list,
{
    if list.len() == 0 {
        0
    } else {
        stmt_size(list[0].0) + stmt_list_size(list.drop_first())
    }
}

fn binop_lhs_first_ex(op: BinaryOperator) -> (r: bool)
    ensures
        r == binop_lhs_first(op),
{
    match op {
        BinaryOperator::Minus
        | BinaryOperator::Divide
        | BinaryOperator::Mod
        | BinaryOperator::LeftShift
        | BinaryOperator::RightShift => false,
        _ => true,
    }
}

fn push_unary_tail(out: &mut Vec<Instr>, op: UnaryOperator)
    ensures
        final(out).deep_view() == old(out).deep_view() + unary_tail(op),
{
    match op {
        UnaryOperator::Plus => {},
        UnaryOperator::Minus => {
            push_instr(out, Instr::Neg);
        },
        UnaryOperator::LogicalNot => {
            push_instr(out, Instr::CmpZero);
            push_instr(out, Instr::MovImm(0));
            push_instr(out, Instr::Sete);
        },
        UnaryOperator::BitwiseNot => {
            push_instr(out, Instr::Not);
        },
    }
    proof {
        assert(out.deep_view() =~= old(out).deep_view() + unary_tail(op));
    }
}

fn push_binop_tail(out: &mut Vec<Instr>, op: BinaryOperator)
    ensures
        final(out).deep_view() == old(out).deep_view() + binop_tail(op),
{
    match op {
        BinaryOperator::Plus => {
            push_instr(out, Instr::Add);
        },
        BinaryOperator::Multiply => {
            push_instr(out, Instr::Imul);
        },
        BinaryOperator::Minus => {
            push_instr(out, Instr::Sub);
        },
        BinaryOperator::Divide => {
            push_instr(out, Instr::Cqo);
            push_instr(out, Instr::Idiv);
        },
        BinaryOperator::Mod => {
            push_instr(out, Instr::Cqo);
            push_instr(out, Instr::Idiv);
            push_instr(out, Instr::MovRdxRax);
        },
        BinaryOperator::EqEq => {
            push_instr(out, Instr::CmpRaxRcx);
            push_instr(out, Instr::MovImm(0));
            push_instr(out, Instr::Sete);
        },
        BinaryOperator::Ne => {
            push_instr(out, Instr::CmpRaxRcx);
            push_instr(out, Instr::MovImm(0));
            push_instr(out, Instr::Setne);
        },
        BinaryOperator::Ge => {
            push_instr(out, Instr::CmpRaxRcx);
            push_instr(out, Instr::MovImm(0));
            push_instr(out, Instr::Setge);
        },
        BinaryOperator::Gt => {
            push_instr(out, Instr::CmpRaxRcx);
            push_instr(out, Instr::MovImm(0));
            push_instr(out, Instr::Setg);
        },
        BinaryOperator::Le => {
            push_instr(out, Instr::CmpRaxRcx);
            push_instr(out, Instr::MovImm(0));
            push_instr(out, Instr::Setle);
        },
        BinaryOperator::Lt => {
            push_instr(out, Instr::CmpRaxRcx);
            push_instr(out, Instr::MovImm(0));
            push_instr(out, Instr::Setl);
        },
        BinaryOperator::BitwiseAnd => {
            push_instr(out, Instr::And);
        },
        BinaryOperator::BitwiseOr => {
            push_instr(out, Instr::Or);
        },
        BinaryOperator::BitwiseXor => {
            push_instr(out, Instr::Xor);
        },
        BinaryOperator::LeftShift => {
            push_instr(out, Instr::Shl);
        },
        BinaryOperator::RightShift => {
            push_instr(out, Instr::Shr);
        },
        _ => {},
    }
    proof {
        assert(out.deep_view() =~= old(out).deep_view() + binop_tail(op));
    }
}

/// Generates the code of one expression into `out`, leaving its result in
/// the accumulator register, exactly as `gen_expr` describes.
#[verifier::rlimit(100)]
#[verifier::spinoff_prover]
pub fn code_gen_expr(
    e: &(Expr, Span),
    lt: &mut LabelTracker,
    out: &mut Vec<Instr>,
    env: &Environment,
) -> (r: Result<(), (CodegenError, Span)>)
    ensures
        match gen_expr(e.0.deep_view(), e.1, old(lt)@, env@.scopes) {
            Ok((lines, lt2)) => r is Ok && final(lt)@ == lt2 && final(out).deep_view() == old(
                out,
            ).deep_view() + lines,
            Err(err) => r matches Err(e2) && e2.0.deep_view() == err.0 && e2.1 == err.1
                && ((e.0.deep_view() matches ExprModel::Variable(_) || assignment_checks_fail(
                e.0.deep_view(),
                env@.scopes,
            )) ==> final(out).deep_view() == old(out).deep_view() && final(lt)@ == old(lt)@),
        },
    decreases e.0,
{
    let ghost spec_result = gen_expr(e.0.deep_view(), e.1, old(lt)@, env@.scopes);
    match &e.0 {
        Expr::LiteralInteger(n) => {
            push_instr(out, Instr::MovImm(*n));
            proof {
                assert(out.deep_view() =~= old(out).deep_view() + seq![
                    InstrModel::MovImm(*n),
                ]);
            }
            Ok(())
        },
        Expr::Variable(name) => match env.get(name) {
            Some((offset, _span)) => {
                push_instr(out, Instr::MovLoad(offset));
                proof {
                    assert(out.deep_view() =~= old(out).deep_view() + seq![
                        InstrModel::MovLoad(offset as int),
                    ]);
                }
                Ok(())
            },
            None => Err((CodegenError::UndeclaredVariable(name.clone()), e.1)),
        },
        Expr::Unary(op, r) => {
            code_gen_expr(r, lt, out, env)?;
            push_unary_tail(out, *op);
            proof {
                match spec_result {
                    Ok((lines, lt2)) => {
                        assert(out.deep_view() =~= old(out).deep_view() + lines);
                    },
                    Err(_) => {},
                }
            }
            Ok(())
        },
        Expr::Binary(l, op, r) => {
            if *op == BinaryOperator::Eq {
                match l.0.as_lvalue() {
                    None => Err((CodegenError::InvalidAssignmentTarget, l.1)),
                    Some(var) => match env.get(var) {
                        None => Err((CodegenError::UndeclaredVariable(var.clone()), l.1)),
                        Some((offset, _span)) => {
                            code_gen_expr(r, lt, out, env)?;
                            push_instr(out, Instr::MovStore(offset));
                            proof {
                                match spec_result {
                                    Ok((lines, lt2)) => {
                                        assert(out.deep_view() =~= old(out).deep_view() + lines);
                                    },
                                    Err(_) => {},
                                }
                            }
                            Ok(())
                        },
                    },
                }
            } else if op.is_compound_assignment() {
                match l.0.as_lvalue() {
                    None => Err((CodegenError::InvalidAssignmentTarget, l.1)),
                    Some(var) => match env.get(var) {
                        None => Err((CodegenError::UndeclaredVariable(var.clone()), l.1)),
                        Some((offset, _span)) => {
                            let base = op.compound_to_operator().unwrap();
                            if binop_lhs_first_ex(base) {
                                code_gen_expr(l, lt, out, env)?;
                                push_instr(out, Instr::Push);
                                code_gen_expr(r, lt, out, env)?;
                            } else {
                                code_gen_expr(r, lt, out, env)?;
                                push_instr(out, Instr::Push);
                                code_gen_expr(l, lt, out, env)?;
                            }
                            push_instr(out, Instr::PopRcx);
                            push_binop_tail(out, base);
                            push_instr(out, Instr::MovStore(offset));
                            proof {
                                match spec_result {
                                    Ok((lines, lt2)) => {
                                        assert(out.deep_view() =~= old(out).deep_view() + lines);
                                    },
                                    Err(_) => {},
                                }
                            }
                            Ok(())
                        },
                    },
                }
            } else if *op == BinaryOperator::LogicalAnd {
                let c1 = lt.index(LabelKind::And);
                lt.increment(LabelKind::And);
                let c2 = lt.index(LabelKind::AndShortCircuit);
                lt.increment(LabelKind::AndShortCircuit);
                code_gen_expr(l, lt, out, env)?;
                push_instr(out, Instr::CmpZero);
                push_instr(out, Instr::Jne(LabelKind::And, c1));
                push_instr(out, Instr::Jmp(LabelKind::AndShortCircuit, c2));
                push_instr(out, Instr::CtlLabel(LabelKind::And, c1));
                code_gen_expr(r, lt, out, env)?;
                push_instr(out, Instr::CmpZero);
                push_instr(out, Instr::MovImm(0));
                push_instr(out, Instr::Setne);
                push_instr(out, Instr::CtlLabel(LabelKind::AndShortCircuit, c2));
                proof {
                    match spec_result {
                        Ok((lines, lt2)) => {
                            assert(out.deep_view() =~= old(out).deep_view() + lines);
                        },
                        Err(_) => {},
                    }
                }
                Ok(())
            } else if *op == BinaryOperator::LogicalOr {
                let c1 = lt.index(LabelKind::Or);
                lt.increment(LabelKind::Or);
                let c2 = lt.index(LabelKind::OrShortCircuit);
                lt.increment(LabelKind::OrShortCircuit);
                code_gen_expr(l, lt, out, env)?;
                push_instr(out, Instr::CmpZero);
                push_instr(out, Instr::Je(LabelKind::Or, c1));
                push_instr(out, Instr::MovImm(1));
                push_instr(out, Instr::Jmp(LabelKind::OrShortCircuit, c2));
                push_instr(out, Instr::CtlLabel(LabelKind::Or, c1));
                code_gen_expr(r, lt, out, env)?;
                push_instr(out, Instr::CmpZero);
                push_instr(out, Instr::MovImm(0));
                push_instr(out, Instr::Setne);
                push_instr(out, Instr::CtlLabel(LabelKind::OrShortCircuit, c2));
                proof {
                    match spec_result {
                        Ok((lines, lt2)) => {
                            assert(out.deep_view() =~= old(out).deep_view() + lines);
                        },
                        Err(_) => {},
                    }
                }
                Ok(())
            } else {
                if binop_lhs_first_ex(*op) {
                    code_gen_expr(l, lt, out, env)?;
                    push_instr(out, Instr::Push);
                    code_gen_expr(r, lt, out, env)?;
                } else {
                    code_gen_expr(r, lt, out, env)?;
                    push_instr(out, Instr::Push);
                    code_gen_expr(l, lt, out, env)?;
                }
                push_instr(out, Instr::PopRcx);
                push_binop_tail(out, *op);
                proof {
                    match spec_result {
                        Ok((lines, lt2)) => {
                            assert(out.deep_view() =~= old(out).deep_view() + lines);
                        },
                        Err(_) => {},
                    }
                }
                Ok(())
            }
        },
        Expr::Ternary(c, a, b) => {
            let c1 = lt.index(LabelKind::TernaryElse);
            lt.increment(LabelKind::TernaryElse);
            let c2 = lt.index(LabelKind::TernaryEnd);
            lt.increment(LabelKind::TernaryEnd);
            code_gen_expr(c, lt, out, env)?;
            push_instr(out, Instr::CmpZero);
            push_instr(out, Instr::Je(LabelKind::TernaryElse, c1));
            code_gen_expr(a, lt, out, env)?;
            push_instr(out, Instr::Jmp(LabelKind::TernaryEnd, c2));
            push_instr(out, Instr::CtlLabel(LabelKind::TernaryElse, c1));
            code_gen_expr(b, lt, out, env)?;
            push_instr(out, Instr::CtlLabel(LabelKind::TernaryEnd, c2));
            proof {
                match spec_result {
                    Ok((lines, lt2)) => {
                        assert(out.deep_view() =~= old(out).deep_view() + lines);
                    },
                    Err(_) => {},
                }
            }
            Ok(())
        },
    }
}

/// Generates the code of one statement into `out`, exactly as `gen_stmt`
/// describes, updating the environment as declarations and scopes demand.
#[verifier::rlimit(100)]
#[verifier::spinoff_prover]
pub fn code_gen_stmt(
    s: &(Stmt, Span),
    lt: &mut LabelTracker,
    out: &mut Vec<Instr>,
    env: &mut Environment,
) -> (r: Result<(), (CodegenError, Span)>)
    ensures
        match gen_stmt(s.0.deep_view(), s.1, old(lt)@, old(env)@) {
            Ok((lines, lt2, env2)) => r is Ok && final(lt)@ == lt2 && final(env)@ == env2
                && final(out).deep_view() == old(out).deep_view() + lines,
            Err(err) => r matches Err(e2) && e2.0.deep_view() == err.0 && e2.1 == err.1
                && ((s.0.deep_view() matches StmtModel::Declare(nm, _) && spec_get_current(
                old(env)@.scopes,
                nm.0,
            ) is Some) ==> final(out).deep_view() == old(out).deep_view() && final(lt)@ == old(lt)@
                && final(env)@ == old(env)@),
        },
    decreases stmt_size(s.0.deep_view()), 0nat,
{
    let ghost spec_result = gen_stmt(s.0.deep_view(), s.1, old(lt)@, old(env)@);
    match &s.0 {
        Stmt::Block(stmts) => {
            env.new_scope();
            proof {
                lemma_stmt_seq_view_props(stmts@);
                let sv = stmt_seq_view(stmts@);
                assert(sv.subrange(0, stmts@.len() as int) =~= sv);
                assert(s.0.deep_view() == StmtModel::Block(sv));
                assert(stmt_size(s.0.deep_view()) == 1 + stmt_list_size(sv));
                assert(env@ == spec_new_scope(old(env)@));
            }
            code_gen_stmts_from(stmts, 0, lt, out, env)?;
            let _bytes = env.end_scope();
            proof {
                match spec_result {
                    Ok((lines, lt2, env2)) => {
                        assert(out.deep_view() =~= old(out).deep_view() + lines);
                        assert(env@ == env2);
                    },
                    Err(_) => {},
                }
            }
            Ok(())
        },
        Stmt::Expression(e) => {
            code_gen_expr(e, lt, out, env)?;
            Ok(())
        },
        Stmt::Declare(nm, init) => {
            match env.get_current(&nm.0) {
                Some((_offset, orig_span)) => Err(
                    (CodegenError::RedeclaredVariable(nm.0.clone(), orig_span), nm.1),
                ),
                None => {
                    match init {
                        Some(e2) => {
                            code_gen_expr(e2, lt, out, env)?;
                        },
                        None => {
                            push_instr(out, Instr::MovImm(0));
                        },
                    }
                    push_instr(out, Instr::Push);
                    let _inserted = env.put(&nm.0, nm.1);
                    proof {
                        match spec_result {
                            Ok((lines, lt2, env2)) => {
                                assert(out.deep_view() =~= old(out).deep_view() + lines);
                                assert(env@ == env2);
                            },
                            Err(_) => {},
                        }
                    }
                    Ok(())
                },
            }
        },
        Stmt::If(cond, then, els) => {
            let c1 = lt.index(LabelKind::TernaryElse);
            lt.increment(LabelKind::TernaryElse);
            let c2 = lt.index(LabelKind::TernaryEnd);
            lt.increment(LabelKind::TernaryEnd);
            code_gen_expr(cond, lt, out, env)?;
            push_instr(out, Instr::CmpZero);
            if els.is_some() {
                push_instr(out, Instr::Je(LabelKind::TernaryElse, c1));
            } else {
                push_instr(out, Instr::Je(LabelKind::TernaryEnd, c2));
            }
            code_gen_stmt(then, lt, out, env)?;
            push_instr(out, Instr::Jmp(LabelKind::TernaryEnd, c2));
            match els {
                Some(eb) => {
                    push_instr(out, Instr::CtlLabel(LabelKind::TernaryElse, c1));
                    code_gen_stmt(eb, lt, out, env)?;
                    push_instr(out, Instr::CtlLabel(LabelKind::TernaryEnd, c2));
                },
                None => {
                    push_instr(out, Instr::CtlLabel(LabelKind::TernaryEnd, c2));
                },
            }
            proof {
                match spec_result {
                    Ok((lines, lt2, env2)) => {
                        assert(out.deep_view() =~= old(out).deep_view() + lines);
                    },
                    Err(_) => {},
                }
            }
            Ok(())
        },
        Stmt::Return(e) => {
            code_gen_expr(e, lt, out, env)?;
            push_instr(out, Instr::MovRbpRsp);
            push_instr(out, Instr::PopRbp);
            push_instr(out, Instr::Ret);
            proof {
                match spec_result {
                    Ok((lines, lt2, env2)) => {
                        assert(out.deep_view() =~= old(out).deep_view() + lines);
                    },
                    Err(_) => {},
                }
            }
            Ok(())
        },
        Stmt::Empty => {
            proof {
                assert(out.deep_view() =~= old(out).deep_view() + Seq::<InstrModel>::empty());
            }
            Ok(())
        },
    }
}

/// Generates the statements of `list` from position `i` on, in order,
/// stopping at the first semantic error.
fn code_gen_stmts_from(
    list: &Vec<(Stmt, Span)>,
    i: usize,
    lt: &mut LabelTracker,
    out: &mut Vec<Instr>,
    env: &mut Environment,
) -> (r: Result<(), (CodegenError, Span)>)
    requires
        i <= list@.len(),
    ensures
        match gen_stmts(
            stmt_seq_view(list@).subrange(i as int, list@.len() as int),
            old(lt)@,
            old(env)@,
        ) {
            Ok((lines, lt2, env2)) => r is Ok && final(lt)@ == lt2 && final(env)@ == env2 && final(out).deep_view() == old(out).deep_view() + lines,
            Err(err) => r matches Err(e2) && e2.0.deep_view() == err.0 && e2.1 == err.1,
        },
    decreases stmt_list_size(stmt_seq_view(list@).subrange(i as int, list@.len() as int)), 1nat,
{
    proof {
        lemma_stmt_seq_view_props(list@);
    }
    let ghost suffix = stmt_seq_view(list@).subrange(i as int, list@.len() as int);
    if i == list.len() {
        proof {
            assert(suffix =~= Seq::<(StmtModel, Span)>::empty());
            assert(out.deep_view() =~= old(out).deep_view() + Seq::<InstrModel>::empty());
        }
        Ok(())
    } else {
        proof {
            assert(suffix[0] == (list@[i as int].0.deep_view(), list@[i as int].1));
            assert(suffix.drop_first() =~= stmt_seq_view(list@).subrange(
                i + 1,
                list@.len() as int,
            ));
        }
        code_gen_stmt(&list[i], lt, out, env)?;
        code_gen_stmts_from(list, i + 1, lt, out, env)?;
        proof {
            match gen_stmts(suffix, old(lt)@, old(env)@) {
                Ok((lines, lt2, env2)) => {
                    assert(out.deep_view() =~= old(out).deep_view() + lines);
                },
                Err(_) => {},
            }
        }
        Ok(())
    }
}

/// Generates a statement list in order, exactly as `gen_stmts` describes.
pub fn code_gen_stmts(
    list: &Vec<(Stmt, Span)>,
    lt: &mut LabelTracker,
    out: &mut Vec<Instr>,
    env: &mut Environment,
) -> (r: Result<(), (CodegenError, Span)>)
    ensures
        match gen_stmts(stmt_seq_view(list@), old(lt)@, old(env)@) {
            Ok((lines, lt2, env2)) => r is Ok && final(lt)@ == lt2 && final(env)@ == env2 && final(out).deep_view() == old(out).deep_view() + lines,
            Err(err) => r matches Err(e2) && e2.0.deep_view() == err.0 && e2.1 == err.1,
        },
{
    proof {
        lemma_stmt_seq_view_props(list@);
        let sv = stmt_seq_view(list@);
        assert(sv.subrange(0, list@.len() as int) =~= sv);
    }
    code_gen_stmts_from(list, 0, lt, out, env)
}

/// Generates one function declaration: the global-symbol directive, the
/// entry label, the prologue, then the body in a fresh scope, exactly as
/// `gen_fn` describes.
pub fn code_gen_fn(
    f: &(FnDeclaration, Span),
    lt: &mut LabelTracker,
    out: &mut Vec<Instr>,
    env: &mut Environment,
) -> (r: Result<(), (CodegenError, Span)>)
    ensures
        match gen_fn(f.0.deep_view(), old(lt)@, old(env)@) {
            Ok((lines, lt2, env2)) => r is Ok && final(lt)@ == lt2 && final(env)@ == env2 && final(out).deep_view() == old(out).deep_view() + lines,
            Err(err) => r matches Err(e2) && e2.0.deep_view() == err.0 && e2.1 == err.1,
        },
{
    env.new_scope();
    push_instr(out, Instr::Globl(f.0.0.clone()));
    push_instr(out, Instr::FnLabel(f.0.0.clone()));
    push_instr(out, Instr::PushRbp);
    push_instr(out, Instr::MovRspRbp);
    code_gen_stmts(&f.0.1, lt, out, env)?;
    let _bytes = env.end_scope();
    proof {
        match gen_fn(f.0.deep_view(), old(lt)@, old(env)@) {
            Ok((lines, lt2, env2)) => {
                assert(out.deep_view() =~= old(out).deep_view() + lines);
                assert(env@ == env2);
            },
            Err(_) => {},
        }
    }
    Ok(())
}

fn code_gen_program_from(
    fns: &Vec<(FnDeclaration, Span)>,
    i: usize,
    lt: &mut LabelTracker,
    out: &mut Vec<Instr>,
    env: &mut Environment,
) -> (r: Result<(), (CodegenError, Span)>)
    requires
        i <= fns@.len(),
    ensures
        match gen_program(fns.deep_view().subrange(i as int, fns@.len() as int), old(lt)@, old(env)@) {
            Ok((lines, lt2, env2)) => r is Ok && final(lt)@ == lt2 && final(env)@ == env2 && final(out).deep_view() == old(out).deep_view() + lines,
            Err(err) => r matches Err(e2) && e2.0.deep_view() == err.0 && e2.1 == err.1,
        },
    decreases fns@.len() - i,
{
    let ghost suffix = fns.deep_view().subrange(i as int, fns@.len() as int);
    if i == fns.len() {
        proof {
            assert(suffix =~= Seq::<(FnDeclarationModel, Span)>::empty());
            assert(out.deep_view() =~= old(out).deep_view() + Seq::<InstrModel>::empty());
        }
        Ok(())
    } else {
        proof {
            assert(fns.deep_view()[i as int] == fns@[i as int].deep_view());
            assert(suffix[0] == fns@[i as int].deep_view());
            assert(suffix.drop_first() =~= fns.deep_view().subrange(i + 1, fns@.len() as int));
        }
        code_gen_fn(&fns[i], lt, out, env)?;
        code_gen_program_from(fns, i + 1, lt, out, env)?;
        proof {
            match gen_program(suffix, old(lt)@, old(env)@) {
                Ok((lines, lt2, env2)) => {
                    assert(out.deep_view() =~= old(out).deep_view() + lines);
                },
                Err(_) => {},
            }
        }
        Ok(())
    }
}

/// Generates a whole program as a structured instruction stream, exactly
/// as `gen_program` describes.
pub fn code_gen_program_instrs(
    fns: &Vec<(FnDeclaration, Span)>,
    lt: &mut LabelTracker,
    out: &mut Vec<Instr>,
    env: &mut Environment,
) -> (r: Result<(), (CodegenError, Span)>)
    ensures
        match gen_program(fns.deep_view(), old(lt)@, old(env)@) {
            Ok((lines, lt2, env2)) => r is Ok && final(lt)@ == lt2 && final(env)@ == env2 && final(out).deep_view() == old(out).deep_view() + lines,
            Err(err) => r matches Err(e2) && e2.0.deep_view() == err.0 && e2.1 == err.1,
        },
{
    proof {
        assert(fns.deep_view().subrange(0, fns@.len() as int) =~= fns.deep_view());
    }
    code_gen_program_from(fns, 0, lt, out, env)
}

/// Generates a whole program into the emitter: the rendered text of
/// exactly the instruction stream `gen_program` describes. On a semantic
/// error nothing is emitted and the error is returned with its span.
pub fn code_gen(
    fns: &Vec<(FnDeclaration, Span)>,
    lt: &mut LabelTracker,
    em: &mut Emitter,
    env: &mut Environment,
) -> (r: Result<(), (CodegenError, Span)>)
    ensures
        match gen_program(fns.deep_view(), old(lt)@, old(env)@) {
            Ok((lines, lt2, env2)) => r is Ok && final(lt)@ == lt2 && final(env)@ == env2 && final(em)@ == old(em)@ + instr_seq_chars(lines),
            Err(err) => r matches Err(e2) && e2.0.deep_view() == err.0 && e2.1 == err.1 && final(em)@ == old(em)@,
        },
{
    let mut out: Vec<Instr> = Vec::new();
    proof {
        assert(out.deep_view() =~= Seq::<InstrModel>::empty());
    }
    match code_gen_program_instrs(fns, lt, &mut out, env) {
        Ok(()) => {
            emit_all(em, &out);
            proof {
                match gen_program(fns.deep_view(), old(lt)@, old(env)@) {
                    Ok((lines, lt2, env2)) => {
                        assert(out.deep_view() =~= lines);
                        assert(em@ =~= old(em)@ + instr_seq_chars(lines));
                    },
                    Err(_) => {},
                }
            }
            Ok(())
        },
        Err(e2) => Err(e2),
    }
}

/// Compound-assignment law: a compound assignment `lhs OP= rhs` generates
/// exactly the instruction stream of its desugared form `lhs = lhs OP rhs`
/// (and fails with exactly the same error when one occurs), from any label
/// state and any scope stack. Behavioral identity follows from textual
/// identity.
pub proof fn lemma_compound_assignment_desugars(
    e: (ExprModel, Span),
    lt: LabelCounts,
    scopes: Seq<Seq<BindingModel>>,
)
    requires
        spec_desugar(e) is Some,
    ensures
        gen_expr(e.0, e.1, lt, scopes) == gen_expr(
            spec_desugar(e)->Some_0.0,
            spec_desugar(e)->Some_0.1,
            lt,
            scopes,
        ),
{
    reveal_with_fuel(gen_expr, 3);
    match e.0 {
        ExprModel::Binary(l, op, r) => {
            let base = spec_compound_to_operator(op)->Some_0;
            assert(!spec_is_compound_assignment(base) && base != BinaryOperator::Eq && base
                != BinaryOperator::LogicalAnd && base != BinaryOperator::LogicalOr);
            let d = spec_desugar(e)->Some_0;
            assert(d.0 == ExprModel::Binary(
                l,
                BinaryOperator::Eq,
                Box::new((ExprModel::Binary(l, base, r), e.1)),
            ));
            assert(gen_expr(e.0, e.1, lt, scopes) == gen_expr(d.0, d.1, lt, scopes));
        },
        _ => {
            assert(false);
        },
    }
}

/// Scoping law, first part: declaring a name that is already bound in the
/// innermost scope fails with `RedeclaredVariable`, carrying the original
/// declaration's span, reported at the new declaration's span.
pub proof fn lemma_redeclaration_rejected(
    name: Seq<char>,
    nspan: Span,
    init: Option<(ExprModel, Span)>,
    span: Span,
    lt: LabelCounts,
    env: EnvModel,
)
    requires
        spec_get_current(env.scopes, name) is Some,
    ensures
        gen_stmt(StmtModel::Declare((name, nspan), init), span, lt, env) == Err::<
            (Seq<InstrModel>, LabelCounts, EnvModel),
            _,
        >(
            (
                CodegenErrorModel::RedeclaredVariable(
                    name,
                    spec_get_current(env.scopes, name)->Some_0.span,
                ),
                nspan,
            ),
        ),
{
}

/// Looking a name up in a scope extended by one binding: an existing
/// binding still wins; otherwise the new binding is found exactly when the
/// names match.
pub proof fn lemma_scope_lookup_push(s: Seq<BindingModel>, b: BindingModel, name: Seq<char>)
    ensures
        crate::env::scope_lookup(s.push(b), name) == (match crate::env::scope_lookup(s, name) {
            Some(found) => Some(found),
            None => if b.name == name {
                Some(b)
            } else {
                None
            },
        }),
    decreases s.len(),
{
    if s.len() == 0 {
        assert(s.push(b)[0] == b);
        assert(s.push(b).drop_first() =~= Seq::<BindingModel>::empty());
    } else {
        assert(s.push(b)[0] == s[0]);
        assert(s.push(b).drop_first() =~= s.drop_first().push(b));
        lemma_scope_lookup_push(s.drop_first(), b, name);
    }
}

/// Scoping law, second part: declaring a name that is bound only in an
/// outer scope succeeds, and afterwards the nearest (innermost)
/// declaration wins the lookup: the new slot shadows the outer one.
pub proof fn lemma_shadowing_allowed(
    name: Seq<char>,
    nspan: Span,
    span: Span,
    lt: LabelCounts,
    env: EnvModel,
)
    requires
        env.scopes.len() > 0,
        spec_get_current(env.scopes, name) is None,
    ensures
        gen_stmt(StmtModel::Declare((name, nspan), None), span, lt, env) matches Ok(
            (lines, lt2, env2),
        ) && env_lookup(env2.scopes, name) == Some(
            BindingModel { name, offset: spec_dec_sp(env.sp), span: nspan },
        ),
{
    let env2 = spec_put(env, name, nspan);
    let b = BindingModel { name, offset: spec_dec_sp(env.sp), span: nspan };
    lemma_scope_lookup_push(env.scopes.last(), b, name);
    assert(env2.scopes.last() == env.scopes.last().push(b));
    assert(crate::env::scope_lookup(env2.scopes.last(), name) == Some(b));
}

/// Statements never disturb scopes other than the innermost one: on
/// success the scope stack keeps its depth and every scope but the
/// innermost keeps its contents.
pub proof fn lemma_stmt_preserves_outer_scopes(
    s: StmtModel,
    span: Span,
    lt: LabelCounts,
    env: EnvModel,
)
    ensures
        gen_stmt(s, span, lt, env) matches Ok((lines, lt2, env2)) ==> env2.scopes.len()
            == env.scopes.len() && (forall|i: int|
            0 <= i < env.scopes.len() - 1 ==> env2.scopes[i] == env.scopes[i]),
    decreases stmt_size(s), 0nat,
{
    match s {
        StmtModel::Block(stmts) => {
            lemma_stmts_preserve_outer_scopes(stmts, lt, spec_new_scope(env));
        },
        StmtModel::If(cond, then, els) => {
            let c1 = lt.get(LabelKind::TernaryElse);
            let lt1 = lt.inc(LabelKind::TernaryElse);
            let c2 = lt1.get(LabelKind::TernaryEnd);
            let lt2 = lt1.inc(LabelKind::TernaryEnd);
            match gen_expr(cond.0, cond.1, lt2, env.scopes) {
                Err(_) => {},
                Ok((cl, lt3)) => {
                    lemma_stmt_preserves_outer_scopes((*then).0, (*then).1, lt3, env);
                    match gen_stmt((*then).0, (*then).1, lt3, env) {
                        Err(_) => {},
                        Ok((tl, lt4, env1)) => match els {
                            Some(eb) => {
                                lemma_stmt_preserves_outer_scopes((*eb).0, (*eb).1, lt4, env1);
                            },
                            None => {},
                        },
                    }
                },
            }
        },
        _ => {},
    }
}

/// A statement list never disturbs scopes other than the innermost one.
pub proof fn lemma_stmts_preserve_outer_scopes(
    list: Seq<(StmtModel, Span)>,
    lt: LabelCounts,
    env: EnvModel,
)
    ensures
        gen_stmts(list, lt, env) matches Ok((lines, lt2, env2)) ==> env2.scopes.len()
            == env.scopes.len() && (forall|i: int|
            0 <= i < env.scopes.len() - 1 ==> env2.scopes[i] == env.scopes[i]),
    decreases stmt_list_size(list), 1nat,
{
    if list.len() > 0 {
        lemma_stmt_preserves_outer_scopes(list[0].0, list[0].1, lt, env);
        match gen_stmt(list[0].0, list[0].1, lt, env) {
            Err(_) => {},
            Ok((l1, lt1, env1)) => {
                lemma_stmts_preserve_outer_scopes(list.drop_first(), lt1, env1);
            },
        }
    }
}

/// Scoping law, third part: a block leaves the scope stack exactly as it
/// found it, so a name declared inside the block is gone once the block
/// ends, and a reference to it afterwards fails with
/// `UndeclaredVariable` (`lemma_out_of_scope_reference_fails`).
pub proof fn lemma_block_scopes_restored(
    stmts: Seq<(StmtModel, Span)>,
    span: Span,
    lt: LabelCounts,
    env: EnvModel,
)
    ensures
        gen_stmt(StmtModel::Block(stmts), span, lt, env) matches Ok((lines, lt2, env2)) ==> env2.scopes
            == env.scopes,
{
    let env1 = spec_new_scope(env);
    lemma_stmts_preserve_outer_scopes(stmts, lt, env1);
    match gen_stmts(stmts, lt, env1) {
        Err(_) => {},
        Ok((l1, lt1, envk)) => {
            assert(envk.scopes.len() == env.scopes.len() + 1);
            assert(spec_end_scope(envk).scopes =~= env.scopes);
        },
    }
}

/// A reference to a name that no open scope binds fails with
/// `UndeclaredVariable` at the reference's span.
pub proof fn lemma_out_of_scope_reference_fails(
    name: Seq<char>,
    span: Span,
    lt: LabelCounts,
    scopes: Seq<Seq<BindingModel>>,
)
    requires
        env_lookup(scopes, name) is None,
    ensures
        gen_expr(ExprModel::Variable(name), span, lt, scopes) == Err::<
            (Seq<InstrModel>, LabelCounts),
            _,
        >((CodegenErrorModel::UndeclaredVariable(name), span)),
{
}

} // verus!

