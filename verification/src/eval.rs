//! A small semantic evaluator for constant expressions, over 64-bit
//! two's-complement integers with the same operator semantics the
//! generated code computes with: wrapping arithmetic, signed comparisons
//! producing 0 or 1, short-circuiting logical operators, shift counts
//! masked to six bits, a logical right shift, and a lazily evaluated
//! conditional. Variables and assignments have no value here: evaluation
//! returns `None` for them, as it does for a zero or overflowing divide.

use vstd::prelude::*;
use vstd::wrapping::i64_specs;
use crate::expr::{Expr, ExprModel};
use crate::op::{BinaryOperator, UnaryOperator};
use crate::span::Span;

verus! {

/// The two's-complement bits of a signed word.
pub open spec fn bits_of(x: i64) -> u64 {
    if x < 0 {
        (x + 0x1_0000_0000_0000_0000) as u64
    } else {
        x as u64
    }
}

/// The signed word with the given bits.
pub open spec fn word_of(x: u64) -> i64 {
    if x >= 0x8000_0000_0000_0000 {
        (x - 0x1_0000_0000_0000_0000) as i64
    } else {
        x as i64
    }
}

/// The magnitude of a signed word.
pub open spec fn mag_of(x: i64) -> u64 {
    if x < 0 {
        (-(x as int)) as u64
    } else {
        x as u64
    }
}

/// Truncating signed division and remainder, by magnitudes; the
/// remainder's sign follows the dividend, as the divide instruction has
/// it.
pub open spec fn spec_divide(a: i64, b: i64) -> Option<(i64, i64)> {
    if b == 0 || (a == i64::MIN && b == -1) {
        None
    } else {
        let uq = mag_of(a) / mag_of(b);
        let ur = mag_of(a) % mag_of(b);
        let q: int = if (a < 0) == (b < 0) {
            uq as int
        } else {
            -(uq as int)
        };
        let r: int = if a < 0 {
            -(ur as int)
        } else {
            ur as int
        };
        Some((q as i64, r as i64))
    }
}

/// The value of a unary operator applied to a value.
pub open spec fn spec_eval_unary(op: UnaryOperator, v: i64) -> i64 {
    match op {
        UnaryOperator::Plus => v,
        UnaryOperator::Minus => i64_specs::wrapping_sub(0, v),
        UnaryOperator::LogicalNot => if v == 0 {
            1
        } else {
            0
        },
        UnaryOperator::BitwiseNot => !v,
    }
}

/// The value of a non-short-circuiting binary operator on two values;
/// `None` for a bad divide and for the operators the evaluator does not
/// value (assignment and its compound forms).
pub open spec fn spec_eval_binop(op: BinaryOperator, a: i64, b: i64) -> Option<i64> {
    match op {
        BinaryOperator::Plus => Some(i64_specs::wrapping_add(a, b)),
        BinaryOperator::Minus => Some(i64_specs::wrapping_sub(a, b)),
        BinaryOperator::Multiply => Some(i64_specs::wrapping_mul(a, b)),
        BinaryOperator::Divide => match spec_divide(a, b) {
            Some(qr) => Some(qr.0),
            None => None,
        },
        BinaryOperator::Mod => match spec_divide(a, b) {
            Some(qr) => Some(qr.1),
            None => None,
        },
        BinaryOperator::EqEq => Some(
            if a == b {
                1
            } else {
                0
            },
        ),
        BinaryOperator::Ne => Some(
            if a != b {
                1
            } else {
                0
            },
        ),
        BinaryOperator::Gt => Some(
            if a > b {
                1
            } else {
                0
            },
        ),
        BinaryOperator::Lt => Some(
            if a < b {
                1
            } else {
                0
            },
        ),
        BinaryOperator::Ge => Some(
            if a >= b {
                1
            } else {
                0
            },
        ),
        BinaryOperator::Le => Some(
            if a <= b {
                1
            } else {
                0
            },
        ),
        BinaryOperator::BitwiseAnd => Some(a & b),
        BinaryOperator::BitwiseOr => Some(a | b),
        BinaryOperator::BitwiseXor => Some(a ^ b),
        BinaryOperator::LeftShift => Some(i64_specs::wrapping_shl(a, (b & 63) as u32)),
        BinaryOperator::RightShift => Some(word_of(bits_of(a) >> ((b & 63) as u32))),
        _ => None,
    }
}

/// The value of a constant expression: literals, prefix operators,
/// arithmetic, comparisons, short-circuiting logical operators and lazy
/// conditionals. Anything touching a variable has no constant value.
pub open spec fn spec_eval(e: ExprModel) -> Option<i64>
    decreases e,
{
    match e {
        ExprModel::LiteralInteger(n) => Some(word_of(n)),
        ExprModel::Variable(_) => None,
        ExprModel::Unary(op, r) => match spec_eval((*r).0) {
            Some(v) => Some(spec_eval_unary(op, v)),
            None => None,
        },
        ExprModel::Binary(l, op, r) => {
            if op == BinaryOperator::LogicalAnd {
                match spec_eval((*l).0) {
                    Some(a) => if a == 0 {
                        Some(0)
                    } else {
                        match spec_eval((*r).0) {
                            Some(b) => Some(
                                if b != 0 {
                                    1
                                } else {
                                    0
                                },
                            ),
                            None => None,
                        }
                    },
                    None => None,
                }
            } else if op == BinaryOperator::LogicalOr {
                match spec_eval((*l).0) {
                    Some(a) => if a != 0 {
                        Some(1)
                    } else {
                        match spec_eval((*r).0) {
                            Some(b) => Some(
                                if b != 0 {
                                    1
                                } else {
                                    0
                                },
                            ),
                            None => None,
                        }
                    },
                    None => None,
                }
            } else {
                match spec_eval((*l).0) {
                    Some(a) => match spec_eval((*r).0) {
                        Some(b) => spec_eval_binop(op, a, b),
                        None => None,
                    },
                    None => None,
                }
            }
        },
        ExprModel::Ternary(c, a, b) => match spec_eval((*c).0) {
            Some(v) => if v != 0 {
                spec_eval((*a).0)
            } else {
                spec_eval((*b).0)
            },
            None => None,
        },
    }
}

fn exec_divide(a: i64, b: i64) -> (r: Option<(i64, i64)>)
    ensures
        r == spec_divide(a, b),
{
    if b == 0 || (a == i64::MIN && b == -1) {
        return None;
    }
    let ua: u64 = if a >= 0 {
        a as u64
    } else {
        (-(a as i128)) as u64
    };
    let ub: u64 = if b >= 0 {
        b as u64
    } else {
        (-(b as i128)) as u64
    };
    let uq = ua / ub;
    let ur = ua % ub;
    let neg = (a < 0) != (b < 0);
    let q: i64 = if neg {
        (-(uq as i128)) as i64
    } else {
        uq as i64
    };
    let rem: i64 = if a < 0 {
        (-(ur as i128)) as i64
    } else {
        ur as i64
    };
    Some((q, rem))
}

fn exec_eval_binop(op: BinaryOperator, a: i64, b: i64) -> (r: Option<i64>)
    ensures
        r == spec_eval_binop(op, a, b),
{
    match op {
        BinaryOperator::Plus => Some(a.wrapping_add(b)),
        BinaryOperator::Minus => Some(a.wrapping_sub(b)),
        BinaryOperator::Multiply => Some(a.wrapping_mul(b)),
        BinaryOperator::Divide => match exec_divide(a, b) {
            Some(qr) => Some(qr.0),
            None => None,
        },
        BinaryOperator::Mod => match exec_divide(a, b) {
            Some(qr) => Some(qr.1),
            None => None,
        },
        BinaryOperator::EqEq => Some(if a == b { 1 } else { 0 }),
        BinaryOperator::Ne => Some(if a != b { 1 } else { 0 }),
        BinaryOperator::Gt => Some(if a > b { 1 } else { 0 }),
        BinaryOperator::Lt => Some(if a < b { 1 } else { 0 }),
        BinaryOperator::Ge => Some(if a >= b { 1 } else { 0 }),
        BinaryOperator::Le => Some(if a <= b { 1 } else { 0 }),
        BinaryOperator::BitwiseAnd => Some(a & b),
        BinaryOperator::BitwiseOr => Some(a | b),
        BinaryOperator::BitwiseXor => Some(a ^ b),
        BinaryOperator::LeftShift => {
            let m = b & 63;
            proof {
                assert(0 <= (b & 63) < 64) by (bit_vector);
            }
            Some(a.wrapping_shl(m as u32))
        },
        BinaryOperator::RightShift => {
            let m = b & 63;
            proof {
                assert(0 <= (b & 63) < 64) by (bit_vector);
            }
            let ua: u64 = if a >= 0 {
                a as u64
            } else {
                ((a as i128) + 0x1_0000_0000_0000_0000) as u64
            };
            proof {
                assert(ua == bits_of(a));
            }
            let shifted = ua >> (m as u64);
            let back: i64 = if shifted >= 0x8000_0000_0000_0000 {
                ((shifted as i128) - 0x1_0000_0000_0000_0000) as i64
            } else {
                shifted as i64
            };
            proof {
                assert(back == word_of(bits_of(a) >> ((b & 63) as u32)));
            }
            Some(back)
        },
        _ => None,
    }
}

/// Evaluates a constant expression, exactly as `spec_eval` describes.
pub fn eval_const(e: &(Expr, Span)) -> (r: Option<i64>)
    ensures
        r == spec_eval(e.0.deep_view()),
    decreases e.0,
{
    match &e.0 {
        Expr::LiteralInteger(n) => {
            let v: i64 = if *n >= 0x8000_0000_0000_0000 {
                ((*n as i128) - 0x1_0000_0000_0000_0000) as i64
            } else {
                *n as i64
            };
            Some(v)
        },
        Expr::Variable(_) => None,
        Expr::Unary(op, inner) => match eval_const(inner) {
            Some(v) => {
                let out = match op {
                    UnaryOperator::Plus => v,
                    UnaryOperator::Minus => 0i64.wrapping_sub(v),
                    UnaryOperator::LogicalNot => if v == 0 {
                        1
                    } else {
                        0
                    },
                    UnaryOperator::BitwiseNot => !v,
                };
                Some(out)
            },
            None => None,
        },
        Expr::Binary(l, op, r2) => {
            if *op == BinaryOperator::LogicalAnd {
                match eval_const(l) {
                    Some(a) => {
                        if a == 0 {
                            Some(0)
                        } else {
                            match eval_const(r2) {
                                Some(b) => Some(if b != 0 { 1 } else { 0 }),
                                None => None,
                            }
                        }
                    },
                    None => None,
                }
            } else if *op == BinaryOperator::LogicalOr {
                match eval_const(l) {
                    Some(a) => {
                        if a != 0 {
                            Some(1)
                        } else {
                            match eval_const(r2) {
                                Some(b) => Some(if b != 0 { 1 } else { 0 }),
                                None => None,
                            }
                        }
                    },
                    None => None,
                }
            } else {
                match eval_const(l) {
                    Some(a) => match eval_const(r2) {
                        Some(b) => exec_eval_binop(*op, a, b),
                        None => None,
                    },
                    None => None,
                }
            }
        },
        Expr::Ternary(c, a, b) => match eval_const(c) {
            Some(v) => {
                if v != 0 {
                    eval_const(a)
                } else {
                    eval_const(b)
                }
            },
            None => None,
        },
    }
}

} // verus!
