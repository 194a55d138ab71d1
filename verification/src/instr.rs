//! The closed set of assembly lines the code generator emits, and their
//! rendering into the exact instruction text. Keeping lines structured
//! until the final rendering lets the rest of the crate reason about the
//! output stream symbolically.

use vstd::prelude::*;
use vstd::string::StringExecFns;
use crate::decimal::{dec_chars, int_chars, isize_to_string, u64_to_string};
use crate::emitter::{tabs, Emitter};
use crate::label_tracker::{label_chars, label_string, LabelKind};

verus! {

/// One line of generated assembly.
#[derive(Debug, PartialEq, Eq)]
pub enum Instr {
    /// `.globl name` directive.
    Globl(String),
    /// A function entry label.
    FnLabel(String),
    /// A control-flow label minted by the label tracker.
    CtlLabel(LabelKind, usize),
    /// Unconditional jump to a control-flow label.
    Jmp(LabelKind, usize),
    /// Jump if the last comparison was equal.
    Je(LabelKind, usize),
    /// Jump if the last comparison was not equal.
    Jne(LabelKind, usize),
    /// `mov $n, %rax`.
    MovImm(u64),
    /// `mov off(%rbp), %rax`.
    MovLoad(isize),
    /// `mov %rax, off(%rbp)`.
    MovStore(isize),
    Neg,
    Not,
    /// `cmp $0, %rax`.
    CmpZero,
    /// `cmp %rax, %rcx`.
    CmpRaxRcx,
    Sete,
    Setne,
    Setge,
    Setg,
    Setle,
    Setl,
    /// `push %rax`.
    Push,
    /// `pop %rcx`.
    PopRcx,
    /// `add %rcx, %rax`.
    Add,
    /// `imul %rcx, %rax`.
    Imul,
    /// `sub %rcx, %rax`.
    Sub,
    Cqo,
    /// `idiv %rcx`.
    Idiv,
    /// `mov %rdx, %rax`.
    MovRdxRax,
    /// `and %rcx, %rax`.
    And,
    /// `or %rcx, %rax`.
    Or,
    /// `xor %rcx, %rax`.
    Xor,
    /// `shl %cl, %rax`.
    Shl,
    /// `shr %cl, %rax`.
    Shr,
    /// `mov %rsp, %rbp`.
    MovRspRbp,
    /// `mov %rbp, %rsp`.
    MovRbpRsp,
    PushRbp,
    PopRbp,
    Ret,
}

/// The mathematical model of an instruction: names as character
/// sequences, counters as naturals, offsets as integers.
pub enum InstrModel {
    Globl(Seq<char>),
    FnLabel(Seq<char>),
    CtlLabel(LabelKind, nat),
    Jmp(LabelKind, nat),
    Je(LabelKind, nat),
    Jne(LabelKind, nat),
    MovImm(u64),
    MovLoad(int),
    MovStore(int),
    Neg,
    Not,
    CmpZero,
    CmpRaxRcx,
    Sete,
    Setne,
    Setge,
    Setg,
    Setle,
    Setl,
    Push,
    PopRcx,
    Add,
    Imul,
    Sub,
    Cqo,
    Idiv,
    MovRdxRax,
    And,
    Or,
    Xor,
    Shl,
    Shr,
    MovRspRbp,
    MovRbpRsp,
    PushRbp,
    PopRbp,
    Ret,
}

impl DeepView for Instr {
    type V = InstrModel;

    open spec fn deep_view(&self) -> InstrModel {
        match self {
            Instr::Globl(s) => InstrModel::Globl(s@),
            Instr::FnLabel(s) => InstrModel::FnLabel(s@),
            Instr::CtlLabel(k, c) => InstrModel::CtlLabel(*k, *c as nat),
            Instr::Jmp(k, c) => InstrModel::Jmp(*k, *c as nat),
            Instr::Je(k, c) => InstrModel::Je(*k, *c as nat),
            Instr::Jne(k, c) => InstrModel::Jne(*k, *c as nat),
            Instr::MovImm(n) => InstrModel::MovImm(*n),
            Instr::MovLoad(o) => InstrModel::MovLoad(*o as int),
            Instr::MovStore(o) => InstrModel::MovStore(*o as int),
            Instr::Neg => InstrModel::Neg,
            Instr::Not => InstrModel::Not,
            Instr::CmpZero => InstrModel::CmpZero,
            Instr::CmpRaxRcx => InstrModel::CmpRaxRcx,
            Instr::Sete => InstrModel::Sete,
            Instr::Setne => InstrModel::Setne,
            Instr::Setge => InstrModel::Setge,
            Instr::Setg => InstrModel::Setg,
            Instr::Setle => InstrModel::Setle,
            Instr::Setl => InstrModel::Setl,
            Instr::Push => InstrModel::Push,
            Instr::PopRcx => InstrModel::PopRcx,
            Instr::Add => InstrModel::Add,
            Instr::Imul => InstrModel::Imul,
            Instr::Sub => InstrModel::Sub,
            Instr::Cqo => InstrModel::Cqo,
            Instr::Idiv => InstrModel::Idiv,
            Instr::MovRdxRax => InstrModel::MovRdxRax,
            Instr::And => InstrModel::And,
            Instr::Or => InstrModel::Or,
            Instr::Xor => InstrModel::Xor,
            Instr::Shl => InstrModel::Shl,
            Instr::Shr => InstrModel::Shr,
            Instr::MovRspRbp => InstrModel::MovRspRbp,
            Instr::MovRbpRsp => InstrModel::MovRbpRsp,
            Instr::PushRbp => InstrModel::PushRbp,
            Instr::PopRbp => InstrModel::PopRbp,
            Instr::Ret => InstrModel::Ret,
        }
    }
}

/// The rendered text of one instruction line, tab-indentation included:
/// labels flush left, directives and instructions behind one tab.
pub open spec fn instr_chars(i: InstrModel) -> Seq<char> {
    match i {
        InstrModel::Globl(name) => tabs(1) + ".globl "@ + name,
        InstrModel::FnLabel(name) => name + ":"@,
        InstrModel::CtlLabel(k, c) => label_chars(k, c) + ":"@,
        InstrModel::Jmp(k, c) => tabs(1) + "jmp "@ + label_chars(k, c),
        InstrModel::Je(k, c) => tabs(1) + "je "@ + label_chars(k, c),
        InstrModel::Jne(k, c) => tabs(1) + "jne "@ + label_chars(k, c),
        InstrModel::MovImm(n) => tabs(1) + "mov $"@ + dec_chars(n as nat) + ", %rax"@,
        InstrModel::MovLoad(o) => tabs(1) + "mov "@ + int_chars(o) + "(%rbp), %rax"@,
        InstrModel::MovStore(o) => tabs(1) + "mov %rax, "@ + int_chars(o) + "(%rbp)"@,
        InstrModel::Neg => tabs(1) + "neg %rax"@,
        InstrModel::Not => tabs(1) + "not %rax"@,
        InstrModel::CmpZero => tabs(1) + "cmp $0, %rax"@,
        InstrModel::CmpRaxRcx => tabs(1) + "cmp %rax, %rcx"@,
        InstrModel::Sete => tabs(1) + "sete %al"@,
        InstrModel::Setne => tabs(1) + "setne %al"@,
        InstrModel::Setge => tabs(1) + "setge %al"@,
        InstrModel::Setg => tabs(1) + "setg %al"@,
        InstrModel::Setle => tabs(1) + "setle %al"@,
        InstrModel::Setl => tabs(1) + "setl %al"@,
        InstrModel::Push => tabs(1) + "push %rax"@,
        InstrModel::PopRcx => tabs(1) + "pop %rcx"@,
        InstrModel::Add => tabs(1) + "add %rcx, %rax"@,
        InstrModel::Imul => tabs(1) + "imul %rcx, %rax"@,
        InstrModel::Sub => tabs(1) + "sub %rcx, %rax"@,
        InstrModel::Cqo => tabs(1) + "cqo"@,
        InstrModel::Idiv => tabs(1) + "idiv %rcx"@,
        InstrModel::MovRdxRax => tabs(1) + "mov %rdx, %rax"@,
        InstrModel::And => tabs(1) + "and %rcx, %rax"@,
        InstrModel::Or => tabs(1) + "or %rcx, %rax"@,
        InstrModel::Xor => tabs(1) + "xor %rcx, %rax"@,
        InstrModel::Shl => tabs(1) + "shl %cl, %rax"@,
        InstrModel::Shr => tabs(1) + "shr %cl, %rax"@,
        InstrModel::MovRspRbp => tabs(1) + "mov %rsp, %rbp"@,
        InstrModel::MovRbpRsp => tabs(1) + "mov %rbp, %rsp"@,
        InstrModel::PushRbp => tabs(1) + "push %rbp"@,
        InstrModel::PopRbp => tabs(1) + "pop %rbp"@,
        InstrModel::Ret => tabs(1) + "ret"@,
    }
}

/// The rendered text of a whole instruction stream, line by line.
pub open spec fn instr_seq_chars(s: Seq<InstrModel>) -> Seq<Seq<char>> {
    s.map_values(|i: InstrModel| instr_chars(i))
}

fn label_arg_string(prefix: &str, k: LabelKind, c: usize) -> (r: String)
    ensures
        r@ == prefix@ + label_chars(k, c as nat),
{
    let mut s = prefix.to_owned();
    s.append(label_string(k, c).as_str());
    s
}

/// Renders one instruction into the emitter, as the code generator's
/// single line for it.
pub fn emit_instr_line(em: &mut Emitter, i: &Instr)
    ensures
        final(em)@ == old(em)@.push(instr_chars(i.deep_view())),
{
    match i {
        Instr::Globl(name) => {
            let mut s = String::from_str(".globl ");
            s.append(name.as_str());
            proof {
                assert(tabs(1) + s@ =~= instr_chars(i.deep_view()));
            }
            em.emit_directive(s.as_str());
        },
        Instr::FnLabel(name) => {
            em.emit_label(name.as_str());
        },
        Instr::CtlLabel(k, c) => {
            em.emit_label(label_string(*k, *c).as_str());
        },
        Instr::Jmp(k, c) => {
            let s = label_arg_string("jmp ", *k, *c);
            proof {
                assert(tabs(1) + s@ =~= instr_chars(i.deep_view()));
            }
            em.emit_instr(s.as_str());
        },
        Instr::Je(k, c) => {
            let s = label_arg_string("je ", *k, *c);
            proof {
                assert(tabs(1) + s@ =~= instr_chars(i.deep_view()));
            }
            em.emit_instr(s.as_str());
        },
        Instr::Jne(k, c) => {
            let s = label_arg_string("jne ", *k, *c);
            proof {
                assert(tabs(1) + s@ =~= instr_chars(i.deep_view()));
            }
            em.emit_instr(s.as_str());
        },
        Instr::MovImm(n) => {
            let mut s = String::from_str("mov $");
            s.append(u64_to_string(*n).as_str());
            s.append(", %rax");
            proof {
                assert(tabs(1) + s@ =~= instr_chars(i.deep_view()));
            }
            em.emit_instr(s.as_str());
        },
        Instr::MovLoad(o) => {
            let mut s = String::from_str("mov ");
            s.append(isize_to_string(*o).as_str());
            s.append("(%rbp), %rax");
            proof {
                assert(tabs(1) + s@ =~= instr_chars(i.deep_view()));
            }
            em.emit_instr(s.as_str());
        },
        Instr::MovStore(o) => {
            let mut s = String::from_str("mov %rax, ");
            s.append(isize_to_string(*o).as_str());
            s.append("(%rbp)");
            proof {
                assert(tabs(1) + s@ =~= instr_chars(i.deep_view()));
            }
            em.emit_instr(s.as_str());
        },
        Instr::Neg => em.emit_instr("neg %rax"),
        Instr::Not => em.emit_instr("not %rax"),
        Instr::CmpZero => em.emit_instr("cmp $0, %rax"),
        Instr::CmpRaxRcx => em.emit_instr("cmp %rax, %rcx"),
        Instr::Sete => em.emit_instr("sete %al"),
        Instr::Setne => em.emit_instr("setne %al"),
        Instr::Setge => em.emit_instr("setge %al"),
        Instr::Setg => em.emit_instr("setg %al"),
        Instr::Setle => em.emit_instr("setle %al"),
        Instr::Setl => em.emit_instr("setl %al"),
        Instr::Push => em.emit_instr("push %rax"),
        Instr::PopRcx => em.emit_instr("pop %rcx"),
        Instr::Add => em.emit_instr("add %rcx, %rax"),
        Instr::Imul => em.emit_instr("imul %rcx, %rax"),
        Instr::Sub => em.emit_instr("sub %rcx, %rax"),
        Instr::Cqo => em.emit_instr("cqo"),
        Instr::Idiv => em.emit_instr("idiv %rcx"),
        Instr::MovRdxRax => em.emit_instr("mov %rdx, %rax"),
        Instr::And => em.emit_instr("and %rcx, %rax"),
        Instr::Or => em.emit_instr("or %rcx, %rax"),
        Instr::Xor => em.emit_instr("xor %rcx, %rax"),
        Instr::Shl => em.emit_instr("shl %cl, %rax"),
        Instr::Shr => em.emit_instr("shr %cl, %rax"),
        Instr::MovRspRbp => em.emit_instr("mov %rsp, %rbp"),
        Instr::MovRbpRsp => em.emit_instr("mov %rbp, %rsp"),
        Instr::PushRbp => em.emit_instr("push %rbp"),
        Instr::PopRbp => em.emit_instr("pop %rbp"),
        Instr::Ret => em.emit_instr("ret"),
    }
}

/// Renders a whole instruction stream into the emitter, in order.
pub fn emit_all(em: &mut Emitter, instrs: &Vec<Instr>)
    ensures
        final(em)@ == old(em)@ + instr_seq_chars(instrs.deep_view()),
{
    let ghost all = instrs.deep_view();
    let n = instrs.len();
    let mut i: usize = 0;
    proof {
        assert(all.len() == n);
        assert(old(em)@ + instr_seq_chars(all.subrange(0, 0)) =~= old(em)@);
    }
    while i < n
        invariant
            i <= n,
            n == instrs.len(),
            all == instrs.deep_view(),
            em@ == old(em)@ + instr_seq_chars(all.subrange(0, i as int)),
        decreases n - i,
    {
        emit_instr_line(em, &instrs[i]);
        i = i + 1;
        proof {
            assert(all[i - 1] == instrs@[i - 1].deep_view());
            assert(em@ =~= old(em)@ + instr_seq_chars(all.subrange(0, i as int)));
        }
    }
    proof {
        assert(all.subrange(0, n as int) =~= all);
    }
}

/// Appends one instruction to a stream.
pub fn push_instr(out: &mut Vec<Instr>, i: Instr)
    ensures
        final(out).deep_view() == old(out).deep_view().push(i.deep_view()),
{
    let ghost iv = i.deep_view();
    out.push(i);
    proof {
        assert(out.deep_view() =~= old(out).deep_view().push(iv));
    }
}

} // verus!
