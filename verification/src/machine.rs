//! An interpreter for the generated instruction streams: a two-register
//! accumulator machine with a word-addressed stack, the flags the
//! generated comparisons set, and label-directed jumps. It exists so that
//! the behavior of generated programs (short-circuiting, scoping, round
//! trips) can be exercised, not just their text.
//!
//! Deliberate modeling choices: `ret` halts with the accumulator as the
//! program's result (the machine runs one function, so there is no return
//! address to pop), and the divide instruction insists that the double
//! register holds the sign extension the generated `cqo` establishes.

use vstd::prelude::*;
use vstd::wrapping::u64_specs;
use crate::instr::{Instr, InstrModel};
use crate::label_tracker::LabelKind;

verus! {

/// The abstract machine state.
pub struct MachineModel {
    pub rax: u64,
    pub rcx: u64,
    pub rdx: u64,
    pub rbp: u64,
    pub rsp: u64,
    /// Whether the last comparison found its operands equal.
    pub flag_eq: bool,
    /// Whether the last comparison found its destination operand signed
    /// less than its source operand.
    pub flag_lt: bool,
    pub mem: Seq<u64>,
}

/// The machine's word memory, addressed in bytes; reads and writes must
/// be word-aligned and in bounds.
pub open spec fn mem_read(mem: Seq<u64>, addr: u64) -> Option<u64> {
    if addr % 8 == 0 && addr / 8 < mem.len() {
        Some(mem[(addr / 8) as int])
    } else {
        None
    }
}

pub open spec fn mem_write(mem: Seq<u64>, addr: u64, v: u64) -> Option<Seq<u64>> {
    if addr % 8 == 0 && addr / 8 < mem.len() {
        Some(mem.update((addr / 8) as int, v))
    } else {
        None
    }
}

/// A 64-bit word read as a signed value.
pub open spec fn as_i64(x: u64) -> int {
    if x >= 0x8000_0000_0000_0000 {
        x - 0x1_0000_0000_0000_0000
    } else {
        x as int
    }
}

/// A signed value stored back as a 64-bit word (two's complement).
pub open spec fn to_u64(v: int) -> u64 {
    if v < 0 {
        (v + 0x1_0000_0000_0000_0000) as u64
    } else {
        v as u64
    }
}


/// The byte address `off` bytes from the frame base.
pub open spec fn frame_addr(rbp: u64, off: int) -> u64 {
    u64_specs::wrapping_add_signed(rbp, (if off < 0x8000_0000_0000_0000 && off
        >= -0x8000_0000_0000_0000 {
        off
    } else {
        0
    }) as i64)
}

/// The accumulator with its low byte replaced by `0` or `1`, as the
/// set-instructions leave it.
pub open spec fn set_low_byte(x: u64, b: bool) -> u64 {
    (x & 0xFFFF_FFFF_FFFF_FF00) | (if b {
        1u64
    } else {
        0u64
    })
}

/// What one step of the machine does.
pub enum StepModel {
    Next(MachineModel, int),
    Done(u64),
    Fault,
}

/// The first position of the control-flow label `(k, c)` in the program.
pub open spec fn find_label_from(prog: Seq<InstrModel>, k: LabelKind, c: nat, i: int) -> Option<
    int,
>
    decreases prog.len() - i,
{
    if 0 <= i < prog.len() {
        if prog[i] == InstrModel::CtlLabel(k, c) {
            Some(i)
        } else {
            find_label_from(prog, k, c, i + 1)
        }
    } else {
        None
    }
}

pub open spec fn find_label(prog: Seq<InstrModel>, k: LabelKind, c: nat) -> Option<int> {
    find_label_from(prog, k, c, 0)
}

/// One step of the machine at instruction pointer `ip`: the next state
/// and position, the final accumulator at a `ret`, or a fault (a bad
/// memory access, a missing jump target, a zero or overflowing divide, or
/// a divide whose double register is not the dividend's sign extension).
pub open spec fn spec_step(prog: Seq<InstrModel>, m: MachineModel, ip: int) -> StepModel {
    if 0 <= ip < prog.len() {
        match prog[ip] {
            InstrModel::Globl(_) => StepModel::Next(m, ip + 1),
            InstrModel::FnLabel(_) => StepModel::Next(m, ip + 1),
            InstrModel::CtlLabel(_, _) => StepModel::Next(m, ip + 1),
            InstrModel::Jmp(k, c) => match find_label(prog, k, c) {
                Some(t) => StepModel::Next(m, t),
                None => StepModel::Fault,
            },
            InstrModel::Je(k, c) => if m.flag_eq {
                match find_label(prog, k, c) {
                    Some(t) => StepModel::Next(m, t),
                    None => StepModel::Fault,
                }
            } else {
                StepModel::Next(m, ip + 1)
            },
            InstrModel::Jne(k, c) => if !m.flag_eq {
                match find_label(prog, k, c) {
                    Some(t) => StepModel::Next(m, t),
                    None => StepModel::Fault,
                }
            } else {
                StepModel::Next(m, ip + 1)
            },
            InstrModel::MovImm(n) => StepModel::Next(MachineModel { rax: n, ..m }, ip + 1),
            InstrModel::MovLoad(off) => match mem_read(m.mem, frame_addr(m.rbp, off)) {
                Some(v) => StepModel::Next(MachineModel { rax: v, ..m }, ip + 1),
                None => StepModel::Fault,
            },
            InstrModel::MovStore(off) => match mem_write(m.mem, frame_addr(m.rbp, off), m.rax) {
                Some(mem2) => StepModel::Next(MachineModel { mem: mem2, ..m }, ip + 1),
                None => StepModel::Fault,
            },
            InstrModel::Neg => StepModel::Next(
                MachineModel { rax: u64_specs::wrapping_sub(0, m.rax), ..m },
                ip + 1,
            ),
            InstrModel::Not => StepModel::Next(MachineModel { rax: !m.rax, ..m }, ip + 1),
            InstrModel::CmpZero => StepModel::Next(
                MachineModel { flag_eq: m.rax == 0, flag_lt: as_i64(m.rax) < 0, ..m },
                ip + 1,
            ),
            InstrModel::CmpRaxRcx => StepModel::Next(
                MachineModel {
                    flag_eq: m.rcx == m.rax,
                    flag_lt: as_i64(m.rcx) < as_i64(m.rax),
                    ..m
                },
                ip + 1,
            ),
            InstrModel::Sete => StepModel::Next(
                MachineModel { rax: set_low_byte(m.rax, m.flag_eq), ..m },
                ip + 1,
            ),
            InstrModel::Setne => StepModel::Next(
                MachineModel { rax: set_low_byte(m.rax, !m.flag_eq), ..m },
                ip + 1,
            ),
            InstrModel::Setge => StepModel::Next(
                MachineModel { rax: set_low_byte(m.rax, !m.flag_lt), ..m },
                ip + 1,
            ),
            InstrModel::Setg => StepModel::Next(
                MachineModel { rax: set_low_byte(m.rax, !m.flag_lt && !m.flag_eq), ..m },
                ip + 1,
            ),
            InstrModel::Setle => StepModel::Next(
                MachineModel { rax: set_low_byte(m.rax, m.flag_lt || m.flag_eq), ..m },
                ip + 1,
            ),
            InstrModel::Setl => StepModel::Next(
                MachineModel { rax: set_low_byte(m.rax, m.flag_lt), ..m },
                ip + 1,
            ),
            InstrModel::Push => {
                let rsp2 = u64_specs::wrapping_sub(m.rsp, 8);
                match mem_write(m.mem, rsp2, m.rax) {
                    Some(mem2) => StepModel::Next(
                        MachineModel { rsp: rsp2, mem: mem2, ..m },
                        ip + 1,
                    ),
                    None => StepModel::Fault,
                }
            },
            InstrModel::PopRcx => match mem_read(m.mem, m.rsp) {
                Some(v) => StepModel::Next(
                    MachineModel { rcx: v, rsp: u64_specs::wrapping_add(m.rsp, 8), ..m },
                    ip + 1,
                ),
                None => StepModel::Fault,
            },
            InstrModel::Add => StepModel::Next(
                MachineModel { rax: u64_specs::wrapping_add(m.rax, m.rcx), ..m },
                ip + 1,
            ),
            InstrModel::Imul => StepModel::Next(
                MachineModel { rax: u64_specs::wrapping_mul(m.rax, m.rcx), ..m },
                ip + 1,
            ),
            // `sub %rcx, %rax`: the difference (left operand minus right
            // operand, with the generated operand order) lands in the
            // accumulator.
            InstrModel::Sub => StepModel::Next(
                MachineModel { rax: u64_specs::wrapping_sub(m.rax, m.rcx), ..m },
                ip + 1,
            ),
            InstrModel::Cqo => StepModel::Next(
                MachineModel {
                    rdx: if as_i64(m.rax) < 0 {
                        0xFFFF_FFFF_FFFF_FFFFu64
                    } else {
                        0u64
                    },
                    ..m
                },
                ip + 1,
            ),
            InstrModel::Idiv => {
                let sign_ext: u64 = if as_i64(m.rax) < 0 {
                    0xFFFF_FFFF_FFFF_FFFFu64
                } else {
                    0u64
                };
                if m.rdx != sign_ext || m.rcx == 0 {
                    StepModel::Fault
                } else {
                    let a = as_i64(m.rax);
                    let b = as_i64(m.rcx);
                    let ua = (if a < 0 {
                        -a
                    } else {
                        a
                    }) as nat;
                    let ub = (if b < 0 {
                        -b
                    } else {
                        b
                    }) as nat;
                    let uq = ua / ub;
                    let ur = ua % ub;
                    let neg = (a < 0) != (b < 0);
                    if (!neg && uq > 0x7FFF_FFFF_FFFF_FFFF) || (neg && uq
                        > 0x8000_0000_0000_0000) {
                        StepModel::Fault
                    } else {
                        StepModel::Next(
                            MachineModel {
                                rax: to_u64(
                                    if neg {
                                        -(uq as int)
                                    } else {
                                        uq as int
                                    },
                                ),
                                rdx: to_u64(
                                    if a < 0 {
                                        -(ur as int)
                                    } else {
                                        ur as int
                                    },
                                ),
                                ..m
                            },
                            ip + 1,
                        )
                    }
                }
            },
            InstrModel::MovRdxRax => StepModel::Next(MachineModel { rax: m.rdx, ..m }, ip + 1),
            InstrModel::And => StepModel::Next(MachineModel { rax: m.rax & m.rcx, ..m }, ip + 1),
            InstrModel::Or => StepModel::Next(MachineModel { rax: m.rax | m.rcx, ..m }, ip + 1),
            InstrModel::Xor => StepModel::Next(MachineModel { rax: m.rax ^ m.rcx, ..m }, ip + 1),
            InstrModel::Shl => StepModel::Next(
                MachineModel { rax: m.rax << (m.rcx & 63), ..m },
                ip + 1,
            ),
            InstrModel::Shr => StepModel::Next(
                MachineModel { rax: m.rax >> (m.rcx & 63), ..m },
                ip + 1,
            ),
            InstrModel::MovRspRbp => StepModel::Next(MachineModel { rbp: m.rsp, ..m }, ip + 1),
            InstrModel::MovRbpRsp => StepModel::Next(MachineModel { rsp: m.rbp, ..m }, ip + 1),
            InstrModel::PushRbp => {
                let rsp2 = u64_specs::wrapping_sub(m.rsp, 8);
                match mem_write(m.mem, rsp2, m.rbp) {
                    Some(mem2) => StepModel::Next(
                        MachineModel { rsp: rsp2, mem: mem2, ..m },
                        ip + 1,
                    ),
                    None => StepModel::Fault,
                }
            },
            InstrModel::PopRbp => match mem_read(m.mem, m.rsp) {
                Some(v) => StepModel::Next(
                    MachineModel { rbp: v, rsp: u64_specs::wrapping_add(m.rsp, 8), ..m },
                    ip + 1,
                ),
                None => StepModel::Fault,
            },
            InstrModel::Ret => StepModel::Done(m.rax),
        }
    } else {
        StepModel::Fault
    }
}

/// Runs the machine for at most `fuel` steps: the final accumulator when a
/// `ret` is reached, `None` on a fault or when the fuel runs out.
pub open spec fn spec_run(prog: Seq<InstrModel>, m: MachineModel, ip: int, fuel: nat) -> Option<
    u64,
>
    decreases fuel,
{
    if fuel == 0 {
        None
    } else {
        match spec_step(prog, m, ip) {
            StepModel::Done(v) => Some(v),
            StepModel::Fault => None,
            StepModel::Next(m2, ip2) => spec_run(prog, m2, ip2, (fuel - 1) as nat),
        }
    }
}

/// The machine's starting state: registers cleared, the frame and stack
/// pointers one past the top of a zeroed memory of `words` words.
pub open spec fn init_model(words: nat) -> MachineModel {
    MachineModel {
        rax: 0,
        rcx: 0,
        rdx: 0,
        rbp: (words * 8) as u64,
        rsp: (words * 8) as u64,
        flag_eq: false,
        flag_lt: false,
        mem: Seq::new(words, |i: int| 0u64),
    }
}

/// The executable machine state.
pub struct Machine {
    rax: u64,
    rcx: u64,
    rdx: u64,
    rbp: u64,
    rsp: u64,
    flag_eq: bool,
    flag_lt: bool,
    mem: Vec<u64>,
}

impl View for Machine {
    type V = MachineModel;

    closed spec fn view(&self) -> MachineModel {
        MachineModel {
            rax: self.rax,
            rcx: self.rcx,
            rdx: self.rdx,
            rbp: self.rbp,
            rsp: self.rsp,
            flag_eq: self.flag_eq,
            flag_lt: self.flag_lt,
            mem: self.mem@,
        }
    }
}

fn exec_mem_read(mem: &Vec<u64>, addr: u64) -> (r: Option<u64>)
    ensures
        r == mem_read(mem@, addr),
{
    if addr % 8 == 0 {
        let idx = addr / 8;
        if idx < mem.len() as u64 {
            Some(mem[idx as usize])
        } else {
            None
        }
    } else {
        None
    }
}

fn exec_mem_write(mem: &mut Vec<u64>, addr: u64, v: u64) -> (r: bool)
    ensures
        match mem_write(old(mem)@, addr, v) {
            Some(m2) => r && final(mem)@ == m2,
            None => !r && final(mem)@ == old(mem)@,
        },
{
    if addr % 8 == 0 {
        let idx = addr / 8;
        if idx < mem.len() as u64 {
            mem.set(idx as usize, v);
            true
        } else {
            false
        }
    } else {
        false
    }
}

fn exec_find_label(prog: &Vec<Instr>, k: LabelKind, c: usize) -> (r: Option<usize>)
    ensures
        match find_label(prog.deep_view(), k, c as nat) {
            Some(t) => r matches Some(t2) && t2 as int == t && t2 < prog@.len(),
            None => r is None,
        },
{
    let ghost pm = prog.deep_view();
    let n = prog.len();
    let mut i: usize = 0;
    proof {
        assert(pm.len() == prog@.len());
    }
    while i < n
        invariant
            i <= n,
            n == prog@.len(),
            pm == prog.deep_view(),
            pm.len() == n,
            find_label(pm, k, c as nat) == find_label_from(pm, k, c as nat, i as int),
        decreases n - i,
    {
        proof {
            assert(pm[i as int] == prog@[i as int].deep_view());
        }
        let hit = match &prog[i] {
            Instr::CtlLabel(k2, c2) => *k2 == k && *c2 == c,
            _ => false,
        };
        if hit {
            return Some(i);
        }
        i = i + 1;
    }
    None
}

/// Runs the machine from `ip` with at most `fuel` steps left, exactly as
/// `spec_run` describes.
#[verifier::rlimit(100)]
fn run_from(prog: &Vec<Instr>, m: Machine, ip: usize, fuel: u64) -> (r: Option<u64>)
    ensures
        r == spec_run(prog.deep_view(), m@, ip as int, fuel as nat),
    decreases fuel,
{
    if fuel == 0 {
        return None;
    }
    let ghost pm = prog.deep_view();
    let ghost m0 = m@;
    proof {
        assert(pm.len() == prog@.len());
    }
    if ip >= prog.len() {
        return None;
    }
    proof {
        assert(pm[ip as int] == prog@[ip as int].deep_view());
    }
    let mut m = m;
    let next_ip: usize;
    match &prog[ip] {
        Instr::Globl(_) => {
            next_ip = ip + 1;
        },
        Instr::FnLabel(_) => {
            next_ip = ip + 1;
        },
        Instr::CtlLabel(_, _) => {
            next_ip = ip + 1;
        },
        Instr::Jmp(k, c) => {
            match exec_find_label(prog, *k, *c) {
                Some(t) => {
                    next_ip = t;
                },
                None => {
                    return None;
                },
            }
        },
        Instr::Je(k, c) => {
            if m.flag_eq {
                match exec_find_label(prog, *k, *c) {
                    Some(t) => {
                        next_ip = t;
                    },
                    None => {
                        return None;
                    },
                }
            } else {
                next_ip = ip + 1;
            }
        },
        Instr::Jne(k, c) => {
            if !m.flag_eq {
                match exec_find_label(prog, *k, *c) {
                    Some(t) => {
                        next_ip = t;
                    },
                    None => {
                        return None;
                    },
                }
            } else {
                next_ip = ip + 1;
            }
        },
        Instr::MovImm(n) => {
            m.rax = *n;
            next_ip = ip + 1;
        },
        Instr::MovLoad(off) => {
            let addr = m.rbp.wrapping_add_signed(*off as i64);
            proof {
                assert(addr == frame_addr(m0.rbp, *off as int));
            }
            match exec_mem_read(&m.mem, addr) {
                Some(v) => {
                    m.rax = v;
                    next_ip = ip + 1;
                },
                None => {
                    return None;
                },
            }
        },
        Instr::MovStore(off) => {
            let addr = m.rbp.wrapping_add_signed(*off as i64);
            proof {
                assert(addr == frame_addr(m0.rbp, *off as int));
            }
            let v = m.rax;
            if !exec_mem_write(&mut m.mem, addr, v) {
                return None;
            }
            next_ip = ip + 1;
        },
        Instr::Neg => {
            m.rax = 0u64.wrapping_sub(m.rax);
            next_ip = ip + 1;
        },
        Instr::Not => {
            m.rax = !m.rax;
            next_ip = ip + 1;
        },
        Instr::CmpZero => {
            m.flag_eq = m.rax == 0;
            m.flag_lt = m.rax >= 0x8000_0000_0000_0000;
            next_ip = ip + 1;
        },
        Instr::CmpRaxRcx => {
            let neg_dst = m.rcx >= 0x8000_0000_0000_0000;
            let neg_src = m.rax >= 0x8000_0000_0000_0000;
            m.flag_eq = m.rcx == m.rax;
            m.flag_lt = if neg_dst != neg_src {
                neg_dst
            } else {
                m.rcx < m.rax
            };
            next_ip = ip + 1;
        },
        Instr::Sete => {
            m.rax = (m.rax & 0xFFFF_FFFF_FFFF_FF00) | (if m.flag_eq { 1 } else { 0 });
            next_ip = ip + 1;
        },
        Instr::Setne => {
            m.rax = (m.rax & 0xFFFF_FFFF_FFFF_FF00) | (if !m.flag_eq { 1 } else { 0 });
            next_ip = ip + 1;
        },
        Instr::Setge => {
            m.rax = (m.rax & 0xFFFF_FFFF_FFFF_FF00) | (if !m.flag_lt { 1 } else { 0 });
            next_ip = ip + 1;
        },
        Instr::Setg => {
            m.rax = (m.rax & 0xFFFF_FFFF_FFFF_FF00) | (
            if !m.flag_lt && !m.flag_eq { 1 } else { 0 });
            next_ip = ip + 1;
        },
        Instr::Setle => {
            m.rax = (m.rax & 0xFFFF_FFFF_FFFF_FF00) | (
            if m.flag_lt || m.flag_eq { 1 } else { 0 });
            next_ip = ip + 1;
        },
        Instr::Setl => {
            m.rax = (m.rax & 0xFFFF_FFFF_FFFF_FF00) | (if m.flag_lt { 1 } else { 0 });
            next_ip = ip + 1;
        },
        Instr::Push => {
            let rsp2 = m.rsp.wrapping_sub(8);
            let v = m.rax;
            if !exec_mem_write(&mut m.mem, rsp2, v) {
                return None;
            }
            m.rsp = rsp2;
            next_ip = ip + 1;
        },
        Instr::PopRcx => {
            match exec_mem_read(&m.mem, m.rsp) {
                Some(v) => {
                    m.rcx = v;
                    m.rsp = m.rsp.wrapping_add(8);
                    next_ip = ip + 1;
                },
                None => {
                    return None;
                },
            }
        },
        Instr::Add => {
            m.rax = m.rax.wrapping_add(m.rcx);
            next_ip = ip + 1;
        },
        Instr::Imul => {
            m.rax = m.rax.wrapping_mul(m.rcx);
            next_ip = ip + 1;
        },
        Instr::Sub => {
            m.rax = m.rax.wrapping_sub(m.rcx);
            next_ip = ip + 1;
        },
        Instr::Cqo => {
            m.rdx = if m.rax >= 0x8000_0000_0000_0000 {
                0xFFFF_FFFF_FFFF_FFFF
            } else {
                0
            };
            next_ip = ip + 1;
        },
        Instr::Idiv => {
            let neg_a = m.rax >= 0x8000_0000_0000_0000;
            let neg_b = m.rcx >= 0x8000_0000_0000_0000;
            let sign_ext: u64 = if neg_a {
                0xFFFF_FFFF_FFFF_FFFF
            } else {
                0
            };
            if m.rdx != sign_ext || m.rcx == 0 {
                return None;
            }
            let ua: u64 = if neg_a {
                0u64.wrapping_sub(m.rax)
            } else {
                m.rax
            };
            let ub: u64 = if neg_b {
                0u64.wrapping_sub(m.rcx)
            } else {
                m.rcx
            };
            let uq: u64 = ua / ub;
            let ur: u64 = ua % ub;
            let neg = neg_a != neg_b;
            proof {
                assert(ua as int == if as_i64(m0.rax) < 0 {
                    -as_i64(m0.rax)
                } else {
                    as_i64(m0.rax)
                });
                assert(ub as int == if as_i64(m0.rcx) < 0 {
                    -as_i64(m0.rcx)
                } else {
                    as_i64(m0.rcx)
                });
            }
            if !neg && uq > 0x7FFF_FFFF_FFFF_FFFF {
                return None;
            }
            if neg && uq > 0x8000_0000_0000_0000 {
                return None;
            }
            m.rax = if neg {
                0u64.wrapping_sub(uq)
            } else {
                uq
            };
            m.rdx = if neg_a {
                0u64.wrapping_sub(ur)
            } else {
                ur
            };
            next_ip = ip + 1;
        },
        Instr::MovRdxRax => {
            m.rax = m.rdx;
            next_ip = ip + 1;
        },
        Instr::And => {
            m.rax = m.rax & m.rcx;
            next_ip = ip + 1;
        },
        Instr::Or => {
            m.rax = m.rax | m.rcx;
            next_ip = ip + 1;
        },
        Instr::Xor => {
            m.rax = m.rax ^ m.rcx;
            next_ip = ip + 1;
        },
        Instr::Shl => {
            let base = m.rcx;
            let sh = base & 63;
            proof {
                assert(sh < 64) by (bit_vector)
                    requires
                        sh == base & 63,
                ;
            }
            m.rax = m.rax << sh;
            next_ip = ip + 1;
        },
        Instr::Shr => {
            let base = m.rcx;
            let sh = base & 63;
            proof {
                assert(sh < 64) by (bit_vector)
                    requires
                        sh == base & 63,
                ;
            }
            m.rax = m.rax >> sh;
            next_ip = ip + 1;
        },
        Instr::MovRspRbp => {
            m.rbp = m.rsp;
            next_ip = ip + 1;
        },
        Instr::MovRbpRsp => {
            m.rsp = m.rbp;
            next_ip = ip + 1;
        },
        Instr::PushRbp => {
            let rsp2 = m.rsp.wrapping_sub(8);
            let v = m.rbp;
            if !exec_mem_write(&mut m.mem, rsp2, v) {
                return None;
            }
            m.rsp = rsp2;
            next_ip = ip + 1;
        },
        Instr::PopRbp => {
            match exec_mem_read(&m.mem, m.rsp) {
                Some(v) => {
                    m.rbp = v;
                    m.rsp = m.rsp.wrapping_add(8);
                    next_ip = ip + 1;
                },
                None => {
                    return None;
                },
            }
        },
        Instr::Ret => {
            return Some(m.rax);
        },
    }
    proof {
        assert(spec_step(pm, m0, ip as int) == StepModel::Next(m@, next_ip as int));
    }
    run_from(prog, m, next_ip, fuel - 1)
}

/// Runs a generated program on a fresh machine with `mem_words` words of
/// zeroed stack memory, for at most `fuel` steps, starting at the first
/// instruction. Returns the accumulator at the first `ret`, or `None` on
/// a fault or when the fuel runs out, exactly as `spec_run` describes
/// from `init_model(mem_words)`.
pub fn run(prog: &Vec<Instr>, mem_words: usize, fuel: u64) -> (r: Option<u64>)
    requires
        mem_words * 8 <= u64::MAX,
    ensures
        r == spec_run(prog.deep_view(), init_model(mem_words as nat), 0, fuel as nat),
{
    let mut mem: Vec<u64> = Vec::new();
    let mut i: usize = 0;
    while i < mem_words
        invariant
            i <= mem_words,
            mem@ == Seq::new(i as nat, |k: int| 0u64),
        decreases mem_words - i,
    {
        mem.push(0);
        i = i + 1;
        proof {
            assert(mem@ =~= Seq::new(i as nat, |k: int| 0u64));
        }
    }
    let top = (mem_words as u64) * 8;
    let m = Machine {
        rax: 0,
        rcx: 0,
        rdx: 0,
        rbp: top,
        rsp: top,
        flag_eq: false,
        flag_lt: false,
        mem,
    };
    proof {
        assert(m@ == init_model(mem_words as nat));
    }
    run_from(prog, m, 0, fuel)
}

} // verus!
