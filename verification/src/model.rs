use vstd::prelude::*;

use crate::flags::{
    flag_set, pulled_status, pushed_status, set_flag_b, with_zn, FLAG_CARRY, FLAG_DECIMAL,
    FLAG_INTERRUPT, FLAG_NEGATIVE, FLAG_OVERFLOW, FLAG_ZERO,
};
use crate::opcode::{opcode_info, AddressingMode, Mnemonic};

verus! {

/// The architectural state of the core: the registers, the status byte, the
/// 64 KiB memory, and the host's pending stop request.
#[verifier::ext_equal]
pub ghost struct CpuSpec {
    pub a: u8,
    pub x: u8,
    pub y: u8,
    pub sp: u8,
    pub pc: u16,
    pub p: u8,
    pub mem: Seq<u8>,
    pub stop: bool,
}

/// A state is well formed when its memory covers the full 16-bit address
/// space; register widths are guaranteed by the field types.
pub open spec fn wf_state(s: CpuSpec) -> bool {
    s.mem.len() == 0x10000
}

pub const RESET_VECTOR: u16 = 0xFFFC;

pub const IRQ_VECTOR: u16 = 0xFFFE;

pub const STACK_BASE: u16 = 0x0100;

/// Why a run of the executor came to rest.
#[derive(Clone, Copy, Debug, PartialEq, Eq, Structural)]
pub enum HaltReason {
    /// A BRK was fetched while the IRQ vector held 0, so there is nowhere to
    /// dispatch the software interrupt.
    Brk,
    /// The byte is not a legal opcode; carries the byte and the address it
    /// was fetched from, where the program counter is left pointing.
    IllegalOpcode(u8, u16),
    /// The host asked the executor to stop between instructions.
    Stopped,
}

/// Wrap an address computation into the 16-bit space.
pub open spec fn wrap16(v: int) -> u16 {
    (v % 0x10000) as u16
}

/// Wrap a byte computation modulo 256.
pub open spec fn wrap8(v: int) -> u8 {
    (v % 256) as u8
}

/// A 16-bit word assembled little-endian from two bytes.
pub open spec fn word(lo: u8, hi: u8) -> u16 {
    (lo + hi * 256) as u16
}

pub open spec fn lo_byte(w: u16) -> u8 {
    (w % 256) as u8
}

pub open spec fn hi_byte(w: u16) -> u8 {
    (w / 256) as u8
}

/// The page an address lies in: its high byte.
pub open spec fn page(a: u16) -> u16 {
    (a / 256) as u16
}

pub open spec fn rd(s: CpuSpec, a: u16) -> u8 {
    s.mem[a as int]
}

pub open spec fn wr(s: CpuSpec, a: u16, v: u8) -> CpuSpec {
    CpuSpec { mem: s.mem.update(a as int, v), ..s }
}

/// Little-endian 16-bit read; the second byte wraps around the top of the
/// address space.
pub open spec fn rd16(s: CpuSpec, a: u16) -> u16 {
    word(rd(s, a), rd(s, wrap16(a + 1)))
}

/// Little-endian 16-bit write.
pub open spec fn wr16(s: CpuSpec, a: u16, v: u16) -> CpuSpec {
    wr(wr(s, a, lo_byte(v)), wrap16(a + 1), hi_byte(v))
}

/// 16-bit read of a pointer kept in page zero: the high pointer byte wraps
/// within page zero.
pub open spec fn rd16_zp(s: CpuSpec, p: u8) -> u16 {
    word(rd(s, p as u16), rd(s, wrap8(p + 1) as u16))
}

/// 16-bit read with the JMP (indirect) page-wrap bug: when the pointer's low
/// byte is 0xFF, the high byte is fetched from the start of the same page
/// rather than from the next page.
pub open spec fn rd16_bug(s: CpuSpec, a: u16) -> u16 {
    if a % 256 == 0xFF {
        word(rd(s, a), rd(s, (a - 0xFF) as u16))
    } else {
        rd16(s, a)
    }
}

/// Effective address and page-crossed bit for one addressing mode, evaluated
/// with `s.pc` pointing at the first operand byte. Modes without an address
/// (Implicit, Accumulator) resolve to 0 and are never read through.
pub open spec fn resolve(s: CpuSpec, mode: AddressingMode) -> (u16, bool) {
    match mode {
        AddressingMode::Implicit => (0, false),
        AddressingMode::Accumulator => (0, false),
        AddressingMode::Immediate => (s.pc, false),
        AddressingMode::ZeroPage => (rd(s, s.pc) as u16, false),
        AddressingMode::ZeroPageX => (wrap8(rd(s, s.pc) + s.x) as u16, false),
        AddressingMode::ZeroPageY => (wrap8(rd(s, s.pc) + s.y) as u16, false),
        AddressingMode::Relative => {
            let off = rd(s, s.pc);
            let base = wrap16(s.pc + 1);
            let target = if off < 0x80 {
                wrap16(base + off)
            } else {
                wrap16(base + off + 0xFF00)
            };
            (target, page(target) != page(base))
        },
        AddressingMode::Absolute => (rd16(s, s.pc), false),
        AddressingMode::AbsoluteX => {
            let base = rd16(s, s.pc);
            let r = wrap16(base + s.x);
            (r, page(r) != page(base))
        },
        AddressingMode::AbsoluteY => {
            let base = rd16(s, s.pc);
            let r = wrap16(base + s.y);
            (r, page(r) != page(base))
        },
        AddressingMode::Indirect => (rd16_bug(s, rd16(s, s.pc)), false),
        AddressingMode::IndirectX => (rd16_zp(s, wrap8(rd(s, s.pc) + s.x)), false),
        AddressingMode::IndirectY => {
            let base = rd16_zp(s, rd(s, s.pc));
            let r = wrap16(base + s.y);
            (r, page(r) != page(base))
        },
    }
}

// ---------------------------------------------------------------------------
// Per-operation semantics. Each function maps the state after the program
// counter has been advanced past the whole instruction.
// ---------------------------------------------------------------------------

pub open spec fn carry_bit(c: bool) -> int {
    if c {
        1int
    } else {
        0int
    }
}

/// The accumulator after `ADC m` with carry-in `c`.
pub open spec fn adc_result(a: u8, m: u8, c: bool) -> u8 {
    wrap8(a + m + carry_bit(c))
}

/// The carry flag after `ADC m`: the sum exceeded one byte.
pub open spec fn adc_carry(a: u8, m: u8, c: bool) -> bool {
    a + m + carry_bit(c) > 255
}

/// The overflow flag after `ADC m`: the signed result has the wrong sign.
pub open spec fn adc_overflow(a: u8, m: u8, c: bool) -> bool {
    (a ^ adc_result(a, m, c)) & (m ^ adc_result(a, m, c)) & 0x80 != 0
}

/// ADC: add memory and carry to the accumulator; C, V, Z, N updated.
/// SBC is this applied to the one's complement of the operand.
pub open spec fn op_adc(s: CpuSpec, m: u8) -> CpuSpec {
    let c = flag_set(s.p, FLAG_CARRY);
    let r = adc_result(s.a, m, c);
    let p1 = set_flag_b(with_zn(s.p, r), FLAG_CARRY, adc_carry(s.a, m, c));
    CpuSpec { a: r, p: set_flag_b(p1, FLAG_OVERFLOW, adc_overflow(s.a, m, c)), ..s }
}

/// CMP/CPX/CPY: set flags from `reg - m` without touching the register.
pub open spec fn op_compare(s: CpuSpec, reg: u8, m: u8) -> CpuSpec {
    let t = wrap8(reg + 256 - m);
    CpuSpec { p: set_flag_b(with_zn(s.p, t), FLAG_CARRY, reg >= m), ..s }
}

/// Result byte and carry-out of the four shift/rotate operations.
pub open spec fn shift_vals(mn: Mnemonic, v: u8, cin: bool) -> (u8, bool) {
    match mn {
        Mnemonic::ASL => (wrap8(v * 2), v >= 0x80),
        Mnemonic::LSR => ((v / 2) as u8, v % 2 == 1),
        Mnemonic::ROL => (wrap8(v * 2 + carry_bit(cin)), v >= 0x80),
        Mnemonic::ROR => ((v / 2 + 128 * carry_bit(cin)) as u8, v % 2 == 1),
        _ => (v, cin),
    }
}

/// A shift or rotate applied to the accumulator or to memory; C, Z and N are
/// set from the shifted value.
pub open spec fn op_shift(s: CpuSpec, mn: Mnemonic, mode: AddressingMode, addr: u16) -> CpuSpec {
    let cin = flag_set(s.p, FLAG_CARRY);
    if mode is Accumulator {
        let (r, cout) = shift_vals(mn, s.a, cin);
        CpuSpec { a: r, p: set_flag_b(with_zn(s.p, r), FLAG_CARRY, cout), ..s }
    } else {
        let (r, cout) = shift_vals(mn, rd(s, addr), cin);
        CpuSpec { p: set_flag_b(with_zn(s.p, r), FLAG_CARRY, cout), ..wr(s, addr, r) }
    }
}

/// Push one byte: write at `0x0100 | SP`, then decrement SP with wrap.
pub open spec fn push(s: CpuSpec, v: u8) -> CpuSpec {
    let s1 = wr(s, (STACK_BASE + s.sp) as u16, v);
    CpuSpec { sp: wrap8(s.sp + 255), ..s1 }
}

/// The stack pointer after one pull: incremented with wrap.
pub open spec fn pull_sp(s: CpuSpec) -> u8 {
    wrap8(s.sp + 1)
}

/// The byte a pull reads, at the incremented stack pointer.
pub open spec fn pull_val(s: CpuSpec) -> u8 {
    rd(s, (STACK_BASE + pull_sp(s)) as u16)
}

/// The state after one pull: only SP moves.
pub open spec fn pull(s: CpuSpec) -> CpuSpec {
    CpuSpec { sp: pull_sp(s), ..s }
}

/// Taken branches override the program counter with the resolved target.
pub open spec fn op_branch(s: CpuSpec, cond: bool, addr: u16) -> OpOut {
    if cond {
        OpOut { s: CpuSpec { pc: addr, ..s }, taken: true }
    } else {
        OpOut { s, taken: false }
    }
}

/// JSR: push the address of the last byte of the JSR (the already-advanced
/// program counter minus one), high byte first, then jump.
pub open spec fn op_jsr(s: CpuSpec, addr: u16) -> CpuSpec {
    let ret = wrap16(s.pc + 0xFFFF);
    let s1 = push(push(s, hi_byte(ret)), lo_byte(ret));
    CpuSpec { pc: addr, ..s1 }
}

/// RTS: pull low then high, and resume one past the pulled address.
pub open spec fn op_rts(s: CpuSpec) -> CpuSpec {
    let lo = pull_val(s);
    let s1 = pull(s);
    let hi = pull_val(s1);
    let s2 = pull(s1);
    CpuSpec { pc: wrap16(word(lo, hi) + 1), ..s2 }
}

/// RTI: pull the status byte (bit 5 forced on, B cleared), then the program
/// counter, without the RTS increment.
pub open spec fn op_rti(s: CpuSpec) -> CpuSpec {
    let pv = pull_val(s);
    let s1 = pull(s);
    let lo = pull_val(s1);
    let s2 = pull(s1);
    let hi = pull_val(s2);
    let s3 = pull(s2);
    CpuSpec { p: pulled_status(pv), pc: word(lo, hi), ..s3 }
}

/// BRK with a nonzero IRQ vector: skip the signature byte, push the return
/// address and the status with B set, set the interrupt-disable flag, and
/// jump through the vector.
pub open spec fn op_brk(s: CpuSpec) -> CpuSpec {
    let pc2 = wrap16(s.pc + 1);
    let s1 = push(push(push(s, hi_byte(pc2)), lo_byte(pc2)), pushed_status(s.p));
    CpuSpec { p: set_flag_b(s1.p, FLAG_INTERRUPT, true), pc: rd16(s1, IRQ_VECTOR), ..s1 }
}

/// The outcome of one operation body: the next state, and whether a branch
/// was taken (for the cycle count).
pub ghost struct OpOut {
    pub s: CpuSpec,
    pub taken: bool,
}

pub open spec fn out(s: CpuSpec) -> OpOut {
    OpOut { s, taken: false }
}

/// The semantics of every operation, dispatched on the mnemonic. `s` is the
/// state with the program counter already advanced past the instruction;
/// `addr` is the resolved effective address against the operand bytes.
pub open spec fn op_effect(s: CpuSpec, mn: Mnemonic, mode: AddressingMode, addr: u16) -> OpOut {
    match mn {
        // Loads and stores.
        Mnemonic::LDA => {
            let v = rd(s, addr);
            out(CpuSpec { a: v, p: with_zn(s.p, v), ..s })
        },
        Mnemonic::LDX => {
            let v = rd(s, addr);
            out(CpuSpec { x: v, p: with_zn(s.p, v), ..s })
        },
        Mnemonic::LDY => {
            let v = rd(s, addr);
            out(CpuSpec { y: v, p: with_zn(s.p, v), ..s })
        },
        Mnemonic::STA => out(wr(s, addr, s.a)),
        Mnemonic::STX => out(wr(s, addr, s.x)),
        Mnemonic::STY => out(wr(s, addr, s.y)),
        // Register transfers.
        Mnemonic::TAX => out(CpuSpec { x: s.a, p: with_zn(s.p, s.a), ..s }),
        Mnemonic::TAY => out(CpuSpec { y: s.a, p: with_zn(s.p, s.a), ..s }),
        Mnemonic::TXA => out(CpuSpec { a: s.x, p: with_zn(s.p, s.x), ..s }),
        Mnemonic::TYA => out(CpuSpec { a: s.y, p: with_zn(s.p, s.y), ..s }),
        Mnemonic::TSX => out(CpuSpec { x: s.sp, p: with_zn(s.p, s.sp), ..s }),
        Mnemonic::TXS => out(CpuSpec { sp: s.x, ..s }),
        // Stack operations.
        Mnemonic::PHA => out(push(s, s.a)),
        Mnemonic::PHP => out(push(s, pushed_status(s.p))),
        Mnemonic::PLA => {
            let v = pull_val(s);
            let s1 = pull(s);
            out(CpuSpec { a: v, p: with_zn(s1.p, v), ..s1 })
        },
        Mnemonic::PLP => {
            let v = pull_val(s);
            let s1 = pull(s);
            out(CpuSpec { p: pulled_status(v), ..s1 })
        },
        // Arithmetic.
        Mnemonic::ADC => out(op_adc(s, rd(s, addr))),
        Mnemonic::SBC => out(op_adc(s, rd(s, addr) ^ 0xFF)),
        Mnemonic::CMP => out(op_compare(s, s.a, rd(s, addr))),
        Mnemonic::CPX => out(op_compare(s, s.x, rd(s, addr))),
        Mnemonic::CPY => out(op_compare(s, s.y, rd(s, addr))),
        // Logical operations on the accumulator.
        Mnemonic::AND => {
            let v = s.a & rd(s, addr);
            out(CpuSpec { a: v, p: with_zn(s.p, v), ..s })
        },
        Mnemonic::ORA => {
            let v = s.a | rd(s, addr);
            out(CpuSpec { a: v, p: with_zn(s.p, v), ..s })
        },
        Mnemonic::EOR => {
            let v = s.a ^ rd(s, addr);
            out(CpuSpec { a: v, p: with_zn(s.p, v), ..s })
        },
        // Shifts and rotates.
        Mnemonic::ASL => out(op_shift(s, mn, mode, addr)),
        Mnemonic::LSR => out(op_shift(s, mn, mode, addr)),
        Mnemonic::ROL => out(op_shift(s, mn, mode, addr)),
        Mnemonic::ROR => out(op_shift(s, mn, mode, addr)),
        // Increments and decrements.
        Mnemonic::INC => {
            let r = wrap8(rd(s, addr) + 1);
            out(CpuSpec { p: with_zn(s.p, r), ..wr(s, addr, r) })
        },
        Mnemonic::DEC => {
            let r = wrap8(rd(s, addr) + 255);
            out(CpuSpec { p: with_zn(s.p, r), ..wr(s, addr, r) })
        },
        Mnemonic::INX => {
            let r = wrap8(s.x + 1);
            out(CpuSpec { x: r, p: with_zn(s.p, r), ..s })
        },
        Mnemonic::DEX => {
            let r = wrap8(s.x + 255);
            out(CpuSpec { x: r, p: with_zn(s.p, r), ..s })
        },
        Mnemonic::INY => {
            let r = wrap8(s.y + 1);
            out(CpuSpec { y: r, p: with_zn(s.p, r), ..s })
        },
        Mnemonic::DEY => {
            let r = wrap8(s.y + 255);
            out(CpuSpec { y: r, p: with_zn(s.p, r), ..s })
        },
        // Bit test.
        Mnemonic::BIT => {
            let m = rd(s, addr);
            let p1 = set_flag_b(s.p, FLAG_ZERO, s.a & m == 0);
            let p2 = set_flag_b(p1, FLAG_NEGATIVE, m & 0x80 != 0);
            out(CpuSpec { p: set_flag_b(p2, FLAG_OVERFLOW, m & 0x40 != 0), ..s })
        },
        // Branches.
        Mnemonic::BCC => op_branch(s, !flag_set(s.p, FLAG_CARRY), addr),
        Mnemonic::BCS => op_branch(s, flag_set(s.p, FLAG_CARRY), addr),
        Mnemonic::BNE => op_branch(s, !flag_set(s.p, FLAG_ZERO), addr),
        Mnemonic::BEQ => op_branch(s, flag_set(s.p, FLAG_ZERO), addr),
        Mnemonic::BPL => op_branch(s, !flag_set(s.p, FLAG_NEGATIVE), addr),
        Mnemonic::BMI => op_branch(s, flag_set(s.p, FLAG_NEGATIVE), addr),
        Mnemonic::BVC => op_branch(s, !flag_set(s.p, FLAG_OVERFLOW), addr),
        Mnemonic::BVS => op_branch(s, flag_set(s.p, FLAG_OVERFLOW), addr),
        // Jumps, subroutines and interrupt returns.
        Mnemonic::JMP => out(CpuSpec { pc: addr, ..s }),
        Mnemonic::JSR => out(op_jsr(s, addr)),
        Mnemonic::RTS => out(op_rts(s)),
        Mnemonic::RTI => out(op_rti(s)),
        Mnemonic::BRK => out(op_brk(s)),
        // Flag operations.
        Mnemonic::CLC => out(CpuSpec { p: set_flag_b(s.p, FLAG_CARRY, false), ..s }),
        Mnemonic::SEC => out(CpuSpec { p: set_flag_b(s.p, FLAG_CARRY, true), ..s }),
        Mnemonic::CLI => out(CpuSpec { p: set_flag_b(s.p, FLAG_INTERRUPT, false), ..s }),
        Mnemonic::SEI => out(CpuSpec { p: set_flag_b(s.p, FLAG_INTERRUPT, true), ..s }),
        Mnemonic::CLD => out(CpuSpec { p: set_flag_b(s.p, FLAG_DECIMAL, false), ..s }),
        Mnemonic::SED => out(CpuSpec { p: set_flag_b(s.p, FLAG_DECIMAL, true), ..s }),
        Mnemonic::CLV => out(CpuSpec { p: set_flag_b(s.p, FLAG_OVERFLOW, false), ..s }),
        // No operation.
        Mnemonic::NOP => out(s),
    }
}

/// The modes and operations the official tables charge one extra cycle for
/// when the effective address crosses a page.
pub open spec fn mode_penalized(mn: Mnemonic, mode: AddressingMode) -> bool {
    &&& (mode is AbsoluteX || mode is AbsoluteY || mode is IndirectY)
    &&& (mn is LDA || mn is LDX || mn is LDY || mn is ADC || mn is SBC || mn is AND
        || mn is ORA || mn is EOR || mn is CMP)
}

/// The outcome of one step of the executor.
pub ghost struct StepSpec {
    pub s: CpuSpec,
    pub cycles: int,
    pub halt: Option<HaltReason>,
}

/// One fetch-decode-dispatch step of the executor, as a mathematical
/// function. A stop request, an illegal opcode, or a BRK with a zero IRQ
/// vector halts without touching the architectural state (the stop request is
/// consumed); the illegal-opcode and BRK halts leave the program counter on
/// the offending byte. A halting BRK is charged its base cycles; the other
/// halts are free.
#[verifier::opaque]
pub open spec fn step_spec(s0: CpuSpec) -> StepSpec {
    if s0.stop {
        StepSpec {
            s: CpuSpec { stop: false, ..s0 },
            cycles: 0,
            halt: Some(HaltReason::Stopped),
        }
    } else {
        let op = rd(s0, s0.pc);
        match opcode_info(op) {
            None => StepSpec {
                s: s0,
                cycles: 0,
                halt: Some(HaltReason::IllegalOpcode(op, s0.pc)),
            },
            Some(d) => {
                if d.instruction is BRK && rd16(s0, IRQ_VECTOR) == 0 {
                    StepSpec { s: s0, cycles: d.cycle_count as int, halt: Some(HaltReason::Brk) }
                } else {
                    let s1 = CpuSpec { pc: wrap16(s0.pc + 1), ..s0 };
                    let (addr, crossed) = resolve(s1, d.addressing_mode);
                    let s2 = CpuSpec { pc: wrap16(s1.pc + d.size + 0xFFFF), ..s1 };
                    let o = op_effect(s2, d.instruction, d.addressing_mode, addr);
                    let cycles = d.cycle_count
                        + (if crossed && mode_penalized(d.instruction, d.addressing_mode) {
                        1int
                    } else {
                        0int
                    }) + (if o.taken {
                        1int
                    } else {
                        0int
                    }) + (if o.taken && crossed {
                        1int
                    } else {
                        0int
                    });
                    StepSpec { s: o.s, cycles, halt: None }
                }
            },
        }
    }
}

// ---------------------------------------------------------------------------
// Iterated stepping, for the contract of `run`.
// ---------------------------------------------------------------------------

/// The state after `n` steps from `s`.
pub open spec fn nth_state(s: CpuSpec, n: nat) -> CpuSpec
    decreases n,
{
    if n == 0 {
        s
    } else {
        step_spec(nth_state(s, (n - 1) as nat)).s
    }
}

/// The first `n` steps from `s` run free, and step `n` halts.
pub open spec fn halted_first_at(s: CpuSpec, n: nat) -> bool {
    &&& forall|i: nat| i < n ==> (#[trigger] step_spec(nth_state(s, i))).halt is None
    &&& step_spec(nth_state(s, n)).halt is Some
}

/// Total cycles of the first `n` steps from `s` (step `n` excluded).
pub open spec fn cycles_before(s: CpuSpec, n: nat) -> int
    decreases n,
{
    if n == 0 {
        0
    } else {
        cycles_before(s, (n - 1) as nat) + step_spec(nth_state(s, (n - 1) as nat)).cycles
    }
}

/// Total cycles of steps 0 through `n` inclusive.
pub open spec fn cycles_through(s: CpuSpec, n: nat) -> int {
    cycles_before(s, n) + step_spec(nth_state(s, n)).cycles
}

/// No step consumes a negative number of cycles.
pub proof fn lemma_step_cycles_nonneg(s: CpuSpec)
    ensures
        step_spec(s).cycles >= 0,
{
    reveal(step_spec);
}

/// Cycle totals never go negative.
pub proof fn lemma_cycles_before_nonneg(s: CpuSpec, n: nat)
    ensures
        cycles_before(s, n) >= 0,
    decreases n,
{
    if n > 0 {
        lemma_cycles_before_nonneg(s, (n - 1) as nat);
        lemma_step_cycles_nonneg(nth_state(s, (n - 1) as nat));
    }
}

/// A cycle total clamped to the saturating 64-bit counter `run` keeps.
pub open spec fn clamp64(v: int) -> u64 {
    if v > u64::MAX {
        u64::MAX
    } else if v < 0 {
        0
    } else {
        v as u64
    }
}

/// What a completed `run` reports: the saturating total of cycles consumed
/// and the reason the executor came to rest.
#[derive(Clone, Copy, Debug, PartialEq, Eq, Structural)]
pub struct RunOutcome {
    pub cycles: u64,
    pub reason: HaltReason,
}

/// What one `step` reports: the cycles the instruction consumed and the halt
/// reason, if the executor came to rest instead of executing.
#[derive(Clone, Copy, Debug, PartialEq, Eq, Structural)]
pub struct StepOutcome {
    pub cycles: u32,
    pub halt: Option<HaltReason>,
}

/// The contract of `run` from starting state `s0`: either some step `n` is
/// the first to halt, and the final state, reason and clamped cycle total are
/// those of the trace through step `n`; or no step within the executor's
/// step budget of `u64::MAX` halts, the budget is exhausted, and the run
/// reports `Stopped`. The budget branch is unreachable in practice: at two or
/// more cycles per real instruction it lies centuries away.
pub open spec fn run_post(s0: CpuSpec, s1: CpuSpec, r: RunOutcome) -> bool {
    ||| exists|n: nat|
        {
            &&& #[trigger] halted_first_at(s0, n)
            &&& s1 == step_spec(nth_state(s0, n)).s
            &&& step_spec(nth_state(s0, n)).halt == Some(r.reason)
            &&& r.cycles == clamp64(cycles_through(s0, n))
        }
    ||| {
        &&& forall|i: nat|
            i < u64::MAX ==> (#[trigger] step_spec(nth_state(s0, i))).halt is None
        &&& s1 == nth_state(s0, u64::MAX as nat)
        &&& r.reason == HaltReason::Stopped
        &&& r.cycles == clamp64(cycles_before(s0, u64::MAX as nat))
    }
}

/// The state `load(program, origin)` produces: the program copied over
/// memory at `origin`, then `origin` written to the reset vector.
pub open spec fn load_spec(s: CpuSpec, prog: Seq<u8>, origin: u16) -> CpuSpec {
    let loaded = CpuSpec {
        mem: Seq::new(
            0x10000,
            |i: int|
                if origin <= i < origin + prog.len() {
                    prog[i - origin]
                } else {
                    s.mem[i]
                },
        ),
        ..s
    };
    wr16(loaded, RESET_VECTOR, origin)
}

/// The state `reset` produces: registers cleared, SP at 0xFD, the status
/// with only interrupt-disable and bit 5 on, and the program counter taken
/// from the reset vector. A pending stop request is discarded.
pub open spec fn reset_spec(s: CpuSpec) -> CpuSpec {
    CpuSpec {
        a: 0,
        x: 0,
        y: 0,
        sp: 0xFD,
        pc: rd16(s, RESET_VECTOR),
        p: 0x24,
        mem: s.mem,
        stop: false,
    }
}

} // verus!
