use vstd::prelude::*;

use crate::flags::{
    flag_set, lemma_pulled_status, lemma_push_pull_status, lemma_set_flag_other,
    lemma_set_flag_same, lemma_with_zn, lemma_with_zn_other, pulled_status, set_flag_b, with_zn,
    FLAG_BREAK, FLAG_CARRY, FLAG_NEGATIVE, FLAG_OVERFLOW, FLAG_UNUSED, FLAG_ZERO,
};
use crate::model::{
    adc_carry, adc_result, nth_state, op_adc, op_effect, rd, rd16_bug, resolve, step_spec, word,
    wrap16, wf_state, CpuSpec, IRQ_VECTOR,
};
use crate::opcode::{opcode_info, AddressingMode, Mnemonic, OpCode};

verus! {

/// Every operation body leaves bit 5 of the status register set once it is
/// set: flag updates only touch bits disjoint from it, and PLP and RTI force
/// it back on.
pub proof fn lemma_op_preserves_bit5(s: CpuSpec, mn: Mnemonic, mode: AddressingMode, addr: u16)
    requires
        flag_set(s.p, FLAG_UNUSED),
    ensures
        flag_set(op_effect(s, mn, mode, addr).s.p, FLAG_UNUSED),
{
    assert forall|pp: u8, v: u8|
        flag_set(#[trigger] with_zn(pp, v), FLAG_UNUSED) == flag_set(pp, FLAG_UNUSED) by {
        assert(FLAG_UNUSED & (FLAG_ZERO | FLAG_NEGATIVE) == 0) by (bit_vector);
        lemma_with_zn_other(pp, v, FLAG_UNUSED);
    }
    assert forall|pp: u8, m: u8, val: bool|
        m & FLAG_UNUSED == 0 implies flag_set(
        #[trigger] set_flag_b(pp, m, val),
        FLAG_UNUSED,
    ) == flag_set(pp, FLAG_UNUSED) by {
        lemma_set_flag_other(pp, m, FLAG_UNUSED, val);
    }
    assert forall|v: u8| flag_set(#[trigger] pulled_status(v), FLAG_UNUSED) by {
        assert(1u8 & (FLAG_BREAK | FLAG_UNUSED) == 0) by (bit_vector);
        lemma_pulled_status(v, 1u8);
    }
    assert(FLAG_CARRY & FLAG_UNUSED == 0 && FLAG_ZERO & FLAG_UNUSED == 0
        && crate::flags::FLAG_INTERRUPT & FLAG_UNUSED == 0
        && crate::flags::FLAG_DECIMAL & FLAG_UNUSED == 0 && FLAG_OVERFLOW & FLAG_UNUSED == 0
        && FLAG_NEGATIVE & FLAG_UNUSED == 0) by (bit_vector);
}

/// One executor step leaves bit 5 of the status register set once it is set.
/// Together with the field types, which bound `A`, `X`, `Y` and `SP` to one
/// byte and `PC` to sixteen bits, this is the register-file invariant: no
/// instruction sequence can widen a register or clear bit 5 after `reset`
/// established it.
pub proof fn lemma_step_preserves_bit5(s: CpuSpec)
    requires
        flag_set(s.p, FLAG_UNUSED),
    ensures
        flag_set(step_spec(s).s.p, FLAG_UNUSED),
{
    reveal(step_spec);
    if !s.stop {
        let op = rd(s, s.pc);
        match opcode_info(op) {
            None => {},
            Some(d) => {
                if !(d.instruction is BRK && crate::model::rd16(s, IRQ_VECTOR) == 0) {
                    let s1 = CpuSpec { pc: wrap16(s.pc + 1), ..s };
                    let (addr, _crossed) = resolve(s1, d.addressing_mode);
                    let s2 = CpuSpec { pc: wrap16(s1.pc + d.size + 0xFFFF), ..s1 };
                    lemma_op_preserves_bit5(s2, d.instruction, d.addressing_mode, addr);
                }
            },
        }
    }
}

/// Any number of executor steps leaves bit 5 of the status register set.
pub proof fn lemma_run_preserves_bit5(s: CpuSpec, n: nat)
    requires
        flag_set(s.p, FLAG_UNUSED),
    ensures
        flag_set(nth_state(s, n).p, FLAG_UNUSED),
    decreases n,
{
    if n > 0 {
        lemma_run_preserves_bit5(s, (n - 1) as nat);
        lemma_step_preserves_bit5(nth_state(s, (n - 1) as nat));
    }
}

/// ADC of an operand followed by SBC of the same operand, with the carry
/// flowing from the ADC into the SBC, restores the accumulator, and Z and N
/// then reflect the restored value. This is exactly the case where the ADC's
/// carry-out differs from its carry-in; with equal carries the pair is off by
/// one, as on `A = 0, M = 0` with carry clear, which leaves `A = 0xFF`.
pub proof fn lemma_adc_sbc_duality(s: CpuSpec, m: u8)
    requires
        adc_carry(s.a, m, flag_set(s.p, FLAG_CARRY)) != flag_set(s.p, FLAG_CARRY),
    ensures
        ({
            let s2 = op_adc(op_adc(s, m), m ^ 0xFF);
            &&& s2.a == s.a
            &&& flag_set(s2.p, FLAG_ZERO) == (s.a == 0)
            &&& flag_set(s2.p, FLAG_NEGATIVE) == (s.a & 0x80 != 0)
        }),
{
    let c = flag_set(s.p, FLAG_CARRY);
    let s1 = op_adc(s, m);
    let r1 = adc_result(s.a, m, c);
    let carry1 = adc_carry(s.a, m, c);
    assert(FLAG_OVERFLOW & FLAG_CARRY == 0) by (bit_vector);
    let q = set_flag_b(with_zn(s.p, r1), FLAG_CARRY, carry1);
    lemma_set_flag_same(with_zn(s.p, r1), FLAG_CARRY, carry1);
    lemma_set_flag_other(q, FLAG_OVERFLOW, FLAG_CARRY, crate::model::adc_overflow(s.a, m, c));
    assert(flag_set(s1.p, FLAG_CARRY) == carry1);
    assert(m ^ 0xFF == 255 - m) by (bit_vector);
    let s2 = op_adc(s1, m ^ 0xFF);
    assert(s2.a == s.a);
    let q2 = set_flag_b(with_zn(s1.p, s2.a), FLAG_CARRY, adc_carry(s1.a, m ^ 0xFF, carry1));
    assert(FLAG_CARRY & FLAG_ZERO == 0 && FLAG_OVERFLOW & FLAG_ZERO == 0
        && FLAG_CARRY & FLAG_NEGATIVE == 0 && FLAG_OVERFLOW & FLAG_NEGATIVE == 0) by (bit_vector);
    lemma_with_zn(s1.p, s2.a);
    lemma_set_flag_other(with_zn(s1.p, s2.a), FLAG_CARRY, FLAG_ZERO, adc_carry(
        s1.a,
        m ^ 0xFF,
        carry1,
    ));
    lemma_set_flag_other(q2, FLAG_OVERFLOW, FLAG_ZERO, crate::model::adc_overflow(
        s1.a,
        m ^ 0xFF,
        carry1,
    ));
    lemma_set_flag_other(with_zn(s1.p, s2.a), FLAG_CARRY, FLAG_NEGATIVE, adc_carry(
        s1.a,
        m ^ 0xFF,
        carry1,
    ));
    lemma_set_flag_other(q2, FLAG_OVERFLOW, FLAG_NEGATIVE, crate::model::adc_overflow(
        s1.a,
        m ^ 0xFF,
        carry1,
    ));
}

/// PHA then PLA restores the accumulator and the stack pointer exactly, for
/// every starting stack pointer including the wrapping ones; Z and N then
/// reflect the restored accumulator.
pub proof fn lemma_pha_pla_round_trip(s: CpuSpec)
    requires
        wf_state(s),
    ensures
        ({
            let s1 = op_effect(s, Mnemonic::PHA, AddressingMode::Implicit, 0).s;
            let s2 = op_effect(s1, Mnemonic::PLA, AddressingMode::Implicit, 0).s;
            &&& s2.a == s.a
            &&& s2.sp == s.sp
            &&& s2.pc == s.pc
            &&& s2.p == with_zn(s.p, s.a)
        }),
{
}

/// PHP then PLP restores the status register except that bit 5 is forced on,
/// for any stored status with B clear, as every status the core itself
/// stores has; A and SP are untouched.
pub proof fn lemma_php_plp_round_trip(s: CpuSpec)
    requires
        wf_state(s),
        !flag_set(s.p, FLAG_BREAK),
    ensures
        ({
            let s1 = op_effect(s, Mnemonic::PHP, AddressingMode::Implicit, 0).s;
            let s2 = op_effect(s1, Mnemonic::PLP, AddressingMode::Implicit, 0).s;
            &&& s2.p == set_flag_b(s.p, FLAG_UNUSED, true)
            &&& s2.sp == s.sp
            &&& s2.a == s.a
        }),
{
    lemma_push_pull_status(s.p);
    let p = s.p;
    assert(p & FLAG_BREAK == 0 ==> (p | FLAG_UNUSED) & !FLAG_BREAK == p | FLAG_UNUSED)
        by (bit_vector);
}

/// A push writes only within the hardware stack page 0x0100..=0x01FF, at the
/// slot the stack pointer selects, and only the stack pointer moves besides.
pub proof fn lemma_push_confined_to_stack_page(s: CpuSpec, v: u8)
    requires
        wf_state(s),
    ensures
        crate::model::push(s, v).mem[0x100 + s.sp] == v,
        forall|i: int|
            0 <= i < 0x10000 && i != 0x100 + s.sp ==> crate::model::push(s, v).mem[i] == s.mem[i],
        crate::model::push(s, v).a == s.a,
        crate::model::push(s, v).pc == s.pc,
        crate::model::push(s, v).p == s.p,
{
}

/// Zero-page indexed addressing wraps within page zero: the effective
/// address never reaches page 1, and base 0xFF with X = 1 resolves to 0x0000.
pub proof fn lemma_zero_page_wrap(s: CpuSpec)
    ensures
        resolve(s, AddressingMode::ZeroPageX).0 < 0x100,
        resolve(s, AddressingMode::ZeroPageY).0 < 0x100,
        rd(s, s.pc) == 0xFF && s.x == 1 ==> resolve(s, AddressingMode::ZeroPageX).0 == 0,
{
}

/// The JMP (indirect) page-wrap bug: a pointer whose low byte is 0xFF takes
/// its high byte from the first address of its own page, never from the next
/// page.
pub proof fn lemma_jmp_indirect_bug(s: CpuSpec, ptr: u16)
    requires
        ptr % 256 == 0xFF,
    ensures
        rd16_bug(s, ptr) == word(rd(s, ptr), rd(s, (256 * (ptr / 256)) as u16)),
{
    vstd::arithmetic::div_mod::lemma_fundamental_div_mod(ptr as int, 256);
}

/// The control instructions: those entitled to override the program counter.
pub open spec fn is_control(mn: Mnemonic) -> bool {
    ||| mn is JMP
    ||| mn is JSR
    ||| mn is RTS
    ||| mn is RTI
    ||| mn is BRK
    ||| mn is BCC
    ||| mn is BCS
    ||| mn is BEQ
    ||| mn is BNE
    ||| mn is BMI
    ||| mn is BPL
    ||| mn is BVC
    ||| mn is BVS
}

/// No operation body other than a control instruction moves the program
/// counter, and none of them counts as a taken branch.
pub proof fn lemma_op_preserves_pc(s: CpuSpec, mn: Mnemonic, mode: AddressingMode, addr: u16)
    requires
        !is_control(mn),
    ensures
        op_effect(s, mn, mode, addr).s.pc == s.pc,
        !op_effect(s, mn, mode, addr).taken,
{
}

/// After any non-control instruction the program counter rests exactly
/// `size` bytes past the opcode it executed.
pub proof fn lemma_pc_advance(s: CpuSpec, d: OpCode)
    requires
        !s.stop,
        opcode_info(rd(s, s.pc)) == Some(d),
        !is_control(d.instruction),
    ensures
        step_spec(s).halt is None,
        step_spec(s).s.pc == wrap16(s.pc + d.size),
{
    reveal(step_spec);
    let s1 = CpuSpec { pc: wrap16(s.pc + 1), ..s };
    let (addr, _crossed) = resolve(s1, d.addressing_mode);
    let s2 = CpuSpec { pc: wrap16(s1.pc + d.size + 0xFFFF), ..s1 };
    lemma_op_preserves_pc(s2, d.instruction, d.addressing_mode, addr);
    lemma_wrap16_shift(s.pc as int, d.size as int);
}

/// Folding one wrap into a following one: advancing by one and then by
/// `size - 1` (written as `size + 0xFFFF`) lands `size` past the start.
proof fn lemma_wrap16_shift(pc: int, size: int)
    requires
        0 <= pc < 0x10000,
        0 <= size,
    ensures
        wrap16(wrap16(pc + 1) + size + 0xFFFF) == wrap16(pc + size),
{
    let m = 0x10000;
    vstd::arithmetic::div_mod::lemma_add_mod_noop((pc + 1) % m, size + 0xFFFF, m);
    vstd::arithmetic::div_mod::lemma_mod_twice(pc + 1, m);
    vstd::arithmetic::div_mod::lemma_add_mod_noop(pc + 1, size + 0xFFFF, m);
    vstd::arithmetic::div_mod::lemma_mod_add_multiples_vanish(pc + size, m);
}

} // verus!
