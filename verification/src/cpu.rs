use vstd::prelude::*;

use crate::flags::{flag_set, set_flag_b, with_zn, FLAG_CARRY, FLAG_NEGATIVE, FLAG_OVERFLOW,
    FLAG_ZERO};
use crate::model::{
    op_adc, pull, pull_val, push, rd, rd16, rd16_bug, rd16_zp, resolve, wr, wr16, wrap8, CpuSpec,
    HaltReason, RunOutcome, StepOutcome, IRQ_VECTOR, RESET_VECTOR, STACK_BASE,
};
use crate::opcode::{AddressingMode, Mnemonic};

verus! {

/// The errors `load` and `load_and_run` report.
#[derive(Clone, Copy, Debug, PartialEq, Eq, Structural)]
pub enum EmuError {
    /// The program would run past the top of the 64 KiB address space.
    OutOfBoundsProgramLoad,
    /// The program handed to `load_and_run` is empty.
    InvalidConfiguration,
}

/// The CPU: the register file, the status byte, and the flat 64 KiB memory.
pub struct CPU {
    pub acc_reg: u8,
    pub reg_x: u8,
    pub reg_y: u8,
    pub sp: u8,
    pub pc: u16,
    pub status: u8,
    memory: Vec<u8>,
    stop_flag: bool,
}

impl View for CPU {
    type V = CpuSpec;

    closed spec fn view(&self) -> CpuSpec {
        CpuSpec {
            a: self.acc_reg,
            x: self.reg_x,
            y: self.reg_y,
            sp: self.sp,
            pc: self.pc,
            p: self.status,
            mem: self.memory@,
            stop: self.stop_flag,
        }
    }
}

impl CPU {
    /// The memory vector spans the full address space; everything else is
    /// width-constrained by its type.
    pub open spec fn wf(&self) -> bool {
        crate::model::wf_state(self@)
    }

    /// A fresh CPU: zeroed memory and registers. The register state is
    /// architecturally undefined until `reset` runs.
    pub fn new() -> (cpu: CPU)
        ensures
            cpu.wf(),
            cpu@ == (CpuSpec {
                a: 0,
                x: 0,
                y: 0,
                sp: 0,
                pc: 0,
                p: 0,
                mem: Seq::new(0x10000, |i: int| 0u8),
                stop: false,
            }),
    {
        let memory: Vec<u8> = vec![0u8; 0x10000];
        let cpu = CPU {
            acc_reg: 0,
            reg_x: 0,
            reg_y: 0,
            sp: 0,
            pc: 0,
            status: 0,
            memory,
            stop_flag: false,
        };
        proof {
            assert(cpu@.mem =~= Seq::new(0x10000, |i: int| 0u8));
        }
        cpu
    }

    /// Direct bus read of one byte.
    pub fn mem_read(&self, address: u16) -> (v: u8)
        requires
            self.wf(),
        ensures
            v == rd(self@, address),
    {
        self.memory[address as usize]
    }

    /// Direct bus write of one byte.
    pub fn mem_write(&mut self, address: u16, data: u8)
        requires
            old(self).wf(),
        ensures
            final(self).wf(),
            final(self)@ == wr(old(self)@, address, data),
    {
        self.memory[address as usize] = data;
    }

    /// Little-endian 16-bit read; the second byte wraps around the top of
    /// the address space.
    pub fn mem_read_u16(&self, pos: u16) -> (w: u16)
        requires
            self.wf(),
        ensures
            w == rd16(self@, pos),
    {
        let lo = self.mem_read(pos);
        let hi = self.mem_read(((pos as u32 + 1) % 0x10000) as u16);
        lo as u16 + hi as u16 * 256
    }

    /// Little-endian 16-bit write; the second byte wraps around the top of
    /// the address space.
    pub fn mem_write_u16(&mut self, pos: u16, data: u16)
        requires
            old(self).wf(),
        ensures
            final(self).wf(),
            final(self)@ == wr16(old(self)@, pos, data),
    {
        self.mem_write(pos, (data % 256) as u8);
        self.mem_write(((pos as u32 + 1) % 0x10000) as u16, (data / 256) as u8);
    }

    /// 16-bit read with the JMP (indirect) page-wrap bug: a pointer whose low
    /// byte is 0xFF takes its high byte from the start of its own page.
    pub fn mem_read_u16_bug(&self, pos: u16) -> (w: u16)
        requires
            self.wf(),
        ensures
            w == rd16_bug(self@, pos),
    {
        if pos % 256 == 0xFF {
            let lo = self.mem_read(pos);
            let hi = self.mem_read(pos - 0xFF);
            lo as u16 + hi as u16 * 256
        } else {
            self.mem_read_u16(pos)
        }
    }

    /// 16-bit read of a pointer in page zero; the high pointer byte wraps
    /// within page zero.
    fn mem_read_u16_zp(&self, p: u8) -> (w: u16)
        requires
            self.wf(),
        ensures
            w == rd16_zp(self@, p),
    {
        let lo = self.mem_read(p as u16);
        let hi = self.mem_read(((p as u16 + 1) % 256) as u16);
        lo as u16 + hi as u16 * 256
    }

    /// Whether any bit selected by `mask` is set in the status byte; for a
    /// single-bit mask this is the value of that flag.
    pub fn get_flag(&self, mask: u8) -> (b: bool)
        ensures
            b == flag_set(self@.p, mask),
    {
        self.status & mask != 0
    }

    /// Force the flags of `mask` to `value`; nothing else changes.
    pub fn set_flag(&mut self, mask: u8, value: bool)
        ensures
            final(self)@ == (CpuSpec { p: set_flag_b(old(self)@.p, mask, value), ..old(self)@ }),
    {
        if value {
            self.status = self.status | mask;
        } else {
            self.status = self.status & !mask;
        }
    }

    /// `set_zn(result)`: Z becomes `result == 0`, N becomes bit 7 of
    /// `result`, and every other flag keeps its value.
    pub fn update_negative_zero_flags(&mut self, result: u8)
        ensures
            final(self)@ == (CpuSpec { p: with_zn(old(self)@.p, result), ..old(self)@ }),
            flag_set(final(self)@.p, FLAG_ZERO) == (result == 0),
            flag_set(final(self)@.p, FLAG_NEGATIVE) == (result & 0x80 != 0),
    {
        if result == 0 {
            self.status = self.status | FLAG_ZERO;
        } else {
            self.status = self.status & !FLAG_ZERO;
        }
        if result & 0x80 != 0 {
            self.status = self.status | FLAG_NEGATIVE;
        } else {
            self.status = self.status & !FLAG_NEGATIVE;
        }
        proof {
            crate::flags::lemma_with_zn(old(self)@.p, result);
        }
    }

    /// Push one byte on the hardware stack in page 1; SP wraps modulo 256.
    fn stack_push(&mut self, v: u8)
        requires
            old(self).wf(),
        ensures
            final(self).wf(),
            final(self)@ == push(old(self)@, v),
    {
        self.mem_write(STACK_BASE + self.sp as u16, v);
        self.sp = ((self.sp as u16 + 255) % 256) as u8;
    }

    /// Pull one byte from the hardware stack; SP wraps modulo 256.
    fn stack_pull(&mut self) -> (v: u8)
        requires
            old(self).wf(),
        ensures
            final(self).wf(),
            final(self)@ == pull(old(self)@),
            v == pull_val(old(self)@),
    {
        self.sp = ((self.sp as u16 + 1) % 256) as u8;
        self.mem_read(STACK_BASE + self.sp as u16)
    }

    /// The addressing unit: the effective address for `mode` with the
    /// program counter at the first operand byte, and whether the
    /// computation crossed a page.
    pub fn get_operand_address(&self, mode: &AddressingMode) -> (r: (u16, bool))
        requires
            self.wf(),
        ensures
            r == resolve(self@, *mode),
    {
        match *mode {
            AddressingMode::Implicit => (0, false),
            AddressingMode::Accumulator => (0, false),
            AddressingMode::Immediate => (self.pc, false),
            AddressingMode::ZeroPage => (self.mem_read(self.pc) as u16, false),
            AddressingMode::ZeroPageX => {
                let base = self.mem_read(self.pc);
                ((((base as u16 + self.reg_x as u16) % 256) as u8) as u16, false)
            },
            AddressingMode::ZeroPageY => {
                let base = self.mem_read(self.pc);
                ((((base as u16 + self.reg_y as u16) % 256) as u8) as u16, false)
            },
            AddressingMode::Relative => {
                let off = self.mem_read(self.pc);
                let base = ((self.pc as u32 + 1) % 0x10000) as u16;
                let target = if off < 0x80 {
                    ((base as u32 + off as u32) % 0x10000) as u16
                } else {
                    ((base as u32 + off as u32 + 0xFF00) % 0x10000) as u16
                };
                (target, target / 256 != base / 256)
            },
            AddressingMode::Absolute => (self.mem_read_u16(self.pc), false),
            AddressingMode::AbsoluteX => {
                let base = self.mem_read_u16(self.pc);
                let r = ((base as u32 + self.reg_x as u32) % 0x10000) as u16;
                (r, r / 256 != base / 256)
            },
            AddressingMode::AbsoluteY => {
                let base = self.mem_read_u16(self.pc);
                let r = ((base as u32 + self.reg_y as u32) % 0x10000) as u16;
                (r, r / 256 != base / 256)
            },
            AddressingMode::Indirect => {
                let ptr = self.mem_read_u16(self.pc);
                (self.mem_read_u16_bug(ptr), false)
            },
            AddressingMode::IndirectX => {
                let base = self.mem_read(self.pc);
                let ptr = ((base as u16 + self.reg_x as u16) % 256) as u8;
                (self.mem_read_u16_zp(ptr), false)
            },
            AddressingMode::IndirectY => {
                let base = self.mem_read_u16_zp(self.mem_read(self.pc));
                let r = ((base as u32 + self.reg_y as u32) % 0x10000) as u16;
                (r, r / 256 != base / 256)
            },
        }
    }

    /// LDA: load the accumulator and set Z and N from the loaded value.
    pub fn lda(&mut self, value: u8)
        ensures
            final(self)@ == (CpuSpec {
                a: value,
                p: with_zn(old(self)@.p, value),
                ..old(self)@
            }),
    {
        self.acc_reg = value;
        self.update_negative_zero_flags(value);
    }

    /// TAX: copy the accumulator into X and set Z and N from it.
    pub fn tax(&mut self)
        ensures
            final(self)@ == (CpuSpec {
                x: old(self)@.a,
                p: with_zn(old(self)@.p, old(self)@.a),
                ..old(self)@
            }),
    {
        self.reg_x = self.acc_reg;
        self.update_negative_zero_flags(self.reg_x);
    }

    /// INX: increment X modulo 256 and set Z and N from the result.
    pub fn inx(&mut self)
        ensures
            final(self)@ == (CpuSpec {
                x: wrap8(old(self)@.x + 1),
                p: with_zn(old(self)@.p, wrap8(old(self)@.x + 1)),
                ..old(self)@
            }),
    {
        self.reg_x = ((self.reg_x as u16 + 1) % 256) as u8;
        self.update_negative_zero_flags(self.reg_x);
    }

    /// ADC against an operand byte already fetched: add it and the carry to
    /// the accumulator; C, V, Z and N are updated as `op_adc` states.
    fn adc_value(&mut self, m: u8)
        ensures
            final(self)@ == op_adc(old(self)@, m),
    {
        let c = self.get_flag(FLAG_CARRY);
        let cin: u16 = if c {
            1
        } else {
            0
        };
        let sum: u16 = self.acc_reg as u16 + m as u16 + cin;
        let r = (sum % 256) as u8;
        let carry_out = sum > 255;
        let overflow = (self.acc_reg ^ r) & (m ^ r) & 0x80 != 0;
        self.acc_reg = r;
        self.update_negative_zero_flags(r);
        self.set_flag(FLAG_CARRY, carry_out);
        self.set_flag(FLAG_OVERFLOW, overflow);
    }

    /// ADC addressed through `mode` with the program counter at the operand:
    /// resolve, fetch, and add with carry.
    pub fn adc(&mut self, mode: &AddressingMode)
        requires
            old(self).wf(),
        ensures
            final(self).wf(),
            final(self)@ == op_adc(old(self)@, rd(old(self)@, resolve(old(self)@, *mode).0)),
    {
        let (addr, _) = self.get_operand_address(mode);
        let m = self.mem_read(addr);
        self.adc_value(m);
    }

    /// CMP/CPX/CPY against a register value: set C, Z and N from the
    /// difference; no register changes.
    fn compare(&mut self, reg: u8, addr: u16)
        requires
            old(self).wf(),
        ensures
            final(self).wf(),
            final(self)@ == crate::model::op_compare(old(self)@, reg, rd(old(self)@, addr)),
    {
        let m = self.mem_read(addr);
        let t = ((reg as u16 + 256 - m as u16) % 256) as u8;
        self.update_negative_zero_flags(t);
        self.set_flag(FLAG_CARRY, reg >= m);
    }

    /// A shift or rotate against the accumulator or memory, per the mode.
    fn shift(&mut self, mn: Mnemonic, mode: AddressingMode, addr: u16)
        requires
            old(self).wf(),
        ensures
            final(self).wf(),
            final(self)@ == crate::model::op_shift(old(self)@, mn, mode, addr),
    {
        let cin = self.get_flag(FLAG_CARRY);
        let cin_bit: u16 = if cin {
            1
        } else {
            0
        };
        let v = if let AddressingMode::Accumulator = mode {
            self.acc_reg
        } else {
            self.mem_read(addr)
        };
        let (r, cout): (u8, bool) = match mn {
            Mnemonic::ASL => (((v as u16 * 2) % 256) as u8, v >= 0x80),
            Mnemonic::LSR => (v / 2, v % 2 == 1),
            Mnemonic::ROL => (((v as u16 * 2 + cin_bit) % 256) as u8, v >= 0x80),
            Mnemonic::ROR => (v / 2 + if cin {
                128
            } else {
                0
            }, v % 2 == 1),
            _ => (v, cin),
        };
        proof {
            assert((r, cout) == crate::model::shift_vals(mn, v, cin));
        }
        if let AddressingMode::Accumulator = mode {
            self.acc_reg = r;
        } else {
            self.mem_write(addr, r);
        }
        self.update_negative_zero_flags(r);
        self.set_flag(FLAG_CARRY, cout);
    }

    /// A conditional branch: when `cond` holds the program counter moves to
    /// the resolved target, and the executor charges the taken penalty.
    fn branch_if(&mut self, cond: bool, addr: u16) -> (taken: bool)
        ensures
            final(self)@ == crate::model::op_branch(old(self)@, cond, addr).s,
            taken == crate::model::op_branch(old(self)@, cond, addr).taken,
    {
        if cond {
            self.pc = addr;
            true
        } else {
            false
        }
    }

    /// The operation body for one decoded instruction: `self` has the
    /// program counter already advanced past the instruction, and `addr` is
    /// the effective address resolved against the operand bytes. Returns
    /// whether a branch was taken.
    fn execute_op(&mut self, mn: Mnemonic, mode: AddressingMode, addr: u16) -> (taken: bool)
        requires
            old(self).wf(),
        ensures
            final(self).wf(),
            final(self)@ == crate::model::op_effect(old(self)@, mn, mode, addr).s,
            taken == crate::model::op_effect(old(self)@, mn, mode, addr).taken,
    {
        match mn {
            Mnemonic::LDA => {
                let v = self.mem_read(addr);
                self.lda(v);
                false
            },
            Mnemonic::LDX => {
                let v = self.mem_read(addr);
                self.reg_x = v;
                self.update_negative_zero_flags(v);
                false
            },
            Mnemonic::LDY => {
                let v = self.mem_read(addr);
                self.reg_y = v;
                self.update_negative_zero_flags(v);
                false
            },
            Mnemonic::STA => {
                self.mem_write(addr, self.acc_reg);
                false
            },
            Mnemonic::STX => {
                self.mem_write(addr, self.reg_x);
                false
            },
            Mnemonic::STY => {
                self.mem_write(addr, self.reg_y);
                false
            },
            Mnemonic::TAX => {
                self.tax();
                false
            },
            Mnemonic::TAY => {
                self.reg_y = self.acc_reg;
                self.update_negative_zero_flags(self.reg_y);
                false
            },
            Mnemonic::TXA => {
                self.acc_reg = self.reg_x;
                self.update_negative_zero_flags(self.acc_reg);
                false
            },
            Mnemonic::TYA => {
                self.acc_reg = self.reg_y;
                self.update_negative_zero_flags(self.acc_reg);
                false
            },
            Mnemonic::TSX => {
                self.reg_x = self.sp;
                self.update_negative_zero_flags(self.reg_x);
                false
            },
            Mnemonic::TXS => {
                self.sp = self.reg_x;
                false
            },
            Mnemonic::PHA => {
                let v = self.acc_reg;
                self.stack_push(v);
                false
            },
            Mnemonic::PHP => {
                let v = self.status | 0x30;
                self.stack_push(v);
                false
            },
            Mnemonic::PLA => {
                let v = self.stack_pull();
                self.acc_reg = v;
                self.update_negative_zero_flags(v);
                false
            },
            Mnemonic::PLP => {
                let v = self.stack_pull();
                self.status = (v | crate::flags::FLAG_UNUSED) & !crate::flags::FLAG_BREAK;
                false
            },
            Mnemonic::ADC => {
                let m = self.mem_read(addr);
                self.adc_value(m);
                false
            },
            Mnemonic::SBC => {
                let m = self.mem_read(addr);
                self.adc_value(m ^ 0xFF);
                false
            },
            Mnemonic::CMP => {
                let reg = self.acc_reg;
                self.compare(reg, addr);
                false
            },
            Mnemonic::CPX => {
                let reg = self.reg_x;
                self.compare(reg, addr);
                false
            },
            Mnemonic::CPY => {
                let reg = self.reg_y;
                self.compare(reg, addr);
                false
            },
            Mnemonic::AND => {
                let v = self.acc_reg & self.mem_read(addr);
                self.acc_reg = v;
                self.update_negative_zero_flags(v);
                false
            },
            Mnemonic::ORA => {
                let v = self.acc_reg | self.mem_read(addr);
                self.acc_reg = v;
                self.update_negative_zero_flags(v);
                false
            },
            Mnemonic::EOR => {
                let v = self.acc_reg ^ self.mem_read(addr);
                self.acc_reg = v;
                self.update_negative_zero_flags(v);
                false
            },
            Mnemonic::ASL => {
                self.shift(mn, mode, addr);
                false
            },
            Mnemonic::LSR => {
                self.shift(mn, mode, addr);
                false
            },
            Mnemonic::ROL => {
                self.shift(mn, mode, addr);
                false
            },
            Mnemonic::ROR => {
                self.shift(mn, mode, addr);
                false
            },
            Mnemonic::INC => {
                let r = ((self.mem_read(addr) as u16 + 1) % 256) as u8;
                self.mem_write(addr, r);
                self.update_negative_zero_flags(r);
                false
            },
            Mnemonic::DEC => {
                let r = ((self.mem_read(addr) as u16 + 255) % 256) as u8;
                self.mem_write(addr, r);
                self.update_negative_zero_flags(r);
                false
            },
            Mnemonic::INX => {
                self.inx();
                false
            },
            Mnemonic::DEX => {
                self.reg_x = ((self.reg_x as u16 + 255) % 256) as u8;
                self.update_negative_zero_flags(self.reg_x);
                false
            },
            Mnemonic::INY => {
                self.reg_y = ((self.reg_y as u16 + 1) % 256) as u8;
                self.update_negative_zero_flags(self.reg_y);
                false
            },
            Mnemonic::DEY => {
                self.reg_y = ((self.reg_y as u16 + 255) % 256) as u8;
                self.update_negative_zero_flags(self.reg_y);
                false
            },
            Mnemonic::BIT => {
                let m = self.mem_read(addr);
                self.set_flag(FLAG_ZERO, self.acc_reg & m == 0);
                self.set_flag(FLAG_NEGATIVE, m & 0x80 != 0);
                self.set_flag(FLAG_OVERFLOW, m & 0x40 != 0);
                false
            },
            Mnemonic::BCC => {
                let c = self.get_flag(FLAG_CARRY);
                self.branch_if(!c, addr)
            },
            Mnemonic::BCS => {
                let c = self.get_flag(FLAG_CARRY);
                self.branch_if(c, addr)
            },
            Mnemonic::BNE => {
                let c = self.get_flag(FLAG_ZERO);
                self.branch_if(!c, addr)
            },
            Mnemonic::BEQ => {
                let c = self.get_flag(FLAG_ZERO);
                self.branch_if(c, addr)
            },
            Mnemonic::BPL => {
                let c = self.get_flag(FLAG_NEGATIVE);
                self.branch_if(!c, addr)
            },
            Mnemonic::BMI => {
                let c = self.get_flag(FLAG_NEGATIVE);
                self.branch_if(c, addr)
            },
            Mnemonic::BVC => {
                let c = self.get_flag(FLAG_OVERFLOW);
                self.branch_if(!c, addr)
            },
            Mnemonic::BVS => {
                let c = self.get_flag(FLAG_OVERFLOW);
                self.branch_if(c, addr)
            },
            Mnemonic::JMP => {
                self.pc = addr;
                false
            },
            Mnemonic::JSR => {
                let ret = ((self.pc as u32 + 0xFFFF) % 0x10000) as u16;
                self.stack_push((ret / 256) as u8);
                self.stack_push((ret % 256) as u8);
                self.pc = addr;
                false
            },
            Mnemonic::RTS => {
                let lo = self.stack_pull();
                let hi = self.stack_pull();
                self.pc = ((lo as u32 + hi as u32 * 256 + 1) % 0x10000) as u16;
                false
            },
            Mnemonic::RTI => {
                let pv = self.stack_pull();
                let lo = self.stack_pull();
                let hi = self.stack_pull();
                self.status = (pv | crate::flags::FLAG_UNUSED) & !crate::flags::FLAG_BREAK;
                self.pc = lo as u16 + hi as u16 * 256;
                false
            },
            Mnemonic::BRK => {
                let pc2 = ((self.pc as u32 + 1) % 0x10000) as u16;
                self.stack_push((pc2 / 256) as u8);
                self.stack_push((pc2 % 256) as u8);
                let v = self.status | 0x30;
                self.stack_push(v);
                self.set_flag(crate::flags::FLAG_INTERRUPT, true);
                self.pc = self.mem_read_u16(IRQ_VECTOR);
                false
            },
            Mnemonic::CLC => {
                self.set_flag(FLAG_CARRY, false);
                false
            },
            Mnemonic::SEC => {
                self.set_flag(FLAG_CARRY, true);
                false
            },
            Mnemonic::CLI => {
                self.set_flag(crate::flags::FLAG_INTERRUPT, false);
                false
            },
            Mnemonic::SEI => {
                self.set_flag(crate::flags::FLAG_INTERRUPT, true);
                false
            },
            Mnemonic::CLD => {
                self.set_flag(crate::flags::FLAG_DECIMAL, false);
                false
            },
            Mnemonic::SED => {
                self.set_flag(crate::flags::FLAG_DECIMAL, true);
                false
            },
            Mnemonic::CLV => {
                self.set_flag(FLAG_OVERFLOW, false);
                false
            },
            Mnemonic::NOP => false,
        }
    }

    /// Ask the executor to stop before the next instruction; `run` returns
    /// `Stopped` once it sees the request.
    pub fn stop(&mut self)
        ensures
            final(self)@ == (CpuSpec { stop: true, ..old(self)@ }),
    {
        self.stop_flag = true;
    }

    /// Reset: clear the registers, point SP at 0xFD, set the status to
    /// interrupt-disable with bit 5 on, load the program counter from the
    /// reset vector, and discard any pending stop request.
    pub fn reset(&mut self)
        requires
            old(self).wf(),
        ensures
            final(self).wf(),
            final(self)@ == crate::model::reset_spec(old(self)@),
    {
        self.pc = self.mem_read_u16(RESET_VECTOR);
        self.acc_reg = 0;
        self.reg_x = 0;
        self.reg_y = 0;
        self.sp = 0xFD;
        self.status = 0x24;
        self.stop_flag = false;
    }

    /// Execute exactly one instruction, or come to rest: a pending stop
    /// request, an illegal opcode, or a BRK fetched while the IRQ vector
    /// holds 0 halts with the architectural state untouched. The whole
    /// transition, the cycles consumed and the halt reason equal those of
    /// the mathematical interpreter `step_spec`.
    pub fn step(&mut self) -> (r: StepOutcome)
        requires
            old(self).wf(),
        ensures
            final(self).wf(),
            final(self)@ == crate::model::step_spec(old(self)@).s,
            r.cycles as int == crate::model::step_spec(old(self)@).cycles,
            r.halt == crate::model::step_spec(old(self)@).halt,
    {
        proof {
            reveal(crate::model::step_spec);
        }
        if self.stop_flag {
            self.stop_flag = false;
            return StepOutcome { cycles: 0, halt: Some(HaltReason::Stopped) };
        }
        let op = self.mem_read(self.pc);
        match crate::opcode::lookup_opcode(op) {
            None => StepOutcome { cycles: 0, halt: Some(HaltReason::IllegalOpcode(op, self.pc)) },
            Some(d) => {
                if d.instruction == Mnemonic::BRK && self.mem_read_u16(IRQ_VECTOR) == 0 {
                    return StepOutcome {
                        cycles: d.cycle_count as u32,
                        halt: Some(HaltReason::Brk),
                    };
                }
                self.pc = ((self.pc as u32 + 1) % 0x10000) as u16;
                let (addr, crossed) = self.get_operand_address(&d.addressing_mode);
                self.pc = ((self.pc as u32 + d.size as u32 + 0xFFFF) % 0x10000) as u16;
                let taken = self.execute_op(d.instruction, d.addressing_mode, addr);
                let penalized = matches!(
                    d.addressing_mode,
                    AddressingMode::AbsoluteX | AddressingMode::AbsoluteY
                        | AddressingMode::IndirectY,
                ) && matches!(
                    d.instruction,
                    Mnemonic::LDA | Mnemonic::LDX | Mnemonic::LDY | Mnemonic::ADC | Mnemonic::SBC
                        | Mnemonic::AND | Mnemonic::ORA | Mnemonic::EOR | Mnemonic::CMP,
                );
                let mut cycles: u32 = d.cycle_count as u32;
                if crossed && penalized {
                    cycles = cycles + 1;
                }
                if taken {
                    cycles = cycles + 1;
                    if crossed {
                        cycles = cycles + 1;
                    }
                }
                StepOutcome { cycles, halt: None }
            },
        }
    }

    /// Run until the executor comes to rest, and report the saturating total
    /// of cycles consumed together with the halt reason. The contract is the
    /// step-trace predicate `run_post`; the step budget of `u64::MAX` it
    /// speaks of is unreachable in practice.
    pub fn run(&mut self) -> (r: RunOutcome)
        requires
            old(self).wf(),
        ensures
            final(self).wf(),
            crate::model::run_post(old(self)@, final(self)@, r),
    {
        let ghost s0 = old(self)@;
        let ghost mut n: nat = 0;
        let mut total: u64 = 0;
        let mut fuel: u64 = u64::MAX;
        loop
            invariant
                s0 == old(self)@,
                self.wf(),
                self@ == crate::model::nth_state(s0, n),
                total == crate::model::clamp64(crate::model::cycles_before(s0, n)),
                forall|i: nat|
                    i < n ==> (#[trigger] crate::model::step_spec(
                        crate::model::nth_state(s0, i),
                    )).halt is None,
                n + fuel == u64::MAX,
            decreases fuel,
        {
            proof {
                crate::model::lemma_cycles_before_nonneg(s0, n);
                crate::model::lemma_step_cycles_nonneg(crate::model::nth_state(s0, n));
            }
            if fuel == 0 {
                proof {
                    assert(n == u64::MAX as nat);
                    assert(self@ == crate::model::nth_state(s0, u64::MAX as nat));
                    assert(total == crate::model::clamp64(
                        crate::model::cycles_before(s0, u64::MAX as nat),
                    ));
                    assert(forall|i: nat|
                        i < u64::MAX ==> (#[trigger] crate::model::step_spec(
                            crate::model::nth_state(s0, i),
                        )).halt is None);
                }
                return RunOutcome { cycles: total, reason: HaltReason::Stopped };
            }
            let st = self.step();
            let c = st.cycles as u64;
            total = if total > u64::MAX - c {
                u64::MAX
            } else {
                total + c
            };
            match st.halt {
                Some(reason) => {
                    proof {
                        assert(crate::model::halted_first_at(s0, n));
                        assert(self@ == crate::model::step_spec(
                            crate::model::nth_state(s0, n),
                        ).s);
                        assert(crate::model::step_spec(crate::model::nth_state(s0, n)).halt
                            == Some(reason));
                        assert(total == crate::model::clamp64(
                            crate::model::cycles_through(s0, n),
                        ));
                    }
                    return RunOutcome { cycles: total, reason };
                },
                None => {
                    proof {
                        n = n + 1;
                    }
                    fuel = fuel - 1;
                },
            }
        }
    }

    /// Copy a program into memory at `origin` and write `origin` into the
    /// reset vector; refused when the program would run past the top of the
    /// address space, in which case nothing changes.
    pub fn load(&mut self, program: &Vec<u8>, origin: u16) -> (r: Result<(), EmuError>)
        requires
            old(self).wf(),
        ensures
            final(self).wf(),
            origin + program@.len() <= 0x10000 ==> r == Ok::<(), EmuError>(()) && final(self)@
                == crate::model::load_spec(old(self)@, program@, origin),
            origin + program@.len() > 0x10000 ==> r == Err::<(), EmuError>(
                EmuError::OutOfBoundsProgramLoad,
            ) && final(self)@ == old(self)@,
    {
        if program.len() > 0x10000 - origin as usize {
            return Err(EmuError::OutOfBoundsProgramLoad);
        }
        let mut i: usize = 0;
        while i < program.len()
            invariant
                self.wf(),
                i <= program@.len(),
                origin + program@.len() <= 0x10000,
                self@ == (CpuSpec { mem: self@.mem, ..old(self)@ }),
                forall|j: int| 0 <= j < i ==> self@.mem[origin + j] == program@[j],
                forall|j: int|
                    0 <= j < 0x10000 && !(origin <= j < origin + i) ==> self@.mem[j] == old(
                        self,
                    )@.mem[j],
            decreases program@.len() - i,
        {
            self.memory[origin as usize + i] = program[i];
            i = i + 1;
        }
        proof {
            let loaded = CpuSpec {
                mem: Seq::new(
                    0x10000,
                    |j: int|
                        if origin <= j < origin + program@.len() {
                            program@[j - origin]
                        } else {
                            old(self)@.mem[j]
                        },
                ),
                ..old(self)@
            };
            assert(self@ =~= loaded);
        }
        self.mem_write_u16(RESET_VECTOR, origin);
        Ok(())
    }

    /// Load the program at `origin`, reset, and run to rest. An empty
    /// program is rejected as an invalid configuration; an oversized one as
    /// an out-of-bounds load; neither changes the state.
    pub fn load_and_run(&mut self, program: &Vec<u8>, origin: u16) -> (r: Result<
        RunOutcome,
        EmuError,
    >)
        requires
            old(self).wf(),
        ensures
            final(self).wf(),
            program@.len() == 0 ==> r == Err::<RunOutcome, EmuError>(
                EmuError::InvalidConfiguration,
            ) && final(self)@ == old(self)@,
            program@.len() > 0 && origin + program@.len() > 0x10000 ==> r == Err::<
                RunOutcome,
                EmuError,
            >(EmuError::OutOfBoundsProgramLoad) && final(self)@ == old(self)@,
            program@.len() > 0 && origin + program@.len() <= 0x10000 ==> (r matches Ok(out)
                && crate::model::run_post(
                crate::model::reset_spec(
                    crate::model::load_spec(old(self)@, program@, origin),
                ),
                final(self)@,
                out,
            )),
    {
        if program.len() == 0 {
            return Err(EmuError::InvalidConfiguration);
        }
        match self.load(program, origin) {
            Err(e) => Err(e),
            Ok(()) => {
                self.reset();
                Ok(self.run())
            },
        }
    }
}

} // verus!
