use crate::cpu_6502::Cpu6502;
use crate::state::CpuState;
use crate::state::wrap_add_16;
use crate::state::wrap_add_8;
use crate::state::spec_addr_from_bytes;
use crate::state::wrapping_add_u16;
use crate::state::wrapping_add_u8;
use crate::state::addr_from_bytes;
use vstd::prelude::*;

verus! {

/// The thirteen 6502 addressing modes: the rules for computing an
/// instruction's effective operand location from the bytes following
/// the opcode and the index registers.
#[derive(Clone, Copy, PartialEq, Eq, Structural, Debug)]
pub enum AddressingMode {
    Implied,
    Accumulator,
    Immediate,
    Absolute,
    ZeroPage,
    ZeroPageX,
    ZeroPageY,
    AbsoluteX,
    AbsoluteY,
    Relative,
    Indirect,
    IndirectX,
    IndirectY,
}

/// Implied and Accumulator operands live in registers: resolution does
/// nothing and owes no extra cycle.
pub open spec fn implied_step(s: CpuState) -> (CpuState, u8) {
    (s, 0)
}

/// The operand is the byte following the opcode: its address is the
/// current program counter, which then advances past it.
pub open spec fn immediate_step(s: CpuState) -> (CpuState, u8) {
    (
        (CpuState {
            address_absolute: s.program_counter,
            program_counter: wrap_add_16(s.program_counter, 1),
            ..s
        }),
        0,
    )
}

/// A zero-page operand byte, optionally displaced by an index register
/// and masked to 8 bits, so no page crossing is possible.
pub open spec fn zero_page_step(s: CpuState, index: u8) -> (CpuState, u8) {
    let operand: u8 = s.mem[s.program_counter as int];
    (
        (CpuState {
            address_absolute: wrap_add_8(operand, index) as u16,
            program_counter: wrap_add_16(s.program_counter, 1),
            ..s
        }),
        0,
    )
}

/// A 16-bit little-endian operand address.
pub open spec fn absolute_step(s: CpuState) -> (CpuState, u8) {
    let lo: u8 = s.mem[s.program_counter as int];
    let hi: u8 = s.mem[wrap_add_16(s.program_counter, 1) as int];
    (
        (CpuState {
            address_absolute: spec_addr_from_bytes(hi, lo),
            program_counter: wrap_add_16(s.program_counter, 2),
            ..s
        }),
        0,
    )
}

/// A 16-bit little-endian base address displaced by an index register
/// with 16-bit wraparound.  One extra cycle is owed when the addition
/// crosses a 256-byte page boundary; the penalty is charged uniformly,
/// for store-class operations too, an accepted simplification over the
/// real hardware.
pub open spec fn absolute_indexed_step(s: CpuState, index: u8) -> (CpuState, u8) {
    let lo: u8 = s.mem[s.program_counter as int];
    let hi: u8 = s.mem[wrap_add_16(s.program_counter, 1) as int];
    let base: u16 = spec_addr_from_bytes(hi, lo);
    let addr: u16 = wrap_add_16(base, index as u16);
    let crossed: u8 = if addr & 0xFF00 != base & 0xFF00 {
        1
    } else {
        0
    };
    (
        (CpuState {
            address_absolute: addr,
            program_counter: wrap_add_16(s.program_counter, 2),
            ..s
        }),
        crossed,
    )
}

/// A signed 8-bit branch offset, sign-extended into the relative
/// scratch address; it is applied at branch-execution time, so no extra
/// cycle is owed here.
pub open spec fn relative_step(s: CpuState) -> (CpuState, u8) {
    let operand: u8 = s.mem[s.program_counter as int];
    let rel: u16 = if operand >= 0x80 {
        (operand as u16) | 0xFF00
    } else {
        operand as u16
    };
    (
        (CpuState {
            address_relative: rel,
            program_counter: wrap_add_16(s.program_counter, 1),
            ..s
        }),
        0,
    )
}

/// A 16-bit pointer fetched through a 16-bit address, reproducing the
/// hardware page-wrap quirk: when the pointer's low byte is 0xFF the
/// high byte of the target is read from the start of the same page, not
/// from the next one.
pub open spec fn indirect_step(s: CpuState) -> (CpuState, u8) {
    let ptr_lo: u8 = s.mem[s.program_counter as int];
    let ptr_hi: u8 = s.mem[wrap_add_16(s.program_counter, 1) as int];
    let ptr: u16 = spec_addr_from_bytes(ptr_hi, ptr_lo);
    let lo: u8 = s.mem[ptr as int];
    let hi: u8 = if ptr_lo == 0xFF {
        s.mem[(ptr & 0xFF00) as int]
    } else {
        s.mem[wrap_add_16(ptr, 1) as int]
    };
    (
        (CpuState {
            address_absolute: spec_addr_from_bytes(hi, lo),
            program_counter: wrap_add_16(s.program_counter, 2),
            ..s
        }),
        0,
    )
}

/// Pre-indexed indirect: the operand plus the X register, mod 256,
/// names a zero-page location holding the 16-bit effective address.
pub open spec fn indirect_x_step(s: CpuState) -> (CpuState, u8) {
    let t: u8 = s.mem[s.program_counter as int];
    let lo: u8 = s.mem[wrap_add_8(t, s.x_register) as int];
    let hi: u8 = s.mem[wrap_add_8(wrap_add_8(t, s.x_register), 1) as int];
    (
        (CpuState {
            address_absolute: spec_addr_from_bytes(hi, lo),
            program_counter: wrap_add_16(s.program_counter, 1),
            ..s
        }),
        0,
    )
}

/// Post-indexed indirect: a zero-page pointer yields a 16-bit base and
/// the Y register is added after dereferencing, owing one extra cycle
/// when the addition crosses a page boundary.
pub open spec fn indirect_y_step(s: CpuState) -> (CpuState, u8) {
    let t: u8 = s.mem[s.program_counter as int];
    let lo: u8 = s.mem[t as int];
    let hi: u8 = s.mem[wrap_add_8(t, 1) as int];
    let base: u16 = spec_addr_from_bytes(hi, lo);
    let addr: u16 = wrap_add_16(base, s.y_register as u16);
    let crossed: u8 = if addr & 0xFF00 != base & 0xFF00 {
        1
    } else {
        0
    };
    (
        (CpuState {
            address_absolute: addr,
            program_counter: wrap_add_16(s.program_counter, 1),
            ..s
        }),
        crossed,
    )
}

/// The addressing-mode resolution step: computes the effective operand
/// address (or leaves the operand register-resident), advances the
/// program counter past consumed operand bytes, and reports the extra
/// cycle owed for page crossings.
pub open spec fn addressing_step(mode: AddressingMode, s: CpuState) -> (CpuState, u8) {
    match mode {
        AddressingMode::Implied => implied_step(s),
        AddressingMode::Accumulator => implied_step(s),
        AddressingMode::Immediate => immediate_step(s),
        AddressingMode::Absolute => absolute_step(s),
        AddressingMode::ZeroPage => zero_page_step(s, 0),
        AddressingMode::ZeroPageX => zero_page_step(s, s.x_register),
        AddressingMode::ZeroPageY => zero_page_step(s, s.y_register),
        AddressingMode::AbsoluteX => absolute_indexed_step(s, s.x_register),
        AddressingMode::AbsoluteY => absolute_indexed_step(s, s.y_register),
        AddressingMode::Relative => relative_step(s),
        AddressingMode::Indirect => indirect_step(s),
        AddressingMode::IndirectX => indirect_x_step(s),
        AddressingMode::IndirectY => indirect_y_step(s),
    }
}

/// Addressing-mode resolution never touches the cycle counter.
pub proof fn lemma_addressing_preserves_cycles(mode: AddressingMode, s: CpuState)
    ensures
        addressing_step(mode, s).0.cycles == s.cycles,
{
}

impl AddressingMode {
    /// Resolves this mode against the processor: stores the effective
    /// address (or leaves the operand implicit), consumes operand bytes
    /// from the instruction stream, and returns the extra cycle owed.
    pub fn execute(&self, cpu: &mut Cpu6502) -> (r: u8)
        requires
            old(cpu).wf(),
        ensures
            final(cpu).wf(),
            final(cpu)@ == addressing_step(*self, old(cpu)@).0,
            r == addressing_step(*self, old(cpu)@).1,
            r <= 1,
    {
        match self {
            AddressingMode::Implied => 0,
            AddressingMode::Accumulator => 0,
            AddressingMode::Immediate => cpu.resolve_immediate(),
            AddressingMode::Absolute => cpu.resolve_absolute(),
            AddressingMode::ZeroPage => cpu.resolve_zero_page(0),
            AddressingMode::ZeroPageX => {
                let index: u8 = cpu.x_register;
                cpu.resolve_zero_page(index)
            },
            AddressingMode::ZeroPageY => {
                let index: u8 = cpu.y_register;
                cpu.resolve_zero_page(index)
            },
            AddressingMode::AbsoluteX => {
                let index: u8 = cpu.x_register;
                cpu.resolve_absolute_indexed(index)
            },
            AddressingMode::AbsoluteY => {
                let index: u8 = cpu.y_register;
                cpu.resolve_absolute_indexed(index)
            },
            AddressingMode::Relative => cpu.resolve_relative(),
            AddressingMode::Indirect => cpu.resolve_indirect(),
            AddressingMode::IndirectX => cpu.resolve_indirect_x(),
            AddressingMode::IndirectY => cpu.resolve_indirect_y(),
        }
    }
}

impl Cpu6502 {
    fn resolve_immediate(&mut self) -> (r: u8)
        requires
            old(self).wf(),
        ensures
            final(self).wf(),
            final(self)@ == immediate_step(old(self)@).0,
            r == immediate_step(old(self)@).1,
    {
        self.address_absolute = self.program_counter;
        self.program_counter = wrapping_add_u16(self.program_counter, 1);
        proof {
            assert(self@ =~= immediate_step(old(self)@).0);
        }
        0
    }

    fn resolve_zero_page(&mut self, index: u8) -> (r: u8)
        requires
            old(self).wf(),
        ensures
            final(self).wf(),
            final(self)@ == zero_page_step(old(self)@, index).0,
            r == zero_page_step(old(self)@, index).1,
    {
        let operand: u8 = self.read_u8(self.program_counter);
        self.address_absolute = wrapping_add_u8(operand, index) as u16;
        self.program_counter = wrapping_add_u16(self.program_counter, 1);
        proof {
            assert(self@ =~= zero_page_step(old(self)@, index).0);
        }
        0
    }

    fn resolve_absolute(&mut self) -> (r: u8)
        requires
            old(self).wf(),
        ensures
            final(self).wf(),
            final(self)@ == absolute_step(old(self)@).0,
            r == absolute_step(old(self)@).1,
    {
        let lo: u8 = self.read_u8(self.program_counter);
        let hi: u8 = self.read_u8(wrapping_add_u16(self.program_counter, 1));
        self.address_absolute = addr_from_bytes(hi, lo);
        self.program_counter = wrapping_add_u16(self.program_counter, 2);
        proof {
            assert(self@ =~= absolute_step(old(self)@).0);
        }
        0
    }

    fn resolve_absolute_indexed(&mut self, index: u8) -> (r: u8)
        requires
            old(self).wf(),
        ensures
            final(self).wf(),
            final(self)@ == absolute_indexed_step(old(self)@, index).0,
            r == absolute_indexed_step(old(self)@, index).1,
            r <= 1,
    {
        let lo: u8 = self.read_u8(self.program_counter);
        let hi: u8 = self.read_u8(wrapping_add_u16(self.program_counter, 1));
        let base: u16 = addr_from_bytes(hi, lo);
        let addr: u16 = wrapping_add_u16(base, index as u16);
        self.address_absolute = addr;
        self.program_counter = wrapping_add_u16(self.program_counter, 2);
        proof {
            assert(self@ =~= absolute_indexed_step(old(self)@, index).0);
        }
        if addr & 0xFF00 != base & 0xFF00 {
            1
        } else {
            0
        }
    }

    fn resolve_relative(&mut self) -> (r: u8)
        requires
            old(self).wf(),
        ensures
            final(self).wf(),
            final(self)@ == relative_step(old(self)@).0,
            r == relative_step(old(self)@).1,
    {
        let operand: u8 = self.read_u8(self.program_counter);
        self.address_relative = if operand >= 0x80 {
            (operand as u16) | 0xFF00
        } else {
            operand as u16
        };
        self.program_counter = wrapping_add_u16(self.program_counter, 1);
        proof {
            assert(self@ =~= relative_step(old(self)@).0);
        }
        0
    }

    fn resolve_indirect(&mut self) -> (r: u8)
        requires
            old(self).wf(),
        ensures
            final(self).wf(),
            final(self)@ == indirect_step(old(self)@).0,
            r == indirect_step(old(self)@).1,
    {
        let ptr_lo: u8 = self.read_u8(self.program_counter);
        let ptr_hi: u8 = self.read_u8(wrapping_add_u16(self.program_counter, 1));
        let ptr: u16 = addr_from_bytes(ptr_hi, ptr_lo);
        let lo: u8 = self.read_u8(ptr);
        let hi: u8 = if ptr_lo == 0xFF {
            self.read_u8(ptr & 0xFF00)
        } else {
            self.read_u8(wrapping_add_u16(ptr, 1))
        };
        self.address_absolute = addr_from_bytes(hi, lo);
        self.program_counter = wrapping_add_u16(self.program_counter, 2);
        proof {
            assert(self@ =~= indirect_step(old(self)@).0);
        }
        0
    }

    fn resolve_indirect_x(&mut self) -> (r: u8)
        requires
            old(self).wf(),
        ensures
            final(self).wf(),
            final(self)@ == indirect_x_step(old(self)@).0,
            r == indirect_x_step(old(self)@).1,
    {
        let t: u8 = self.read_u8(self.program_counter);
        let lo: u8 = self.read_u8(wrapping_add_u8(t, self.x_register) as u16);
        let hi: u8 = self.read_u8(wrapping_add_u8(wrapping_add_u8(t, self.x_register), 1) as u16);
        self.address_absolute = addr_from_bytes(hi, lo);
        self.program_counter = wrapping_add_u16(self.program_counter, 1);
        proof {
            assert(self@ =~= indirect_x_step(old(self)@).0);
        }
        0
    }

    fn resolve_indirect_y(&mut self) -> (r: u8)
        requires
            old(self).wf(),
        ensures
            final(self).wf(),
            final(self)@ == indirect_y_step(old(self)@).0,
            r == indirect_y_step(old(self)@).1,
            r <= 1,
    {
        let t: u8 = self.read_u8(self.program_counter);
        let lo: u8 = self.read_u8(t as u16);
        let hi: u8 = self.read_u8(wrapping_add_u8(t, 1) as u16);
        let base: u16 = addr_from_bytes(hi, lo);
        let addr: u16 = wrapping_add_u16(base, self.y_register as u16);
        self.address_absolute = addr;
        self.program_counter = wrapping_add_u16(self.program_counter, 1);
        proof {
            assert(self@ =~= indirect_y_step(old(self)@).0);
        }
        if addr & 0xFF00 != base & 0xFF00 {
            1
        } else {
            0
        }
    }
}

} // verus!
