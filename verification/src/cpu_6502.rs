use crate::addressing_mode::AddressingMode;
use crate::addressing_mode::addressing_step;
use crate::addressing_mode::lemma_addressing_preserves_cycles;
use crate::bus::Bus;
use crate::instruction::DecodeError;
use crate::instruction::spec_decode;
use crate::instruction::to_instruction;
use crate::opcode::lemma_op_preserves_cycles;
use crate::opcode::op_step;
use crate::read::Read;
use crate::state::CpuState;
use crate::state::FLAG_BREAK;
use crate::state::FLAG_INTERRUPT_DISABLE;
use crate::state::FLAG_UNUSED;
use crate::state::get_flag;
use crate::state::high_byte;
use crate::state::low_byte;
use crate::state::set_flag_val;
use crate::state::spec_addr_from_bytes;
use crate::state::upd_flag;
use crate::state::wrap_add_8;
use crate::state::wrap_add_16;
use crate::state::wrap_sub_8;
use crate::state::addr_from_bytes;
use crate::state::wrapping_add_u8;
use crate::state::wrapping_add_u16;
use crate::state::wrapping_sub_u8;
use crate::write::Write;
use vstd::prelude::*;

verus! {

/// The 6502 processor: registers, status flags, the scratch state of
/// the in-flight instruction, and the memory bus it owns and drives.
pub struct Cpu6502 {
    pub bus: Bus,
    pub accumulator: u8,
    pub x_register: u8,
    pub y_register: u8,
    pub stack_pointer: u8,
    pub program_counter: u16,
    pub status_register: u8,
    pub address_absolute: u16,
    pub address_relative: u16,
    pub opcode: u8,
    pub cycles: u8,
    pub fetched: u8,
}

impl View for Cpu6502 {
    type V = CpuState;

    open spec fn view(&self) -> CpuState {
        CpuState {
            accumulator: self.accumulator,
            x_register: self.x_register,
            y_register: self.y_register,
            stack_pointer: self.stack_pointer,
            program_counter: self.program_counter,
            status_register: self.status_register,
            address_absolute: self.address_absolute,
            address_relative: self.address_relative,
            opcode: self.opcode,
            cycles: self.cycles,
            fetched: self.fetched,
            mem: self.bus@,
        }
    }
}

/// Whether an addressing mode keeps its operand in a register, so that
/// no memory read is involved in fetching it.
pub open spec fn implicit_mode(mode: AddressingMode) -> bool {
    mode == AddressingMode::Implied || mode == AddressingMode::Accumulator
}

/// The addressing mode of the currently latched opcode byte; a byte
/// without an assigned instruction is treated as having an implicit
/// operand, so that operand fetching reads nothing.
pub open spec fn current_mode(s: CpuState) -> AddressingMode {
    match spec_decode(s.opcode) {
        Some(i) => i.addressing_mode,
        None => AddressingMode::Implied,
    }
}

/// The operand-fetch step: unless the latched instruction's operand is
/// register-resident, latch the byte at the effective address.
pub open spec fn fetch_step(s: CpuState) -> CpuState {
    if implicit_mode(current_mode(s)) {
        s
    } else {
        CpuState { fetched: s.mem[s.address_absolute as int], ..s }
    }
}

/// One byte pushed onto the fixed stack page: stored at 0x0100 plus the
/// stack pointer, which then decrements with 8-bit wraparound.
pub open spec fn push_step(s: CpuState, value: u8) -> CpuState {
    CpuState {
        mem: s.mem.update(0x100 + s.stack_pointer as int, value),
        stack_pointer: wrap_sub_8(s.stack_pointer, 1),
        ..s
    }
}

/// One byte pulled from the fixed stack page: the stack pointer
/// increments with 8-bit wraparound, then the byte at 0x0100 plus the
/// new stack pointer is read.
pub open spec fn pull_step(s: CpuState) -> (CpuState, u8) {
    let sp1: u8 = wrap_add_8(s.stack_pointer, 1);
    ((CpuState { stack_pointer: sp1, ..s }), s.mem[0x100 + sp1 as int])
}

/// The architectural power-up state bound to the given bus contents:
/// registers cleared, the stack pointer and status register at their
/// non-zero reset defaults (0xFD, and unused bit plus interrupt-disable
/// set).
pub open spec fn initial_state(mem: Seq<u8>) -> CpuState {
    CpuState {
        accumulator: 0,
        x_register: 0,
        y_register: 0,
        stack_pointer: 0xFD,
        program_counter: 0,
        status_register: 0x24,
        address_absolute: 0,
        address_relative: 0,
        opcode: 0,
        cycles: 0,
        fetched: 0,
        mem,
    }
}

/// The reset entry point: registers return to their architectural
/// defaults and the program counter is loaded from the reset vector at
/// 0xFFFC-0xFFFD; the sequence costs 8 cycles.
pub open spec fn reset_step(s: CpuState) -> CpuState {
    CpuState {
        accumulator: 0,
        x_register: 0,
        y_register: 0,
        stack_pointer: 0xFD,
        program_counter: spec_addr_from_bytes(s.mem[0xFFFD], s.mem[0xFFFC]),
        status_register: 0x24,
        address_absolute: 0,
        address_relative: 0,
        opcode: 0,
        cycles: 8,
        fetched: 0,
        mem: s.mem,
    }
}

/// The shared interrupt entry sequence: push the program counter and a
/// status byte with Break clear and the unused bit set, set
/// interrupt-disable, and load the program counter from the vector.
pub open spec fn interrupt_step(s: CpuState, vector: u16, cycles: u8) -> CpuState {
    let s1 = push_step(s, high_byte(s.program_counter));
    let s2 = push_step(s1, low_byte(s.program_counter));
    let pushed: u8 = upd_flag(upd_flag(s.status_register, FLAG_BREAK, false), FLAG_UNUSED, true);
    let s3 = push_step(s2, pushed);
    CpuState {
        status_register: upd_flag(pushed, FLAG_INTERRUPT_DISABLE, true),
        program_counter: spec_addr_from_bytes(
            s3.mem[vector as int + 1],
            s3.mem[vector as int],
        ),
        cycles,
        ..s3
    }
}

/// A maskable interrupt request: honoured through the vector at
/// 0xFFFE-0xFFFF for 7 cycles unless interrupt-disable is set.
pub open spec fn irq_step(s: CpuState) -> CpuState {
    if get_flag(s.status_register, FLAG_INTERRUPT_DISABLE) {
        s
    } else {
        interrupt_step(s, 0xFFFE, 7)
    }
}

/// A non-maskable interrupt: always honoured, through the vector at
/// 0xFFFA-0xFFFB, for 8 cycles.
pub open spec fn nmi_step(s: CpuState) -> CpuState {
    interrupt_step(s, 0xFFFA, 8)
}

/// One clock pulse of the state machine.  Mid-instruction (cycles
/// outstanding) it only counts down.  Between instructions it fetches
/// the opcode byte at the program counter, decodes it, resolves the
/// addressing mode, executes the operation, and charges the base cycle
/// count plus both extra-cycle contributions, all applied atomically
/// within this one pulse.  An unassigned opcode byte faults the step,
/// carrying the offending byte, and leaves the state unchanged.
pub open spec fn clock_step(s: CpuState) -> Result<CpuState, u8> {
    if s.cycles > 0 {
        Ok(CpuState { cycles: (s.cycles - 1) as u8, ..s })
    } else {
        let code: u8 = s.mem[s.program_counter as int];
        match spec_decode(code) {
            None => Err(code),
            Some(instruction) => {
                let s1 = CpuState {
                    opcode: code,
                    program_counter: wrap_add_16(s.program_counter, 1),
                    cycles: instruction.cycles,
                    ..s
                };
                let s2 = addressing_step(instruction.addressing_mode, s1).0;
                let e1: u8 = addressing_step(instruction.addressing_mode, s1).1;
                let s3 = op_step(instruction.opcode, s2).0;
                let e2: u8 = op_step(instruction.opcode, s2).1;
                Ok(CpuState { cycles: (s3.cycles + e1 + e2 - 1) as u8, ..s3 })
            },
        }
    }
}

impl Cpu6502 {
    /// The processor's bus covers the full address space.
    pub open spec fn wf(&self) -> bool {
        self.bus.wf()
    }

    /// A processor at power-up, bound to and owning the given bus.
    pub fn new(bus: Bus) -> (r: Cpu6502)
        requires
            bus.wf(),
        ensures
            r.wf(),
            r@ == initial_state(bus@),
    {
        let r = Cpu6502 {
            bus,
            accumulator: 0,
            x_register: 0,
            y_register: 0,
            stack_pointer: 0xFD,
            program_counter: 0,
            status_register: 0x24,
            address_absolute: 0,
            address_relative: 0,
            opcode: 0,
            cycles: 0,
            fetched: 0,
        };
        proof {
            assert(r@ =~= initial_state(r.bus@));
        }
        r
    }

    /// Reads one byte through the owned flat bus, which always succeeds.
    pub(crate) fn read_u8(&self, address: u16) -> (r: u8)
        requires
            self.wf(),
        ensures
            r == self@.mem[address as int],
    {
        match self.bus.read(address) {
            Some(v) => v,
            None => 0,
        }
    }

    /// Writes one byte through the owned flat bus.
    pub(crate) fn write_u8(&mut self, address: u16, data: u8)
        requires
            old(self).wf(),
        ensures
            final(self).wf(),
            final(self)@ == (CpuState {
                mem: old(self)@.mem.update(address as int, data),
                ..old(self)@
            }),
    {
        self.bus.write(address, data);
        proof {
            assert(self@ =~= (CpuState {
                mem: old(self)@.mem.update(address as int, data),
                ..old(self)@
            }));
        }
    }

    /// Pushes one byte onto the stack page.
    pub(crate) fn push(&mut self, value: u8)
        requires
            old(self).wf(),
        ensures
            final(self).wf(),
            final(self)@ == push_step(old(self)@, value),
    {
        let address: u16 = 0x0100 + self.stack_pointer as u16;
        self.write_u8(address, value);
        self.stack_pointer = wrapping_sub_u8(self.stack_pointer, 1);
        proof {
            assert(self@ =~= push_step(old(self)@, value));
        }
    }

    /// Pulls one byte from the stack page.
    pub(crate) fn pull(&mut self) -> (r: u8)
        requires
            old(self).wf(),
        ensures
            final(self).wf(),
            final(self)@ == pull_step(old(self)@).0,
            r == pull_step(old(self)@).1,
    {
        self.stack_pointer = wrapping_add_u8(self.stack_pointer, 1);
        let address: u16 = 0x0100 + self.stack_pointer as u16;
        let r: u8 = self.read_u8(address);
        proof {
            assert(self@ =~= pull_step(old(self)@).0);
        }
        r
    }

    /// Latches the operand of the in-flight instruction: reads the byte
    /// at the effective address unless the addressing mode keeps the
    /// operand in a register.  Idempotent: a second call without an
    /// intervening `clock` returns the same value.
    pub fn fetch(&mut self) -> (r: u8)
        requires
            old(self).wf(),
        ensures
            final(self).wf(),
            final(self)@ == fetch_step(old(self)@),
            r == fetch_step(old(self)@).fetched,
    {
        let needs_read: bool = match to_instruction(self.opcode) {
            Some(instruction) => !(instruction.addressing_mode == AddressingMode::Implied
                || instruction.addressing_mode == AddressingMode::Accumulator),
            None => false,
        };
        if needs_read {
            self.fetched = self.read_u8(self.address_absolute);
        }
        proof {
            assert(self@ =~= fetch_step(old(self)@));
        }
        self.fetched
    }

    /// Advances the processor by one clock pulse.  Mid-instruction it
    /// only counts the outstanding cycles down; between instructions it
    /// fetches, decodes, resolves and executes the next instruction
    /// atomically and charges its full cycle cost.  An opcode byte with
    /// no assigned instruction is a fatal decode fault: the error names
    /// the byte and the processor state is left unchanged.
    pub fn clock(&mut self) -> (r: Result<(), DecodeError>)
        requires
            old(self).wf(),
        ensures
            final(self).wf(),
            clock_step(old(self)@) is Ok ==> r is Ok && final(self)@ == clock_step(
                old(self)@,
            )->Ok_0,
            clock_step(old(self)@) is Err ==> r is Err && r->Err_0.opcode == clock_step(
                old(self)@,
            )->Err_0 && final(self)@ == old(self)@,
    {
        if self.cycles == 0 {
            let code: u8 = self.read_u8(self.program_counter);
            match to_instruction(code) {
                None => Err(DecodeError { opcode: code }),
                Some(instruction) => {
                    self.opcode = code;
                    self.program_counter = wrapping_add_u16(self.program_counter, 1);
                    self.cycles = instruction.cycles;
                    let ghost s1 = self@;
                    proof {
                        assert(s1 =~= (CpuState {
                            opcode: code,
                            program_counter: wrap_add_16(old(self)@.program_counter, 1),
                            cycles: instruction.cycles,
                            ..old(self)@
                        }));
                    }
                    let e1: u8 = instruction.addressing_mode.execute(self);
                    let ghost s2 = self@;
                    let e2: u8 = instruction.opcode.execute(self);
                    let ghost s3 = self@;
                    proof {
                        lemma_addressing_preserves_cycles(instruction.addressing_mode, s1);
                        lemma_op_preserves_cycles(instruction.opcode, s2);
                    }
                    let total: u16 = instruction.cycles as u16 + e1 as u16 + e2 as u16;
                    self.cycles = (total - 1) as u8;
                    proof {
                        assert(self@ =~= clock_step(old(self)@)->Ok_0);
                    }
                    Ok(())
                },
            }
        } else {
            self.cycles = self.cycles - 1;
            proof {
                assert(self@ =~= clock_step(old(self)@)->Ok_0);
            }
            Ok(())
        }
    }

    /// The reset entry point.
    pub fn reset(&mut self)
        requires
            old(self).wf(),
        ensures
            final(self).wf(),
            final(self)@ == reset_step(old(self)@),
    {
        let lo: u8 = self.read_u8(0xFFFC);
        let hi: u8 = self.read_u8(0xFFFD);
        self.accumulator = 0;
        self.x_register = 0;
        self.y_register = 0;
        self.stack_pointer = 0xFD;
        self.program_counter = addr_from_bytes(hi, lo);
        self.status_register = 0x24;
        self.address_absolute = 0;
        self.address_relative = 0;
        self.opcode = 0;
        self.cycles = 8;
        self.fetched = 0;
        proof {
            assert(self@ =~= reset_step(old(self)@));
        }
    }

    /// The shared body of the two interrupt entry points.
    fn enter_interrupt(&mut self, vector: u16, cycles: u8)
        requires
            old(self).wf(),
            vector < 0xFFFF,
        ensures
            final(self).wf(),
            final(self)@ == interrupt_step(old(self)@, vector, cycles),
    {
        let pc: u16 = self.program_counter;
        self.push(high_byte(pc));
        self.push(low_byte(pc));
        let pushed: u8 = set_flag_val(
            set_flag_val(self.status_register, FLAG_BREAK, false),
            FLAG_UNUSED,
            true,
        );
        self.push(pushed);
        self.status_register = set_flag_val(pushed, FLAG_INTERRUPT_DISABLE, true);
        let lo: u8 = self.read_u8(vector);
        let hi: u8 = self.read_u8(vector + 1);
        self.program_counter = addr_from_bytes(hi, lo);
        self.cycles = cycles;
        proof {
            assert(self@ =~= interrupt_step(old(self)@, vector, cycles));
        }
    }

    /// A maskable interrupt request: ignored while interrupt-disable is
    /// set, otherwise entered through the vector at 0xFFFE-0xFFFF.
    pub fn interrupt_request_signal(&mut self)
        requires
            old(self).wf(),
        ensures
            final(self).wf(),
            final(self)@ == irq_step(old(self)@),
    {
        if self.status_register & FLAG_INTERRUPT_DISABLE == 0 {
            self.enter_interrupt(0xFFFE, 7);
        }
    }

    /// A non-maskable interrupt: always entered, through the vector at
    /// 0xFFFA-0xFFFB.
    pub fn non_maskable_interrupt_request_signal(&mut self)
        requires
            old(self).wf(),
        ensures
            final(self).wf(),
            final(self)@ == nmi_step(old(self)@),
    {
        self.enter_interrupt(0xFFFA, 8);
    }
}

/// Operand fetching is idempotent: fetching twice in succession
/// without an intervening clock pulse yields the same state, and hence
/// the same latched operand value, as fetching once.
pub proof fn lemma_fetch_idempotent(s: CpuState)
    ensures
        fetch_step(fetch_step(s)) == fetch_step(s),
{
    assert(fetch_step(fetch_step(s)) =~= fetch_step(s));
}

impl Read<u16, u8> for Cpu6502 {
    fn read(&self, address: u16) -> Option<u8> {
        <Bus as Read<u16, u8>>::read(&self.bus, address)
    }

    fn read_only(&self, address: u16) -> Option<u8> {
        <Bus as Read<u16, u8>>::read_only(&self.bus, address)
    }
}

impl Write<u16, u8> for Cpu6502 {
    fn write(&mut self, address: u16, data: u8) {
        <Bus as Write<u16, u8>>::write(&mut self.bus, address, data)
    }
}

} // verus!
