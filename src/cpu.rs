use vstd::prelude::*;

use crate::flags::{
    flag_set, lemma_zero_negative, set_if, with_zero_negative, CARRY, NEGATIVE, OVERFLOW, ZERO,
};
use crate::memory::{next_address, with_word, word_at, Memory, MEMORY_SIZE};
use crate::opcodes::{
    decode, lemma_table_valid, opcode_table, valid_entry, AddressingMode, Mnemonic, Opcode,
};

verus! {

/// Where `load_program` places a program, and what it writes to the reset vector.
pub const PROGRAM_ORIGIN: u16 = 0x8000;

/// Address of the little-endian reset vector.
pub const RESET_VECTOR: u16 = 0xFFFC;

/// Longest program that fits between the load origin and the reset vector.
pub const MAX_PROGRAM_LEN: usize = 0x7FFC;

/// A fault that stops execution.
#[derive(Clone, Copy, Debug, PartialEq, Eq)]
pub enum CpuError {
    /// The byte at `address` decodes to no instruction.
    IllegalOpcode { opcode: u8, address: u16 },
    /// The program does not fit before the reset vector.
    ProgramTooLarge { length: usize },
    /// The instruction budget ran out before a halt.
    StepLimitReached,
}

/// What a single instruction did to the dispatch loop.
#[derive(Clone, Copy, Debug, PartialEq, Eq)]
pub enum StepOutcome {
    /// An instruction ran; the loop goes on.
    Continue,
    /// The halt instruction was decoded.
    Halt,
}

/// The processor as a mathematical value: registers, status and the 64 KiB of
/// memory.
pub ghost struct CpuState {
    pub register_a: u8,
    pub register_x: u8,
    pub register_y: u8,
    pub status_register: u8,
    pub program_counter: u16,
    pub memory: Seq<u8>,
}

/// `addr + n`, wrapping within the 16-bit address space.
pub open spec fn advance(addr: u16, n: int) -> u16 {
    ((addr as int + n) % 0x10000) as u16
}

/// Zero-page indexing: `base + index` wrapped within 0x00..=0xFF.
pub open spec fn zero_page_index(base: u8, index: u8) -> u16 {
    ((base as int + index as int) % 0x100) as u16
}

/// A byte shifted left by one: bit 7 is dropped and bit 0 becomes 0.
pub open spec fn shifted_left(v: u8) -> u8 {
    ((v as int * 2) % 0x100) as u8
}

impl CpuState {
    pub open spec fn with_status(self, status: u8) -> CpuState {
        CpuState { status_register: status, ..self }
    }

    pub open spec fn with_pc(self, pc: u16) -> CpuState {
        CpuState { program_counter: pc, ..self }
    }

    /// The byte at `addr`.
    pub open spec fn byte(self, addr: u16) -> u8 {
        self.memory[addr as int]
    }

    /// The byte at the program counter: the next opcode or operand byte.
    pub open spec fn next_byte(self) -> u8 {
        self.byte(self.program_counter)
    }
}

/// For the indirect modes, the zero-page address that holds the pointer.
pub open spec fn pointer_address(s: CpuState, mode: AddressingMode) -> u16 {
    match mode {
        AddressingMode::IndirectX => zero_page_index(s.next_byte(), s.register_x),
        _ => s.next_byte() as u16,
    }
}

/// The effective address of an operand in `mode`, with the program counter on
/// the first operand byte.
pub open spec fn operand_address(s: CpuState, mode: AddressingMode) -> u16 {
    let pc = s.program_counter;
    match mode {
        AddressingMode::Immediate => pc,
        AddressingMode::ZeroPage => s.next_byte() as u16,
        AddressingMode::ZeroPageX => zero_page_index(s.next_byte(), s.register_x),
        AddressingMode::ZeroPageY => zero_page_index(s.next_byte(), s.register_y),
        AddressingMode::Absolute => word_at(s.memory, pc),
        AddressingMode::AbsoluteX => advance(word_at(s.memory, pc), s.register_x as int),
        AddressingMode::AbsoluteY => advance(word_at(s.memory, pc), s.register_y as int),
        AddressingMode::IndirectX => word_at(s.memory, pointer_address(s, mode)),
        AddressingMode::IndirectY => advance(
            word_at(s.memory, pointer_address(s, mode)),
            s.register_y as int,
        ),
        AddressingMode::NoneAddressing => pc,
    }
}

/// Number of operand bytes that `mode` consumes.
pub open spec fn operand_len(mode: AddressingMode) -> int {
    match mode {
        AddressingMode::Absolute | AddressingMode::AbsoluteX | AddressingMode::AbsoluteY => 2,
        AddressingMode::NoneAddressing => 0,
        _ => 1,
    }
}

/// The state once the operand bytes of `mode` have been consumed.
pub open spec fn past_operand(s: CpuState, mode: AddressingMode) -> CpuState {
    s.with_pc(advance(s.program_counter, operand_len(mode)))
}

/// Load the accumulator from `addr`.
pub open spec fn lda_result(s: CpuState, addr: u16) -> CpuState {
    let v = s.byte(addr);
    CpuState {
        register_a: v,
        status_register: with_zero_negative(s.status_register, v),
        ..s
    }
}

/// AND the byte at `addr` into the accumulator.
pub open spec fn and_result(s: CpuState, addr: u16) -> CpuState {
    let v = s.register_a & s.byte(addr);
    CpuState {
        register_a: v,
        status_register: with_zero_negative(s.status_register, v),
        ..s
    }
}

/// Status after shifting `v` left: Carry takes bit 7 of `v`, Zero and Negative
/// follow the shifted byte.
pub open spec fn shift_status(status: u8, v: u8) -> u8 {
    with_zero_negative(set_if(status, CARRY, v & NEGATIVE == NEGATIVE), shifted_left(v))
}

/// Shift the byte at `addr` left in place.
pub open spec fn asl_result(s: CpuState, addr: u16) -> CpuState {
    let v = s.byte(addr);
    CpuState {
        memory: s.memory.update(addr as int, shifted_left(v)),
        status_register: shift_status(s.status_register, v),
        ..s
    }
}

/// Shift the accumulator left.
pub open spec fn asl_accumulator_result(s: CpuState) -> CpuState {
    CpuState {
        register_a: shifted_left(s.register_a),
        status_register: shift_status(s.status_register, s.register_a),
        ..s
    }
}

/// Test the byte at `addr` against the accumulator: Zero from their AND,
/// Negative and Overflow from bits 7 and 6 of the byte.
pub open spec fn bit_result(s: CpuState, addr: u16) -> CpuState {
    let v = s.byte(addr);
    let status = set_if(s.status_register, ZERO, s.register_a & v == 0);
    let status = set_if(status, NEGATIVE, v & NEGATIVE == NEGATIVE);
    s.with_status(set_if(status, OVERFLOW, v & OVERFLOW == OVERFLOW))
}

/// Copy the accumulator to index X.
pub open spec fn tax_result(s: CpuState) -> CpuState {
    CpuState {
        register_x: s.register_a,
        status_register: with_zero_negative(s.status_register, s.register_a),
        ..s
    }
}

/// Increment index X, wrapping from 255 to 0.
pub open spec fn inx_result(s: CpuState) -> CpuState {
    let x = ((s.register_x as int + 1) % 0x100) as u8;
    CpuState { register_x: x, status_register: with_zero_negative(s.status_register, x), ..s }
}

/// A relative branch with the program counter on the offset byte: when `taken`
/// the counter becomes the address after the offset byte plus the offset (an
/// unsigned byte), else it just skips the offset byte.
pub open spec fn branch_result(s: CpuState, taken: bool) -> CpuState {
    let after = advance(s.program_counter, 1);
    if taken {
        s.with_pc(advance(after, s.next_byte() as int))
    } else {
        s.with_pc(after)
    }
}

/// What the instruction `op` does, with the program counter just past its
/// opcode byte.
pub open spec fn execute_spec(s: CpuState, op: Opcode) -> CpuState {
    let addr = operand_address(s, op.mode);
    let t = past_operand(s, op.mode);
    match op.mnemonic {
        Mnemonic::Lda => lda_result(t, addr),
        Mnemonic::And => and_result(t, addr),
        Mnemonic::Bit => bit_result(t, addr),
        Mnemonic::Asl => match op.mode {
            AddressingMode::NoneAddressing => asl_accumulator_result(s),
            _ => asl_result(t, addr),
        },
        Mnemonic::Tax => tax_result(s),
        Mnemonic::Inx => inx_result(s),
        Mnemonic::Bcs => branch_result(s, flag_set(s.status_register, CARRY)),
        Mnemonic::Beq => branch_result(s, flag_set(s.status_register, ZERO)),
        Mnemonic::Brk => s,
    }
}

/// One fetch-decode-execute step. An illegal opcode faults and leaves the state
/// as it was; the halt opcode only moves the counter past itself.
pub open spec fn step_spec(s: CpuState) -> (CpuState, Result<StepOutcome, CpuError>) {
    let opcode = s.next_byte();
    match opcode_table(opcode) {
        None => (s, Err(CpuError::IllegalOpcode { opcode, address: s.program_counter })),
        Some(op) => {
            let t = s.with_pc(advance(s.program_counter, 1));
            if op.mnemonic is Brk {
                (t, Ok(StepOutcome::Halt))
            } else {
                (execute_spec(t, op), Ok(StepOutcome::Continue))
            }
        },
    }
}

/// The dispatch loop run for at most `fuel` instructions.
pub open spec fn run_spec(s: CpuState, fuel: nat) -> (CpuState, Result<(), CpuError>)
    decreases fuel,
{
    if fuel == 0 {
        (s, Err(CpuError::StepLimitReached))
    } else {
        let (t, r) = step_spec(s);
        match r {
            Err(e) => (t, Err(e)),
            Ok(StepOutcome::Halt) => (t, Ok(())),
            Ok(StepOutcome::Continue) => run_spec(t, (fuel - 1) as nat),
        }
    }
}

/// Registers and status cleared, the counter taken from the reset vector,
/// memory kept.
pub open spec fn reset_spec(s: CpuState) -> CpuState {
    CpuState {
        register_a: 0,
        register_x: 0,
        register_y: 0,
        status_register: 0,
        program_counter: word_at(s.memory, RESET_VECTOR),
        memory: s.memory,
    }
}

/// `mem` with the first `n` bytes of `program` copied to the load origin.
pub open spec fn copy_to_origin(mem: Seq<u8>, program: Seq<u8>, n: int) -> Seq<u8> {
    let origin = PROGRAM_ORIGIN as int;
    Seq::new(
        mem.len(),
        |i: int|
            if origin <= i < origin + n {
                program[i - origin]
            } else {
                mem[i]
            },
    )
}

/// `mem` with `program` copied to the load origin and the origin written to the
/// reset vector.
pub open spec fn loaded_memory(mem: Seq<u8>, program: Seq<u8>) -> Seq<u8> {
    with_word(copy_to_origin(mem, program, program.len() as int), RESET_VECTOR, PROGRAM_ORIGIN)
}

/// The state after loading `program`.
pub open spec fn load_spec(s: CpuState, program: Seq<u8>) -> CpuState {
    CpuState { memory: loaded_memory(s.memory, program), ..s }
}

/// The emulated processor: registers, status, program counter and its own
/// memory.
pub struct CPU {
    pub register_a: u8,
    pub register_x: u8,
    pub register_y: u8,
    pub status_register: u8,
    pub program_counter: u16,
    memory: Memory,
}

impl View for CPU {
    type V = CpuState;

    closed spec fn view(&self) -> CpuState {
        CpuState {
            register_a: self.register_a,
            register_x: self.register_x,
            register_y: self.register_y,
            status_register: self.status_register,
            program_counter: self.program_counter,
            memory: self.memory@,
        }
    }
}

impl CPU {
    /// The model's memory holds one byte per address.
    pub proof fn lemma_mem_size(cpu: CPU)
        ensures
            cpu@.memory.len() == MEMORY_SIZE,
    {
        Memory::lemma_size(cpu.memory);
    }

    /// A processor with registers, status, counter and memory all zero.
    pub fn new() -> (cpu: CPU)
        ensures
            cpu@ == (CpuState {
                register_a: 0,
                register_x: 0,
                register_y: 0,
                status_register: 0,
                program_counter: 0,
                memory: Seq::new(MEMORY_SIZE as nat, |i: int| 0u8),
            }),
    {
        CPU {
            register_a: 0,
            register_x: 0,
            register_y: 0,
            status_register: 0,
            program_counter: 0,
            memory: Memory::new(),
        }
    }

    /// The byte at `addr`.
    pub fn mem_read(&self, addr: u16) -> (r: u8)
        ensures
            r == self@.byte(addr),
    {
        self.memory.read_byte(addr)
    }

    /// Stores `value` at `addr`.
    pub fn mem_write(&mut self, addr: u16, value: u8)
        ensures
            final(self)@ == (CpuState {
                memory: old(self)@.memory.update(addr as int, value),
                ..old(self)@
            }),
    {
        self.memory.write_byte(addr, value);
    }

    /// The little-endian word at `addr` and the following address.
    pub fn mem_read_u16(&self, addr: u16) -> (r: u16)
        ensures
            r == word_at(self@.memory, addr),
    {
        self.memory.read_word(addr)
    }

    /// Stores `value` little-endian at `addr` and the following address.
    pub fn mem_write_u16(&mut self, addr: u16, value: u16)
        ensures
            final(self)@ == (CpuState {
                memory: with_word(old(self)@.memory, addr, value),
                ..old(self)@
            }),
    {
        self.memory.write_word(addr, value);
    }

    /// Resolves the operand address of `mode` and moves the counter past the
    /// operand bytes.
    fn get_operand_address(&mut self, mode: &AddressingMode) -> (addr: u16)
        requires
            !(*mode is NoneAddressing),
        ensures
            addr == operand_address(old(self)@, *mode),
            final(self)@ == past_operand(old(self)@, *mode),
    {
        let pc = self.program_counter;
        match mode {
            AddressingMode::Immediate => {
                self.program_counter = pc.wrapping_add(1);
                pc
            },
            AddressingMode::ZeroPage => {
                self.program_counter = pc.wrapping_add(1);
                self.mem_read(pc) as u16
            },
            AddressingMode::ZeroPageX => {
                self.program_counter = pc.wrapping_add(1);
                self.mem_read(pc).wrapping_add(self.register_x) as u16
            },
            AddressingMode::ZeroPageY => {
                self.program_counter = pc.wrapping_add(1);
                self.mem_read(pc).wrapping_add(self.register_y) as u16
            },
            AddressingMode::Absolute => {
                self.program_counter = pc.wrapping_add(2);
                self.mem_read_u16(pc)
            },
            AddressingMode::AbsoluteX => {
                self.program_counter = pc.wrapping_add(2);
                self.mem_read_u16(pc).wrapping_add(self.register_x as u16)
            },
            AddressingMode::AbsoluteY => {
                self.program_counter = pc.wrapping_add(2);
                self.mem_read_u16(pc).wrapping_add(self.register_y as u16)
            },
            AddressingMode::IndirectX => {
                self.program_counter = pc.wrapping_add(1);
                let ptr = self.mem_read(pc);
                self.mem_read_u16(ptr.wrapping_add(self.register_x) as u16)
            },
            AddressingMode::IndirectY => {
                self.program_counter = pc.wrapping_add(1);
                let ptr = self.mem_read(pc);
                self.mem_read_u16(ptr as u16).wrapping_add(self.register_y as u16)
            },
            AddressingMode::NoneAddressing => {
                proof {
                    assert(false);
                }
                pc
            },
        }
    }

    fn set_zero_flag(&mut self, value: u8)
        ensures
            final(self)@ == old(self)@.with_status(
                set_if(old(self)@.status_register, ZERO, value == 0),
            ),
    {
        if value == 0 {
            self.status_register = self.status_register | ZERO;
        } else {
            self.status_register = self.status_register & !ZERO;
        }
    }

    fn set_negative_flag(&mut self, value: u8)
        ensures
            final(self)@ == old(self)@.with_status(
                set_if(old(self)@.status_register, NEGATIVE, value & NEGATIVE == NEGATIVE),
            ),
    {
        if value & NEGATIVE == NEGATIVE {
            self.status_register = self.status_register | NEGATIVE;
        } else {
            self.status_register = self.status_register & !NEGATIVE;
        }
    }

    /// Carry takes bit 7 of `value`, the bit a left shift pushes out.
    fn set_carry_flag(&mut self, value: u8)
        ensures
            final(self)@ == old(self)@.with_status(
                set_if(old(self)@.status_register, CARRY, value & NEGATIVE == NEGATIVE),
            ),
    {
        if value & NEGATIVE == NEGATIVE {
            self.status_register = self.status_register | CARRY;
        } else {
            self.status_register = self.status_register & !CARRY;
        }
    }

    /// Overflow mirrors bit 6 of `value`.
    fn set_overflow_flag(&mut self, value: u8)
        ensures
            final(self)@ == old(self)@.with_status(
                set_if(old(self)@.status_register, OVERFLOW, value & OVERFLOW == OVERFLOW),
            ),
    {
        if value & OVERFLOW == OVERFLOW {
            self.status_register = self.status_register | OVERFLOW;
        } else {
            self.status_register = self.status_register & !OVERFLOW;
        }
    }

    fn lda(&mut self, address: u16)
        ensures
            final(self)@ == lda_result(old(self)@, address),
    {
        let value = self.mem_read(address);
        self.register_a = value;
        self.set_zero_flag(value);
        self.set_negative_flag(value);
    }

    fn and(&mut self, address: u16)
        ensures
            final(self)@ == and_result(old(self)@, address),
    {
        let value = self.mem_read(address);
        self.register_a = self.register_a & value;
        let result = self.register_a;
        self.set_zero_flag(result);
        self.set_negative_flag(result);
    }

    fn asl(&mut self, address: u16)
        ensures
            final(self)@ == asl_result(old(self)@, address),
    {
        let value = self.mem_read(address);
        self.set_carry_flag(value);
        let shifted = value << 1;
        assert(shifted == shifted_left(value)) by (bit_vector)
            requires
                shifted == value << 1,
        ;
        self.mem_write(address, shifted);
        self.set_zero_flag(shifted);
        self.set_negative_flag(shifted);
    }

    fn asl_accumulator(&mut self)
        ensures
            final(self)@ == asl_accumulator_result(old(self)@),
    {
        let value = self.register_a;
        self.set_carry_flag(value);
        let shifted = value << 1;
        assert(shifted == shifted_left(value)) by (bit_vector)
            requires
                shifted == value << 1,
        ;
        self.register_a = shifted;
        self.set_zero_flag(shifted);
        self.set_negative_flag(shifted);
    }

    fn bit(&mut self, address: u16)
        ensures
            final(self)@ == bit_result(old(self)@, address),
    {
        let value = self.mem_read(address);
        let result = self.register_a & value;
        self.set_zero_flag(result);
        self.set_negative_flag(value);
        self.set_overflow_flag(value);
    }

    fn tax(&mut self)
        ensures
            final(self)@ == tax_result(old(self)@),
    {
        let value = self.register_a;
        self.register_x = value;
        self.set_zero_flag(value);
        self.set_negative_flag(value);
    }

    fn inx(&mut self)
        ensures
            final(self)@ == inx_result(old(self)@),
    {
        let value = self.register_x.wrapping_add(1);
        self.register_x = value;
        self.set_zero_flag(value);
        self.set_negative_flag(value);
    }

    /// Takes the relative branch when `taken`, else skips the offset byte.
    fn branch_if_true(&mut self, taken: bool)
        ensures
            final(self)@ == branch_result(old(self)@, taken),
    {
        if taken {
            let address = self.get_operand_address(&AddressingMode::Immediate);
            let offset = self.mem_read(address);
            self.program_counter = self.program_counter.wrapping_add(offset as u16);
        } else {
            self.program_counter = self.program_counter.wrapping_add(1);
        }
    }

    /// Runs the instruction `op`, with the counter just past its opcode byte.
    fn execute(&mut self, op: Opcode)
        requires
            valid_entry(op),
        ensures
            final(self)@ == execute_spec(old(self)@, op),
    {
        let mode = op.mode;
        match op.mnemonic {
            Mnemonic::Lda => {
                let address = self.get_operand_address(&mode);
                self.lda(address);
            },
            Mnemonic::And => {
                let address = self.get_operand_address(&mode);
                self.and(address);
            },
            Mnemonic::Bit => {
                let address = self.get_operand_address(&mode);
                self.bit(address);
            },
            Mnemonic::Asl => match mode {
                AddressingMode::NoneAddressing => self.asl_accumulator(),
                _ => {
                    let address = self.get_operand_address(&mode);
                    self.asl(address);
                },
            },
            Mnemonic::Tax => self.tax(),
            Mnemonic::Inx => self.inx(),
            Mnemonic::Bcs => {
                let taken = self.status_register & CARRY == CARRY;
                self.branch_if_true(taken);
            },
            Mnemonic::Beq => {
                let taken = self.status_register & ZERO == ZERO;
                self.branch_if_true(taken);
            },
            Mnemonic::Brk => {},
        }
    }

    /// Fetches, decodes and runs one instruction. An opcode with no table entry
    /// faults with its value and address and changes nothing.
    pub fn step(&mut self) -> (r: Result<StepOutcome, CpuError>)
        ensures
            (final(self)@, r) == step_spec(old(self)@),
    {
        let address = self.program_counter;
        let opcode = self.mem_read(address);
        match decode(opcode) {
            None => Err(CpuError::IllegalOpcode { opcode, address }),
            Some(op) => {
                proof {
                    lemma_table_valid(opcode);
                }
                self.program_counter = address.wrapping_add(1);
                match op.mnemonic {
                    Mnemonic::Brk => Ok(StepOutcome::Halt),
                    _ => {
                        self.execute(op);
                        Ok(StepOutcome::Continue)
                    },
                }
            },
        }
    }

    /// Runs the dispatch loop from the current counter until a halt or a fault,
    /// for at most `max_steps` instructions.
    pub fn interpret_with_limit(&mut self, max_steps: u64) -> (r: Result<(), CpuError>)
        ensures
            (final(self)@, r) == run_spec(old(self)@, max_steps as nat),
    {
        let mut remaining = max_steps;
        while remaining > 0
            invariant
                run_spec(self@, remaining as nat) == run_spec(old(self)@, max_steps as nat),
            decreases remaining,
        {
            let r = self.step();
            match r {
                Err(e) => {
                    return Err(e);
                },
                Ok(StepOutcome::Halt) => {
                    return Ok(());
                },
                Ok(StepOutcome::Continue) => {},
            }
            remaining = remaining - 1;
        }
        Err(CpuError::StepLimitReached)
    }

    /// Runs the dispatch loop from the current counter until a halt or a fault,
    /// without reloading or resetting. The budget of `u64::MAX` instructions
    /// only exists so that the loop provably ends.
    pub fn interpret(&mut self) -> (r: Result<(), CpuError>)
        ensures
            (final(self)@, r) == run_spec(old(self)@, u64::MAX as nat),
    {
        self.interpret_with_limit(u64::MAX)
    }

    /// Clears the registers and status and takes the counter from the reset
    /// vector. Memory is kept.
    pub fn reset(&mut self)
        ensures
            final(self)@ == reset_spec(old(self)@),
    {
        self.register_a = 0;
        self.register_x = 0;
        self.register_y = 0;
        self.status_register = 0;
        self.program_counter = self.mem_read_u16(RESET_VECTOR);
    }

    /// Copies `program` to the load origin and points the reset vector at it.
    /// A program that would reach the reset vector is refused and nothing
    /// changes.
    pub fn load_program(&mut self, program: Vec<u8>) -> (r: Result<(), CpuError>)
        ensures
            program.len() > MAX_PROGRAM_LEN ==> r == Err::<(), CpuError>(
                CpuError::ProgramTooLarge { length: program.len() },
            ) && final(self)@ == old(self)@,
            program.len() <= MAX_PROGRAM_LEN ==> r == Ok::<(), CpuError>(())
                && final(self)@ == load_spec(old(self)@, program@),
    {
        let length = program.len();
        if length > MAX_PROGRAM_LEN {
            return Err(CpuError::ProgramTooLarge { length });
        }
        proof {
            CPU::lemma_mem_size(*self);
            assert(copy_to_origin(old(self)@.memory, program@, 0) =~= old(self)@.memory);
        }
        let mut i: usize = 0;
        while i < length
            invariant
                length == program.len(),
                length <= MAX_PROGRAM_LEN,
                i <= length,
                old(self)@.memory.len() == MEMORY_SIZE,
                self@ == (CpuState {
                    memory: copy_to_origin(old(self)@.memory, program@, i as int),
                    ..old(self)@
                }),
            decreases length - i,
        {
            self.mem_write(PROGRAM_ORIGIN + i as u16, program[i]);
            i = i + 1;
            assert(self@.memory =~= copy_to_origin(old(self)@.memory, program@, i as int));
        }
        self.mem_write_u16(RESET_VECTOR, PROGRAM_ORIGIN);
        Ok(())
    }

    /// Loads `program`, resets, and runs the dispatch loop until a halt or a
    /// fault.
    pub fn run_program(&mut self, program: Vec<u8>) -> (r: Result<(), CpuError>)
        ensures
            program.len() > MAX_PROGRAM_LEN ==> r == Err::<(), CpuError>(
                CpuError::ProgramTooLarge { length: program.len() },
            ) && final(self)@ == old(self)@,
            program.len() <= MAX_PROGRAM_LEN ==> (final(self)@, r) == run_spec(
                reset_spec(load_spec(old(self)@, program@)),
                u64::MAX as nat,
            ),
    {
        match self.load_program(program) {
            Err(e) => Err(e),
            Ok(()) => {
                self.reset();
                self.interpret()
            },
        }
    }
}

/// Whether the instruction recomputes Zero and Negative from the byte it
/// produces.
pub open spec fn sets_zero_negative(m: Mnemonic) -> bool {
    match m {
        Mnemonic::Lda | Mnemonic::And | Mnemonic::Tax | Mnemonic::Inx | Mnemonic::Asl => true,
        _ => false,
    }
}

/// The byte that the instruction `op` produces: the accumulator, index X, or
/// the shifted memory cell.
pub open spec fn result_byte(s: CpuState, op: Opcode) -> u8 {
    let t = execute_spec(s, op);
    match op.mnemonic {
        Mnemonic::Tax | Mnemonic::Inx => t.register_x,
        Mnemonic::Asl => match op.mode {
            AddressingMode::NoneAddressing => t.register_a,
            _ => t.byte(operand_address(s, op.mode)),
        },
        _ => t.register_a,
    }
}

/// Whichever instruction produced it, a result byte sets Zero exactly when it is
/// 0 and Negative exactly when its bit 7 is 1.
pub proof fn lemma_result_flags(s: CpuState, op: Opcode)
    requires
        s.memory.len() == MEMORY_SIZE,
        sets_zero_negative(op.mnemonic),
    ensures
        flag_set(execute_spec(s, op).status_register, ZERO) <==> result_byte(s, op) == 0,
        flag_set(execute_spec(s, op).status_register, NEGATIVE) <==> result_byte(s, op) >= 0x80,
{
    let addr = operand_address(s, op.mode);
    let t = past_operand(s, op.mode);
    match op.mnemonic {
        Mnemonic::Lda => lemma_zero_negative(t.status_register, t.byte(addr)),
        Mnemonic::And => lemma_zero_negative(t.status_register, t.register_a & t.byte(addr)),
        Mnemonic::Tax => lemma_zero_negative(s.status_register, s.register_a),
        Mnemonic::Inx => lemma_zero_negative(
            s.status_register,
            ((s.register_x as int + 1) % 0x100) as u8,
        ),
        Mnemonic::Asl => match op.mode {
            AddressingMode::NoneAddressing => lemma_zero_negative(
                set_if(s.status_register, CARRY, s.register_a & NEGATIVE == NEGATIVE),
                shifted_left(s.register_a),
            ),
            _ => lemma_zero_negative(
                set_if(t.status_register, CARRY, t.byte(addr) & NEGATIVE == NEGATIVE),
                shifted_left(t.byte(addr)),
            ),
        },
        _ => {},
    }
}

/// Zero-page indexing wraps within the zero page: the zero-page indexed modes
/// address a cell at or below 0x00FF, and the indirect modes read their pointer
/// from there.
pub proof fn lemma_zero_page_wraps(s: CpuState, mode: AddressingMode)
    ensures
        mode is ZeroPageX ==> operand_address(s, mode) == (s.next_byte() as int + s.register_x)
            % 0x100,
        mode is ZeroPageY ==> operand_address(s, mode) == (s.next_byte() as int + s.register_y)
            % 0x100,
        mode is IndirectX ==> pointer_address(s, mode) == (s.next_byte() as int + s.register_x)
            % 0x100,
        mode is IndirectY ==> pointer_address(s, mode) == s.next_byte(),
        mode is ZeroPageX || mode is ZeroPageY ==> operand_address(s, mode) <= 0xFF,
        mode is IndirectX || mode is IndirectY ==> pointer_address(s, mode) <= 0xFF,
{
}

/// A byte with no table entry faults with its value and address, and leaves
/// every register and memory cell as it was, whatever budget the loop has left.
pub proof fn lemma_illegal_opcode(s: CpuState, fuel: nat)
    requires
        opcode_table(s.next_byte()) is None,
        fuel > 0,
    ensures
        step_spec(s) == (s, Err::<StepOutcome, CpuError>(
            CpuError::IllegalOpcode { opcode: s.next_byte(), address: s.program_counter },
        )),
        run_spec(s, fuel) == (s, Err::<(), CpuError>(
            CpuError::IllegalOpcode { opcode: s.next_byte(), address: s.program_counter },
        )),
{
}

} // verus!
