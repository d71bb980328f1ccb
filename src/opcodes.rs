use vstd::prelude::*;

verus! {

/// How an instruction finds the memory cell it works on.
#[derive(Clone, Copy, Debug, PartialEq, Eq)]
pub enum AddressingMode {
    Immediate,
    ZeroPage,
    ZeroPageX,
    ZeroPageY,
    Absolute,
    AbsoluteX,
    AbsoluteY,
    IndirectX,
    IndirectY,
    /// No operand address: implied instructions and the accumulator form of
    /// the shift.
    NoneAddressing,
}

/// The instructions this processor implements.
#[derive(Clone, Copy, Debug, PartialEq, Eq)]
pub enum Mnemonic {
    /// Load the accumulator.
    Lda,
    /// Copy the accumulator to index X.
    Tax,
    /// Increment index X.
    Inx,
    /// Logical AND into the accumulator.
    And,
    /// Arithmetic shift left.
    Asl,
    /// Bit test.
    Bit,
    /// Branch if Carry is set.
    Bcs,
    /// Branch if Zero is set.
    Beq,
    /// Halt.
    Brk,
}

/// One entry of the opcode table.
#[derive(Clone, Copy, Debug, PartialEq, Eq)]
pub struct Opcode {
    pub mnemonic: Mnemonic,
    pub mode: AddressingMode,
}

/// Whether the instruction resolves an operand address before it runs.
pub open spec fn needs_address(m: Mnemonic) -> bool {
    match m {
        Mnemonic::Lda | Mnemonic::And | Mnemonic::Bit | Mnemonic::Bcs | Mnemonic::Beq => true,
        _ => false,
    }
}

pub open spec fn entry(mnemonic: Mnemonic, mode: AddressingMode) -> Option<Opcode> {
    Some(Opcode { mnemonic, mode })
}

/// The opcode table: what each byte decodes to, `None` for bytes that have no
/// instruction.
pub open spec fn opcode_table(byte: u8) -> Option<Opcode> {
    match byte {
        0xA9 => entry(Mnemonic::Lda, AddressingMode::Immediate),
        0xA5 => entry(Mnemonic::Lda, AddressingMode::ZeroPage),
        0xB5 => entry(Mnemonic::Lda, AddressingMode::ZeroPageX),
        0xAD => entry(Mnemonic::Lda, AddressingMode::Absolute),
        0xBD => entry(Mnemonic::Lda, AddressingMode::AbsoluteX),
        0xB9 => entry(Mnemonic::Lda, AddressingMode::AbsoluteY),
        0xA1 => entry(Mnemonic::Lda, AddressingMode::IndirectX),
        0xB1 => entry(Mnemonic::Lda, AddressingMode::IndirectY),
        0x29 => entry(Mnemonic::And, AddressingMode::Immediate),
        0x25 => entry(Mnemonic::And, AddressingMode::ZeroPage),
        0x35 => entry(Mnemonic::And, AddressingMode::ZeroPageX),
        0x2D => entry(Mnemonic::And, AddressingMode::Absolute),
        0x3D => entry(Mnemonic::And, AddressingMode::AbsoluteX),
        0x39 => entry(Mnemonic::And, AddressingMode::AbsoluteY),
        0x21 => entry(Mnemonic::And, AddressingMode::IndirectX),
        0x31 => entry(Mnemonic::And, AddressingMode::IndirectY),
        0x0A => entry(Mnemonic::Asl, AddressingMode::NoneAddressing),
        0x06 => entry(Mnemonic::Asl, AddressingMode::ZeroPage),
        0x16 => entry(Mnemonic::Asl, AddressingMode::ZeroPageX),
        0x0E => entry(Mnemonic::Asl, AddressingMode::Absolute),
        0x1E => entry(Mnemonic::Asl, AddressingMode::AbsoluteX),
        0x24 => entry(Mnemonic::Bit, AddressingMode::ZeroPage),
        0x2C => entry(Mnemonic::Bit, AddressingMode::Absolute),
        0xB0 => entry(Mnemonic::Bcs, AddressingMode::Immediate),
        0xF0 => entry(Mnemonic::Beq, AddressingMode::Immediate),
        0xAA => entry(Mnemonic::Tax, AddressingMode::NoneAddressing),
        0xE8 => entry(Mnemonic::Inx, AddressingMode::NoneAddressing),
        0x00 => entry(Mnemonic::Brk, AddressingMode::NoneAddressing),
        _ => None,
    }
}

/// Looks a byte up in the opcode table.
pub fn decode(byte: u8) -> (r: Option<Opcode>)
    ensures
        r == opcode_table(byte),
{
    let (mnemonic, mode) = match byte {
        0xA9 => (Mnemonic::Lda, AddressingMode::Immediate),
        0xA5 => (Mnemonic::Lda, AddressingMode::ZeroPage),
        0xB5 => (Mnemonic::Lda, AddressingMode::ZeroPageX),
        0xAD => (Mnemonic::Lda, AddressingMode::Absolute),
        0xBD => (Mnemonic::Lda, AddressingMode::AbsoluteX),
        0xB9 => (Mnemonic::Lda, AddressingMode::AbsoluteY),
        0xA1 => (Mnemonic::Lda, AddressingMode::IndirectX),
        0xB1 => (Mnemonic::Lda, AddressingMode::IndirectY),
        0x29 => (Mnemonic::And, AddressingMode::Immediate),
        0x25 => (Mnemonic::And, AddressingMode::ZeroPage),
        0x35 => (Mnemonic::And, AddressingMode::ZeroPageX),
        0x2D => (Mnemonic::And, AddressingMode::Absolute),
        0x3D => (Mnemonic::And, AddressingMode::AbsoluteX),
        0x39 => (Mnemonic::And, AddressingMode::AbsoluteY),
        0x21 => (Mnemonic::And, AddressingMode::IndirectX),
        0x31 => (Mnemonic::And, AddressingMode::IndirectY),
        0x0A => (Mnemonic::Asl, AddressingMode::NoneAddressing),
        0x06 => (Mnemonic::Asl, AddressingMode::ZeroPage),
        0x16 => (Mnemonic::Asl, AddressingMode::ZeroPageX),
        0x0E => (Mnemonic::Asl, AddressingMode::Absolute),
        0x1E => (Mnemonic::Asl, AddressingMode::AbsoluteX),
        0x24 => (Mnemonic::Bit, AddressingMode::ZeroPage),
        0x2C => (Mnemonic::Bit, AddressingMode::Absolute),
        0xB0 => (Mnemonic::Bcs, AddressingMode::Immediate),
        0xF0 => (Mnemonic::Beq, AddressingMode::Immediate),
        0xAA => (Mnemonic::Tax, AddressingMode::NoneAddressing),
        0xE8 => (Mnemonic::Inx, AddressingMode::NoneAddressing),
        0x00 => (Mnemonic::Brk, AddressingMode::NoneAddressing),
        _ => {
            return None;
        },
    };
    Some(Opcode { mnemonic, mode })
}

/// Whether an entry's addressing mode fits its instruction: those that resolve
/// an operand address have a real mode, the implied ones (copy, increment, halt)
/// have none, and the shift works either on the accumulator (no mode) or on
/// memory.
pub open spec fn valid_entry(op: Opcode) -> bool {
    if needs_address(op.mnemonic) {
        !(op.mode is NoneAddressing)
    } else {
        op.mnemonic is Asl || op.mode is NoneAddressing
    }
}

/// Every entry of the opcode table is well formed.
pub proof fn lemma_table_valid(byte: u8)
    ensures
        opcode_table(byte) matches Some(op) ==> valid_entry(op),
{
}

} // verus!
