//! The ULP co-processor's debug registers (`SENS_SAR_COCPU_STATE_REG` and
//! `SENS_SAR_COCPU_DEBUG_REG`), decoded from raw register words, and the
//! decoding of the instruction at the co-processor's program counter.

use vstd::prelude::*;
use riscv_decode::{DecodingError, Instruction};

verus! {

/// Where the ULP core's memory starts in the HP core's address space.
pub const COPROC_ADDRESS_BASE: usize = 0x5000_0000;

#[verifier::external_type_specification]
#[verifier::external_body]
pub struct ExInstruction(riscv_decode::Instruction);

#[verifier::external_type_specification]
#[verifier::external_body]
pub struct ExDecodingError(riscv_decode::DecodingError);

/// The raw words of the two co-processor debug registers, read after the
/// debug snapshot was triggered.
#[derive(Clone, Copy, Debug, PartialEq, Eq, Structural)]
pub struct CocpuRegisters {
    /// `SENS_SAR_COCPU_STATE_REG`.
    pub state: u32,
    /// `SENS_SAR_COCPU_DEBUG_REG`.
    pub debug: u32,
}

/// A value decoded from the co-processor's debug registers.
pub trait FromRegister: Sized {
    fn read(regs: CocpuRegisters) -> Self;
}

/// Bit `n` of `word`.
pub open spec fn bit(word: u32, n: u32) -> bool {
    (word >> n) & 1 != 0
}

/// The co-processor's state flags.
#[derive(Clone, Copy, Debug, PartialEq, Eq, Structural)]
pub struct SarCocpuState {
    pub clk_en_st: bool,
    pub reset_n: bool,
    pub eoi: bool,
    pub trap: bool,
    pub ebreak: bool,
}

impl FromRegister for SarCocpuState {
    /// Bits 26 to 30 of the state register.
    fn read(regs: CocpuRegisters) -> (r: SarCocpuState)
        ensures
            r.clk_en_st == bit(regs.state, 26),
            r.reset_n == bit(regs.state, 27),
            r.eoi == bit(regs.state, 28),
            r.trap == bit(regs.state, 29),
            r.ebreak == bit(regs.state, 30),
    {
        let w = regs.state;
        SarCocpuState {
            clk_en_st: (w >> 26u32) & 1 != 0,
            reset_n: (w >> 27u32) & 1 != 0,
            eoi: (w >> 28u32) & 1 != 0,
            trap: (w >> 29u32) & 1 != 0,
            ebreak: (w >> 30u32) & 1 != 0,
        }
    }
}

/// The co-processor's debug snapshot: program counter, memory bus state, and
/// the state flags.
#[derive(Clone, Copy, Debug, PartialEq, Eq, Structural)]
pub struct CocpuDebug {
    pub pc: u16,
    pub mem_valid: bool,
    pub mem_ready: bool,
    pub write_enable: u8,
    pub mem_address: u16,
    pub state: SarCocpuState,
}

impl FromRegister for CocpuDebug {
    /// Program counter in bits 0 to 12, bus valid and ready in bits 13 and 14,
    /// write enables in bits 15 to 18, bus address in bits 19 to 31 of the
    /// debug register; the flags from the state register.
    fn read(regs: CocpuRegisters) -> (r: CocpuDebug)
        ensures
            r.pc as u32 == regs.debug & 0x1fff,
            r.mem_valid == bit(regs.debug, 13),
            r.mem_ready == bit(regs.debug, 14),
            r.write_enable as u32 == (regs.debug >> 15) & 0x0f,
            r.mem_address as u32 == (regs.debug >> 19) & 0x1fff,
            r.state.clk_en_st == bit(regs.state, 26),
            r.state.reset_n == bit(regs.state, 27),
            r.state.eoi == bit(regs.state, 28),
            r.state.trap == bit(regs.state, 29),
            r.state.ebreak == bit(regs.state, 30),
    {
        let w = regs.debug;
        assert(w & 0x1fff <= 0x1fff) by (bit_vector);
        assert((w >> 15u32) & 0x0f <= 0x0f) by (bit_vector);
        assert((w >> 19u32) & 0x1fff <= 0x1fff) by (bit_vector);
        CocpuDebug {
            pc: (w & 0x1fff) as u16,
            mem_valid: (w >> 13u32) & 1 != 0,
            mem_ready: (w >> 14u32) & 1 != 0,
            write_enable: ((w >> 15u32) & 0x0f) as u8,
            mem_address: ((w >> 19u32) & 0x1fff) as u16,
            state: SarCocpuState::read(regs),
        }
    }
}

/// What `riscv_decode::decode` returns for `instr`.
pub uninterp spec fn riscv_decoded(instr: u32) -> Result<Instruction, DecodingError>;

/// The major opcode field (bits 2 to 6) of a 32-bit instruction word.
pub open spec fn major_opcode(instr: u32) -> u32 {
    (instr >> 2) & 0x1f
}

/// Calls `riscv_decode::decode`. Its result is named `riscv_decoded`; the
/// source shows, for words whose low two bits are both set (32-bit
/// encodings), that the custom-extension and reserved major opcodes give an
/// error, and that AUIPC, LUI, JALR and JAL decode.
#[verifier::external_body]
fn riscv_decode_call(instr: u32) -> (r: Result<Instruction, DecodingError>)
    ensures
        r == riscv_decoded(instr),
        instr & 3 == 3 && (major_opcode(instr) == 0b00010 || major_opcode(instr) == 0b01010
            || major_opcode(instr) == 0b10110 || major_opcode(instr) == 0b11110
            || major_opcode(instr) == 0b00111 || major_opcode(instr) == 0b01111
            || major_opcode(instr) == 0b10101 || major_opcode(instr) == 0b10111
            || major_opcode(instr) == 0b11010 || major_opcode(instr) == 0b11101
            || major_opcode(instr) == 0b11111) ==> r is Err,
        instr & 3 == 3 && (major_opcode(instr) == 0b00101 || major_opcode(instr) == 0b01101
            || major_opcode(instr) == 0b11001 || major_opcode(instr) == 0b11011) ==> r is Ok,
{
    riscv_decode::decode(instr)
}

impl CocpuDebug {
    /// The program counter in the HP core's address space.
    pub fn pc_address(&self) -> (r: u32)
        ensures
            r == self.pc + 0x5000_0000,
    {
        self.pc as u32 + COPROC_ADDRESS_BASE as u32
    }

    /// Decodes `instr`, the instruction word found at the program counter.
    pub fn decode_instruction(instr: u32) -> (r: Result<Instruction, DecodingError>)
        ensures
            r == riscv_decoded(instr),
            instr & 3 == 3 && (major_opcode(instr) == 0b00010 || major_opcode(instr) == 0b01010
                || major_opcode(instr) == 0b10110 || major_opcode(instr) == 0b11110
                || major_opcode(instr) == 0b00111 || major_opcode(instr) == 0b01111
                || major_opcode(instr) == 0b10101 || major_opcode(instr) == 0b10111
                || major_opcode(instr) == 0b11010 || major_opcode(instr) == 0b11101
                || major_opcode(instr) == 0b11111) ==> r is Err,
            instr & 3 == 3 && (major_opcode(instr) == 0b00101 || major_opcode(instr) == 0b01101
                || major_opcode(instr) == 0b11001 || major_opcode(instr) == 0b11011) ==> r is Ok,
    {
        riscv_decode_call(instr)
    }
}

} // verus!
