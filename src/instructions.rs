//! Decoding of 16-bit instruction words, and the dispatch of a decoded
//! instruction to the machine.
use vstd::prelude::*;

use crate::machine::operations::{
    add_effect, bcd_effect, call_effect, clear_effect, draw_effect, glyph_address, jump_effect,
    key_is_pressed, load_effect, return_effect, shl_effect, shr_effect, skip_if, store_effect,
    sub_effect, subn_effect, wait_key_effect,
};
use crate::machine::{effect_taken, wrap16, Machine, MachineError, MachineView};

verus! {

/// A decoded instruction with its operands. Register operands are
/// indices 0 to 15, addresses are 12-bit.
#[derive(Clone, Copy, Debug, PartialEq, Eq, Structural)]
pub enum Operation {
    /// `0nnn`
    Sys { address: u16 },
    /// `00E0`
    ClearScreen,
    /// `00EE`
    Return,
    /// `1nnn`
    Jump { address: u16 },
    /// `2nnn`
    Call { address: u16 },
    /// `3xkk`
    SkipEqualByte { register: u8, value: u8 },
    /// `4xkk`
    SkipNotEqualByte { register: u8, value: u8 },
    /// `5xy0`
    SkipEqualReg { x: u8, y: u8 },
    /// `6xkk`
    LoadByte { register: u8, value: u8 },
    /// `7xkk`
    AddByte { register: u8, value: u8 },
    /// `8xy0`
    LoadReg { x: u8, y: u8 },
    /// `8xy1`
    Or { x: u8, y: u8 },
    /// `8xy2`
    And { x: u8, y: u8 },
    /// `8xy3`
    Xor { x: u8, y: u8 },
    /// `8xy4`
    AddReg { x: u8, y: u8 },
    /// `8xy5`
    SubReg { x: u8, y: u8 },
    /// `8xy6`
    ShiftRight { x: u8, y: u8 },
    /// `8xy7`
    SubN { x: u8, y: u8 },
    /// `8xyE`
    ShiftLeft { x: u8, y: u8 },
    /// `9xy0`
    SkipNotEqualReg { x: u8, y: u8 },
    /// `Annn`
    LoadI { address: u16 },
    /// `Bnnn`
    JumpV0 { address: u16 },
    /// `Cxkk`
    Rand { register: u8, mask: u8 },
    /// `Dxyn`
    Draw { x: u8, y: u8, height: u8 },
    /// `Ex9E`
    SkipKeyPressed { register: u8 },
    /// `ExA1`
    SkipKeyNotPressed { register: u8 },
    /// `Fx07`
    LoadDelayTimer { register: u8 },
    /// `Fx0A`
    WaitKey { register: u8 },
    /// `Fx15`
    SetDelayTimer { register: u8 },
    /// `Fx18`
    SetSoundTimer { register: u8 },
    /// `Fx1E`
    AddI { register: u8 },
    /// `Fx29`
    LoadSprite { register: u8 },
    /// `Fx33`
    Bcd { register: u8 },
    /// `Fx55`
    StoreRegisters { x: u8 },
    /// `Fx65`
    LoadRegisters { x: u8 },
    /// A word that matches no instruction.
    Unknown,
}

impl Operation {
    /// Register operands name one of the sixteen registers.
    pub open spec fn wf(self) -> bool {
        match self {
            Operation::SkipEqualByte { register, .. } => register < 16,
            Operation::SkipNotEqualByte { register, .. } => register < 16,
            Operation::LoadByte { register, .. } => register < 16,
            Operation::AddByte { register, .. } => register < 16,
            Operation::Rand { register, .. } => register < 16,
            Operation::SkipEqualReg { x, y } => x < 16 && y < 16,
            Operation::LoadReg { x, y } => x < 16 && y < 16,
            Operation::Or { x, y } => x < 16 && y < 16,
            Operation::And { x, y } => x < 16 && y < 16,
            Operation::Xor { x, y } => x < 16 && y < 16,
            Operation::AddReg { x, y } => x < 16 && y < 16,
            Operation::SubReg { x, y } => x < 16 && y < 16,
            Operation::ShiftRight { x, y } => x < 16 && y < 16,
            Operation::SubN { x, y } => x < 16 && y < 16,
            Operation::ShiftLeft { x, y } => x < 16 && y < 16,
            Operation::SkipNotEqualReg { x, y } => x < 16 && y < 16,
            Operation::Draw { x, y, .. } => x < 16 && y < 16,
            Operation::SkipKeyPressed { register } => register < 16,
            Operation::SkipKeyNotPressed { register } => register < 16,
            Operation::LoadDelayTimer { register } => register < 16,
            Operation::WaitKey { register } => register < 16,
            Operation::SetDelayTimer { register } => register < 16,
            Operation::SetSoundTimer { register } => register < 16,
            Operation::AddI { register } => register < 16,
            Operation::LoadSprite { register } => register < 16,
            Operation::Bcd { register } => register < 16,
            Operation::StoreRegisters { x } => x < 16,
            Operation::LoadRegisters { x } => x < 16,
            _ => true,
        }
    }
}

/// A decoded operation together with the word it came from.
#[derive(Clone, Copy, Debug, PartialEq, Eq, Structural)]
pub struct Instruction {
    pub opcode: Operation,
    pub operand: u16,
}

impl Instruction {
    pub fn new(opcode: Operation, operand: u16) -> (r: Self)
        ensures
            r.opcode == opcode,
            r.operand == operand,
    {
        Self { opcode, operand }
    }
}

/// Bits 12 to 15 of a word: the instruction family.
pub open spec fn family(word: u16) -> u16 {
    (word >> 12u16) & 0xFu16
}

/// Bits 8 to 11: register x.
pub open spec fn nibble_x(word: u16) -> u16 {
    (word >> 8u16) & 0xFu16
}

/// Bits 4 to 7: register y.
pub open spec fn nibble_y(word: u16) -> u16 {
    (word >> 4u16) & 0xFu16
}

/// Bits 0 to 3: n.
pub open spec fn nibble_n(word: u16) -> u16 {
    word & 0xFu16
}

/// The low byte: kk.
pub open spec fn low_byte(word: u16) -> u16 {
    word & 0xFFu16
}

/// The low 12 bits: nnn.
pub open spec fn low_address(word: u16) -> u16 {
    word & 0xFFFu16
}

/// The operation that `word` encodes.
pub open spec fn decode(word: u16) -> Operation {
    let x = nibble_x(word) as u8;
    let y = nibble_y(word) as u8;
    let n = nibble_n(word);
    let kk = low_byte(word);
    let nnn = low_address(word);
    let f = family(word);
    if f == 0x0 {
        if word == 0x00E0 {
            Operation::ClearScreen
        } else if word == 0x00EE {
            Operation::Return
        } else {
            Operation::Sys { address: nnn }
        }
    } else if f == 0x1 {
        Operation::Jump { address: nnn }
    } else if f == 0x2 {
        Operation::Call { address: nnn }
    } else if f == 0x3 {
        Operation::SkipEqualByte { register: x, value: kk as u8 }
    } else if f == 0x4 {
        Operation::SkipNotEqualByte { register: x, value: kk as u8 }
    } else if f == 0x5 {
        if n == 0 { Operation::SkipEqualReg { x, y } } else { Operation::Unknown }
    } else if f == 0x6 {
        Operation::LoadByte { register: x, value: kk as u8 }
    } else if f == 0x7 {
        Operation::AddByte { register: x, value: kk as u8 }
    } else if f == 0x8 {
        if n == 0x0 {
            Operation::LoadReg { x, y }
        } else if n == 0x1 {
            Operation::Or { x, y }
        } else if n == 0x2 {
            Operation::And { x, y }
        } else if n == 0x3 {
            Operation::Xor { x, y }
        } else if n == 0x4 {
            Operation::AddReg { x, y }
        } else if n == 0x5 {
            Operation::SubReg { x, y }
        } else if n == 0x6 {
            Operation::ShiftRight { x, y }
        } else if n == 0x7 {
            Operation::SubN { x, y }
        } else if n == 0xE {
            Operation::ShiftLeft { x, y }
        } else {
            Operation::Unknown
        }
    } else if f == 0x9 {
        if n == 0 { Operation::SkipNotEqualReg { x, y } } else { Operation::Unknown }
    } else if f == 0xA {
        Operation::LoadI { address: nnn }
    } else if f == 0xB {
        Operation::JumpV0 { address: nnn }
    } else if f == 0xC {
        Operation::Rand { register: x, mask: kk as u8 }
    } else if f == 0xD {
        Operation::Draw { x, y, height: n as u8 }
    } else if f == 0xE {
        if kk == 0x9E {
            Operation::SkipKeyPressed { register: x }
        } else if kk == 0xA1 {
            Operation::SkipKeyNotPressed { register: x }
        } else {
            Operation::Unknown
        }
    } else if kk == 0x07 {
        Operation::LoadDelayTimer { register: x }
    } else if kk == 0x0A {
        Operation::WaitKey { register: x }
    } else if kk == 0x15 {
        Operation::SetDelayTimer { register: x }
    } else if kk == 0x18 {
        Operation::SetSoundTimer { register: x }
    } else if kk == 0x1E {
        Operation::AddI { register: x }
    } else if kk == 0x29 {
        Operation::LoadSprite { register: x }
    } else if kk == 0x33 {
        Operation::Bcd { register: x }
    } else if kk == 0x55 {
        Operation::StoreRegisters { x }
    } else if kk == 0x65 {
        Operation::LoadRegisters { x }
    } else {
        Operation::Unknown
    }
}

/// Decodes one instruction word; a word that matches no instruction gives
/// `Operation::Unknown`.
pub fn parse_instruction(instruction: u16) -> (r: Instruction)
    ensures
        r.opcode == decode(instruction),
        r.operand == instruction,
        r.opcode.wf(),
{
    let f = (instruction >> 12) & 0xF;
    let x = ((instruction >> 8) & 0xF) as u8;
    let y = ((instruction >> 4) & 0xF) as u8;
    let n = instruction & 0xF;
    let kk = instruction & 0xFF;
    let nnn = instruction & 0xFFF;
    assert(((instruction >> 8u16) & 0xFu16) < 16 && ((instruction >> 4u16) & 0xFu16) < 16)
        by (bit_vector);
    let operation = if f == 0x0 {
        if instruction == 0x00E0 {
            Operation::ClearScreen
        } else if instruction == 0x00EE {
            Operation::Return
        } else {
            Operation::Sys { address: nnn }
        }
    } else if f == 0x1 {
        Operation::Jump { address: nnn }
    } else if f == 0x2 {
        Operation::Call { address: nnn }
    } else if f == 0x3 {
        Operation::SkipEqualByte { register: x, value: kk as u8 }
    } else if f == 0x4 {
        Operation::SkipNotEqualByte { register: x, value: kk as u8 }
    } else if f == 0x5 {
        if n == 0 { Operation::SkipEqualReg { x, y } } else { Operation::Unknown }
    } else if f == 0x6 {
        Operation::LoadByte { register: x, value: kk as u8 }
    } else if f == 0x7 {
        Operation::AddByte { register: x, value: kk as u8 }
    } else if f == 0x8 {
        if n == 0x0 {
            Operation::LoadReg { x, y }
        } else if n == 0x1 {
            Operation::Or { x, y }
        } else if n == 0x2 {
            Operation::And { x, y }
        } else if n == 0x3 {
            Operation::Xor { x, y }
        } else if n == 0x4 {
            Operation::AddReg { x, y }
        } else if n == 0x5 {
            Operation::SubReg { x, y }
        } else if n == 0x6 {
            Operation::ShiftRight { x, y }
        } else if n == 0x7 {
            Operation::SubN { x, y }
        } else if n == 0xE {
            Operation::ShiftLeft { x, y }
        } else {
            Operation::Unknown
        }
    } else if f == 0x9 {
        if n == 0 { Operation::SkipNotEqualReg { x, y } } else { Operation::Unknown }
    } else if f == 0xA {
        Operation::LoadI { address: nnn }
    } else if f == 0xB {
        Operation::JumpV0 { address: nnn }
    } else if f == 0xC {
        Operation::Rand { register: x, mask: kk as u8 }
    } else if f == 0xD {
        Operation::Draw { x, y, height: n as u8 }
    } else if f == 0xE {
        if kk == 0x9E {
            Operation::SkipKeyPressed { register: x }
        } else if kk == 0xA1 {
            Operation::SkipKeyNotPressed { register: x }
        } else {
            Operation::Unknown
        }
    } else if kk == 0x07 {
        Operation::LoadDelayTimer { register: x }
    } else if kk == 0x0A {
        Operation::WaitKey { register: x }
    } else if kk == 0x15 {
        Operation::SetDelayTimer { register: x }
    } else if kk == 0x18 {
        Operation::SetSoundTimer { register: x }
    } else if kk == 0x1E {
        Operation::AddI { register: x }
    } else if kk == 0x29 {
        Operation::LoadSprite { register: x }
    } else if kk == 0x33 {
        Operation::Bcd { register: x }
    } else if kk == 0x55 {
        Operation::StoreRegisters { x }
    } else if kk == 0x65 {
        Operation::LoadRegisters { x }
    } else {
        Operation::Unknown
    };
    Instruction::new(operation, instruction)
}

/// What running `instruction` does to `s`; `random_byte` is what `RND`
/// masks.
pub open spec fn execute_effect(s: MachineView, instruction: Instruction, random_byte: u8) -> Result<
    MachineView,
    MachineError,
> {
    let r = |i: u8| s.registers[i as int];
    match instruction.opcode {
        Operation::Sys { .. } => Ok(s),
        Operation::ClearScreen => Ok(clear_effect(s)),
        Operation::Return => return_effect(s),
        Operation::Jump { address } => Ok(jump_effect(s, address)),
        Operation::Call { address } => call_effect(s, address),
        Operation::SkipEqualByte { register, value } => Ok(skip_if(s, r(register) == value)),
        Operation::SkipNotEqualByte { register, value } => Ok(skip_if(s, r(register) != value)),
        Operation::SkipEqualReg { x, y } => Ok(skip_if(s, r(x) == r(y))),
        Operation::LoadByte { register, value } => Ok(s.set_register(register as int, value)),
        Operation::AddByte { register, value } => Ok(
            s.set_register(register as int, ((r(register) + value) % 256) as u8),
        ),
        Operation::LoadReg { x, y } => Ok(s.set_register(x as int, r(y))),
        Operation::Or { x, y } => Ok(s.set_register(x as int, r(x) | r(y))),
        Operation::And { x, y } => Ok(s.set_register(x as int, r(x) & r(y))),
        Operation::Xor { x, y } => Ok(s.set_register(x as int, r(x) ^ r(y))),
        Operation::AddReg { x, y } => Ok(add_effect(s, x, y)),
        Operation::SubReg { x, y } => Ok(sub_effect(s, x, y)),
        Operation::ShiftRight { x, y } => Ok(shr_effect(s, x, y)),
        Operation::SubN { x, y } => Ok(subn_effect(s, x, y)),
        Operation::ShiftLeft { x, y } => Ok(shl_effect(s, x, y)),
        Operation::SkipNotEqualReg { x, y } => Ok(skip_if(s, r(x) != r(y))),
        Operation::LoadI { address } => Ok(s.set_index_register(address)),
        Operation::JumpV0 { address } => Ok(jump_effect(s, wrap16(address + r(0)))),
        Operation::Rand { register, mask } => Ok(s.set_register(register as int, random_byte & mask)),
        Operation::Draw { x, y, height } => draw_effect(s, x, y, height),
        Operation::SkipKeyPressed { register } => Ok(skip_if(s, key_is_pressed(s, r(register)))),
        Operation::SkipKeyNotPressed { register } => Ok(skip_if(s, !key_is_pressed(s, r(register)))),
        Operation::LoadDelayTimer { register } => Ok(s.set_register(register as int, s.delay_timer)),
        Operation::WaitKey { register } => Ok(wait_key_effect(s, register)),
        Operation::SetDelayTimer { register } => Ok(s.set_delay_timer(r(register))),
        Operation::SetSoundTimer { register } => Ok(s.set_sound_timer(r(register))),
        Operation::AddI { register } => Ok(
            s.set_index_register(((s.index_register + r(register)) % 4096) as u16),
        ),
        Operation::LoadSprite { register } => Ok(s.set_index_register(glyph_address(r(register)))),
        Operation::Bcd { register } => bcd_effect(s, register),
        Operation::StoreRegisters { x } => store_effect(s, x),
        Operation::LoadRegisters { x } => load_effect(s, x),
        Operation::Unknown => Err(
            MachineError::UnknownInstruction {
                word: instruction.operand,
                address: s.program_counter,
            },
        ),
    }
}

impl Instruction {
    /// Runs this instruction on `machine`. An unknown instruction, or one
    /// that fails, leaves the machine as it was and returns the error.
    pub fn execute(&self, machine: &mut Machine, random_byte: u8) -> (r: Result<(), MachineError>)
        requires
            self.opcode.wf(),
        ensures
            effect_taken(
                execute_effect(old(machine)@, *self, random_byte),
                old(machine)@,
                final(machine)@,
                r,
            ),
    {
        match self.opcode {
            Operation::Sys { address } => {
                machine.op_0nnn_sys(address);
                Ok(())
            },
            Operation::ClearScreen => {
                machine.op_00e0_cls();
                Ok(())
            },
            Operation::Return => machine.op_00ee_ret(),
            Operation::Jump { address } => {
                machine.op_1nnn_jmp(address);
                Ok(())
            },
            Operation::Call { address } => machine.op_2nnn_call(address),
            Operation::SkipEqualByte { register, value } => {
                machine.op_3xnn_se(register, value);
                Ok(())
            },
            Operation::SkipNotEqualByte { register, value } => {
                machine.op_4xnn_sne(register, value);
                Ok(())
            },
            Operation::SkipEqualReg { x, y } => {
                machine.op_5xy0_se(x, y);
                Ok(())
            },
            Operation::LoadByte { register, value } => {
                machine.op_6xnn_mov(register, value);
                Ok(())
            },
            Operation::AddByte { register, value } => {
                machine.op_7xnn_add(register, value);
                Ok(())
            },
            Operation::LoadReg { x, y } => {
                machine.op_8xy0_ymovx(x, y);
                Ok(())
            },
            Operation::Or { x, y } => {
                machine.op_8xy1_setvx2vxorvy(x, y);
                Ok(())
            },
            Operation::And { x, y } => {
                machine.op_8xy2_setvx2vxandvy(x, y);
                Ok(())
            },
            Operation::Xor { x, y } => {
                machine.op_8xy3_setvx2vxxorvy(x, y);
                Ok(())
            },
            Operation::AddReg { x, y } => {
                machine.op_8xy4_add(x, y);
                Ok(())
            },
            Operation::SubReg { x, y } => {
                machine.op_8xy5_sub(x, y);
                Ok(())
            },
            Operation::ShiftRight { x, y } => {
                machine.op_8xy6_shr(x, y);
                Ok(())
            },
            Operation::SubN { x, y } => {
                machine.op_8xy7_sub(x, y);
                Ok(())
            },
            Operation::ShiftLeft { x, y } => {
                machine.op_8xye_shl(x, y);
                Ok(())
            },
            Operation::SkipNotEqualReg { x, y } => {
                machine.op_9xy0_sne(x, y);
                Ok(())
            },
            Operation::LoadI { address } => {
                machine.op_annn_movi(address);
                Ok(())
            },
            Operation::JumpV0 { address } => {
                machine.op_bnnn_jmp_plus_v0(address);
                Ok(())
            },
            Operation::Rand { register, mask } => {
                machine.op_cxnn_mov_rand(register, mask, random_byte);
                Ok(())
            },
            Operation::Draw { x, y, height } => machine.op_dxyn_drw(x, y, height),
            Operation::SkipKeyPressed { register } => {
                machine.op_ex9e_skprs(register);
                Ok(())
            },
            Operation::SkipKeyNotPressed { register } => {
                machine.op_exa1_sknprs(register);
                Ok(())
            },
            Operation::LoadDelayTimer { register } => {
                machine.op_fx07_mov_dt(register);
                Ok(())
            },
            Operation::WaitKey { register } => {
                machine.op_fx0a_wait_key(register);
                Ok(())
            },
            Operation::SetDelayTimer { register } => {
                machine.op_fx15_set_dly(register);
                Ok(())
            },
            Operation::SetSoundTimer { register } => {
                machine.op_fx18_set_st(register);
                Ok(())
            },
            Operation::AddI { register } => {
                machine.op_fx1e_mov_vi(register);
                Ok(())
            },
            Operation::LoadSprite { register } => {
                machine.op_fx29(register);
                Ok(())
            },
            Operation::Bcd { register } => machine.op_fx33(register),
            Operation::StoreRegisters { x } => machine.op_fx55(x),
            Operation::LoadRegisters { x } => machine.op_fx65(x),
            Operation::Unknown => Err(
                MachineError::UnknownInstruction {
                    word: self.operand,
                    address: machine.read_program_counter(),
                },
            ),
        }
    }
}

} // verus!
