//! The instruction set: one method per instruction. The effect of each on
//! the machine's model is stated by a spec function below, and each method
//! is proved to have it.
//!
//! Instructions that set the program counter themselves store the target
//! minus two, since the cycle driver advances it by two after every
//! instruction.
use vstd::prelude::*;

use super::{effect_taken, wrap16, write_bytes, Machine, MachineError, MachineView, FLAG_REGISTER, FONT_START, RAM_SIZE, STACK_DEPTH};
use crate::screen::{blit, collides, SCREEN_SIZE};

verus! {

/// The effect of `CLS`.
pub open spec fn clear_effect(s: MachineView) -> MachineView {
    s.set_display(Seq::new(SCREEN_SIZE as nat, |p: int| false))
}

/// The effect of `RET`: pop a return address and continue there.
pub open spec fn return_effect(s: MachineView) -> Result<MachineView, MachineError> {
    if s.stack.len() == 0 {
        Err(MachineError::StackUnderflow)
    } else {
        Ok(s.set_stack(s.stack.drop_last()).set_program_counter(wrap16(s.stack.last() - 2)))
    }
}

/// The effect of `JP addr`.
pub open spec fn jump_effect(s: MachineView, address: u16) -> MachineView {
    s.set_program_counter(wrap16(address - 2))
}

/// The effect of `CALL addr`: push the address of the next instruction and
/// continue at `address`.
pub open spec fn call_effect(s: MachineView, address: u16) -> Result<MachineView, MachineError> {
    if s.stack.len() >= STACK_DEPTH {
        Err(MachineError::StackOverflow)
    } else {
        Ok(s.set_stack(s.stack.push(wrap16(s.program_counter + 2))).set_program_counter(
            wrap16(address - 2),
        ))
    }
}

/// Skips the next instruction when `condition` holds.
pub open spec fn skip_if(s: MachineView, condition: bool) -> MachineView {
    if condition {
        s.advance(2)
    } else {
        s
    }
}

/// The effect of `ADD Vx, Vy`: the sum modulo 256, and the carry in VF.
pub open spec fn add_effect(s: MachineView, x: u8, y: u8) -> MachineView {
    let sum = s.registers[x as int] + s.registers[y as int];
    s.set_register(x as int, (sum % 256) as u8).set_register(
        FLAG_REGISTER as int,
        if sum > 255 { 1 } else { 0 },
    )
}

/// The effect of `SUB Vx, Vy`: Vx - Vy modulo 256, and in VF 0 on a borrow,
/// else 1.
pub open spec fn sub_effect(s: MachineView, x: u8, y: u8) -> MachineView {
    let (vx, vy) = (s.registers[x as int], s.registers[y as int]);
    s.set_register(x as int, ((vx - vy + 256) % 256) as u8).set_register(
        FLAG_REGISTER as int,
        if vy > vx { 0 } else { 1 },
    )
}

/// The effect of `SUBN Vx, Vy`: Vy - Vx modulo 256, and in VF 0 on a
/// borrow, else 1.
pub open spec fn subn_effect(s: MachineView, x: u8, y: u8) -> MachineView {
    let (vx, vy) = (s.registers[x as int], s.registers[y as int]);
    s.set_register(x as int, ((vy - vx + 256) % 256) as u8).set_register(
        FLAG_REGISTER as int,
        if vx > vy { 0 } else { 1 },
    )
}

/// The effect of `SHR Vx, Vy`: Vy shifted right by one into Vx, the bit
/// shifted out into VF.
pub open spec fn shr_effect(s: MachineView, x: u8, y: u8) -> MachineView {
    let vy = s.registers[y as int];
    s.set_register(x as int, vy / 2).set_register(FLAG_REGISTER as int, vy % 2)
}

/// The effect of `SHL Vx, Vy`: Vy shifted left by one into Vx, the bit
/// shifted out into VF.
pub open spec fn shl_effect(s: MachineView, x: u8, y: u8) -> MachineView {
    let vy = s.registers[y as int];
    s.set_register(x as int, ((vy * 2) % 256) as u8).set_register(
        FLAG_REGISTER as int,
        vy / 128,
    )
}

/// The effect of `DRW Vx, Vy, n`: blit the `n` bytes at I as a sprite at
/// (Vx, Vy); VF tells whether a set pixel was turned off.
pub open spec fn draw_effect(s: MachineView, x: u8, y: u8, n: u8) -> Result<MachineView, MachineError> {
    let i = s.index_register as int;
    if i + n > RAM_SIZE {
        Err(MachineError::MemoryOutOfBounds { address: s.index_register })
    } else {
        let rows = s.ram.subrange(i, i + n);
        let (vx, vy) = (s.registers[x as int], s.registers[y as int]);
        Ok(s.set_display(blit(s.display, rows, vx, vy)).set_register(
            FLAG_REGISTER as int,
            if collides(s.display, rows, vx, vy) { 1 } else { 0 },
        ))
    }
}

/// Whether the key numbered `key` is held; there are no keys above 15.
pub open spec fn key_is_pressed(s: MachineView, key: u8) -> bool {
    key < 16 && s.pressed_keys[key as int]
}

/// The lowest held key numbered `from` or above, or 16 when there is none.
pub open spec fn first_pressed(keys: Seq<bool>, from: int) -> int
    decreases 16 - from,
{
    if from >= 16 {
        16
    } else if keys[from] {
        from
    } else {
        first_pressed(keys, from + 1)
    }
}

/// The effect of `LD Vx, K`: the lowest held key into Vx, or, with no key
/// held, the same instruction again on the next cycle.
pub open spec fn wait_key_effect(s: MachineView, x: u8) -> MachineView {
    let key = first_pressed(s.pressed_keys, 0);
    if key < 16 {
        s.set_register(x as int, key as u8)
    } else {
        s.set_program_counter(wrap16(s.program_counter - 2))
    }
}

/// The address of the glyph for `digit`; glyph 0 for values above 0xF.
pub open spec fn glyph_address(digit: u8) -> u16 {
    if digit > 15 {
        FONT_START
    } else {
        (FONT_START + 5 * digit) as u16
    }
}

/// The decimal digits of `v`: hundreds, tens, ones.
pub open spec fn decimal_digits(v: u8) -> Seq<u8> {
    seq![v / 100, (v / 10) % 10, v % 10]
}

/// The effect of `LD B, Vx`.
pub open spec fn bcd_effect(s: MachineView, x: u8) -> Result<MachineView, MachineError> {
    let i = s.index_register as int;
    if i + 3 > RAM_SIZE {
        Err(MachineError::MemoryOutOfBounds { address: s.index_register })
    } else {
        Ok(s.set_ram(write_bytes(s.ram, i, decimal_digits(s.registers[x as int]))))
    }
}

/// The effect of `LD [I], Vx`: V0 to Vx into memory from I on; I moves past
/// them.
pub open spec fn store_effect(s: MachineView, x: u8) -> Result<MachineView, MachineError> {
    let i = s.index_register as int;
    if i + x + 1 > RAM_SIZE {
        Err(MachineError::MemoryOutOfBounds { address: s.index_register })
    } else {
        Ok(s.set_ram(write_bytes(s.ram, i, s.registers.subrange(0, x + 1))).set_index_register(
            ((i + x + 1) % 4096) as u16,
        ))
    }
}

/// The effect of `LD Vx, [I]`: memory from I on into V0 to Vx; I moves past
/// them.
pub open spec fn load_effect(s: MachineView, x: u8) -> Result<MachineView, MachineError> {
    let i = s.index_register as int;
    if i + x + 1 > RAM_SIZE {
        Err(MachineError::MemoryOutOfBounds { address: s.index_register })
    } else {
        Ok(s.set_registers(write_bytes(s.registers, 0, s.ram.subrange(i, i + x + 1))).set_index_register(
            ((i + x + 1) % 4096) as u16,
        ))
    }
}

impl Machine {
    /// `SYS addr`: a call into the host machine's own code, which this
    /// interpreter does not have; it does nothing.
    pub fn op_0nnn_sys(&mut self, address: u16)
        ensures
            final(self)@ == old(self)@,
    {
    }

    /// `CLS`: clears the display.
    pub fn op_00e0_cls(&mut self)
        ensures
            final(self)@ == clear_effect(old(self)@),
            forall|p: int| 0 <= p < SCREEN_SIZE ==> !final(self)@.display[p],
    {
        self.screen.clear_screen();
        assert(self@.display =~= clear_effect(old(self)@).display);
    }

    /// `RET`: returns from a subroutine.
    pub fn op_00ee_ret(&mut self) -> (r: Result<(), MachineError>)
        ensures
            effect_taken(return_effect(old(self)@), old(self)@, final(self)@, r),
    {
        let return_address = self.pop_from_stack()?;
        self.update_program_counter(return_address.wrapping_sub(2));
        Ok(())
    }

    /// `JP addr`: jumps to `address`.
    pub fn op_1nnn_jmp(&mut self, address: u16)
        ensures
            final(self)@ == jump_effect(old(self)@, address),
    {
        self.write_to_program_counter(address.wrapping_sub(2));
    }

    /// `CALL addr`: calls the subroutine at `address`.
    pub fn op_2nnn_call(&mut self, address: u16) -> (r: Result<(), MachineError>)
        ensures
            effect_taken(call_effect(old(self)@, address), old(self)@, final(self)@, r),
    {
        let return_address = self.read_program_counter().wrapping_add(2);
        self.push_to_stack(return_address)?;
        self.update_program_counter(address.wrapping_sub(2));
        Ok(())
    }

    /// `SE Vx, byte`: skips the next instruction when Vx equals `value`.
    pub fn op_3xnn_se(&mut self, register_x: u8, value: u8)
        requires
            register_x < 16,
        ensures
            final(self)@ == skip_if(old(self)@, old(self)@.registers[register_x as int] == value),
    {
        let register_x_value = self.read_general_purpouse_registers(register_x as usize);
        if register_x_value == value {
            self.increment_program_counter(2);
        }
    }

    /// `SNE Vx, byte`: skips the next instruction when Vx differs from `value`.
    pub fn op_4xnn_sne(&mut self, register_x: u8, value: u8)
        requires
            register_x < 16,
        ensures
            final(self)@ == skip_if(old(self)@, old(self)@.registers[register_x as int] != value),
    {
        let register_x_value = self.read_general_purpouse_registers(register_x as usize);
        if register_x_value != value {
            self.increment_program_counter(2);
        }
    }

    /// `SE Vx, Vy`: skips the next instruction when Vx equals Vy.
    pub fn op_5xy0_se(&mut self, register_x: u8, register_y: u8)
        requires
            register_x < 16,
            register_y < 16,
        ensures
            final(self)@ == skip_if(
                old(self)@,
                old(self)@.registers[register_x as int] == old(self)@.registers[register_y as int],
            ),
    {
        let register_x_value = self.read_general_purpouse_registers(register_x as usize);
        let register_y_value = self.read_general_purpouse_registers(register_y as usize);
        if register_x_value == register_y_value {
            self.increment_program_counter(2);
        }
    }

    /// `LD Vx, byte`.
    pub fn op_6xnn_mov(&mut self, register_x: u8, value: u8)
        requires
            register_x < 16,
        ensures
            final(self)@ == old(self)@.set_register(register_x as int, value),
    {
        self.write_to_general_purpouse_registers(register_x as usize, value);
    }

    /// `ADD Vx, byte`: adds modulo 256; VF is left alone.
    pub fn op_7xnn_add(&mut self, register_x: u8, value: u8)
        requires
            register_x < 16,
        ensures
            final(self)@ == old(self)@.set_register(
                register_x as int,
                ((old(self)@.registers[register_x as int] + value) % 256) as u8,
            ),
    {
        let register_x_value = self.read_general_purpouse_registers(register_x as usize);
        let result = register_x_value.wrapping_add(value);
        self.write_to_general_purpouse_registers(register_x as usize, result);
    }

    /// `LD Vx, Vy`.
    pub fn op_8xy0_ymovx(&mut self, register_x: u8, register_y: u8)
        requires
            register_x < 16,
            register_y < 16,
        ensures
            final(self)@ == old(self)@.set_register(
                register_x as int,
                old(self)@.registers[register_y as int],
            ),
    {
        let register_y_value = self.read_general_purpouse_registers(register_y as usize);
        self.write_to_general_purpouse_registers(register_x as usize, register_y_value);
    }

    /// `OR Vx, Vy`.
    pub fn op_8xy1_setvx2vxorvy(&mut self, register_x: u8, register_y: u8)
        requires
            register_x < 16,
            register_y < 16,
        ensures
            final(self)@ == old(self)@.set_register(
                register_x as int,
                old(self)@.registers[register_x as int] | old(self)@.registers[register_y as int],
            ),
    {
        let register_x_value = self.read_general_purpouse_registers(register_x as usize);
        let register_y_value = self.read_general_purpouse_registers(register_y as usize);
        self.write_to_general_purpouse_registers(register_x as usize, register_x_value | register_y_value);
    }

    /// `AND Vx, Vy`.
    pub fn op_8xy2_setvx2vxandvy(&mut self, register_x: u8, register_y: u8)
        requires
            register_x < 16,
            register_y < 16,
        ensures
            final(self)@ == old(self)@.set_register(
                register_x as int,
                old(self)@.registers[register_x as int] & old(self)@.registers[register_y as int],
            ),
    {
        let register_x_value = self.read_general_purpouse_registers(register_x as usize);
        let register_y_value = self.read_general_purpouse_registers(register_y as usize);
        self.write_to_general_purpouse_registers(register_x as usize, register_x_value & register_y_value);
    }

    /// `XOR Vx, Vy`.
    pub fn op_8xy3_setvx2vxxorvy(&mut self, register_x: u8, register_y: u8)
        requires
            register_x < 16,
            register_y < 16,
        ensures
            final(self)@ == old(self)@.set_register(
                register_x as int,
                old(self)@.registers[register_x as int] ^ old(self)@.registers[register_y as int],
            ),
    {
        let register_x_value = self.read_general_purpouse_registers(register_x as usize);
        let register_y_value = self.read_general_purpouse_registers(register_y as usize);
        self.write_to_general_purpouse_registers(register_x as usize, register_x_value ^ register_y_value);
    }

    /// `ADD Vx, Vy`: adds modulo 256 and sets VF to the carry.
    pub fn op_8xy4_add(&mut self, register_x: u8, register_y: u8)
        requires
            register_x < 16,
            register_y < 16,
        ensures
            final(self)@ == add_effect(old(self)@, register_x, register_y),
            ({
                let sum = old(self)@.registers[register_x as int] + old(self)@.registers[register_y as int];
                &&& final(self)@.registers[FLAG_REGISTER as int] == 1 <==> sum > 255
                &&& final(self)@.registers[FLAG_REGISTER as int] == 0 <==> sum <= 255
                &&& register_x != FLAG_REGISTER ==> final(self)@.registers[register_x as int] == sum % 256
            }),
    {
        let register_x_value = self.read_general_purpouse_registers(register_x as usize);
        let register_y_value = self.read_general_purpouse_registers(register_y as usize);
        let result = register_x_value.wrapping_add(register_y_value);
        let carry: u8 = if register_x_value as u16 + register_y_value as u16 > 255 { 1 } else { 0 };
        self.write_to_general_purpouse_registers(register_x as usize, result);
        self.write_to_general_purpouse_registers(FLAG_REGISTER, carry);
    }

    /// `SUB Vx, Vy`: Vx - Vy modulo 256; VF is 0 on a borrow, else 1.
    pub fn op_8xy5_sub(&mut self, register_x: u8, register_y: u8)
        requires
            register_x < 16,
            register_y < 16,
        ensures
            final(self)@ == sub_effect(old(self)@, register_x, register_y),
            ({
                let (vx, vy) = (old(self)@.registers[register_x as int], old(self)@.registers[register_y as int]);
                &&& final(self)@.registers[FLAG_REGISTER as int] == 0 <==> vy > vx
                &&& final(self)@.registers[FLAG_REGISTER as int] == 1 <==> vy <= vx
                &&& register_x != FLAG_REGISTER ==> final(self)@.registers[register_x as int] == (vx - vy + 256) % 256
            }),
    {
        let register_x_value = self.read_general_purpouse_registers(register_x as usize);
        let register_y_value = self.read_general_purpouse_registers(register_y as usize);
        let result = register_x_value.wrapping_sub(register_y_value);
        let not_borrow: u8 = if register_y_value > register_x_value { 0 } else { 1 };
        self.write_to_general_purpouse_registers(register_x as usize, result);
        self.write_to_general_purpouse_registers(FLAG_REGISTER, not_borrow);
    }

    /// `SHR Vx, Vy`: Vy shifted right by one into Vx; VF gets the bit
    /// shifted out.
    pub fn op_8xy6_shr(&mut self, register_x: u8, register_y: u8)
        requires
            register_x < 16,
            register_y < 16,
        ensures
            final(self)@ == shr_effect(old(self)@, register_x, register_y),
            final(self)@.registers[FLAG_REGISTER as int] == old(self)@.registers[register_y as int] % 2,
    {
        let register_y_value = self.read_general_purpouse_registers(register_y as usize);
        let least_significant_bit = register_y_value & 1;
        let shifted_value = register_y_value >> 1;
        assert(least_significant_bit == register_y_value % 2 && shifted_value == register_y_value / 2) by (bit_vector)
            requires
                least_significant_bit == register_y_value & 1,
                shifted_value == register_y_value >> 1,
        ;
        self.write_to_general_purpouse_registers(register_x as usize, shifted_value);
        self.write_to_general_purpouse_registers(FLAG_REGISTER, least_significant_bit);
    }

    /// `SUBN Vx, Vy`: Vy - Vx modulo 256 into Vx; VF is 0 on a borrow, else 1.
    pub fn op_8xy7_sub(&mut self, register_x: u8, register_y: u8)
        requires
            register_x < 16,
            register_y < 16,
        ensures
            final(self)@ == subn_effect(old(self)@, register_x, register_y),
    {
        let register_x_value = self.read_general_purpouse_registers(register_x as usize);
        let register_y_value = self.read_general_purpouse_registers(register_y as usize);
        let result = register_y_value.wrapping_sub(register_x_value);
        let not_borrow: u8 = if register_x_value > register_y_value { 0 } else { 1 };
        self.write_to_general_purpouse_registers(register_x as usize, result);
        self.write_to_general_purpouse_registers(FLAG_REGISTER, not_borrow);
    }

    /// `SHL Vx, Vy`: Vy shifted left by one into Vx; VF gets the bit
    /// shifted out.
    pub fn op_8xye_shl(&mut self, register_x: u8, register_y: u8)
        requires
            register_x < 16,
            register_y < 16,
        ensures
            final(self)@ == shl_effect(old(self)@, register_x, register_y),
    {
        let register_y_value = self.read_general_purpouse_registers(register_y as usize);
        let most_significant_bit = register_y_value >> 7;
        let shifted_value = register_y_value << 1;
        assert(most_significant_bit == register_y_value / 128 && shifted_value == (register_y_value * 2) % 256) by (bit_vector)
            requires
                most_significant_bit == register_y_value >> 7,
                shifted_value == register_y_value << 1,
        ;
        self.write_to_general_purpouse_registers(register_x as usize, shifted_value);
        self.write_to_general_purpouse_registers(FLAG_REGISTER, most_significant_bit);
    }

    /// `SNE Vx, Vy`: skips the next instruction when Vx differs from Vy.
    pub fn op_9xy0_sne(&mut self, register_x: u8, register_y: u8)
        requires
            register_x < 16,
            register_y < 16,
        ensures
            final(self)@ == skip_if(
                old(self)@,
                old(self)@.registers[register_x as int] != old(self)@.registers[register_y as int],
            ),
    {
        let register_x_value = self.read_general_purpouse_registers(register_x as usize);
        let register_y_value = self.read_general_purpouse_registers(register_y as usize);
        if register_x_value != register_y_value {
            self.increment_program_counter(2);
        }
    }

    /// `LD I, addr`.
    pub fn op_annn_movi(&mut self, address: u16)
        ensures
            final(self)@ == old(self)@.set_index_register(address),
    {
        self.write_to_index_register(address);
    }

    /// `JP V0, addr`: jumps to `value_nnn` plus V0.
    pub fn op_bnnn_jmp_plus_v0(&mut self, value_nnn: u16)
        ensures
            final(self)@ == jump_effect(old(self)@, wrap16(value_nnn + old(self)@.registers[0])),
    {
        let register_0_value = self.read_general_purpouse_registers(0);
        let target = value_nnn.wrapping_add(register_0_value as u16);
        self.update_program_counter(target.wrapping_sub(2));
    }

    /// `RND Vx, byte`: `random_byte`, drawn by the host, masked with `mask`.
    pub fn op_cxnn_mov_rand(&mut self, register_x: u8, mask: u8, random_byte: u8)
        requires
            register_x < 16,
        ensures
            final(self)@ == old(self)@.set_register(register_x as int, random_byte & mask),
    {
        self.write_to_general_purpouse_registers(register_x as usize, random_byte & mask);
    }
}

impl Machine {
    /// `DRW Vx, Vy, n`: draws the `n_bytes` bytes at I as a sprite at
    /// (Vx, Vy); VF is 1 when a set pixel was turned off, else 0. Fails,
    /// changing nothing, when the sprite would run past the end of memory.
    pub fn op_dxyn_drw(&mut self, register_x: u8, register_y: u8, n_bytes: u8) -> (r: Result<
        (),
        MachineError,
    >)
        requires
            register_x < 16,
            register_y < 16,
        ensures
            effect_taken(
                draw_effect(old(self)@, register_x, register_y, n_bytes),
                old(self)@,
                final(self)@,
                r,
            ),
    {
        let register_x_value = self.read_general_purpouse_registers(register_x as usize);
        let register_y_value = self.read_general_purpouse_registers(register_y as usize);
        let index_register_value = self.read_index_register();
        if index_register_value as usize + n_bytes as usize > RAM_SIZE {
            return Err(MachineError::MemoryOutOfBounds { address: index_register_value });
        }
        let ghost before = self@;
        let ghost i = index_register_value as int;
        let mut rows: Vec<u8> = Vec::new();
        let mut k: u8 = 0;
        while k < n_bytes
            invariant
                k <= n_bytes,
                i + n_bytes <= RAM_SIZE,
                i == index_register_value,
                self@ == before,
                rows@ == before.ram.subrange(i, i + k),
            decreases n_bytes - k,
        {
            rows.push(self.read_ram(index_register_value + k as u16));
            k += 1;
            assert(rows@ =~= before.ram.subrange(i, i + k));
        }
        let flipped = self.screen.update_screen_state(register_x_value, register_y_value, rows);
        if flipped {
            self.write_to_general_purpouse_registers(FLAG_REGISTER, 1);
        } else {
            self.write_to_general_purpouse_registers(FLAG_REGISTER, 0);
        }
        Ok(())
    }

    /// `SKP Vx`: skips the next instruction when the key numbered Vx is held.
    pub fn op_ex9e_skprs(&mut self, register_x: u8)
        requires
            register_x < 16,
        ensures
            final(self)@ == skip_if(
                old(self)@,
                key_is_pressed(old(self)@, old(self)@.registers[register_x as int]),
            ),
    {
        let pressed_key = self.read_general_purpouse_registers(register_x as usize);
        if pressed_key < 16 {
            let pressed_keys = self.read_pressed_keys();
            if pressed_keys[pressed_key as usize] {
                self.increment_program_counter(2);
            }
        }
    }

    /// `SKNP Vx`: skips the next instruction unless the key numbered Vx is
    /// held.
    pub fn op_exa1_sknprs(&mut self, register_x: u8)
        requires
            register_x < 16,
        ensures
            final(self)@ == skip_if(
                old(self)@,
                !key_is_pressed(old(self)@, old(self)@.registers[register_x as int]),
            ),
    {
        let pressed_key = self.read_general_purpouse_registers(register_x as usize);
        if pressed_key >= 16 {
            self.increment_program_counter(2);
        } else {
            let pressed_keys = self.read_pressed_keys();
            if !pressed_keys[pressed_key as usize] {
                self.increment_program_counter(2);
            }
        }
    }

    /// `LD Vx, DT`.
    pub fn op_fx07_mov_dt(&mut self, register_x: u8)
        requires
            register_x < 16,
        ensures
            final(self)@ == old(self)@.set_register(register_x as int, old(self)@.delay_timer),
    {
        let delay_timer_value = self.read_delay_timer();
        self.write_to_general_purpouse_registers(register_x as usize, delay_timer_value);
    }

    /// `LD Vx, K`: stores the lowest held key in Vx; with no key held, leaves
    /// the program counter so that the next cycle runs this instruction again.
    pub fn op_fx0a_wait_key(&mut self, register_x: u8)
        requires
            register_x < 16,
        ensures
            final(self)@ == wait_key_effect(old(self)@, register_x),
    {
        let keys = self.read_pressed_keys();
        let mut i: usize = 0;
        while i < 16
            invariant
                i <= 16,
                register_x < 16,
                self@ == old(self)@,
                keys@ == self@.pressed_keys,
                first_pressed(keys@, 0) == first_pressed(keys@, i as int),
            decreases 16 - i,
        {
            if keys[i] {
                self.write_to_general_purpouse_registers(register_x as usize, i as u8);
                return;
            }
            i += 1;
        }
        let program_counter = self.read_program_counter();
        self.write_to_program_counter(program_counter.wrapping_sub(2));
    }

    /// `LD DT, Vx`.
    pub fn op_fx15_set_dly(&mut self, register_x: u8)
        requires
            register_x < 16,
        ensures
            final(self)@ == old(self)@.set_delay_timer(old(self)@.registers[register_x as int]),
    {
        let register_x_value = self.read_general_purpouse_registers(register_x as usize);
        self.write_to_delay_timer(register_x_value);
    }

    /// `LD ST, Vx`.
    pub fn op_fx18_set_st(&mut self, register_x: u8)
        requires
            register_x < 16,
        ensures
            final(self)@ == old(self)@.set_sound_timer(old(self)@.registers[register_x as int]),
    {
        let register_x_value = self.read_general_purpouse_registers(register_x as usize);
        self.write_to_sound_timer(register_x_value);
    }

    /// `ADD I, Vx`: adds modulo 4096.
    pub fn op_fx1e_mov_vi(&mut self, register_x: u8)
        requires
            register_x < 16,
        ensures
            final(self)@ == old(self)@.set_index_register(
                ((old(self)@.index_register + old(self)@.registers[register_x as int]) % 4096) as u16,
            ),
    {
        let register_x_value = self.read_general_purpouse_registers(register_x as usize);
        let register_i_value = self.read_index_register();
        self.write_to_index_register(((register_i_value as u32 + register_x_value as u32) % 4096) as u16);
    }

    /// `LD F, Vx`: points I at the glyph of the digit in Vx.
    pub fn op_fx29(&mut self, register_x: u8)
        requires
            register_x < 16,
        ensures
            final(self)@ == old(self)@.set_index_register(
                glyph_address(old(self)@.registers[register_x as int]),
            ),
    {
        let register_x_value = self.read_general_purpouse_registers(register_x as usize);
        if register_x_value > 15 {
            self.write_to_index_register(FONT_START);
        } else {
            self.write_to_index_register(FONT_START + register_x_value as u16 * 5);
        }
    }

    /// `LD B, Vx`: the decimal digits of Vx into memory at I, I + 1 and I + 2.
    pub fn op_fx33(&mut self, register_x: u8) -> (r: Result<(), MachineError>)
        requires
            register_x < 16,
        ensures
            effect_taken(bcd_effect(old(self)@, register_x), old(self)@, final(self)@, r),
    {
        let register_x_value = self.read_general_purpouse_registers(register_x as usize);
        let hundreds = register_x_value / 100;
        let tens = register_x_value / 10 % 10;
        let ones = register_x_value % 10;
        let digits = [hundreds, tens, ones];
        assert(digits@ =~= decimal_digits(register_x_value));
        let index_register_value = self.read_index_register();
        self.copy_to_ram(digits.as_slice(), index_register_value)
    }

    /// `LD [I], Vx`: V0 to Vx into memory from I on; I then moves past them.
    pub fn op_fx55(&mut self, register_x: u8) -> (r: Result<(), MachineError>)
        requires
            register_x < 16,
        ensures
            effect_taken(store_effect(old(self)@, register_x), old(self)@, final(self)@, r),
    {
        let index_register_value = self.read_index_register();
        let count = register_x as u16 + 1;
        let ghost before = self@;
        let mut values: Vec<u8> = Vec::new();
        let mut k: u16 = 0;
        while k < count
            invariant
                k <= count,
                count == register_x + 1,
                register_x < 16,
                self@ == before,
                values@ == before.registers.subrange(0, k as int),
            decreases count - k,
        {
            values.push(self.read_general_purpouse_registers(k as usize));
            k += 1;
            assert(values@ =~= before.registers.subrange(0, k as int));
        }
        self.copy_to_ram(values.as_slice(), index_register_value)?;
        self.write_to_index_register((index_register_value + count) % 4096);
        Ok(())
    }

    /// `LD Vx, [I]`: memory from I on into V0 to Vx; I then moves past them.
    pub fn op_fx65(&mut self, register_x: u8) -> (r: Result<(), MachineError>)
        requires
            register_x < 16,
        ensures
            effect_taken(load_effect(old(self)@, register_x), old(self)@, final(self)@, r),
    {
        let index_register_value = self.read_index_register();
        let count = register_x as u16 + 1;
        if index_register_value as usize + count as usize > RAM_SIZE {
            return Err(MachineError::MemoryOutOfBounds { address: index_register_value });
        }
        let ghost before = self@;
        let ghost i = index_register_value as int;
        assert(before.registers =~= write_bytes(before.registers, 0, before.ram.subrange(i, i)));
        let mut k: u16 = 0;
        while k < count
            invariant
                k <= count,
                count == register_x + 1,
                register_x < 16,
                i == index_register_value,
                i + count <= RAM_SIZE,
                self@ == before.set_registers(write_bytes(before.registers, 0, before.ram.subrange(i, i + k))),
            decreases count - k,
        {
            let value = self.read_ram(index_register_value + k);
            self.write_to_general_purpouse_registers(k as usize, value);
            k += 1;
            assert(self@.registers =~= write_bytes(before.registers, 0, before.ram.subrange(i, i + k)));
        }
        self.write_to_index_register((index_register_value + count) % 4096);
        Ok(())
    }
}

} // verus!
