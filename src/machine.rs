//! The machine state: registers, memory, call stack, timers, keypad and
//! display, with the cycle driver that fetches, decodes and executes.
use vstd::prelude::*;

use crate::instructions::{decode, execute_effect, parse_instruction, Instruction};
use crate::screen::{Screen, SCREEN_SIZE};

pub mod operations;

verus! {

pub const RAM_SIZE: usize = 4096;

pub const STACK_DEPTH: usize = 16;

/// Register VF, written by the carry, borrow, shift and draw instructions.
pub const FLAG_REGISTER: usize = 15;

/// Where programs are loaded and where execution starts.
pub const PROGRAM_START: u16 = 0x200;

/// Where the hexadecimal digit glyphs are stored, five bytes each.
pub const FONT_START: u16 = 0x50;

pub const FONTSET_SIZE: usize = 80;

/// The glyphs of the hexadecimal digits 0 to F, five rows of four pixels each.
pub open spec fn fontset() -> Seq<u8> {
    seq![
        0xF0u8, 0x90, 0x90, 0x90, 0xF0, // 0
        0x20, 0x60, 0x20, 0x20, 0x70, // 1
        0xF0, 0x10, 0xF0, 0x80, 0xF0, // 2
        0xF0, 0x10, 0xF0, 0x10, 0xF0, // 3
        0x90, 0x90, 0xF0, 0x10, 0x10, // 4
        0xF0, 0x80, 0xF0, 0x10, 0xF0, // 5
        0xF0, 0x80, 0xF0, 0x90, 0xF0, // 6
        0xF0, 0x10, 0x20, 0x40, 0x40, // 7
        0xF0, 0x90, 0xF0, 0x90, 0xF0, // 8
        0xF0, 0x90, 0xF0, 0x10, 0xF0, // 9
        0xF0, 0x90, 0xF0, 0x90, 0x90, // A
        0xE0, 0x90, 0xE0, 0x90, 0xE0, // B
        0xF0, 0x80, 0x80, 0x80, 0xF0, // C
        0xE0, 0x90, 0x90, 0x90, 0xE0, // D
        0xF0, 0x80, 0xF0, 0x80, 0xF0, // E
        0xF0, 0x80, 0xF0, 0x80, 0x80, // F
    ]
}

fn fontset_bytes() -> (r: [u8; FONTSET_SIZE])
    ensures
        r@ == fontset(),
{
    let r = [
        0xF0u8, 0x90, 0x90, 0x90, 0xF0, 0x20, 0x60, 0x20, 0x20, 0x70, 0xF0, 0x10, 0xF0, 0x80,
        0xF0, 0xF0, 0x10, 0xF0, 0x10, 0xF0, 0x90, 0x90, 0xF0, 0x10, 0x10, 0xF0, 0x80, 0xF0,
        0x10, 0xF0, 0xF0, 0x80, 0xF0, 0x90, 0xF0, 0xF0, 0x10, 0x20, 0x40, 0x40, 0xF0, 0x90,
        0xF0, 0x90, 0xF0, 0xF0, 0x90, 0xF0, 0x10, 0xF0, 0xF0, 0x90, 0xF0, 0x90, 0x90, 0xE0,
        0x90, 0xE0, 0x90, 0xE0, 0xF0, 0x80, 0x80, 0x80, 0xF0, 0xE0, 0x90, 0x90, 0x90, 0xE0,
        0xF0, 0x80, 0xF0, 0x80, 0xF0, 0xF0, 0x80, 0xF0, 0x80, 0x80,
    ];
    assert(r@ =~= fontset());
    r
}

/// What can go wrong in loading a program or in running a cycle.
#[derive(Clone, Copy, Debug, PartialEq, Eq, Structural)]
pub enum MachineError {
    /// `length` bytes from `start_address` do not fit in memory.
    ProgramTooLarge { start_address: u16, length: usize },
    /// The word fetched at `address` decodes to no instruction.
    UnknownInstruction { word: u16, address: u16 },
    /// An access to memory starting at `address` would run past its end.
    MemoryOutOfBounds { address: u16 },
    /// A call with all sixteen stack entries in use.
    StackOverflow,
    /// A return with no stack entry in use.
    StackUnderflow,
}

/// The mathematical model of a machine.
pub struct MachineView {
    /// V0 to VF.
    pub registers: Seq<u8>,
    pub program_counter: u16,
    pub index_register: u16,
    pub delay_timer: u8,
    pub sound_timer: u8,
    pub ram: Seq<u8>,
    /// The return addresses in use, oldest first.
    pub stack: Seq<u16>,
    pub pressed_keys: Seq<bool>,
    pub display: Seq<bool>,
}

/// `ram` with `data` written from address `start` on.
pub open spec fn write_bytes(ram: Seq<u8>, start: int, data: Seq<u8>) -> Seq<u8> {
    Seq::new(ram.len(), |a: int| if start <= a < start + data.len() { data[a - start] } else { ram[a] })
}

/// Whether a step that was to have `effect` on `before` left `after` and
/// returned `r`: the new state on success, the old state and the error
/// otherwise.
pub open spec fn effect_taken(
    effect: Result<MachineView, MachineError>,
    before: MachineView,
    after: MachineView,
    r: Result<(), MachineError>,
) -> bool {
    match effect {
        Ok(next) => r is Ok && after == next,
        Err(e) => r == Err::<(), MachineError>(e) && after == before,
    }
}

/// `v` reduced to a 16-bit unsigned value.
pub open spec fn wrap16(v: int) -> u16 {
    (v % 0x10000) as u16
}

impl MachineView {
    /// The shape every machine has.
    pub open spec fn wf(self) -> bool {
        &&& self.registers.len() == 16
        &&& self.ram.len() == RAM_SIZE
        &&& self.stack.len() <= STACK_DEPTH
        &&& self.pressed_keys.len() == 16
        &&& self.display.len() == SCREEN_SIZE
    }

    pub open spec fn set_register(self, index: int, value: u8) -> MachineView {
        MachineView { registers: self.registers.update(index, value), ..self }
    }

    pub open spec fn set_registers(self, registers: Seq<u8>) -> MachineView {
        MachineView { registers, ..self }
    }

    pub open spec fn set_program_counter(self, value: u16) -> MachineView {
        MachineView { program_counter: value, ..self }
    }

    pub open spec fn set_index_register(self, value: u16) -> MachineView {
        MachineView { index_register: value, ..self }
    }

    pub open spec fn set_delay_timer(self, value: u8) -> MachineView {
        MachineView { delay_timer: value, ..self }
    }

    pub open spec fn set_sound_timer(self, value: u8) -> MachineView {
        MachineView { sound_timer: value, ..self }
    }

    pub open spec fn set_ram(self, ram: Seq<u8>) -> MachineView {
        MachineView { ram, ..self }
    }

    pub open spec fn set_stack(self, stack: Seq<u16>) -> MachineView {
        MachineView { stack, ..self }
    }

    pub open spec fn set_key(self, key: int, pressed: bool) -> MachineView {
        MachineView { pressed_keys: self.pressed_keys.update(key, pressed), ..self }
    }

    pub open spec fn set_display(self, display: Seq<bool>) -> MachineView {
        MachineView { display, ..self }
    }

    /// The program counter moved on by `n` bytes, wrapping at 16 bits.
    pub open spec fn advance(self, n: int) -> MachineView {
        self.set_program_counter(wrap16(self.program_counter + n))
    }

    /// A machine just reset: everything zero but the font, execution at
    /// the program start.
    pub open spec fn initial() -> MachineView {
        MachineView {
            registers: Seq::new(16, |i: int| 0u8),
            program_counter: PROGRAM_START,
            index_register: 0,
            delay_timer: 0,
            sound_timer: 0,
            ram: write_bytes(Seq::new(RAM_SIZE as nat, |a: int| 0u8), FONT_START as int, fontset()),
            stack: Seq::empty(),
            pressed_keys: Seq::new(16, |i: int| false),
            display: Seq::new(SCREEN_SIZE as nat, |p: int| false),
        }
    }
}

/// Return addresses: `entries[..stack_pointer]` are in use, oldest first.
struct CallStack {
    entries: [u16; STACK_DEPTH],
    stack_pointer: u8,
}

impl CallStack {
    #[verifier::type_invariant]
    spec fn within_bounds(self) -> bool {
        self.stack_pointer as usize <= STACK_DEPTH
    }

    spec fn in_use(self) -> Seq<u16> {
        self.entries@.subrange(0, self.stack_pointer as int)
    }
}

/// The word stored at `address`, high byte first.
pub open spec fn fetch_word(ram: Seq<u8>, address: int) -> u16 {
    (ram[address] * 256 + ram[address + 1]) as u16
}

/// One cycle: fetch the word at the program counter, decode it, run it and
/// move on to the next instruction. Nothing changes when any part fails.
pub open spec fn cycle_effect(s: MachineView, random_byte: u8) -> Result<MachineView, MachineError> {
    let pc = s.program_counter as int;
    if pc + 1 >= RAM_SIZE {
        Err(MachineError::MemoryOutOfBounds { address: s.program_counter })
    } else {
        let word = fetch_word(s.ram, pc);
        let instruction = Instruction { opcode: decode(word), operand: word };
        match execute_effect(s, instruction, random_byte) {
            Ok(next) => Ok(next.advance(2)),
            Err(e) => Err(e),
        }
    }
}

pub struct Machine {
    general_purpouse_registers: [u8; 16],
    program_counter: u16,
    index_register: u16,
    sound_timer: u8,
    delay_timer: u8,
    ram: [u8; RAM_SIZE],
    stack: CallStack,
    pressed_keys: [bool; 16],
    screen: Screen,
}

impl View for Machine {
    type V = MachineView;

    closed spec fn view(&self) -> MachineView {
        MachineView {
            registers: self.general_purpouse_registers@,
            program_counter: self.program_counter,
            index_register: self.index_register,
            delay_timer: self.delay_timer,
            sound_timer: self.sound_timer,
            ram: self.ram@,
            stack: self.stack.in_use(),
            pressed_keys: self.pressed_keys@,
            display: self.screen.display@,
        }
    }
}

impl Machine {
    pub fn new() -> (m: Machine)
        ensures
            m@ == MachineView::initial(),
    {
        let font = fontset_bytes();
        let mut ram = [0u8; RAM_SIZE];
        let ghost zeros = Seq::new(RAM_SIZE as nat, |a: int| 0u8);
        assert(ram@ =~= write_bytes(zeros, FONT_START as int, fontset().subrange(0, 0)));
        let mut i: usize = 0;
        while i < FONTSET_SIZE
            invariant
                i <= FONTSET_SIZE,
                font@ == fontset(),
                zeros == Seq::new(RAM_SIZE as nat, |a: int| 0u8),
                ram@ == write_bytes(zeros, FONT_START as int, fontset().subrange(0, i as int)),
            decreases FONTSET_SIZE - i,
        {
            ram[FONT_START as usize + i] = font[i];
            i += 1;
            assert(ram@ =~= write_bytes(zeros, FONT_START as int, fontset().subrange(0, i as int)));
        }
        let machine = Machine {
            general_purpouse_registers: [0; 16],
            program_counter: PROGRAM_START,
            index_register: 0,
            sound_timer: 0,
            delay_timer: 0,
            ram,
            stack: CallStack { entries: [0; STACK_DEPTH], stack_pointer: 0 },
            pressed_keys: [false; 16],
            screen: Screen::new(),
        };
        proof {
            assert(fontset().subrange(0, FONTSET_SIZE as int) =~= fontset());
            assert(machine@.registers =~= MachineView::initial().registers);
            assert(machine@.stack =~= MachineView::initial().stack);
            assert(machine@.pressed_keys =~= MachineView::initial().pressed_keys);
            assert(machine@.display =~= MachineView::initial().display);
        }
        machine
    }
}

impl Machine {
    /// Pushes a return address; fails when all entries are in use.
    pub fn push_to_stack(&mut self, value: u16) -> (r: Result<(), MachineError>)
        ensures
            old(self)@.stack.len() < STACK_DEPTH ==> r is Ok && final(self)@ == old(self)@.set_stack(
                old(self)@.stack.push(value),
            ),
            old(self)@.stack.len() >= STACK_DEPTH ==> r == Err::<(), MachineError>(
                MachineError::StackOverflow,
            ) && final(self)@ == old(self)@,
    {
        proof {
            use_type_invariant(&self.stack);
        }
        if self.stack.stack_pointer as usize >= STACK_DEPTH {
            return Err(MachineError::StackOverflow);
        }
        let ghost before = self@;
        let sp = self.stack.stack_pointer;
        let mut entries = self.stack.entries;
        entries[sp as usize] = value;
        self.stack = CallStack { entries, stack_pointer: sp + 1 };
        assert(self@.stack =~= before.stack.push(value));
        Ok(())
    }

    /// Pops the most recent return address; fails when the stack is empty.
    pub fn pop_from_stack(&mut self) -> (r: Result<u16, MachineError>)
        ensures
            old(self)@.stack.len() > 0 ==> r == Ok::<u16, MachineError>(old(self)@.stack.last())
                && final(self)@ == old(self)@.set_stack(old(self)@.stack.drop_last()),
            old(self)@.stack.len() == 0 ==> r == Err::<u16, MachineError>(
                MachineError::StackUnderflow,
            ) && final(self)@ == old(self)@,
    {
        proof {
            use_type_invariant(&self.stack);
        }
        if self.stack.stack_pointer == 0 {
            return Err(MachineError::StackUnderflow);
        }
        let ghost before = self@;
        let sp = self.stack.stack_pointer - 1;
        let value = self.stack.entries[sp as usize];
        self.stack = CallStack { entries: self.stack.entries, stack_pointer: sp };
        assert(self@.stack =~= before.stack.drop_last());
        Ok(value)
    }
}

impl Machine {
    pub fn read_pressed_keys(&self) -> (r: [bool; 16])
        ensures
            r@ == self@.pressed_keys,
    {
        self.pressed_keys
    }

    /// Marks a key as held down.
    pub fn set_pressed_keys(&mut self, pressed_key: u16)
        requires
            pressed_key < 16,
        ensures
            final(self)@ == old(self)@.set_key(pressed_key as int, true),
    {
        self.pressed_keys[pressed_key as usize] = true;
    }

    /// Marks a key as released.
    pub fn unset_pressed_keys(&mut self, released_key: u16)
        requires
            released_key < 16,
        ensures
            final(self)@ == old(self)@.set_key(released_key as int, false),
    {
        self.pressed_keys[released_key as usize] = false;
    }

    pub fn read_general_purpouse_registers(&self, index: usize) -> (r: u8)
        requires
            index < 16,
        ensures
            r == self@.registers[index as int],
    {
        self.general_purpouse_registers[index]
    }

    pub fn write_to_general_purpouse_registers(&mut self, index: usize, value: u8)
        requires
            index < 16,
        ensures
            final(self)@ == old(self)@.set_register(index as int, value),
    {
        self.general_purpouse_registers[index] = value;
    }

    pub fn read_delay_timer(&self) -> (r: u8)
        ensures
            r == self@.delay_timer,
    {
        self.delay_timer
    }

    pub fn write_to_delay_timer(&mut self, value: u8)
        ensures
            final(self)@ == old(self)@.set_delay_timer(value),
    {
        self.delay_timer = value;
    }

    /// One tick of the delay timer: down by one, stopping at zero.
    pub fn decrement_delay_timer(&mut self)
        ensures
            final(self)@ == old(self)@.set_delay_timer(
                if old(self)@.delay_timer == 0 { 0 } else { (old(self)@.delay_timer - 1) as u8 },
            ),
    {
        if self.delay_timer > 0 {
            self.delay_timer = self.delay_timer - 1;
        }
    }

    pub fn read_sound_timer(&self) -> (r: u8)
        ensures
            r == self@.sound_timer,
    {
        self.sound_timer
    }

    pub fn write_to_sound_timer(&mut self, value: u8)
        ensures
            final(self)@ == old(self)@.set_sound_timer(value),
    {
        self.sound_timer = value;
    }

    /// One tick of the sound timer: down by one, stopping at zero.
    pub fn decrement_sound_timer(&mut self)
        ensures
            final(self)@ == old(self)@.set_sound_timer(
                if old(self)@.sound_timer == 0 { 0 } else { (old(self)@.sound_timer - 1) as u8 },
            ),
    {
        if self.sound_timer > 0 {
            self.sound_timer = self.sound_timer - 1;
        }
    }

    pub fn read_index_register(&self) -> (r: u16)
        ensures
            r == self@.index_register,
    {
        self.index_register
    }

    pub fn write_to_index_register(&mut self, value: u16)
        ensures
            final(self)@ == old(self)@.set_index_register(value),
    {
        self.index_register = value;
    }

    pub fn read_program_counter(&self) -> (r: u16)
        ensures
            r == self@.program_counter,
    {
        self.program_counter
    }

    pub fn write_to_program_counter(&mut self, value: u16)
        ensures
            final(self)@ == old(self)@.set_program_counter(value),
    {
        self.program_counter = value;
    }

    /// Moves the program counter on by `value`, wrapping at 16 bits.
    pub fn increment_program_counter(&mut self, value: u16)
        ensures
            final(self)@ == old(self)@.advance(value as int),
    {
        self.program_counter = self.program_counter.wrapping_add(value);
    }

    pub fn update_program_counter(&mut self, new_value: u16)
        ensures
            final(self)@ == old(self)@.set_program_counter(new_value),
    {
        self.program_counter = new_value;
    }

    /// Copies `data` into memory from `start_address` on; fails, changing
    /// nothing, when it would run past the end of memory.
    pub fn copy_to_ram(&mut self, data: &[u8], start_address: u16) -> (r: Result<(), MachineError>)
        ensures
            start_address + data@.len() <= RAM_SIZE ==> r is Ok && final(self)@ == old(self)@.set_ram(
                write_bytes(old(self)@.ram, start_address as int, data@),
            ),
            start_address + data@.len() > RAM_SIZE ==> r == Err::<(), MachineError>(
                MachineError::MemoryOutOfBounds { address: start_address },
            ) && final(self)@ == old(self)@,
    {
        if data.len() > RAM_SIZE || start_address as usize > RAM_SIZE - data.len() {
            return Err(MachineError::MemoryOutOfBounds { address: start_address });
        }
        let start = start_address as usize;
        let ghost before = self@;
        assert(before.ram =~= write_bytes(before.ram, start as int, data@.subrange(0, 0)));
        let mut i: usize = 0;
        while i < data.len()
            invariant
                i <= data@.len(),
                start + data@.len() <= RAM_SIZE,
                start == start_address,
                self@ == before.set_ram(write_bytes(before.ram, start as int, data@.subrange(0, i as int))),
            decreases data@.len() - i,
        {
            self.ram[start + i] = data[i];
            i += 1;
            assert(self.ram@ =~= write_bytes(before.ram, start as int, data@.subrange(0, i as int)));
        }
        assert(data@.subrange(0, data@.len() as int) =~= data@);
        Ok(())
    }

    pub fn read_ram(&self, address: u16) -> (r: u8)
        requires
            address < RAM_SIZE,
        ensures
            r == self@.ram[address as int],
    {
        self.ram[address as usize]
    }

    /// The display, for a host to render.
    pub fn screen(&self) -> (s: &Screen)
        ensures
            s.display@ == self@.display,
    {
        &self.screen
    }
}

impl Machine {
    /// Runs one cycle. `random_byte` is the host's random draw, used only
    /// by `RND`. On failure the machine is left as it was.
    pub fn exec(&mut self, random_byte: u8) -> (r: Result<(), MachineError>)
        ensures
            effect_taken(cycle_effect(old(self)@, random_byte), old(self)@, final(self)@, r),
    {
        let pc = self.read_program_counter();
        if pc as usize + 1 >= RAM_SIZE {
            return Err(MachineError::MemoryOutOfBounds { address: pc });
        }
        let high = self.read_ram(pc);
        let low = self.read_ram(pc + 1);
        let word = ((high as u16) << 8) | (low as u16);
        assert(word == high * 256 + low) by (bit_vector)
            requires
                word == ((high as u16) << 8u16) | (low as u16),
        ;
        let instruction = parse_instruction(word);
        instruction.execute(self, random_byte)?;
        self.increment_program_counter(2);
        Ok(())
    }
}

} // verus!
