//! Properties that relate several instructions.
use vstd::prelude::*;

use crate::machine::operations::{draw_effect, load_effect, store_effect};
use crate::instructions::{decode, execute_effect, nibble_x, nibble_y, Instruction};
use crate::machine::{cycle_effect, fetch_word, MachineView, FLAG_REGISTER, RAM_SIZE};
use crate::screen::{sprite_covers, SCREEN_SIZE};

verus! {

/// Drawing a sprite twice at the same place gives the display back as it
/// was; the second draw sets VF to 1 exactly when some pixel under the
/// sprite was set after the first draw.
///
/// The place is (Vx, Vy), so neither may be VF, which the first draw
/// overwrites.
pub proof fn lemma_draw_twice_restores(s: MachineView, x: u8, y: u8, n: u8)
    requires
        s.wf(),
        x < 16,
        y < 16,
        x != FLAG_REGISTER,
        y != FLAG_REGISTER,
        s.index_register + n <= RAM_SIZE,
    ensures
        draw_effect(s, x, y, n) is Ok,
        draw_effect(draw_effect(s, x, y, n)->Ok_0, x, y, n) is Ok,
        ({
            let once = draw_effect(s, x, y, n)->Ok_0;
            let twice = draw_effect(once, x, y, n)->Ok_0;
            let rows = s.ram.subrange(s.index_register as int, s.index_register + n);
            let (vx, vy) = (s.registers[x as int], s.registers[y as int]);
            &&& twice.display == s.display
            &&& twice.registers[FLAG_REGISTER as int] == 1 <==> exists|p: int|
                0 <= p < SCREEN_SIZE && #[trigger] sprite_covers(rows, vx, vy, p) && once.display[p]
        }),
{
    let once = draw_effect(s, x, y, n)->Ok_0;
    let twice = draw_effect(once, x, y, n)->Ok_0;
    assert(twice.display =~= s.display);
}

/// Storing V0 to Vx at I and then, with I set back to the same address,
/// loading V0 to Vx gives the registers back as they were.
pub proof fn lemma_store_then_load_restores(s: MachineView, x: u8)
    requires
        s.wf(),
        x < 16,
        s.index_register + x + 1 <= RAM_SIZE,
    ensures
        store_effect(s, x) is Ok,
        load_effect((store_effect(s, x)->Ok_0).set_index_register(s.index_register), x) is Ok,
        load_effect((store_effect(s, x)->Ok_0).set_index_register(s.index_register), x)->Ok_0.registers
            == s.registers,
{
    let i = s.index_register as int;
    let stored = store_effect(s, x)->Ok_0;
    let reloaded = load_effect(stored.set_index_register(s.index_register), x)->Ok_0;
    assert(stored.ram.subrange(i, i + x + 1) =~= s.registers.subrange(0, x + 1));
    assert(reloaded.registers =~= s.registers);
}

/// A machine just reset has sixteen registers, 4096 bytes of memory, an
/// empty stack, sixteen keys and 2048 pixels.
pub proof fn lemma_initial_wf()
    ensures
        MachineView::initial().wf(),
{
}

/// A cycle that succeeds keeps that shape; in particular the stack never
/// holds more than sixteen return addresses.
pub proof fn lemma_cycle_preserves_wf(s: MachineView, random_byte: u8)
    requires
        s.wf(),
    ensures
        cycle_effect(s, random_byte) is Ok ==> (cycle_effect(s, random_byte)->Ok_0).wf(),
{
    if s.program_counter + 1 < RAM_SIZE {
        let word = fetch_word(s.ram, s.program_counter as int);
        assert(nibble_x(word) < 16 && nibble_y(word) < 16) by (bit_vector);
        lemma_execute_preserves_wf(s, Instruction { opcode: decode(word), operand: word }, random_byte);
    }
}

proof fn lemma_execute_preserves_wf(s: MachineView, instruction: Instruction, random_byte: u8)
    requires
        s.wf(),
        instruction.opcode.wf(),
    ensures
        execute_effect(s, instruction, random_byte) is Ok ==> (execute_effect(s, instruction, random_byte)->Ok_0).wf(),
{
}

} // verus!
