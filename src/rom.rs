//! Loading a program image into a machine.
use vstd::prelude::*;

use crate::machine::{write_bytes, Machine, MachineError, PROGRAM_START, RAM_SIZE};

verus! {

pub struct Rom;

impl Rom {
    /// Copies `program` into memory from the program start on. Fails when
    /// it does not fit.
    pub fn load(program: &[u8], machine: Machine) -> (r: Result<Machine, MachineError>)
        ensures
            match r {
                Ok(loaded) => PROGRAM_START + program@.len() <= RAM_SIZE && loaded@ == machine@.set_ram(
                    write_bytes(machine@.ram, PROGRAM_START as int, program@),
                ),
                Err(e) => PROGRAM_START + program@.len() > RAM_SIZE && e
                    == MachineError::ProgramTooLarge {
                    start_address: PROGRAM_START,
                    length: program@.len() as usize,
                },
            },
    {
        let mut machine = machine;
        match machine.copy_to_ram(program, PROGRAM_START) {
            Ok(()) => Ok(machine),
            Err(_) => Err(
                MachineError::ProgramTooLarge { start_address: PROGRAM_START, length: program.len() },
            ),
        }
    }
}

} // verus!
