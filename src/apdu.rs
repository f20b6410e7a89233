use vstd::prelude::*;

use crate::error::ErrorCode;

verus! {

/// Instruction codes of an earlier command set of the application.
#[derive(Clone, Copy, Debug, PartialEq, Eq, Structural)]
pub enum Ins {
    GetPubkey,
    Sign,
    Menu,
    Exit,
}

/// The instruction byte of each instruction.
pub open spec fn ins_byte(i: Ins) -> u8 {
    match i {
        Ins::GetPubkey => 2,
        Ins::Sign => 3,
        Ins::Menu => 4,
        Ins::Exit => 0xFF,
    }
}

/// Whether `b` is the byte of one of the instructions.
pub open spec fn is_ins_byte(b: u8) -> bool {
    b == 2 || b == 3 || b == 4 || b == 0xFF
}

impl Ins {
    /// The instruction whose byte is `ins`.
    pub fn from(ins: u8) -> (r: Ins)
        requires
            is_ins_byte(ins),
        ensures
            ins_byte(r) == ins,
    {
        match ins {
            2 => Ins::GetPubkey,
            3 => Ins::Sign,
            4 => Ins::Menu,
            _ => Ins::Exit,
        }
    }
}

/// Accepts every instruction of the earlier command set without effect.
pub fn handle_apdu(_ins: Ins) -> (r: Result<(), ErrorCode>)
    ensures
        r == Ok::<(), ErrorCode>(()),
{
    Ok(())
}

} // verus!
