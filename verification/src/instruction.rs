use vstd::prelude::*;

verus! {

/// The instruction word that halts the engine.
pub const HALT: u16 = 0x0000;

/// The instruction word that returns from a subroutine.
pub const RETURN: u16 = 0x00EE;

/// A decoded instruction. `x` and `y` are register indices.
#[derive(Clone, Copy, Debug, PartialEq, Eq, Structural)]
pub enum Operation {
    /// `0000`: stop.
    Halt,
    /// `00EE`: return from the current subroutine.
    Return,
    /// `2NNN`: call the subroutine at `addr`.
    Call { addr: u16 },
    /// `8XY0`: copy register `y` into register `x`.
    Assign { x: u8, y: u8 },
    /// `8XY1`: bitwise or.
    Or { x: u8, y: u8 },
    /// `8XY2`: bitwise and.
    And { x: u8, y: u8 },
    /// `8XY3`: bitwise exclusive or.
    Xor { x: u8, y: u8 },
    /// `8XY4`: add register `y` to register `x`.
    Add { x: u8, y: u8 },
    /// `8XY5`: subtract register `y` from register `x`.
    Sub { x: u8, y: u8 },
    /// `8XY6`: shift register `x` right by one.
    ShiftRight { x: u8 },
    /// `8XY7`: set register `x` to register `y` minus register `x`.
    ReverseSub { x: u8, y: u8 },
    /// `8XYE`: shift register `x` left by one.
    ShiftLeft { x: u8 },
}

impl Operation {
    /// Register indices are below 16.
    pub open spec fn well_formed(self) -> bool {
        match self {
            Operation::Halt | Operation::Return | Operation::Call { .. } => true,
            Operation::ShiftRight { x } | Operation::ShiftLeft { x } => x < 16,
            Operation::Assign { x, y }
            | Operation::Or { x, y }
            | Operation::And { x, y }
            | Operation::Xor { x, y }
            | Operation::Add { x, y }
            | Operation::Sub { x, y }
            | Operation::ReverseSub { x, y } => x < 16 && y < 16,
        }
    }
}

/// The instruction word made of two bytes, most significant first.
pub open spec fn spec_word(high: u8, low: u8) -> u16 {
    (high * 256 + low) as u16
}

/// Bits 8 to 11 of the word.
pub open spec fn field_x(word: u16) -> u8 {
    ((word / 256) % 16) as u8
}

/// Bits 4 to 7 of the word.
pub open spec fn field_y(word: u16) -> u8 {
    ((word / 16) % 16) as u8
}

/// Bits 0 to 3 of the word.
pub open spec fn field_minor(word: u16) -> u8 {
    (word % 16) as u8
}

/// Bits 0 to 11 of the word.
pub open spec fn field_addr(word: u16) -> u16 {
    (word % 4096) as u16
}

/// The operation a word stands for, or `None` where it has no handler.
/// The rules apply in the order written.
pub open spec fn spec_decode(word: u16) -> Option<Operation> {
    let x = field_x(word);
    let y = field_y(word);
    if word == HALT {
        Some(Operation::Halt)
    } else if word == RETURN {
        Some(Operation::Return)
    } else if 0x2000 <= word <= 0x2FFF {
        Some(Operation::Call { addr: field_addr(word) })
    } else if 0x8000 <= word <= 0x8FFF {
        let minor = field_minor(word);
        if minor == 0x0 {
            Some(Operation::Assign { x, y })
        } else if minor == 0x1 {
            Some(Operation::Or { x, y })
        } else if minor == 0x2 {
            Some(Operation::And { x, y })
        } else if minor == 0x3 {
            Some(Operation::Xor { x, y })
        } else if minor == 0x4 {
            Some(Operation::Add { x, y })
        } else if minor == 0x5 {
            Some(Operation::Sub { x, y })
        } else if minor == 0x6 {
            Some(Operation::ShiftRight { x })
        } else if minor == 0x7 {
            Some(Operation::ReverseSub { x, y })
        } else if minor == 0xE {
            Some(Operation::ShiftLeft { x })
        } else {
            None
        }
    } else {
        None
    }
}

/// Combines two bytes into an instruction word, most significant first.
pub fn word(high: u8, low: u8) -> (w: u16)
    ensures
        w == spec_word(high, low),
{
    let h: u16 = high as u16;
    let l: u16 = low as u16;
    assert((h << 8 | l) == h * 256 + l) by (bit_vector)
        requires
            h < 256,
            l < 256,
    ;
    h << 8 | l
}

/// Decodes an instruction word.
pub fn decode(word: u16) -> (r: Option<Operation>)
    ensures
        r == spec_decode(word),
        r matches Some(op) ==> op.well_formed(),
{
    let x: u8 = ((word & 0x0F00) >> 8) as u8;
    let y: u8 = ((word & 0x00F0) >> 4) as u8;
    let minor: u8 = (word & 0x000F) as u8;
    let addr: u16 = word & 0x0FFF;
    assert((word & 0x0F00) >> 8 == (word / 256) % 16) by (bit_vector);
    assert((word & 0x00F0) >> 4 == (word / 16) % 16) by (bit_vector);
    assert(word & 0x000F == word % 16) by (bit_vector);
    assert(word & 0x0FFF == word % 4096) by (bit_vector);
    match word {
        0x0000 => Some(Operation::Halt),
        0x00EE => Some(Operation::Return),
        0x2000..=0x2FFF => Some(Operation::Call { addr }),
        0x8000..=0x8FFF => match minor {
            0x0 => Some(Operation::Assign { x, y }),
            0x1 => Some(Operation::Or { x, y }),
            0x2 => Some(Operation::And { x, y }),
            0x3 => Some(Operation::Xor { x, y }),
            0x4 => Some(Operation::Add { x, y }),
            0x5 => Some(Operation::Sub { x, y }),
            0x6 => Some(Operation::ShiftRight { x }),
            0x7 => Some(Operation::ReverseSub { x, y }),
            0xE => Some(Operation::ShiftLeft { x }),
            _ => None,
        },
        _ => None,
    }
}

} // verus!
