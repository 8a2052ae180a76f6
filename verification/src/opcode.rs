//! Instruction words and their decoding.
use vstd::prelude::*;

verus! {

/// Bits 8 to 11 of an instruction word: the first register operand.
pub open spec fn field_x(opcode: u16) -> u8 {
    ((opcode / 0x100) % 0x10) as u8
}

/// Bits 4 to 7 of an instruction word: the second register operand.
pub open spec fn field_y(opcode: u16) -> u8 {
    ((opcode / 0x10) % 0x10) as u8
}

/// The low four bits of an instruction word.
pub open spec fn field_nibble(opcode: u16) -> u8 {
    (opcode % 0x10) as u8
}

/// The low byte of an instruction word.
pub open spec fn field_byte(opcode: u16) -> u8 {
    (opcode % 0x100) as u8
}

/// The low twelve bits of an instruction word: an address.
pub open spec fn field_addr(opcode: u16) -> u16 {
    opcode % 0x1000
}

/// The high four bits of an instruction word.
pub open spec fn field_family(opcode: u16) -> u16 {
    opcode / 0x1000
}

/// One instruction of the machine with its operands.
#[derive(Clone, Copy, Debug, PartialEq, Eq, Structural)]
pub enum Instruction {
    /// `00E0`: clear the display.
    Cls,
    /// `00EE`: return from a subroutine.
    Ret,
    /// `1nnn`: jump to `addr`.
    Jmp { addr: u16 },
    /// `2nnn`: call the subroutine at `addr`.
    Call { addr: u16 },
    /// `3xkk`: skip the next instruction if register `x` equals `byte`.
    SeVxByte { x: u8, byte: u8 },
    /// `4xkk`: skip the next instruction if register `x` differs from `byte`.
    SneVxByte { x: u8, byte: u8 },
    /// `5xy_`: the register comparison of the `5` family.
    SeVxVy { x: u8, y: u8 },
    /// `6xkk`: load `byte` into register `x`.
    LdVxByte { x: u8, byte: u8 },
    /// `7xkk`: add `byte` to register `x`.
    AddVxByte { x: u8, byte: u8 },
    /// `8xy0`: copy register `y` into register `x`.
    LdVxVy { x: u8, y: u8 },
    /// `8xy1`: bitwise or of registers `x` and `y` into `x`.
    OrVxVy { x: u8, y: u8 },
    /// `8xy2`: bitwise and of registers `x` and `y` into `x`.
    AndVxVy { x: u8, y: u8 },
    /// `8xy3`: bitwise exclusive or of registers `x` and `y` into `x`.
    XorVxVy { x: u8, y: u8 },
    /// `8xy4`: add register `y` to register `x`, flag is the carry.
    AddVxVy { x: u8, y: u8 },
    /// `8xy5`: subtract register `y` from register `x`, flag is set when
    /// nothing is borrowed.
    SubVxVy { x: u8, y: u8 },
    /// `8x_6`: shift register `x` right by one, flag is the bit shifted out.
    ShrVx { x: u8 },
    /// `8xy7`: register `y` minus register `x` into `x`, flag is set when
    /// nothing is borrowed.
    SubnVxVy { x: u8, y: u8 },
    /// `8x_E`: shift register `x` left by one, flag is the bit shifted out.
    ShlVx { x: u8 },
    /// `9xy_`: skip the next instruction if registers `x` and `y` differ.
    SneVxVy { x: u8, y: u8 },
    /// `Annn`: load `addr` into the address register.
    LdIAddr { addr: u16 },
    /// `Bnnn`: jump to `addr` plus register 0.
    JmpV0Addr { addr: u16 },
    /// `Cxkk`: load a random byte masked with `byte` into register `x`.
    RndVxByte { x: u8, byte: u8 },
    /// `Dxyn`: draw a sprite of `nibble` rows at the position held by
    /// registers `x` and `y`.
    DrawVxVyNibble { x: u8, y: u8, nibble: u8 },
    /// `Ex9E`: skip the next instruction if the key in register `x` is down.
    SkpVx { x: u8 },
    /// `ExA1`: skip the next instruction if the key in register `x` is up.
    SknpVx { x: u8 },
    /// `Fx07`: load the delay timer into register `x`.
    LdVxDt { x: u8 },
    /// `Fx0A`: load a pressed key into register `x`, or come back to this
    /// instruction when no key is down.
    LdVxK { x: u8 },
    /// `Fx15`: load register `x` into the delay timer.
    LdDtVx { x: u8 },
    /// `Fx18`: load register `x` into the sound timer.
    LdStVx { x: u8 },
    /// `Fx1E`: add register `x` to the address register.
    AddIVx { x: u8 },
    /// `Fx29`: point the address register at the glyph of the digit in
    /// register `x`.
    LdFVx { x: u8 },
    /// `Fx33`: store the three decimal digits of register `x` in memory.
    LdBVx { x: u8 },
    /// `Fx55`: store registers 0 to `x` in memory.
    LdViVx { x: u8 },
    /// `Fx65`: load registers 0 to `x` from memory.
    LdVxVi { x: u8 },
}

impl Instruction {
    /// Every operand fits its field of the instruction word.
    pub open spec fn wf(self) -> bool {
        match self {
            Instruction::Cls | Instruction::Ret => true,
            Instruction::Jmp { addr }
            | Instruction::Call { addr }
            | Instruction::LdIAddr { addr }
            | Instruction::JmpV0Addr { addr } => addr < 0x1000,
            Instruction::SeVxByte { x, .. }
            | Instruction::SneVxByte { x, .. }
            | Instruction::LdVxByte { x, .. }
            | Instruction::AddVxByte { x, .. }
            | Instruction::RndVxByte { x, .. }
            | Instruction::ShrVx { x }
            | Instruction::ShlVx { x }
            | Instruction::SkpVx { x }
            | Instruction::SknpVx { x }
            | Instruction::LdVxDt { x }
            | Instruction::LdVxK { x }
            | Instruction::LdDtVx { x }
            | Instruction::LdStVx { x }
            | Instruction::AddIVx { x }
            | Instruction::LdFVx { x }
            | Instruction::LdBVx { x }
            | Instruction::LdViVx { x }
            | Instruction::LdVxVi { x } => x < 16,
            Instruction::SeVxVy { x, y }
            | Instruction::LdVxVy { x, y }
            | Instruction::OrVxVy { x, y }
            | Instruction::AndVxVy { x, y }
            | Instruction::XorVxVy { x, y }
            | Instruction::AddVxVy { x, y }
            | Instruction::SubVxVy { x, y }
            | Instruction::SubnVxVy { x, y }
            | Instruction::SneVxVy { x, y } => x < 16 && y < 16,
            Instruction::DrawVxVyNibble { x, y, nibble } => x < 16 && y < 16 && nibble < 16,
        }
    }

    /// The instruction words that stand for this instruction: the pattern of
    /// its class with the operands in their fields.
    pub open spec fn encodes(self, opcode: u16) -> bool {
        let family = field_family(opcode);
        let fx = field_x(opcode);
        let fy = field_y(opcode);
        let nibble = field_nibble(opcode);
        let byte = field_byte(opcode);
        let addr = field_addr(opcode);
        match self {
            Instruction::Cls => opcode == 0x00E0,
            Instruction::Ret => opcode == 0x00EE,
            Instruction::Jmp { addr: a } => family == 0x1 && a == addr,
            Instruction::Call { addr: a } => family == 0x2 && a == addr,
            Instruction::SeVxByte { x, byte: b } => family == 0x3 && x == fx && b == byte,
            Instruction::SneVxByte { x, byte: b } => family == 0x4 && x == fx && b == byte,
            Instruction::SeVxVy { x, y } => family == 0x5 && x == fx && y == fy,
            Instruction::LdVxByte { x, byte: b } => family == 0x6 && x == fx && b == byte,
            Instruction::AddVxByte { x, byte: b } => family == 0x7 && x == fx && b == byte,
            Instruction::LdVxVy { x, y } => family == 0x8 && nibble == 0x0 && x == fx && y == fy,
            Instruction::OrVxVy { x, y } => family == 0x8 && nibble == 0x1 && x == fx && y == fy,
            Instruction::AndVxVy { x, y } => family == 0x8 && nibble == 0x2 && x == fx && y == fy,
            Instruction::XorVxVy { x, y } => family == 0x8 && nibble == 0x3 && x == fx && y == fy,
            Instruction::AddVxVy { x, y } => family == 0x8 && nibble == 0x4 && x == fx && y == fy,
            Instruction::SubVxVy { x, y } => family == 0x8 && nibble == 0x5 && x == fx && y == fy,
            Instruction::ShrVx { x } => family == 0x8 && nibble == 0x6 && x == fx,
            Instruction::SubnVxVy { x, y } => family == 0x8 && nibble == 0x7 && x == fx && y == fy,
            Instruction::ShlVx { x } => family == 0x8 && nibble == 0xE && x == fx,
            Instruction::SneVxVy { x, y } => family == 0x9 && x == fx && y == fy,
            Instruction::LdIAddr { addr: a } => family == 0xA && a == addr,
            Instruction::JmpV0Addr { addr: a } => family == 0xB && a == addr,
            Instruction::RndVxByte { x, byte: b } => family == 0xC && x == fx && b == byte,
            Instruction::DrawVxVyNibble { x, y, nibble: n } => family == 0xD && x == fx && y == fy
                && n == nibble,
            Instruction::SkpVx { x } => family == 0xE && byte == 0x9E && x == fx,
            Instruction::SknpVx { x } => family == 0xE && byte == 0xA1 && x == fx,
            Instruction::LdVxDt { x } => family == 0xF && byte == 0x07 && x == fx,
            Instruction::LdVxK { x } => family == 0xF && byte == 0x0A && x == fx,
            Instruction::LdDtVx { x } => family == 0xF && byte == 0x15 && x == fx,
            Instruction::LdStVx { x } => family == 0xF && byte == 0x18 && x == fx,
            Instruction::AddIVx { x } => family == 0xF && byte == 0x1E && x == fx,
            Instruction::LdFVx { x } => family == 0xF && byte == 0x29 && x == fx,
            Instruction::LdBVx { x } => family == 0xF && byte == 0x33 && x == fx,
            Instruction::LdViVx { x } => family == 0xF && byte == 0x55 && x == fx,
            Instruction::LdVxVi { x } => family == 0xF && byte == 0x65 && x == fx,
        }
    }
}

/// The instruction that an instruction word stands for, if any. The word is
/// classified by its high four bits, and within the `0`, `8`, `E` and `F`
/// families by its low bits.
pub open spec fn spec_decode(opcode: u16) -> Option<Instruction> {
    let family = field_family(opcode);
    let x = field_x(opcode);
    let y = field_y(opcode);
    let nibble = field_nibble(opcode);
    let byte = field_byte(opcode);
    let addr = field_addr(opcode);
    if family == 0x0 {
        if opcode == 0x00E0 {
            Some(Instruction::Cls)
        } else if opcode == 0x00EE {
            Some(Instruction::Ret)
        } else {
            None
        }
    } else if family == 0x1 {
        Some(Instruction::Jmp { addr })
    } else if family == 0x2 {
        Some(Instruction::Call { addr })
    } else if family == 0x3 {
        Some(Instruction::SeVxByte { x, byte })
    } else if family == 0x4 {
        Some(Instruction::SneVxByte { x, byte })
    } else if family == 0x5 {
        Some(Instruction::SeVxVy { x, y })
    } else if family == 0x6 {
        Some(Instruction::LdVxByte { x, byte })
    } else if family == 0x7 {
        Some(Instruction::AddVxByte { x, byte })
    } else if family == 0x8 {
        if nibble == 0x0 {
            Some(Instruction::LdVxVy { x, y })
        } else if nibble == 0x1 {
            Some(Instruction::OrVxVy { x, y })
        } else if nibble == 0x2 {
            Some(Instruction::AndVxVy { x, y })
        } else if nibble == 0x3 {
            Some(Instruction::XorVxVy { x, y })
        } else if nibble == 0x4 {
            Some(Instruction::AddVxVy { x, y })
        } else if nibble == 0x5 {
            Some(Instruction::SubVxVy { x, y })
        } else if nibble == 0x6 {
            Some(Instruction::ShrVx { x })
        } else if nibble == 0x7 {
            Some(Instruction::SubnVxVy { x, y })
        } else if nibble == 0xE {
            Some(Instruction::ShlVx { x })
        } else {
            None
        }
    } else if family == 0x9 {
        Some(Instruction::SneVxVy { x, y })
    } else if family == 0xA {
        Some(Instruction::LdIAddr { addr })
    } else if family == 0xB {
        Some(Instruction::JmpV0Addr { addr })
    } else if family == 0xC {
        Some(Instruction::RndVxByte { x, byte })
    } else if family == 0xD {
        Some(Instruction::DrawVxVyNibble { x, y, nibble })
    } else if family == 0xE {
        if byte == 0x9E {
            Some(Instruction::SkpVx { x })
        } else if byte == 0xA1 {
            Some(Instruction::SknpVx { x })
        } else {
            None
        }
    } else {
        if byte == 0x07 {
            Some(Instruction::LdVxDt { x })
        } else if byte == 0x0A {
            Some(Instruction::LdVxK { x })
        } else if byte == 0x15 {
            Some(Instruction::LdDtVx { x })
        } else if byte == 0x18 {
            Some(Instruction::LdStVx { x })
        } else if byte == 0x1E {
            Some(Instruction::AddIVx { x })
        } else if byte == 0x29 {
            Some(Instruction::LdFVx { x })
        } else if byte == 0x33 {
            Some(Instruction::LdBVx { x })
        } else if byte == 0x55 {
            Some(Instruction::LdViVx { x })
        } else if byte == 0x65 {
            Some(Instruction::LdVxVi { x })
        } else {
            None
        }
    }
}

/// An instruction encodes a word exactly when the word decodes to it: a word
/// that decodes stands for one instruction only, with operands that fit their
/// fields, and a word that no instruction encodes does not decode.
pub proof fn lemma_decode_is_the_only_match(opcode: u16, instr: Instruction)
    ensures
        instr.encodes(opcode) <==> spec_decode(opcode) == Some(instr),
        instr.encodes(opcode) ==> instr.wf(),
{
}

/// Composes the big-endian instruction word from its two bytes.
pub open spec fn spec_opcode(high: u8, low: u8) -> u16 {
    (high * 0x100 + low) as u16
}

/// Composes the big-endian instruction word from its two bytes.
pub fn opcode_from_bytes(high: u8, low: u8) -> (opcode: u16)
    ensures
        opcode == spec_opcode(high, low),
{
    let wide_high = high as u16;
    let wide_low = low as u16;
    assert((wide_high << 8 | wide_low) == wide_high * 0x100 + wide_low) by (bit_vector)
        requires
            wide_high < 0x100,
            wide_low < 0x100,
    ;
    wide_high << 8 | wide_low
}

/// Decodes an instruction word. `None` is returned for the words that stand
/// for no instruction, `0x0000` among them.
pub fn decode(opcode: u16) -> (instr: Option<Instruction>)
    ensures
        instr == spec_decode(opcode),
        instr matches Some(found) ==> found.wf(),
{
    let x = ((opcode & 0x0F00) >> 8) as u8;
    let y = ((opcode & 0x00F0) >> 4) as u8;
    let nibble = (opcode & 0x000F) as u8;
    let byte = (opcode & 0x00FF) as u8;
    let addr = opcode & 0x0FFF;
    let family = opcode >> 12;
    proof {
        assert((opcode & 0x0F00) >> 8 == (opcode / 0x100) % 0x10) by (bit_vector);
        assert((opcode & 0x00F0) >> 4 == (opcode / 0x10) % 0x10) by (bit_vector);
        assert(opcode & 0x000F == opcode % 0x10) by (bit_vector);
        assert(opcode & 0x00FF == opcode % 0x100) by (bit_vector);
        assert(opcode & 0x0FFF == opcode % 0x1000) by (bit_vector);
        assert(opcode >> 12 == opcode / 0x1000) by (bit_vector);
    }
    match family {
        0x0 => match opcode {
            0x00E0 => Some(Instruction::Cls),
            0x00EE => Some(Instruction::Ret),
            _ => None,
        },
        0x1 => Some(Instruction::Jmp { addr }),
        0x2 => Some(Instruction::Call { addr }),
        0x3 => Some(Instruction::SeVxByte { x, byte }),
        0x4 => Some(Instruction::SneVxByte { x, byte }),
        0x5 => Some(Instruction::SeVxVy { x, y }),
        0x6 => Some(Instruction::LdVxByte { x, byte }),
        0x7 => Some(Instruction::AddVxByte { x, byte }),
        0x8 => match nibble {
            0x0 => Some(Instruction::LdVxVy { x, y }),
            0x1 => Some(Instruction::OrVxVy { x, y }),
            0x2 => Some(Instruction::AndVxVy { x, y }),
            0x3 => Some(Instruction::XorVxVy { x, y }),
            0x4 => Some(Instruction::AddVxVy { x, y }),
            0x5 => Some(Instruction::SubVxVy { x, y }),
            0x6 => Some(Instruction::ShrVx { x }),
            0x7 => Some(Instruction::SubnVxVy { x, y }),
            0xE => Some(Instruction::ShlVx { x }),
            _ => None,
        },
        0x9 => Some(Instruction::SneVxVy { x, y }),
        0xA => Some(Instruction::LdIAddr { addr }),
        0xB => Some(Instruction::JmpV0Addr { addr }),
        0xC => Some(Instruction::RndVxByte { x, byte }),
        0xD => Some(Instruction::DrawVxVyNibble { x, y, nibble }),
        0xE => match byte {
            0x9E => Some(Instruction::SkpVx { x }),
            0xA1 => Some(Instruction::SknpVx { x }),
            _ => None,
        },
        _ => match byte {
            0x07 => Some(Instruction::LdVxDt { x }),
            0x0A => Some(Instruction::LdVxK { x }),
            0x15 => Some(Instruction::LdDtVx { x }),
            0x18 => Some(Instruction::LdStVx { x }),
            0x1E => Some(Instruction::AddIVx { x }),
            0x29 => Some(Instruction::LdFVx { x }),
            0x33 => Some(Instruction::LdBVx { x }),
            0x55 => Some(Instruction::LdViVx { x }),
            0x65 => Some(Instruction::LdVxVi { x }),
            _ => None,
        },
    }
}

} // verus!
