//! Instruction words, their fields, and the decoder.
use vstd::prelude::*;

verus! {

/// A condition that halts the interpreter.
#[derive(Clone, Copy, Debug, PartialEq, Eq)]
pub enum Fault {
    /// The program image does not fit between the program base and the end of RAM.
    LoadError,
    /// The instruction word is no instruction.
    DecodeFault { word: u16 },
    /// A return with an empty call stack.
    StackUnderflow,
    /// A call with sixteen return addresses on the call stack.
    StackOverflow,
}

/// One decoded instruction. `x` and `y` number registers, `kk` is an
/// immediate byte, `nnn` an address and `n` a sprite height.
#[derive(Clone, Copy, Debug, PartialEq, Eq)]
pub enum Opcode {
    /// `0nnn`: call into host machine code; does nothing.
    Sys,
    /// `00E0`: clear the screen.
    Cls,
    /// `00EE`: return from a subroutine.
    Ret,
    /// `1nnn`: jump to `nnn`.
    Jp { nnn: u16 },
    /// `2nnn`: call the subroutine at `nnn`.
    Call { nnn: u16 },
    /// `3xkk`: skip the next instruction if `Vx == kk`.
    SeByte { x: u8, kk: u8 },
    /// `4xkk`: skip the next instruction if `Vx != kk`.
    SneByte { x: u8, kk: u8 },
    /// `5xy_`: skip the next instruction if `Vx == Vy`.
    SeReg { x: u8, y: u8 },
    /// `6xkk`: `Vx = kk`.
    LdByte { x: u8, kk: u8 },
    /// `7xkk`: `Vx = Vx + kk`, wrapping, flag untouched.
    AddByte { x: u8, kk: u8 },
    /// `8xy0`: `Vx = Vy`.
    LdReg { x: u8, y: u8 },
    /// `8xy1`: `Vx = Vx | Vy`.
    Or { x: u8, y: u8 },
    /// `8xy2`: `Vx = Vx & Vy`.
    And { x: u8, y: u8 },
    /// `8xy3`: `Vx = Vx ^ Vy`.
    Xor { x: u8, y: u8 },
    /// `8xy4`: `Vx = Vx + Vy`, `VF` = carry.
    AddReg { x: u8, y: u8 },
    /// `8xy5`: `Vx = Vx - Vy`, `VF` = no borrow.
    Sub { x: u8, y: u8 },
    /// `8xy6`: `Vx = Vx >> 1`, `VF` = the bit shifted out.
    Shr { x: u8, y: u8 },
    /// `8xy7`: `Vx = Vy - Vx`, `VF` = no borrow.
    Subn { x: u8, y: u8 },
    /// `8xyE`: `Vx = Vx << 1`, `VF` = the bit shifted out.
    Shl { x: u8, y: u8 },
    /// `9xy_`: skip the next instruction if `Vx != Vy`.
    SneReg { x: u8, y: u8 },
    /// `Annn`: `I = nnn`.
    LdI { nnn: u16 },
    /// `Bnnn`: jump to `nnn + V0`.
    JpV0 { nnn: u16 },
    /// `Cxkk`: `Vx = random byte & kk`.
    Rnd { x: u8, kk: u8 },
    /// `Dxyn`: draw the `n`-row sprite at `I` at `(Vx, Vy)`, `VF` = collision.
    Drw { x: u8, y: u8, n: u8 },
    /// `Ex9E`: skip the next instruction if key `Vx` is held.
    Skp { x: u8 },
    /// `ExA1`: skip the next instruction if key `Vx` is not held.
    Sknp { x: u8 },
    /// `Fx07`: `Vx = DT`.
    LdVxDt { x: u8 },
    /// `Fx0A`: wait for a key-down edge and store its key in `Vx`.
    LdVxK { x: u8 },
    /// `Fx15`: `DT = Vx`.
    LdDtVx { x: u8 },
    /// `Fx18`: `ST = Vx`.
    LdStVx { x: u8 },
    /// `Fx1E`: `I = I + Vx`.
    AddI { x: u8 },
    /// `Fx29`: `I` = address of the glyph for the low nibble of `Vx`.
    LdF { x: u8 },
    /// `Fx33`: store the three decimal digits of `Vx` at `I`.
    LdB { x: u8 },
    /// `Fx55`: store `V0..=Vx` at `I`.
    StoreRegs { x: u8 },
    /// `Fx65`: load `V0..=Vx` from `I`.
    LoadRegs { x: u8 },
}

/// The top nibble of an instruction word.
pub open spec fn field_op(w: u16) -> u16 {
    (w >> 12) & 0xF
}

/// The second nibble of an instruction word.
pub open spec fn field_x(w: u16) -> u8 {
    ((w >> 8) & 0xF) as u8
}

/// The third nibble of an instruction word.
pub open spec fn field_y(w: u16) -> u8 {
    ((w >> 4) & 0xF) as u8
}

/// The bottom nibble of an instruction word.
pub open spec fn field_n(w: u16) -> u8 {
    (w & 0xF) as u8
}

/// The low byte of an instruction word.
pub open spec fn field_kk(w: u16) -> u8 {
    (w & 0xFF) as u8
}

/// The low twelve bits of an instruction word.
pub open spec fn field_nnn(w: u16) -> u16 {
    w & 0xFFF
}

/// The instruction that the `8xy_` word `w` encodes.
pub open spec fn decode_alu(w: u16) -> Result<Opcode, Fault> {
    let x = field_x(w);
    let y = field_y(w);
    let n = field_n(w);
    if n == 0x0 {
        Ok(Opcode::LdReg { x, y })
    } else if n == 0x1 {
        Ok(Opcode::Or { x, y })
    } else if n == 0x2 {
        Ok(Opcode::And { x, y })
    } else if n == 0x3 {
        Ok(Opcode::Xor { x, y })
    } else if n == 0x4 {
        Ok(Opcode::AddReg { x, y })
    } else if n == 0x5 {
        Ok(Opcode::Sub { x, y })
    } else if n == 0x6 {
        Ok(Opcode::Shr { x, y })
    } else if n == 0x7 {
        Ok(Opcode::Subn { x, y })
    } else if n == 0xE {
        Ok(Opcode::Shl { x, y })
    } else {
        Err(Fault::DecodeFault { word: w })
    }
}

/// The instruction that the `Fx__` word `w` encodes.
pub open spec fn decode_misc(w: u16) -> Result<Opcode, Fault> {
    let x = field_x(w);
    let kk = field_kk(w);
    if kk == 0x07 {
        Ok(Opcode::LdVxDt { x })
    } else if kk == 0x0A {
        Ok(Opcode::LdVxK { x })
    } else if kk == 0x15 {
        Ok(Opcode::LdDtVx { x })
    } else if kk == 0x18 {
        Ok(Opcode::LdStVx { x })
    } else if kk == 0x1E {
        Ok(Opcode::AddI { x })
    } else if kk == 0x29 {
        Ok(Opcode::LdF { x })
    } else if kk == 0x33 {
        Ok(Opcode::LdB { x })
    } else if kk == 0x55 {
        Ok(Opcode::StoreRegs { x })
    } else if kk == 0x65 {
        Ok(Opcode::LoadRegs { x })
    } else {
        Err(Fault::DecodeFault { word: w })
    }
}

/// The instruction that the word `w` encodes. Only the `8`, `E` and `F`
/// families hold words that are no instruction; every `0___` word other than
/// `00E0` and `00EE` is a `Sys`, and the bottom nibble of `5xy_` and `9xy_`
/// is not looked at.
pub open spec fn decode_spec(w: u16) -> Result<Opcode, Fault> {
    let op = field_op(w);
    let x = field_x(w);
    let y = field_y(w);
    let kk = field_kk(w);
    let nnn = field_nnn(w);
    if op == 0x0 {
        if w == 0x00E0 {
            Ok(Opcode::Cls)
        } else if w == 0x00EE {
            Ok(Opcode::Ret)
        } else {
            Ok(Opcode::Sys)
        }
    } else if op == 0x1 {
        Ok(Opcode::Jp { nnn })
    } else if op == 0x2 {
        Ok(Opcode::Call { nnn })
    } else if op == 0x3 {
        Ok(Opcode::SeByte { x, kk })
    } else if op == 0x4 {
        Ok(Opcode::SneByte { x, kk })
    } else if op == 0x5 {
        Ok(Opcode::SeReg { x, y })
    } else if op == 0x6 {
        Ok(Opcode::LdByte { x, kk })
    } else if op == 0x7 {
        Ok(Opcode::AddByte { x, kk })
    } else if op == 0x8 {
        decode_alu(w)
    } else if op == 0x9 {
        Ok(Opcode::SneReg { x, y })
    } else if op == 0xA {
        Ok(Opcode::LdI { nnn })
    } else if op == 0xB {
        Ok(Opcode::JpV0 { nnn })
    } else if op == 0xC {
        Ok(Opcode::Rnd { x, kk })
    } else if op == 0xD {
        Ok(Opcode::Drw { x, y, n: field_n(w) })
    } else if op == 0xE {
        if kk == 0x9E {
            Ok(Opcode::Skp { x })
        } else if kk == 0xA1 {
            Ok(Opcode::Sknp { x })
        } else {
            Err(Fault::DecodeFault { word: w })
        }
    } else {
        decode_misc(w)
    }
}

impl Opcode {
    /// Register numbers and sprite heights are nibbles, addresses have twelve bits.
    pub open spec fn wf(self) -> bool {
        match self {
            Opcode::Sys | Opcode::Cls | Opcode::Ret => true,
            Opcode::Jp { nnn } | Opcode::Call { nnn } | Opcode::LdI { nnn } | Opcode::JpV0 {
                nnn,
            } => nnn < 4096,
            Opcode::SeByte { x, .. }
            | Opcode::SneByte { x, .. }
            | Opcode::LdByte { x, .. }
            | Opcode::AddByte { x, .. }
            | Opcode::Rnd { x, .. } => x < 16,
            Opcode::SeReg { x, y }
            | Opcode::LdReg { x, y }
            | Opcode::Or { x, y }
            | Opcode::And { x, y }
            | Opcode::Xor { x, y }
            | Opcode::AddReg { x, y }
            | Opcode::Sub { x, y }
            | Opcode::Shr { x, y }
            | Opcode::Subn { x, y }
            | Opcode::Shl { x, y }
            | Opcode::SneReg { x, y } => x < 16 && y < 16,
            Opcode::Drw { x, y, n } => x < 16 && y < 16 && n < 16,
            Opcode::Skp { x }
            | Opcode::Sknp { x }
            | Opcode::LdVxDt { x }
            | Opcode::LdVxK { x }
            | Opcode::LdDtVx { x }
            | Opcode::LdStVx { x }
            | Opcode::AddI { x }
            | Opcode::LdF { x }
            | Opcode::LdB { x }
            | Opcode::StoreRegs { x }
            | Opcode::LoadRegs { x } => x < 16,
        }
    }
}

/// The instruction word made of the four nibbles `a`, `b`, `c` and `d`,
/// highest first.
pub open spec fn word_of(a: int, b: int, c: int, d: int) -> u16 {
    (4096 * a + 256 * b + 16 * c + d) as u16
}

/// The instruction word that stands for `op`: the instruction set as a
/// table, from which the decoder reads backwards. A `Sys` is written as
/// `0000`, and the bottom nibble of `5xy_` and `9xy_` as 0.
pub open spec fn encode(op: Opcode) -> u16 {
    match op {
        Opcode::Sys => 0x0000,
        Opcode::Cls => 0x00E0,
        Opcode::Ret => 0x00EE,
        Opcode::Jp { nnn } => (0x1000 + nnn) as u16,
        Opcode::Call { nnn } => (0x2000 + nnn) as u16,
        Opcode::SeByte { x, kk } => (0x3000 + 256 * x + kk) as u16,
        Opcode::SneByte { x, kk } => (0x4000 + 256 * x + kk) as u16,
        Opcode::SeReg { x, y } => word_of(0x5, x as int, y as int, 0x0),
        Opcode::LdByte { x, kk } => (0x6000 + 256 * x + kk) as u16,
        Opcode::AddByte { x, kk } => (0x7000 + 256 * x + kk) as u16,
        Opcode::LdReg { x, y } => word_of(0x8, x as int, y as int, 0x0),
        Opcode::Or { x, y } => word_of(0x8, x as int, y as int, 0x1),
        Opcode::And { x, y } => word_of(0x8, x as int, y as int, 0x2),
        Opcode::Xor { x, y } => word_of(0x8, x as int, y as int, 0x3),
        Opcode::AddReg { x, y } => word_of(0x8, x as int, y as int, 0x4),
        Opcode::Sub { x, y } => word_of(0x8, x as int, y as int, 0x5),
        Opcode::Shr { x, y } => word_of(0x8, x as int, y as int, 0x6),
        Opcode::Subn { x, y } => word_of(0x8, x as int, y as int, 0x7),
        Opcode::Shl { x, y } => word_of(0x8, x as int, y as int, 0xE),
        Opcode::SneReg { x, y } => word_of(0x9, x as int, y as int, 0x0),
        Opcode::LdI { nnn } => (0xA000 + nnn) as u16,
        Opcode::JpV0 { nnn } => (0xB000 + nnn) as u16,
        Opcode::Rnd { x, kk } => (0xC000 + 256 * x + kk) as u16,
        Opcode::Drw { x, y, n } => word_of(0xD, x as int, y as int, n as int),
        Opcode::Skp { x } => word_of(0xE, x as int, 0x9, 0xE),
        Opcode::Sknp { x } => word_of(0xE, x as int, 0xA, 0x1),
        Opcode::LdVxDt { x } => word_of(0xF, x as int, 0x0, 0x7),
        Opcode::LdVxK { x } => word_of(0xF, x as int, 0x0, 0xA),
        Opcode::LdDtVx { x } => word_of(0xF, x as int, 0x1, 0x5),
        Opcode::LdStVx { x } => word_of(0xF, x as int, 0x1, 0x8),
        Opcode::AddI { x } => word_of(0xF, x as int, 0x1, 0xE),
        Opcode::LdF { x } => word_of(0xF, x as int, 0x2, 0x9),
        Opcode::LdB { x } => word_of(0xF, x as int, 0x3, 0x3),
        Opcode::StoreRegs { x } => word_of(0xF, x as int, 0x5, 0x5),
        Opcode::LoadRegs { x } => word_of(0xF, x as int, 0x6, 0x5),
    }
}

/// The fields of the word made of four nibbles are those nibbles.
proof fn lemma_word_fields(a: u16, b: u16, c: u16, d: u16)
    by (bit_vector)
    requires
        a < 16,
        b < 16,
        c < 16,
        d < 16,
    ensures
        ({
            let w = (4096 * a + 256 * b + 16 * c + d) as u16;
            &&& (w >> 12) & 0xF == a
            &&& (w >> 8) & 0xF == b
            &&& (w >> 4) & 0xF == c
            &&& w & 0xF == d
            &&& w & 0xFF == 16 * c + d
            &&& w & 0xFFF == 256 * b + 16 * c + d
            &&& w == 4096 * a + 256 * b + 16 * c + d
        }),
{
}

/// The fields of an instruction word, by its nibbles.
pub proof fn lemma_fields_of_word(a: int, b: int, c: int, d: int)
    requires
        0 <= a < 16,
        0 <= b < 16,
        0 <= c < 16,
        0 <= d < 16,
    ensures
        word_of(a, b, c, d) == 4096 * a + 256 * b + 16 * c + d,
        field_op(word_of(a, b, c, d)) == a,
        field_x(word_of(a, b, c, d)) == b,
        field_y(word_of(a, b, c, d)) == c,
        field_n(word_of(a, b, c, d)) == d,
        field_kk(word_of(a, b, c, d)) == 16 * c + d,
        field_nnn(word_of(a, b, c, d)) == 256 * b + 16 * c + d,
{
    lemma_word_fields(a as u16, b as u16, c as u16, d as u16);
}

/// The fields of an instruction word stay within their widths.
pub proof fn lemma_field_bounds(w: u16)
    ensures
        field_op(w) < 16,
        field_x(w) < 16,
        field_y(w) < 16,
        field_n(w) < 16,
        field_nnn(w) < 4096,
        field_x(w) == (w >> 8) & 0xF,
        field_y(w) == (w >> 4) & 0xF,
        field_n(w) == w & 0xF,
        field_kk(w) == w & 0xFF,
{
    assert((w >> 12) & 0xF < 16) by (bit_vector);
    assert((w >> 8) & 0xF < 16) by (bit_vector);
    assert((w >> 4) & 0xF < 16) by (bit_vector);
    assert(w & 0xF < 16) by (bit_vector);
    assert(w & 0xFF < 256) by (bit_vector);
    assert(w & 0xFFF < 4096) by (bit_vector);
}

/// Every word that decodes gives a well-formed instruction.
pub proof fn lemma_decode_wf(w: u16)
    ensures
        decode_spec(w) matches Ok(op) ==> op.wf(),
{
    lemma_field_bounds(w);
}

/// Splits an instruction word into its fields and names the instruction.
pub fn decode(w: u16) -> (decoded: Result<Opcode, Fault>)
    ensures
        decoded == decode_spec(w),
        decoded matches Ok(op) ==> op.wf(),
{
    proof {
        lemma_field_bounds(w);
    }
    let op: u16 = (w >> 12) & 0xF;
    let x: u8 = ((w >> 8) & 0xF) as u8;
    let y: u8 = ((w >> 4) & 0xF) as u8;
    let n: u8 = (w & 0xF) as u8;
    let kk: u8 = (w & 0xFF) as u8;
    let nnn: u16 = w & 0xFFF;
    match op {
        0x0 => match w {
            0x00E0 => Ok(Opcode::Cls),
            0x00EE => Ok(Opcode::Ret),
            _ => Ok(Opcode::Sys),
        },
        0x1 => Ok(Opcode::Jp { nnn }),
        0x2 => Ok(Opcode::Call { nnn }),
        0x3 => Ok(Opcode::SeByte { x, kk }),
        0x4 => Ok(Opcode::SneByte { x, kk }),
        0x5 => Ok(Opcode::SeReg { x, y }),
        0x6 => Ok(Opcode::LdByte { x, kk }),
        0x7 => Ok(Opcode::AddByte { x, kk }),
        0x8 => match n {
            0x0 => Ok(Opcode::LdReg { x, y }),
            0x1 => Ok(Opcode::Or { x, y }),
            0x2 => Ok(Opcode::And { x, y }),
            0x3 => Ok(Opcode::Xor { x, y }),
            0x4 => Ok(Opcode::AddReg { x, y }),
            0x5 => Ok(Opcode::Sub { x, y }),
            0x6 => Ok(Opcode::Shr { x, y }),
            0x7 => Ok(Opcode::Subn { x, y }),
            0xE => Ok(Opcode::Shl { x, y }),
            _ => Err(Fault::DecodeFault { word: w }),
        },
        0x9 => Ok(Opcode::SneReg { x, y }),
        0xA => Ok(Opcode::LdI { nnn }),
        0xB => Ok(Opcode::JpV0 { nnn }),
        0xC => Ok(Opcode::Rnd { x, kk }),
        0xD => Ok(Opcode::Drw { x, y, n }),
        0xE => match kk {
            0x9E => Ok(Opcode::Skp { x }),
            0xA1 => Ok(Opcode::Sknp { x }),
            _ => Err(Fault::DecodeFault { word: w }),
        },
        _ => match kk {
            0x07 => Ok(Opcode::LdVxDt { x }),
            0x0A => Ok(Opcode::LdVxK { x }),
            0x15 => Ok(Opcode::LdDtVx { x }),
            0x18 => Ok(Opcode::LdStVx { x }),
            0x1E => Ok(Opcode::AddI { x }),
            0x29 => Ok(Opcode::LdF { x }),
            0x33 => Ok(Opcode::LdB { x }),
            0x55 => Ok(Opcode::StoreRegs { x }),
            0x65 => Ok(Opcode::LoadRegs { x }),
            _ => Err(Fault::DecodeFault { word: w }),
        },
    }
}

} // verus!
