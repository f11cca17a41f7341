use vstd::prelude::*;

verus! {

/// One decoded CHIP-8 instruction. `x` and `y` name registers, `n` and `nn`
/// are 4- and 8-bit immediates, `addr` is a 12-bit address.
#[derive(Clone, Copy, Debug, PartialEq, Eq, Structural)]
pub enum Instruction {
    /// `00E0`: clear the screen.
    Cls,
    /// `00EE`: return from a subroutine.
    Ret,
    /// `1nnn`: jump to `addr`.
    Jp { addr: u16 },
    /// `2nnn`: call the subroutine at `addr`.
    Call { addr: u16 },
    /// `3xnn`: skip the next instruction if `Vx == nn`.
    SeVx { x: u8, nn: u8 },
    /// `4xnn`: skip the next instruction if `Vx != nn`.
    SneVx { x: u8, nn: u8 },
    /// `5xy0`: skip the next instruction if `Vx == Vy`.
    SeVxVy { x: u8, y: u8 },
    /// `6xnn`: `Vx = nn`.
    LdVx { x: u8, nn: u8 },
    /// `7xnn`: `Vx = Vx + nn`, wrapping, flags untouched.
    AddVx { x: u8, nn: u8 },
    /// `8xy0`: `Vx = Vy`.
    LdVxVy { x: u8, y: u8 },
    /// `8xy1`: `Vx |= Vy`, `VF = 0`.
    OrVxVy { x: u8, y: u8 },
    /// `8xy2`: `Vx &= Vy`, `VF = 0`.
    AndVxVy { x: u8, y: u8 },
    /// `8xy3`: `Vx ^= Vy`, `VF = 0`.
    XorVxVy { x: u8, y: u8 },
    /// `8xy4`: `Vx += Vy`, `VF` = carry.
    AddVxVy { x: u8, y: u8 },
    /// `8xy5`: `Vx -= Vy`, `VF` = no borrow.
    SubVxVy { x: u8, y: u8 },
    /// `8xy6`: `VF` = low bit of `Vx`, `Vx >>= 1`.
    ShrVx { x: u8 },
    /// `8xy7`: `VF` = no borrow, `Vx = Vy - Vx`.
    SubnVxVy { x: u8, y: u8 },
    /// `8xyE`: `VF` = high bit of `Vx`, `Vx <<= 1`.
    ShlVx { x: u8 },
    /// `9xy0`: skip the next instruction if `Vx != Vy`.
    SneVxVy { x: u8, y: u8 },
    /// `Annn`: `I = addr`.
    LdI { addr: u16 },
    /// `Bnnn`: jump to `addr + V0`.
    JpV0 { addr: u16 },
    /// `Cxnn`: `Vx` = a random byte masked by `nn`.
    RndVx { x: u8, nn: u8 },
    /// `Dxyn`: draw the `n`-row sprite at `I` at `(Vx, Vy)`.
    DrwVxVy { x: u8, y: u8, n: u8 },
    /// `Ex9E`: skip the next instruction if key `Vx` is pressed.
    SkpVx { x: u8 },
    /// `ExA1`: skip the next instruction if key `Vx` is not pressed.
    SknpVx { x: u8 },
    /// `Fx07`: `Vx = DT`.
    LdVxDt { x: u8 },
    /// `Fx0A`: wait for a key and store it in `Vx`.
    LdVxK { x: u8 },
    /// `Fx15`: `DT = Vx`.
    LdDtVx { x: u8 },
    /// `Fx18`: `ST = Vx`.
    LdStVx { x: u8 },
    /// `Fx1E`: `I += Vx`.
    AddIVx { x: u8 },
    /// `Fx29`: `I` = address of the font glyph for digit `Vx`.
    LdFVx { x: u8 },
    /// `Fx33`: store the decimal digits of `Vx` at `I`, `I+1`, `I+2`.
    LdBVx { x: u8 },
    /// `Fx55`: store `V0..=Vx` at `I..=I+x`.
    StoreRegs { x: u8 },
    /// `Fx65`: load `V0..=Vx` from `I..=I+x`.
    LoadRegs { x: u8 },
    /// Any other word, executed as a no-op.
    Nop,
}

/// Bits 8..12 of an opcode word.
pub open spec fn field_x(w: u16) -> u8 {
    ((w / 256) % 16) as u8
}

/// Bits 4..8 of an opcode word.
pub open spec fn field_y(w: u16) -> u8 {
    ((w / 16) % 16) as u8
}

/// Bits 0..4 of an opcode word.
pub open spec fn field_n(w: u16) -> u8 {
    (w % 16) as u8
}

/// Bits 0..8 of an opcode word.
pub open spec fn field_nn(w: u16) -> u8 {
    (w % 256) as u8
}

/// Bits 0..12 of an opcode word.
pub open spec fn field_nnn(w: u16) -> u16 {
    (w % 4096) as u16
}

/// The instruction that an opcode word stands for.
pub open spec fn decode_spec(w: u16) -> Instruction {
    let x = field_x(w);
    let y = field_y(w);
    let nn = field_nn(w);
    let addr = field_nnn(w);
    if w == 0x00E0 {
        Instruction::Cls
    } else if w == 0x00EE {
        Instruction::Ret
    } else {
        match w / 4096 {
            1 => Instruction::Jp { addr },
            2 => Instruction::Call { addr },
            3 => Instruction::SeVx { x, nn },
            4 => Instruction::SneVx { x, nn },
            5 => if field_n(w) == 0 { Instruction::SeVxVy { x, y } } else { Instruction::Nop },
            6 => Instruction::LdVx { x, nn },
            7 => Instruction::AddVx { x, nn },
            8 => match field_n(w) {
                0x0 => Instruction::LdVxVy { x, y },
                0x1 => Instruction::OrVxVy { x, y },
                0x2 => Instruction::AndVxVy { x, y },
                0x3 => Instruction::XorVxVy { x, y },
                0x4 => Instruction::AddVxVy { x, y },
                0x5 => Instruction::SubVxVy { x, y },
                0x6 => Instruction::ShrVx { x },
                0x7 => Instruction::SubnVxVy { x, y },
                0xE => Instruction::ShlVx { x },
                _ => Instruction::Nop,
            },
            9 => if field_n(w) == 0 { Instruction::SneVxVy { x, y } } else { Instruction::Nop },
            0xA => Instruction::LdI { addr },
            0xB => Instruction::JpV0 { addr },
            0xC => Instruction::RndVx { x, nn },
            0xD => Instruction::DrwVxVy { x, y, n: field_n(w) },
            0xE => match nn {
                0x9E => Instruction::SkpVx { x },
                0xA1 => Instruction::SknpVx { x },
                _ => Instruction::Nop,
            },
            0xF => match nn {
                0x07 => Instruction::LdVxDt { x },
                0x0A => Instruction::LdVxK { x },
                0x15 => Instruction::LdDtVx { x },
                0x18 => Instruction::LdStVx { x },
                0x1E => Instruction::AddIVx { x },
                0x29 => Instruction::LdFVx { x },
                0x33 => Instruction::LdBVx { x },
                0x55 => Instruction::StoreRegs { x },
                0x65 => Instruction::LoadRegs { x },
                _ => Instruction::Nop,
            },
            _ => Instruction::Nop,
        }
    }
}

impl Instruction {
    /// Register indices are below 16, `n` below 16, addresses below 0x1000.
    pub open spec fn wf(self) -> bool {
        match self {
            Instruction::Jp { addr } | Instruction::Call { addr } | Instruction::LdI { addr }
            | Instruction::JpV0 { addr } => addr < 0x1000,
            Instruction::SeVx { x, .. } | Instruction::SneVx { x, .. } | Instruction::LdVx { x, .. }
            | Instruction::AddVx { x, .. } | Instruction::RndVx { x, .. } => x < 16,
            Instruction::SeVxVy { x, y } | Instruction::LdVxVy { x, y } | Instruction::OrVxVy { x, y }
            | Instruction::AndVxVy { x, y } | Instruction::XorVxVy { x, y }
            | Instruction::AddVxVy { x, y } | Instruction::SubVxVy { x, y }
            | Instruction::SubnVxVy { x, y } | Instruction::SneVxVy { x, y } => x < 16 && y < 16,
            Instruction::DrwVxVy { x, y, n } => x < 16 && y < 16 && n < 16,
            Instruction::ShrVx { x } | Instruction::ShlVx { x } | Instruction::SkpVx { x }
            | Instruction::SknpVx { x } | Instruction::LdVxDt { x } | Instruction::LdVxK { x }
            | Instruction::LdDtVx { x } | Instruction::LdStVx { x } | Instruction::AddIVx { x }
            | Instruction::LdFVx { x } | Instruction::LdBVx { x } | Instruction::StoreRegs { x }
            | Instruction::LoadRegs { x } => x < 16,
            Instruction::Cls | Instruction::Ret | Instruction::Nop => true,
        }
    }

    /// Decodes an opcode word: first by its high nibble, then, for the
    /// `5`, `8`, `9`, `E` and `F` families, by its low nibble or low byte.
    pub fn decode(w: u16) -> (r: Instruction)
        ensures
            r == decode_spec(w),
            r.wf(),
    {
        let x: u8 = ((w / 256) % 16) as u8;
        let y: u8 = ((w / 16) % 16) as u8;
        let n: u8 = (w % 16) as u8;
        let nn: u8 = (w % 256) as u8;
        let addr: u16 = w % 4096;
        if w == 0x00E0 {
            return Instruction::Cls;
        }
        if w == 0x00EE {
            return Instruction::Ret;
        }
        match w / 4096 {
            1 => Instruction::Jp { addr },
            2 => Instruction::Call { addr },
            3 => Instruction::SeVx { x, nn },
            4 => Instruction::SneVx { x, nn },
            5 => if n == 0 { Instruction::SeVxVy { x, y } } else { Instruction::Nop },
            6 => Instruction::LdVx { x, nn },
            7 => Instruction::AddVx { x, nn },
            8 => match n {
                0x0 => Instruction::LdVxVy { x, y },
                0x1 => Instruction::OrVxVy { x, y },
                0x2 => Instruction::AndVxVy { x, y },
                0x3 => Instruction::XorVxVy { x, y },
                0x4 => Instruction::AddVxVy { x, y },
                0x5 => Instruction::SubVxVy { x, y },
                0x6 => Instruction::ShrVx { x },
                0x7 => Instruction::SubnVxVy { x, y },
                0xE => Instruction::ShlVx { x },
                _ => Instruction::Nop,
            },
            9 => if n == 0 { Instruction::SneVxVy { x, y } } else { Instruction::Nop },
            0xA => Instruction::LdI { addr },
            0xB => Instruction::JpV0 { addr },
            0xC => Instruction::RndVx { x, nn },
            0xD => Instruction::DrwVxVy { x, y, n },
            0xE => match nn {
                0x9E => Instruction::SkpVx { x },
                0xA1 => Instruction::SknpVx { x },
                _ => Instruction::Nop,
            },
            0xF => match nn {
                0x07 => Instruction::LdVxDt { x },
                0x0A => Instruction::LdVxK { x },
                0x15 => Instruction::LdDtVx { x },
                0x18 => Instruction::LdStVx { x },
                0x1E => Instruction::AddIVx { x },
                0x29 => Instruction::LdFVx { x },
                0x33 => Instruction::LdBVx { x },
                0x55 => Instruction::StoreRegs { x },
                0x65 => Instruction::LoadRegs { x },
                _ => Instruction::Nop,
            },
            _ => Instruction::Nop,
        }
    }
}

} // verus!
