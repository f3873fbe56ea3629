//! The instruction decoder: from a two-byte word to its nibbles and to the
//! instruction it stands for.

use vstd::prelude::*;

verus! {

/// One instruction of the machine. `x` and `y` are register numbers, `kk` is
/// the word's low byte, `nnn` its low twelve bits and `n` its last nibble.
#[derive(Clone, Copy, Debug, PartialEq, Eq, Structural)]
pub enum Opcode {
    /// `0000`: does nothing.
    Idle,
    /// `00E0`: switches every pixel off.
    Clear,
    /// `00EE`: returns from a subroutine.
    Return,
    /// `1nnn`: jumps to `nnn`.
    Jump { nnn: u16 },
    /// `2nnn`: calls the subroutine at `nnn`.
    Call { nnn: u16 },
    /// `3xkk`: skips the next instruction if `Vx == kk`.
    SkipIfByte { x: u8, kk: u8 },
    /// `4xkk`: skips the next instruction if `Vx != kk`.
    SkipUnlessByte { x: u8, kk: u8 },
    /// `5xy0`: skips the next instruction if `Vx == Vy`.
    SkipIfSame { x: u8, y: u8 },
    /// `6xkk`: `Vx = kk`.
    SetByte { x: u8, kk: u8 },
    /// `7xkk`: `Vx = Vx + kk`, wrapping, no flag.
    AddByte { x: u8, kk: u8 },
    /// `8xy0`: `Vx = Vy`.
    Assign { x: u8, y: u8 },
    /// `8xy1`: `Vx = Vx | Vy`.
    Or { x: u8, y: u8 },
    /// `8xy2`: `Vx = Vx & Vy`.
    And { x: u8, y: u8 },
    /// `8xy3`: `Vx = Vx ^ Vy`.
    Xor { x: u8, y: u8 },
    /// `8xy4`: `Vx = Vx + Vy`, wrapping, `VF` = carry.
    Add { x: u8, y: u8 },
    /// `8xy5`: `Vx = Vx - Vy`, wrapping, `VF` = no borrow.
    Sub { x: u8, y: u8 },
    /// `8xy6`: `Vx = Vx >> 1`, `VF` = the lowest bit that `Vx` had.
    ShiftRight { x: u8 },
    /// `8xy7`: `Vx = Vy - Vx`, wrapping, `VF` = no borrow.
    SubFrom { x: u8, y: u8 },
    /// `8xyE`: `Vx = Vx << 1`, `VF` = the highest bit that `Vx` had.
    ShiftLeft { x: u8 },
    /// `9xy0`: skips the next instruction if `Vx != Vy`.
    SkipUnlessSame { x: u8, y: u8 },
    /// `Annn`: `I = nnn`.
    SetIndex { nnn: u16 },
    /// `Bnnn`: jumps to `nnn + V0`.
    JumpOffset { nnn: u16 },
    /// `Cxkk`: `Vx` = a random byte and `kk`.
    Random { x: u8, kk: u8 },
    /// `Dxyn`: draws the `n`-row sprite at `I` with its corner at `(Vx, Vy)`.
    Draw { x: u8, y: u8, n: u8 },
    /// `Ex9E`: skips the next instruction if key `Vx` is down.
    SkipIfKey { x: u8 },
    /// `ExA1`: skips the next instruction if key `Vx` is up.
    SkipUnlessKey { x: u8 },
    /// `Fx07`: `Vx` = delay timer.
    ReadDelay { x: u8 },
    /// `Fx0A`: waits for a key and stores its number in `Vx`.
    WaitKey { x: u8 },
    /// `Fx15`: delay timer = `Vx`.
    SetDelay { x: u8 },
    /// `Fx18`: sound timer = `Vx`.
    SetSound { x: u8 },
    /// `Fx1E`: `I = I + Vx`.
    AddIndex { x: u8 },
    /// `Fx29`: `I` = address of the glyph for `Vx`.
    Glyph { x: u8 },
    /// `Fx33`: stores the decimal digits of `Vx` at `I`, `I + 1`, `I + 2`.
    Decimal { x: u8 },
    /// `Fx55`: stores `V0..=Vx` at `I`.
    Store { x: u8 },
    /// `Fx65`: loads `V0..=Vx` from `I`.
    Fill { x: u8 },
    /// A word that is no instruction of the base set.
    Unknown,
}

/// The four nibbles of the word `hi lo`, highest first.
pub open spec fn nibbles(hi: u8, lo: u8) -> (u8, u8, u8, u8) {
    (hi / 16, hi % 16, lo / 16, lo % 16)
}

/// The twelve-bit number that three nibbles spell, highest first.
pub open spec fn twelve_bits(n0: u8, n1: u8, n2: u8) -> int {
    n0 * 256 + n1 * 16 + n2
}

/// Splits an instruction word into its four nibbles.
pub fn extract_nibbles(i: (u8, u8)) -> (n: (u8, u8, u8, u8))
    ensures
        n == nibbles(i.0, i.1),
        n.0 < 16 && n.1 < 16 && n.2 < 16 && n.3 < 16,
{
    let hi: u8 = i.0;
    let lo: u8 = i.1;
    assert((hi >> 4) & 0xf == hi / 16 && hi & 0xf == hi % 16) by (bit_vector);
    assert((lo >> 4) & 0xf == lo / 16 && lo & 0xf == lo % 16) by (bit_vector);
    ((hi >> 4) & 0xf, hi & 0xf, (lo >> 4) & 0xf, lo & 0xf)
}

/// Joins three nibbles into a twelve-bit address.
pub fn extract_12_bits(n0: u8, n1: u8, n2: u8) -> (nnn: u16)
    ensures
        nnn == ((n0 as u16) << 8) | ((n1 as u16) << 4) | (n2 as u16),
        n0 < 16 && n1 < 16 && n2 < 16 ==> nnn == twelve_bits(n0, n1, n2) && nnn < 4096,
{
    let p0: u16 = (n0 as u16) << 8;
    let p1: u16 = (n1 as u16) << 4;
    let p2: u16 = n2 as u16;
    assert(n0 < 16 && n1 < 16 && n2 < 16 ==> (((n0 as u16) << 8) | ((n1 as u16) << 4) | (
    n2 as u16)) == n0 * 256 + n1 * 16 + n2) by (bit_vector);
    p0 | p1 | p2
}

impl Opcode {
    /// Every register number is below 16, every address below 4096 and the
    /// sprite height below 16.
    pub open spec fn well_formed(self) -> bool {
        match self {
            Opcode::Idle | Opcode::Clear | Opcode::Return | Opcode::Unknown => true,
            Opcode::Jump { nnn }
            | Opcode::Call { nnn }
            | Opcode::SetIndex { nnn }
            | Opcode::JumpOffset { nnn } => nnn < 4096,
            Opcode::SkipIfByte { x, kk }
            | Opcode::SkipUnlessByte { x, kk }
            | Opcode::SetByte { x, kk }
            | Opcode::AddByte { x, kk }
            | Opcode::Random { x, kk } => x < 16,
            Opcode::SkipIfSame { x, y }
            | Opcode::Assign { x, y }
            | Opcode::Or { x, y }
            | Opcode::And { x, y }
            | Opcode::Xor { x, y }
            | Opcode::Add { x, y }
            | Opcode::Sub { x, y }
            | Opcode::SubFrom { x, y }
            | Opcode::SkipUnlessSame { x, y } => x < 16 && y < 16,
            Opcode::Draw { x, y, n } => x < 16 && y < 16 && n < 16,
            Opcode::ShiftRight { x }
            | Opcode::ShiftLeft { x }
            | Opcode::SkipIfKey { x }
            | Opcode::SkipUnlessKey { x }
            | Opcode::ReadDelay { x }
            | Opcode::WaitKey { x }
            | Opcode::SetDelay { x }
            | Opcode::SetSound { x }
            | Opcode::AddIndex { x }
            | Opcode::Glyph { x }
            | Opcode::Decimal { x }
            | Opcode::Store { x }
            | Opcode::Fill { x } => x < 16,
        }
    }
}

/// The register-to-register instruction `8xyn`.
pub open spec fn decoded_alu(x: u8, y: u8, n: u8) -> Opcode {
    if n == 0x0 {
        Opcode::Assign { x, y }
    } else if n == 0x1 {
        Opcode::Or { x, y }
    } else if n == 0x2 {
        Opcode::And { x, y }
    } else if n == 0x3 {
        Opcode::Xor { x, y }
    } else if n == 0x4 {
        Opcode::Add { x, y }
    } else if n == 0x5 {
        Opcode::Sub { x, y }
    } else if n == 0x6 {
        Opcode::ShiftRight { x }
    } else if n == 0x7 {
        Opcode::SubFrom { x, y }
    } else if n == 0xE {
        Opcode::ShiftLeft { x }
    } else {
        Opcode::Unknown
    }
}

/// The instruction `Fxkk`.
pub open spec fn decoded_misc(x: u8, kk: u8) -> Opcode {
    if kk == 0x07 {
        Opcode::ReadDelay { x }
    } else if kk == 0x0A {
        Opcode::WaitKey { x }
    } else if kk == 0x15 {
        Opcode::SetDelay { x }
    } else if kk == 0x18 {
        Opcode::SetSound { x }
    } else if kk == 0x1E {
        Opcode::AddIndex { x }
    } else if kk == 0x29 {
        Opcode::Glyph { x }
    } else if kk == 0x33 {
        Opcode::Decimal { x }
    } else if kk == 0x55 {
        Opcode::Store { x }
    } else if kk == 0x65 {
        Opcode::Fill { x }
    } else {
        Opcode::Unknown
    }
}

/// The instruction that the word `hi lo` stands for: the table of the base
/// instruction set, read by the word's first nibble.
pub open spec fn decoded(hi: u8, lo: u8) -> Opcode {
    let (n0, x, y, n) = nibbles(hi, lo);
    let kk = lo;
    let nnn = twelve_bits(x, y, n) as u16;
    if n0 == 0x0 {
        if hi == 0x00 && lo == 0x00 {
            Opcode::Idle
        } else if hi == 0x00 && lo == 0xE0 {
            Opcode::Clear
        } else if hi == 0x00 && lo == 0xEE {
            Opcode::Return
        } else {
            Opcode::Unknown
        }
    } else if n0 == 0x1 {
        Opcode::Jump { nnn }
    } else if n0 == 0x2 {
        Opcode::Call { nnn }
    } else if n0 == 0x3 {
        Opcode::SkipIfByte { x, kk }
    } else if n0 == 0x4 {
        Opcode::SkipUnlessByte { x, kk }
    } else if n0 == 0x5 {
        if n == 0 {
            Opcode::SkipIfSame { x, y }
        } else {
            Opcode::Unknown
        }
    } else if n0 == 0x6 {
        Opcode::SetByte { x, kk }
    } else if n0 == 0x7 {
        Opcode::AddByte { x, kk }
    } else if n0 == 0x8 {
        decoded_alu(x, y, n)
    } else if n0 == 0x9 {
        if n == 0 {
            Opcode::SkipUnlessSame { x, y }
        } else {
            Opcode::Unknown
        }
    } else if n0 == 0xA {
        Opcode::SetIndex { nnn }
    } else if n0 == 0xB {
        Opcode::JumpOffset { nnn }
    } else if n0 == 0xC {
        Opcode::Random { x, kk }
    } else if n0 == 0xD {
        Opcode::Draw { x, y, n }
    } else if n0 == 0xE {
        if kk == 0x9E {
            Opcode::SkipIfKey { x }
        } else if kk == 0xA1 {
            Opcode::SkipUnlessKey { x }
        } else {
            Opcode::Unknown
        }
    } else {
        decoded_misc(x, kk)
    }
}

/// Whatever the word, the decoder hands out register numbers and addresses
/// that are in range.
pub proof fn lemma_decoded_well_formed(hi: u8, lo: u8)
    ensures
        decoded(hi, lo).well_formed(),
{
}

/// Decodes the instruction word `i`.
pub fn decode(i: (u8, u8)) -> (op: Opcode)
    ensures
        op == decoded(i.0, i.1),
        op.well_formed(),
{
    let (n0, n1, n2, n3) = extract_nibbles(i);
    let kk: u8 = i.1;
    proof {
        lemma_decoded_well_formed(i.0, i.1);
        assert(kk == n2 * 16 + n3);
        assert((n0 == 0 && n1 == 0) <==> i.0 == 0);
    }
    match (n0, n1, n2, n3) {
        (0x0, 0x0, 0x0, 0x0) => Opcode::Idle,
        (0x0, 0x0, 0xE, 0x0) => Opcode::Clear,
        (0x0, 0x0, 0xE, 0xE) => Opcode::Return,
        (0x1, a0, a1, a2) => Opcode::Jump { nnn: extract_12_bits(a0, a1, a2) },
        (0x2, a0, a1, a2) => Opcode::Call { nnn: extract_12_bits(a0, a1, a2) },
        (0x3, x, _, _) => Opcode::SkipIfByte { x, kk },
        (0x4, x, _, _) => Opcode::SkipUnlessByte { x, kk },
        (0x5, x, y, 0x0) => Opcode::SkipIfSame { x, y },
        (0x6, x, _, _) => Opcode::SetByte { x, kk },
        (0x7, x, _, _) => Opcode::AddByte { x, kk },
        (0x8, x, y, 0x0) => Opcode::Assign { x, y },
        (0x8, x, y, 0x1) => Opcode::Or { x, y },
        (0x8, x, y, 0x2) => Opcode::And { x, y },
        (0x8, x, y, 0x3) => Opcode::Xor { x, y },
        (0x8, x, y, 0x4) => Opcode::Add { x, y },
        (0x8, x, y, 0x5) => Opcode::Sub { x, y },
        (0x8, x, _, 0x6) => Opcode::ShiftRight { x },
        (0x8, x, y, 0x7) => Opcode::SubFrom { x, y },
        (0x8, x, _, 0xE) => Opcode::ShiftLeft { x },
        (0x9, x, y, 0x0) => Opcode::SkipUnlessSame { x, y },
        (0xA, a0, a1, a2) => Opcode::SetIndex { nnn: extract_12_bits(a0, a1, a2) },
        (0xB, a0, a1, a2) => Opcode::JumpOffset { nnn: extract_12_bits(a0, a1, a2) },
        (0xC, x, _, _) => Opcode::Random { x, kk },
        (0xD, x, y, n) => Opcode::Draw { x, y, n },
        (0xE, x, 0x9, 0xE) => Opcode::SkipIfKey { x },
        (0xE, x, 0xA, 0x1) => Opcode::SkipUnlessKey { x },
        (0xF, x, 0x0, 0x7) => Opcode::ReadDelay { x },
        (0xF, x, 0x0, 0xA) => Opcode::WaitKey { x },
        (0xF, x, 0x1, 0x5) => Opcode::SetDelay { x },
        (0xF, x, 0x1, 0x8) => Opcode::SetSound { x },
        (0xF, x, 0x1, 0xE) => Opcode::AddIndex { x },
        (0xF, x, 0x2, 0x9) => Opcode::Glyph { x },
        (0xF, x, 0x3, 0x3) => Opcode::Decimal { x },
        (0xF, x, 0x5, 0x5) => Opcode::Store { x },
        (0xF, x, 0x6, 0x5) => Opcode::Fill { x },
        _ => Opcode::Unknown,
    }
}

} // verus!
