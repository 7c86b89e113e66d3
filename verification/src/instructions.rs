//! Instruction decoding: classifies a raw 16-bit instruction word into a
//! typed operation with its operands, or rejects it as invalid.
//!
//! The wire format packs one operation per big-endian 16-bit word. The
//! leading nibble selects an opcode family; the remaining nibbles carry
//! register indices, immediate constants, or a 12-bit address, and for a
//! few families a trailing nibble or byte selects the exact operation.

use vstd::prelude::*;

verus! {

/// A 12-bit memory address or jump target, `0..=0x0FFF`.
#[derive(Debug, PartialEq, Eq, Structural)]
pub struct Address(pub u16);

/// An 8-bit immediate constant.
#[derive(Debug, PartialEq, Eq, Structural)]
pub struct Constant8(pub u8);

/// A 4-bit immediate constant, `0..=0xF`; the sprite height of a draw.
#[derive(Debug, PartialEq, Eq, Structural)]
pub struct Constant4(pub u8);

/// The index of one of the sixteen general registers, `0..=0xF`.
#[derive(Debug, PartialEq, Eq, Structural)]
pub struct Register(pub u8);

impl Address {
    /// The value fits in the 12 bits of its source field.
    pub open spec fn wf(self) -> bool {
        self.0 <= 0xFFF
    }
}

impl Constant4 {
    /// The value fits in the 4 bits of its source field.
    pub open spec fn wf(self) -> bool {
        self.0 <= 0xF
    }
}

impl Register {
    /// The index names one of the sixteen registers.
    pub open spec fn wf(self) -> bool {
        self.0 <= 0xF
    }
}

/// One CHIP-8 operation, with its operands already extracted.
#[derive(Debug, PartialEq, Eq, Structural)]
pub enum OpCode {
    ClearDisplay,
    Return,

    Jump(Address),
    Call(Address),

    SkipEqualConstant(Register, Constant8),
    SkipNotEqualConstant(Register, Constant8),
    SkipEqualRegister(Register, Register),

    LoadConstant(Register, Constant8),
    AddConstant(Register, Constant8),

    CopyRegister(Register, Register),

    OrRegister(Register, Register),
    AndRegister(Register, Register),
    XorRegister(Register, Register),

    AddRegister(Register, Register),
    SubRegister(Register, Register),
    ShiftRightRegister(Register, Register),
    MinusSubRegister(Register, Register),
    ShiftLeftRegister(Register, Register),

    SkipNotEqualRegister(Register, Register),

    LoadAddressConstant(Address),
    JumpWithOffset(Address),

    Rand(Register, Constant8),

    Draw(Register, Register, Constant4),

    SkipKeyEqual(Register),
    SkipKeyNotEqual(Register),

    LoadDelayTimer(Register),
    WaitKey(Register),

    StoreDelayTimer(Register),
    StoreBeepTimer(Register),

    AddAddress(Register),
    LoadSpriteAddress(Register),
    StoreBCD(Register),

    ContextStore(Register),
    ContextLoad(Register),
}

/// Every operand of the operation is within the range its source field allows.
pub open spec fn op_wf(op: OpCode) -> bool {
    match op {
        OpCode::ClearDisplay => true,
        OpCode::Return => true,
        OpCode::Jump(a) => a.wf(),
        OpCode::Call(a) => a.wf(),
        OpCode::SkipEqualConstant(r, _) => r.wf(),
        OpCode::SkipNotEqualConstant(r, _) => r.wf(),
        OpCode::SkipEqualRegister(r1, r2) => r1.wf() && r2.wf(),
        OpCode::LoadConstant(r, _) => r.wf(),
        OpCode::AddConstant(r, _) => r.wf(),
        OpCode::CopyRegister(r1, r2) => r1.wf() && r2.wf(),
        OpCode::OrRegister(r1, r2) => r1.wf() && r2.wf(),
        OpCode::AndRegister(r1, r2) => r1.wf() && r2.wf(),
        OpCode::XorRegister(r1, r2) => r1.wf() && r2.wf(),
        OpCode::AddRegister(r1, r2) => r1.wf() && r2.wf(),
        OpCode::SubRegister(r1, r2) => r1.wf() && r2.wf(),
        OpCode::ShiftRightRegister(r1, r2) => r1.wf() && r2.wf(),
        OpCode::MinusSubRegister(r1, r2) => r1.wf() && r2.wf(),
        OpCode::ShiftLeftRegister(r1, r2) => r1.wf() && r2.wf(),
        OpCode::SkipNotEqualRegister(r1, r2) => r1.wf() && r2.wf(),
        OpCode::LoadAddressConstant(a) => a.wf(),
        OpCode::JumpWithOffset(a) => a.wf(),
        OpCode::Rand(r, _) => r.wf(),
        OpCode::Draw(r1, r2, h) => r1.wf() && r2.wf() && h.wf(),
        OpCode::SkipKeyEqual(r) => r.wf(),
        OpCode::SkipKeyNotEqual(r) => r.wf(),
        OpCode::LoadDelayTimer(r) => r.wf(),
        OpCode::WaitKey(r) => r.wf(),
        OpCode::StoreDelayTimer(r) => r.wf(),
        OpCode::StoreBeepTimer(r) => r.wf(),
        OpCode::AddAddress(r) => r.wf(),
        OpCode::LoadSpriteAddress(r) => r.wf(),
        OpCode::StoreBCD(r) => r.wf(),
        OpCode::ContextStore(r) => r.wf(),
        OpCode::ContextLoad(r) => r.wf(),
    }
}

/// Bits 15-12 of the word: the nibble that selects the opcode family.
pub open spec fn spec_first_nibble(word: u16) -> u8 {
    ((word & 0xF000) >> 12) as u8
}

/// Bits 11-8 of the word: conventionally the first register operand.
pub open spec fn spec_second_nibble(word: u16) -> u8 {
    ((word & 0x0F00) >> 8) as u8
}

/// Bits 7-4 of the word: conventionally the second register operand.
pub open spec fn spec_third_nibble(word: u16) -> u8 {
    ((word & 0x00F0) >> 4) as u8
}

/// Bits 3-0 of the word: a sub-operation selector or a 4-bit constant.
pub open spec fn spec_last_nibble(word: u16) -> u8 {
    (word & 0x000F) as u8
}

/// Bits 11-0 of the word: the 12-bit address field.
pub open spec fn spec_skip_first_nibble(word: u16) -> u16 {
    word & 0x0FFF
}

/// Bits 7-0 of the word: an 8-bit constant or a sub-operation selector.
pub open spec fn spec_last_byte(word: u16) -> u8 {
    (word & 0x00FF) as u8
}

/// The classification table: the one operation each 16-bit word encodes,
/// or `None` for a word that encodes no operation.
pub open spec fn spec_decode(word: u16) -> Option<OpCode> {
    if word == 0x00E0 {
        Some(OpCode::ClearDisplay)
    } else if word == 0x00EE {
        Some(OpCode::Return)
    } else {
        let reg1 = Register(spec_second_nibble(word));
        let reg2 = Register(spec_third_nibble(word));
        let con8 = Constant8(spec_last_byte(word));
        let addr = Address(spec_skip_first_nibble(word));
        let family = spec_first_nibble(word);
        if family == 0x1 {
            Some(OpCode::Jump(addr))
        } else if family == 0x2 {
            Some(OpCode::Call(addr))
        } else if family == 0x3 {
            Some(OpCode::SkipEqualConstant(reg1, con8))
        } else if family == 0x4 {
            Some(OpCode::SkipNotEqualConstant(reg1, con8))
        } else if family == 0x5 {
            if spec_last_nibble(word) == 0 {
                Some(OpCode::SkipEqualRegister(reg1, reg2))
            } else {
                None
            }
        } else if family == 0x6 {
            Some(OpCode::LoadConstant(reg1, con8))
        } else if family == 0x7 {
            Some(OpCode::AddConstant(reg1, con8))
        } else if family == 0x8 {
            spec_decode_arithmetic(reg1, reg2, spec_last_nibble(word))
        } else if family == 0x9 {
            if spec_last_nibble(word) == 0 {
                Some(OpCode::SkipNotEqualRegister(reg1, reg2))
            } else {
                None
            }
        } else if family == 0xA {
            Some(OpCode::LoadAddressConstant(addr))
        } else if family == 0xB {
            Some(OpCode::JumpWithOffset(addr))
        } else if family == 0xC {
            Some(OpCode::Rand(reg1, con8))
        } else if family == 0xD {
            Some(OpCode::Draw(reg1, reg2, Constant4(spec_last_nibble(word))))
        } else if family == 0xE {
            spec_decode_key(reg1, spec_last_byte(word))
        } else if family == 0xF {
            spec_decode_state(reg1, spec_last_byte(word))
        } else {
            None
        }
    }
}

/// The arithmetic/logic family: the last nibble selects one of nine
/// operations on two registers; every other selector is invalid.
pub open spec fn spec_decode_arithmetic(reg1: Register, reg2: Register, selector: u8) -> Option<
    OpCode,
> {
    if selector == 0x0 {
        Some(OpCode::CopyRegister(reg1, reg2))
    } else if selector == 0x1 {
        Some(OpCode::OrRegister(reg1, reg2))
    } else if selector == 0x2 {
        Some(OpCode::AndRegister(reg1, reg2))
    } else if selector == 0x3 {
        Some(OpCode::XorRegister(reg1, reg2))
    } else if selector == 0x4 {
        Some(OpCode::AddRegister(reg1, reg2))
    } else if selector == 0x5 {
        Some(OpCode::SubRegister(reg1, reg2))
    } else if selector == 0x6 {
        Some(OpCode::ShiftRightRegister(reg1, reg2))
    } else if selector == 0x7 {
        Some(OpCode::MinusSubRegister(reg1, reg2))
    } else if selector == 0xE {
        Some(OpCode::ShiftLeftRegister(reg1, reg2))
    } else {
        None
    }
}

/// The key-skip family: the last byte selects one of two operations on a
/// single register; every other selector is invalid.
pub open spec fn spec_decode_key(reg: Register, selector: u8) -> Option<OpCode> {
    if selector == 0x9E {
        Some(OpCode::SkipKeyEqual(reg))
    } else if selector == 0xA1 {
        Some(OpCode::SkipKeyNotEqual(reg))
    } else {
        None
    }
}

/// The timer/memory/BCD/context family: the last byte selects one of nine
/// operations on a single register; every other selector is invalid.
pub open spec fn spec_decode_state(reg: Register, selector: u8) -> Option<OpCode> {
    if selector == 0x07 {
        Some(OpCode::LoadDelayTimer(reg))
    } else if selector == 0x0A {
        Some(OpCode::WaitKey(reg))
    } else if selector == 0x15 {
        Some(OpCode::StoreDelayTimer(reg))
    } else if selector == 0x18 {
        Some(OpCode::StoreBeepTimer(reg))
    } else if selector == 0x1E {
        Some(OpCode::AddAddress(reg))
    } else if selector == 0x29 {
        Some(OpCode::LoadSpriteAddress(reg))
    } else if selector == 0x33 {
        Some(OpCode::StoreBCD(reg))
    } else if selector == 0x55 {
        Some(OpCode::ContextStore(reg))
    } else if selector == 0x65 {
        Some(OpCode::ContextLoad(reg))
    } else {
        None
    }
}

/// Extracts bits 15-12: the opcode family selector.
pub fn first_nibble(word: u16) -> (r: u8)
    ensures
        r == spec_first_nibble(word),
{
    ((word & 0xF000) >> 12) as u8
}

/// Extracts bits 11-8: the first register operand.
pub fn second_nibble(word: u16) -> (r: u8)
    ensures
        r == spec_second_nibble(word),
{
    ((word & 0x0F00) >> 8) as u8
}

/// Extracts bits 7-4: the second register operand.
pub fn third_nibble(word: u16) -> (r: u8)
    ensures
        r == spec_third_nibble(word),
{
    ((word & 0x00F0) >> 4) as u8
}

/// Extracts bits 3-0: a sub-operation selector or a 4-bit constant.
pub fn last_nibble(word: u16) -> (r: u8)
    ensures
        r == spec_last_nibble(word),
{
    (word & 0x000F) as u8
}

/// Extracts bits 11-0: the 12-bit address field.
pub fn skip_first_nibble(word: u16) -> (r: u16)
    ensures
        r == spec_skip_first_nibble(word),
{
    word & 0x0FFF
}

/// Extracts bits 7-0: an 8-bit constant or a sub-operation selector.
pub fn last_byte(word: u16) -> (r: u8)
    ensures
        r == spec_last_byte(word),
{
    (word & 0x00FF) as u8
}

/// Every word that decodes at all decodes to an operation whose operands
/// are within the ranges their source fields allow: the extraction masks
/// cannot construct an out-of-range register index, address or constant.
pub proof fn lemma_decode_operands_in_range(word: u16)
    ensures
        spec_decode(word) matches Some(op) ==> op_wf(op),
{
    assert(spec_second_nibble(word) <= 0xF) by (bit_vector);
    assert(spec_third_nibble(word) <= 0xF) by (bit_vector);
    assert(spec_last_nibble(word) <= 0xF) by (bit_vector);
    assert(spec_skip_first_nibble(word) <= 0xFFF) by (bit_vector);
}

/// Among the words with leading nibble `0`, exactly two encode an
/// operation: `0x00E0` (clear display) and `0x00EE` (return).
pub proof fn lemma_leading_nibble_zero(word: u16)
    requires
        word <= 0x0FFF,
        word != 0x00E0,
        word != 0x00EE,
    ensures
        spec_decode(word) is None,
{
    assert(spec_first_nibble(word) == 0) by (bit_vector)
        requires
            word <= 0x0FFF,
    ;
}

/// A word with leading nibble `0x5` decodes to a register-equality skip
/// exactly when its last nibble is `0`; the fifteen other last-nibble
/// values are invalid.
pub proof fn lemma_skip_equal_register_validity(word: u16)
    requires
        0x5000 <= word <= 0x5FFF,
    ensures
        spec_last_nibble(word) == 0 ==> spec_decode(word) == Some(
            OpCode::SkipEqualRegister(
                Register(spec_second_nibble(word)),
                Register(spec_third_nibble(word)),
            ),
        ),
        spec_last_nibble(word) != 0 ==> spec_decode(word) is None,
{
    assert(spec_first_nibble(word) == 0x5) by (bit_vector)
        requires
            0x5000 <= word <= 0x5FFF,
    ;
}

/// A word with leading nibble `0x9` decodes to a register-inequality skip
/// exactly when its last nibble is `0`; the fifteen other last-nibble
/// values are invalid.
pub proof fn lemma_skip_not_equal_register_validity(word: u16)
    requires
        0x9000 <= word <= 0x9FFF,
    ensures
        spec_last_nibble(word) == 0 ==> spec_decode(word) == Some(
            OpCode::SkipNotEqualRegister(
                Register(spec_second_nibble(word)),
                Register(spec_third_nibble(word)),
            ),
        ),
        spec_last_nibble(word) != 0 ==> spec_decode(word) is None,
{
    assert(spec_first_nibble(word) == 0x9) by (bit_vector)
        requires
            0x9000 <= word <= 0x9FFF,
    ;
}

/// The nine last-nibble selectors that the arithmetic/logic family accepts.
pub open spec fn arithmetic_selector_valid(selector: u8) -> bool {
    selector <= 0x7 || selector == 0xE
}

/// A word with leading nibble `0x8` decodes exactly when its last nibble
/// is one of the nine arithmetic/logic selectors; the seven other values
/// are invalid.
pub proof fn lemma_arithmetic_family_validity(word: u16)
    requires
        0x8000 <= word <= 0x8FFF,
    ensures
        spec_decode(word) is Some <==> arithmetic_selector_valid(spec_last_nibble(word)),
{
    assert(spec_first_nibble(word) == 0x8) by (bit_vector)
        requires
            0x8000 <= word <= 0x8FFF,
    ;
}

/// A word with leading nibble `0xE` decodes exactly when its last byte is
/// `0x9E` (skip if key pressed) or `0xA1` (skip if key not pressed); every
/// other last byte is invalid.
pub proof fn lemma_key_family_validity(word: u16)
    requires
        0xE000 <= word <= 0xEFFF,
    ensures
        spec_last_byte(word) == 0x9E ==> spec_decode(word) == Some(
            OpCode::SkipKeyEqual(Register(spec_second_nibble(word))),
        ),
        spec_last_byte(word) == 0xA1 ==> spec_decode(word) == Some(
            OpCode::SkipKeyNotEqual(Register(spec_second_nibble(word))),
        ),
        spec_last_byte(word) != 0x9E && spec_last_byte(word) != 0xA1 ==> spec_decode(word) is None,
{
    assert(spec_first_nibble(word) == 0xE) by (bit_vector)
        requires
            0xE000 <= word <= 0xEFFF,
    ;
}

/// The nine last-byte selectors that the timer/memory/BCD/context family
/// accepts.
pub open spec fn state_selector_valid(selector: u8) -> bool {
    ||| selector == 0x07
    ||| selector == 0x0A
    ||| selector == 0x15
    ||| selector == 0x18
    ||| selector == 0x1E
    ||| selector == 0x29
    ||| selector == 0x33
    ||| selector == 0x55
    ||| selector == 0x65
}

/// A word with leading nibble `0xF` decodes exactly when its last byte is
/// one of the nine timer/memory/BCD/context selectors; every other last
/// byte is invalid.
pub proof fn lemma_state_family_validity(word: u16)
    requires
        0xF000 <= word <= 0xFFFF,
    ensures
        spec_decode(word) is Some <==> state_selector_valid(spec_last_byte(word)),
{
    assert(spec_first_nibble(word) == 0xF) by (bit_vector)
        requires
            0xF000 <= word <= 0xFFFF,
    ;
}

/// Classifies a 16-bit instruction word. Total over all 65536 words: it
/// returns the operation the word encodes, or `None` where the word
/// encodes none, and never panics.
pub fn decode(op_code: u16) -> (r: Option<OpCode>)
    ensures
        r == spec_decode(op_code),
{
    if op_code == 0x00E0 {
        return Some(OpCode::ClearDisplay);
    }
    if op_code == 0x00EE {
        return Some(OpCode::Return);
    }

    let reg1 = Register(second_nibble(op_code));
    let reg2 = Register(third_nibble(op_code));
    match first_nibble(op_code) {
        0x1 => Some(OpCode::Jump(Address(skip_first_nibble(op_code)))),
        0x2 => Some(OpCode::Call(Address(skip_first_nibble(op_code)))),
        0x3 => Some(OpCode::SkipEqualConstant(reg1, Constant8(last_byte(op_code)))),
        0x4 => Some(OpCode::SkipNotEqualConstant(reg1, Constant8(last_byte(op_code)))),
        0x5 => {
            if last_nibble(op_code) != 0 {
                None
            } else {
                Some(OpCode::SkipEqualRegister(reg1, reg2))
            }
        },
        0x6 => Some(OpCode::LoadConstant(reg1, Constant8(last_byte(op_code)))),
        0x7 => Some(OpCode::AddConstant(reg1, Constant8(last_byte(op_code)))),
        0x8 => {
            match last_nibble(op_code) {
                0x0 => Some(OpCode::CopyRegister(reg1, reg2)),
                0x1 => Some(OpCode::OrRegister(reg1, reg2)),
                0x2 => Some(OpCode::AndRegister(reg1, reg2)),
                0x3 => Some(OpCode::XorRegister(reg1, reg2)),
                0x4 => Some(OpCode::AddRegister(reg1, reg2)),
                0x5 => Some(OpCode::SubRegister(reg1, reg2)),
                0x6 => Some(OpCode::ShiftRightRegister(reg1, reg2)),
                0x7 => Some(OpCode::MinusSubRegister(reg1, reg2)),
                0xE => Some(OpCode::ShiftLeftRegister(reg1, reg2)),
                _ => None,
            }
        },
        0x9 => {
            if last_nibble(op_code) != 0 {
                None
            } else {
                Some(OpCode::SkipNotEqualRegister(reg1, reg2))
            }
        },
        0xA => Some(OpCode::LoadAddressConstant(Address(skip_first_nibble(op_code)))),
        0xB => Some(OpCode::JumpWithOffset(Address(skip_first_nibble(op_code)))),
        0xC => Some(OpCode::Rand(reg1, Constant8(last_byte(op_code)))),
        0xD => Some(OpCode::Draw(reg1, reg2, Constant4(last_nibble(op_code)))),
        0xE => {
            match last_byte(op_code) {
                0x9E => Some(OpCode::SkipKeyEqual(reg1)),
                0xA1 => Some(OpCode::SkipKeyNotEqual(reg1)),
                _ => None,
            }
        },
        0xF => {
            match last_byte(op_code) {
                0x07 => Some(OpCode::LoadDelayTimer(reg1)),
                0x0A => Some(OpCode::WaitKey(reg1)),
                0x15 => Some(OpCode::StoreDelayTimer(reg1)),
                0x18 => Some(OpCode::StoreBeepTimer(reg1)),
                0x1E => Some(OpCode::AddAddress(reg1)),
                0x29 => Some(OpCode::LoadSpriteAddress(reg1)),
                0x33 => Some(OpCode::StoreBCD(reg1)),
                0x55 => Some(OpCode::ContextStore(reg1)),
                0x65 => Some(OpCode::ContextLoad(reg1)),
                _ => None,
            }
        },
        _ => None,
    }
}

} // verus!
