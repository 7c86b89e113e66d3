use chirp8::instructions::decode;
use chirp8::instructions::Address;
use chirp8::instructions::Constant4;
use chirp8::instructions::Constant8;
use chirp8::instructions::OpCode;
use chirp8::instructions::Register;

fn operands_in_range(op: &OpCode) -> bool {
    let address_ok = |a: &Address| a.0 <= 0xFFF;
    let nibble_ok = |r: &Register| r.0 <= 0xF;
    let height_ok = |h: &Constant4| h.0 <= 0xF;
    match op {
        OpCode::ClearDisplay => true,
        OpCode::Return => true,
        OpCode::Jump(a) => address_ok(a),
        OpCode::Call(a) => address_ok(a),
        OpCode::SkipEqualConstant(r, _) => nibble_ok(r),
        OpCode::SkipNotEqualConstant(r, _) => nibble_ok(r),
        OpCode::SkipEqualRegister(r1, r2) => nibble_ok(r1) && nibble_ok(r2),
        OpCode::LoadConstant(r, _) => nibble_ok(r),
        OpCode::AddConstant(r, _) => nibble_ok(r),
        OpCode::CopyRegister(r1, r2) => nibble_ok(r1) && nibble_ok(r2),
        OpCode::OrRegister(r1, r2) => nibble_ok(r1) && nibble_ok(r2),
        OpCode::AndRegister(r1, r2) => nibble_ok(r1) && nibble_ok(r2),
        OpCode::XorRegister(r1, r2) => nibble_ok(r1) && nibble_ok(r2),
        OpCode::AddRegister(r1, r2) => nibble_ok(r1) && nibble_ok(r2),
        OpCode::SubRegister(r1, r2) => nibble_ok(r1) && nibble_ok(r2),
        OpCode::ShiftRightRegister(r1, r2) => nibble_ok(r1) && nibble_ok(r2),
        OpCode::MinusSubRegister(r1, r2) => nibble_ok(r1) && nibble_ok(r2),
        OpCode::ShiftLeftRegister(r1, r2) => nibble_ok(r1) && nibble_ok(r2),
        OpCode::SkipNotEqualRegister(r1, r2) => nibble_ok(r1) && nibble_ok(r2),
        OpCode::LoadAddressConstant(a) => address_ok(a),
        OpCode::JumpWithOffset(a) => address_ok(a),
        OpCode::Rand(r, _) => nibble_ok(r),
        OpCode::Draw(r1, r2, h) => nibble_ok(r1) && nibble_ok(r2) && height_ok(h),
        OpCode::SkipKeyEqual(r) => nibble_ok(r),
        OpCode::SkipKeyNotEqual(r) => nibble_ok(r),
        OpCode::LoadDelayTimer(r) => nibble_ok(r),
        OpCode::WaitKey(r) => nibble_ok(r),
        OpCode::StoreDelayTimer(r) => nibble_ok(r),
        OpCode::StoreBeepTimer(r) => nibble_ok(r),
        OpCode::AddAddress(r) => nibble_ok(r),
        OpCode::LoadSpriteAddress(r) => nibble_ok(r),
        OpCode::StoreBCD(r) => nibble_ok(r),
        OpCode::ContextStore(r) => nibble_ok(r),
        OpCode::ContextLoad(r) => nibble_ok(r),
    }
}

#[test]
fn test_decode_total_with_operands_in_range() {
    let mut valid: u32 = 0;
    for word in 0x0000u16..=0xFFFFu16 {
        match decode(word) {
            Some(op) => {
                assert!(operands_in_range(&op));
                valid += 1;
            }
            None => {}
        }
    }
    // 2 zero-family words; ten always-valid families of 4096 words each;
    // 256 each for the two register-skip families; 9 * 256 for the
    // arithmetic family; 2 * 16 for the key family; 9 * 16 for the
    // timer/memory/BCD/context family.
    assert_eq!(valid, 2 + 10 * 4096 + 256 + 256 + 9 * 256 + 2 * 16 + 9 * 16);
}

#[test]
fn test_skip_equal_register_full_range() {
    for word in 0x5000u16..=0x5FFFu16 {
        let expected = if word & 0x000F == 0 {
            Some(OpCode::SkipEqualRegister(
                Register(((word & 0x0F00) >> 8) as u8),
                Register(((word & 0x00F0) >> 4) as u8),
            ))
        } else {
            None
        };
        assert_eq!(decode(word), expected);
    }
}

#[test]
fn test_skip_not_equal_register_full_range() {
    for word in 0x9000u16..=0x9FFFu16 {
        let expected = if word & 0x000F == 0 {
            Some(OpCode::SkipNotEqualRegister(
                Register(((word & 0x0F00) >> 8) as u8),
                Register(((word & 0x00F0) >> 4) as u8),
            ))
        } else {
            None
        };
        assert_eq!(decode(word), expected);
    }
}

#[test]
fn test_arithmetic_family_full_range() {
    for word in 0x8000u16..=0x8FFFu16 {
        let selector = (word & 0x000F) as u8;
        let valid = selector <= 0x7 || selector == 0xE;
        assert_eq!(decode(word).is_some(), valid);
    }
}

#[test]
fn test_key_family_full_range() {
    for word in 0xE000u16..=0xEFFFu16 {
        let reg = Register(((word & 0x0F00) >> 8) as u8);
        let expected = match word & 0x00FF {
            0x9E => Some(OpCode::SkipKeyEqual(reg)),
            0xA1 => Some(OpCode::SkipKeyNotEqual(reg)),
            _ => None,
        };
        assert_eq!(decode(word), expected);
    }
}

#[test]
fn test_state_family_full_range() {
    for word in 0xF000u16..=0xFFFFu16 {
        let last_byte = (word & 0x00FF) as u8;
        let valid = matches!(
            last_byte,
            0x07 | 0x0A | 0x15 | 0x18 | 0x1E | 0x29 | 0x33 | 0x55 | 0x65
        );
        assert_eq!(decode(word).is_some(), valid);
    }
}

#[test]
fn test_draw() {
    assert_eq!(
        decode(0xD123).unwrap(),
        OpCode::Draw(Register(0x1), Register(0x2), Constant4(0x3))
    );
}

#[test]
fn test_draw_any_height_valid() {
    for word in 0xD000u16..=0xDFFFu16 {
        assert_eq!(
            decode(word),
            Some(OpCode::Draw(
                Register(((word & 0x0F00) >> 8) as u8),
                Register(((word & 0x00F0) >> 4) as u8),
                Constant4((word & 0x000F) as u8),
            ))
        );
    }
}
