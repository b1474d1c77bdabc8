use lc3_vm::opcode::{extract_opcode, Opcode};

#[test]
fn test_opcode_conversion() {
    assert_eq!(Opcode::from_u16(0), Some(Opcode::OP_BR));
    assert_eq!(Opcode::from_u16(15), Some(Opcode::OP_TRAP));
    assert_eq!(Opcode::from_u16(16), None);

    assert_eq!(Opcode::OP_BR.to_u16(), 0);
    assert_eq!(Opcode::OP_TRAP.to_u16(), 15);
}

#[test]
fn test_extract_opcode() {
    assert_eq!(extract_opcode(0b0001_000_000_000_000), Some(Opcode::OP_ADD));
    assert_eq!(extract_opcode(0b1111_000_000_000_000), Some(Opcode::OP_TRAP));
    assert_eq!(extract_opcode(0b1111_111_111_111_111), Some(Opcode::OP_TRAP));
}

#[test]
fn test_decode_is_total() {
    // Every 4-bit value names a variant, and the round trip is exact.
    for value in 0u16..16 {
        let op = Opcode::from_u16(value).expect("every 4-bit value decodes");
        assert_eq!(op.to_u16(), value);
        // The top 4 bits select the opcode whatever the rest of the word holds.
        assert_eq!(extract_opcode(value << 12), Some(op));
        assert_eq!(extract_opcode((value << 12) | 0x0FFF), Some(op));
    }
}
