use lc3_vm::register::{Register, RegisterFile, FL_NEG, FL_POS, FL_ZRO};

#[test]
fn test_register_operations() {
    let mut reg_file = RegisterFile::new();

    // Writing and reading general-purpose registers
    reg_file.write(Register::R0, 0x1234);
    assert_eq!(reg_file.read(Register::R0), 0x1234);

    reg_file.write(Register::R7, 0x7890);
    assert_eq!(reg_file.read(Register::R7), 0x7890);

    // Writing and reading the program counter
    reg_file.write(Register::PC, 0x3000);
    assert_eq!(reg_file.read(Register::PC), 0x3000);

    // Updating and reading the condition flags
    reg_file.update_flags(0);
    assert_eq!(reg_file.read(Register::COND), FL_ZRO);

    reg_file.update_flags(1);
    assert_eq!(reg_file.read(Register::COND), FL_POS);

    reg_file.update_flags(0xFFFF);
    assert_eq!(reg_file.read(Register::COND), FL_NEG);
}

#[test]
fn test_flags_are_exclusive() {
    let mut reg_file = RegisterFile::new();
    // Every flag-updating write leaves exactly one flag, never a union.
    for value in [0u16, 1, 0x7FFF, 0x8000, 0xFFFF] {
        reg_file.update_flags(value);
        let cond = reg_file.read(Register::COND);
        assert!(cond == FL_ZRO || cond == FL_POS || cond == FL_NEG);
    }
    // The flag is derived from the value alone, not accumulated.
    reg_file.update_flags(0x8000);
    assert_eq!(reg_file.read(Register::COND), FL_NEG);
    reg_file.update_flags(7);
    assert_eq!(reg_file.read(Register::COND), FL_POS);
}

#[test]
fn test_write_replaces_whole_value() {
    let mut reg_file = RegisterFile::new();
    reg_file.write(Register::R3, 0xFFFF);
    reg_file.write(Register::R3, 0x0001);
    assert_eq!(reg_file.read(Register::R3), 0x0001);
    // A general-register write leaves the program counter alone and vice versa.
    reg_file.write(Register::PC, 0x1234);
    assert_eq!(reg_file.read(Register::R3), 0x0001);
    reg_file.write(Register::R3, 0x4321);
    assert_eq!(reg_file.read(Register::PC), 0x1234);
}
