use aarch64_kvm_regs::arm::Aarch64KvmRegister;
use aarch64_kvm_regs::reg_info::{parse_binary_literal, Aarch64KvmRegisterInfo};

#[test]
fn binary_literals() {
    assert_eq!(parse_binary_literal(b"0b011"), Some(3));
    assert_eq!(parse_binary_literal(b"0b1111"), Some(15));
    assert_eq!(parse_binary_literal(b"0b+10"), Some(2));
    assert_eq!(parse_binary_literal(b"0b"), None);
    assert_eq!(parse_binary_literal(b"0b+"), None);
    assert_eq!(parse_binary_literal(b"0b012"), None);
    assert_eq!(parse_binary_literal(b"0"), None);
    let max = format!("0b{}", "1".repeat(64));
    assert_eq!(parse_binary_literal(max.as_bytes()), Some(u64::MAX));
    let over = format!("0b{}", "1".repeat(65));
    assert_eq!(parse_binary_literal(over.as_bytes()), None);
}

#[test]
fn complete_record_gives_register() {
    let mut info = Aarch64KvmRegisterInfo::new();
    info.set_name("MPIDR_EL1".to_string());
    assert!(info.set_encoding(b"op0", b"0b11"));
    assert!(info.set_encoding(b"op1", b"0b000"));
    assert!(info.set_encoding(b"CRn", b"0b0000"));
    assert!(info.set_encoding(b"CRm", b"0b0000"));
    assert!(info.set_encoding(b"op2", b"0b101"));
    let reg = Aarch64KvmRegister::try_from_info(info).unwrap();
    assert_eq!(reg.name, "MPIDR_EL1");
    assert_eq!(reg.id, 0x6030_0000_0013_c005);
}

#[test]
fn unknown_field_or_bad_value_stops() {
    let mut info = Aarch64KvmRegisterInfo::new();
    assert!(!info.set_encoding(b"op3", b"0b1"));
    assert!(!info.set_encoding(b"crn", b"0b1"));
    assert!(!info.set_encoding(b"op0", b"0bx"));
    assert_eq!(info.op0, None);
    assert_eq!(info.crn, None);
}

#[test]
fn incomplete_record_is_rejected() {
    let mut info = Aarch64KvmRegisterInfo::new();
    info.set_name("PARTIAL".to_string());
    assert!(info.set_encoding(b"op0", b"0b11"));
    assert!(Aarch64KvmRegister::try_from_info(info).is_err());
}
