use aarch64_kvm_regs::arm::{reg_size, Aarch64KvmRegister, RegisterCoordinates};

#[test]
fn encodes_known_identifier() {
    // KVM's ARM64_SYS_REG(3, 0, 0, 0, 1).
    assert_eq!(Aarch64KvmRegister::reg_id(3, 0, 0, 0, 1), 0x6030_0000_0013_c001);
    // MIDR_EL1 and MPIDR_EL1 as KVM lists them.
    assert_eq!(Aarch64KvmRegister::reg_id(3, 0, 0, 0, 0), 0x6030_0000_0013_c000);
    assert_eq!(Aarch64KvmRegister::reg_id(3, 0, 0, 0, 5), 0x6030_0000_0013_c005);
    // SCTLR_EL1 and TPIDR_EL0.
    assert_eq!(Aarch64KvmRegister::reg_id(3, 0, 1, 0, 0), 0x6030_0000_0013_c080);
    assert_eq!(Aarch64KvmRegister::reg_id(3, 3, 13, 0, 2), 0x6030_0000_0013_de82);
}

#[test]
fn new_keeps_name_and_derives_id() {
    let r = Aarch64KvmRegister::new("MPIDR_EL1".to_string(), 3, 0, 0, 0, 5);
    assert_eq!(r.name, "MPIDR_EL1");
    assert_eq!(r.id, 0x6030_0000_0013_c005);
}

#[test]
fn over_wide_coordinates_are_masked() {
    assert_eq!(
        Aarch64KvmRegister::reg_id(7, 9, 17, 31, 15),
        Aarch64KvmRegister::reg_id(3, 1, 1, 15, 7)
    );
}

#[test]
fn decode_round_trip() {
    for op0 in 0..4u64 {
        for op1 in 0..8u64 {
            for crn in 0..16u64 {
                for crm in 0..16u64 {
                    for op2 in 0..8u64 {
                        let c = RegisterCoordinates { op0, op1, crn, crm, op2 };
                        assert_eq!(RegisterCoordinates::decode(c.encode()), c);
                    }
                }
            }
        }
    }
}

#[test]
fn distinct_coordinates_distinct_ids() {
    let a = RegisterCoordinates { op0: 3, op1: 0, crn: 2, crm: 0, op2: 0 };
    let b = RegisterCoordinates { op0: 3, op1: 0, crn: 2, crm: 0, op2: 1 };
    assert_ne!(a.encode(), b.encode());
}

#[test]
fn size_of_encoded_register_is_64() {
    let id = Aarch64KvmRegister::reg_id(3, 0, 2, 0, 1);
    assert_eq!(reg_size(id), 64);
}

#[test]
fn size_field_sizes() {
    assert_eq!(reg_size(0x6000_0000_0000_0000), 8);
    assert_eq!(reg_size(0x6010_0000_0000_0000), 16);
    assert_eq!(reg_size(0x6020_0000_0000_0000), 32);
    assert_eq!(reg_size(0x6040_0000_0000_0000), 128);
    assert_eq!(reg_size(0x6080_0000_0000_0000), 2048);
    assert_eq!(reg_size(u64::MAX), 8 << 15);
}
