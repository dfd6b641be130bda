use aarch64_kvm_regs::arm::RegisterCoordinates;
use aarch64_kvm_regs::catalog::{Access, Catalog, RegisterDescriptor};
use aarch64_kvm_regs::report::{find_by_id, find_by_register, format_register, query, DisplayOptions};

fn catalog() -> Catalog {
    Catalog::build(&vec![RegisterDescriptor {
        name: "X".to_string(),
        coordinates: RegisterCoordinates { op0: 3, op1: 0, crn: 0, crm: 0, op2: 5 },
        access: Access::ReadOnly,
    }])
}

const ALL: DisplayOptions = DisplayOptions { size: true, value: true, names: true, hex: true };

#[test]
fn three_registers_three_lines() {
    let c = catalog();
    let regs: Vec<(u64, Vec<u8>)> = vec![
        (0x6030_0000_0013_c000, vec![0x00, 0x01, 0, 0]),
        (0x6030_0000_0013_c005, vec![0x01, 0, 0, 0x80]),
        (0x6020_0000_0010_0040, vec![0, 0, 0, 0]),
    ];
    let lines = query(&c, &regs, ALL);
    assert_eq!(lines.len(), 3);
    assert_eq!(lines[0], "0x603000000013c000 64 0x100 none");
    assert_eq!(lines[1], "0x603000000013c005 64 0x80000001 X");
    assert_eq!(lines[2], "0x6020000000100040 32 0x0 none");
    assert!(lines[1].contains('X'));
    assert!(lines[0].ends_with(" none") && lines[2].ends_with(" none"));
}

#[test]
fn decorations_are_optional() {
    let c = catalog();
    let bare = DisplayOptions { size: false, value: false, names: false, hex: true };
    assert_eq!(format_register(&c, 0x6030_0000_0013_c005, &[7], bare), "0x603000000013c005");
    let names = DisplayOptions { size: false, value: false, names: true, hex: true };
    assert_eq!(format_register(&c, 0x6030_0000_0013_c005, &[], names), "0x603000000013c005 X");
    let size = DisplayOptions { size: true, value: false, names: false, hex: true };
    assert_eq!(format_register(&c, 0x6080_0000_0000_0000, &[], size), "0x6080000000000000 2048");
}

#[test]
fn identifier_in_decimal() {
    let c = catalog();
    let dec = DisplayOptions { size: false, value: true, names: true, hex: false };
    assert_eq!(format_register(&c, 0x6030_0000_0013_c005, &[0xff, 0x0f], dec), "6931039826524487685 0xfff X");
    assert_eq!(format_register(&c, 7, &[], dec), "7 0x0 none");
}

#[test]
fn find_by_id_lines() {
    let c = catalog();
    let lines = find_by_id(&c, &vec![0x6030_0000_0013_c005, 1]);
    assert_eq!(lines, vec!["id: 6931039826524487685 => X".to_string(), "id: 1 => none".to_string()]);
}

#[test]
fn find_by_register_lines() {
    let c = catalog();
    let lines = find_by_register(&c, &vec!["X".to_string(), "Y".to_string()]);
    assert_eq!(lines, vec!["register: X => 0x603000000013c005".to_string(), "register: Y => none".to_string()]);
}
