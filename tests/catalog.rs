use aarch64_kvm_regs::arm::RegisterCoordinates;
use aarch64_kvm_regs::catalog::{Access, Catalog, RegisterDescriptor};

fn descriptor(name: &str, op0: u64, op1: u64, crn: u64, crm: u64, op2: u64, access: Access) -> RegisterDescriptor {
    RegisterDescriptor {
        name: name.to_string(),
        coordinates: RegisterCoordinates { op0, op1, crn, crm, op2 },
        access,
    }
}

fn sample() -> Vec<RegisterDescriptor> {
    vec![
        descriptor("MIDR_EL1", 3, 0, 0, 0, 0, Access::ReadOnly),
        descriptor("MPIDR_EL1", 3, 0, 0, 0, 5, Access::ReadOnly),
        descriptor("SCTLR_EL1", 3, 0, 1, 0, 0, Access::ReadWrite),
        descriptor("SCTLR_ALIAS", 3, 0, 1, 0, 0, Access::ReadWrite),
    ]
}

#[test]
fn build_derives_identifiers() {
    let c = Catalog::build(&sample());
    assert_eq!(c.len(), 4);
    assert_eq!(c.entry(0).id, 0x6030_0000_0013_c000);
    assert_eq!(c.entry(1).name, "MPIDR_EL1");
    assert_eq!(c.entry(1).access, Access::ReadOnly);
    assert_eq!(c.entry(2).coordinates, RegisterCoordinates { op0: 3, op1: 0, crn: 1, crm: 0, op2: 0 });
}

#[test]
fn lookup_by_id_returns_every_alias() {
    let c = Catalog::build(&sample());
    let found = c.lookup_by_id(0x6030_0000_0013_c080);
    let names: Vec<&str> = found.iter().map(|e| e.name.as_str()).collect();
    assert_eq!(names, vec!["SCTLR_EL1", "SCTLR_ALIAS"]);
    assert!(c.lookup_by_id(42).is_empty());
}

#[test]
fn lookup_by_name_is_exact_and_case_sensitive() {
    let c = Catalog::build(&sample());
    let found = c.lookup_by_name(&"MPIDR_EL1".to_string());
    assert_eq!(found.len(), 1);
    assert_eq!(found[0].id, 0x6030_0000_0013_c005);
    assert!(c.lookup_by_name(&"mpidr_el1".to_string()).is_empty());
    assert!(c.lookup_by_name(&"MPIDR".to_string()).is_empty());
}

#[test]
fn building_twice_gives_the_same_mapping() {
    let list = sample();
    let a = Catalog::build(&list);
    let b = Catalog::build(&list);
    assert_eq!(a.len(), b.len());
    for i in 0..a.len() {
        assert_eq!(a.entry(i).id, b.entry(i).id);
        assert_eq!(a.entry(i).name, b.entry(i).name);
        let ia: Vec<&str> = a.lookup_by_id(a.entry(i).id).iter().map(|e| e.name.as_str()).collect();
        let ib: Vec<&str> = b.lookup_by_id(b.entry(i).id).iter().map(|e| e.name.as_str()).collect();
        assert_eq!(ia, ib);
    }
}

#[test]
fn empty_catalog_matches_nothing() {
    let c = Catalog::build(&Vec::new());
    assert_eq!(c.len(), 0);
    assert!(c.lookup_by_id(0x6030_0000_0013_c000).is_empty());
}
