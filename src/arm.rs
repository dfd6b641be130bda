//! The KVM register identifier of an AArch64 system register: packing the
//! five architectural coordinates into it, reading them back, and reading
//! the storage width it encodes.
use vstd::prelude::*;
use vstd::arithmetic::power2::{pow2, lemma_pow2_unfold, lemma_pow2_strictly_increases, lemma2_to64};

verus! {

// The layout of a register identifier is the kernel's ABI
// (include/uapi/linux/kvm.h and arch/arm64/include/uapi/asm/kvm.h).
// These values track that interface and change only together with it.
/// Architecture tag of an AArch64 register identifier.
pub const KVM_REG_ARM64: u64 = 0x6000_0000_0000_0000;
/// Position of the size field: log2 of the storage width in bytes.
pub const KVM_REG_SIZE_SHIFT: u32 = 52;
/// The bits of the size field.
pub const KVM_REG_SIZE_MASK: u64 = 0x00f0_0000_0000_0000;
/// Size field of a register with 64-bit storage.
pub const KVM_REG_SIZE_U64: u64 = 0x0030_0000_0000_0000;
/// Coprocessor tag of a system register.
pub const KVM_REG_ARM64_SYSREG: u64 = 0x0013_0000;
pub const KVM_REG_ARM64_SYSREG_OP0_MASK: u64 = 0xc000;
pub const KVM_REG_ARM64_SYSREG_OP0_SHIFT: u64 = 14;
pub const KVM_REG_ARM64_SYSREG_OP1_MASK: u64 = 0x3800;
pub const KVM_REG_ARM64_SYSREG_OP1_SHIFT: u64 = 11;
pub const KVM_REG_ARM64_SYSREG_CRN_MASK: u64 = 0x0780;
pub const KVM_REG_ARM64_SYSREG_CRN_SHIFT: u64 = 7;
pub const KVM_REG_ARM64_SYSREG_CRM_MASK: u64 = 0x0078;
pub const KVM_REG_ARM64_SYSREG_CRM_SHIFT: u64 = 3;
pub const KVM_REG_ARM64_SYSREG_OP2_MASK: u64 = 0x0007;
pub const KVM_REG_ARM64_SYSREG_OP2_SHIFT: u64 = 0;

/// The size field of an identifier.
pub open spec fn size_field(reg_id: u64) -> u64 {
    (reg_id & KVM_REG_SIZE_MASK) >> KVM_REG_SIZE_SHIFT
}

/// The storage width, in bits, that an identifier encodes.
pub open spec fn size_bits(reg_id: u64) -> nat {
    pow2(size_field(reg_id) as nat) * 8
}

/// Returns the size of a register in bits, read from its identifier.
pub fn reg_size(reg_id: u64) -> (r: usize)
    ensures
        r == size_bits(reg_id),
{
    let field: u64 = (reg_id & KVM_REG_SIZE_MASK) >> KVM_REG_SIZE_SHIFT;
    assert(field <= 15) by (bit_vector)
        requires
            field == (reg_id & 0x00f0_0000_0000_0000u64) >> 52u32,
    ;
    proof {
        lemma2_to64();
    }
    let mut r: usize = 8;
    let mut i: u64 = 0;
    while i < field
        invariant
            i <= field <= 15,
            r == pow2(i as nat) * 8,
        decreases field - i,
    {
        proof {
            lemma2_to64();
            lemma_pow2_unfold((i + 1) as nat);
            if i + 1 < 15 {
                lemma_pow2_strictly_increases((i + 1) as nat, 15);
            }
            assert(pow2((i + 1) as nat) <= 32768);
            assert(r * 2 == pow2((i + 1) as nat) * 8);
        }
        r = r * 2;
        i = i + 1;
    }
    r
}

/// The five architectural coordinates that address a system register.
#[derive(Clone, Copy, Debug, PartialEq, Eq, Structural)]
pub struct RegisterCoordinates {
    pub op0: u64,
    pub op1: u64,
    pub crn: u64,
    pub crm: u64,
    pub op2: u64,
}

impl RegisterCoordinates {
    /// Each coordinate fits in its field: two bits for op0, three for op1
    /// and op2, four for CRn and CRm.
    pub open spec fn is_valid(self) -> bool {
        self.op0 < 4 && self.op1 < 8 && self.crn < 16 && self.crm < 16 && self.op2 < 8
    }

    /// The identifier of the register at these coordinates.
    pub open spec fn id(self) -> u64 {
        sysreg_id(self.op0, self.op1, self.crn, self.crm, self.op2)
    }

    /// The coordinates with each field cut to its width, as the identifier
    /// keeps them.
    pub open spec fn masked(self) -> RegisterCoordinates {
        RegisterCoordinates {
            op0: self.op0 & 3,
            op1: self.op1 & 7,
            crn: self.crn & 15,
            crm: self.crm & 15,
            op2: self.op2 & 7,
        }
    }

    /// Returns the identifier of the register at these coordinates.
    pub fn encode(&self) -> (r: u64)
        ensures
            r == self.id(),
    {
        Aarch64KvmRegister::reg_id(self.op0, self.op1, self.crn, self.crm, self.op2)
    }

    /// Reads the coordinates back from an identifier.
    pub fn decode(reg_id: u64) -> (r: RegisterCoordinates)
        ensures
            r == coordinates_of(reg_id),
            r.is_valid(),
    {
        let op0 = (reg_id & KVM_REG_ARM64_SYSREG_OP0_MASK) >> KVM_REG_ARM64_SYSREG_OP0_SHIFT;
        let op1 = (reg_id & KVM_REG_ARM64_SYSREG_OP1_MASK) >> KVM_REG_ARM64_SYSREG_OP1_SHIFT;
        let crn = (reg_id & KVM_REG_ARM64_SYSREG_CRN_MASK) >> KVM_REG_ARM64_SYSREG_CRN_SHIFT;
        let crm = (reg_id & KVM_REG_ARM64_SYSREG_CRM_MASK) >> KVM_REG_ARM64_SYSREG_CRM_SHIFT;
        let op2 = (reg_id & KVM_REG_ARM64_SYSREG_OP2_MASK) >> KVM_REG_ARM64_SYSREG_OP2_SHIFT;
        assert(op0 == (reg_id >> 14u64) & 3 && op1 == (reg_id >> 11u64) & 7 && crn == (reg_id
            >> 7u64) & 15 && crm == (reg_id >> 3u64) & 15 && op2 == reg_id & 7 && op0 < 4 && op1
            < 8 && crn < 16 && crm < 16 && op2 < 8) by (bit_vector)
            requires
                op0 == (reg_id & 0xc000u64) >> 14u64,
                op1 == (reg_id & 0x3800u64) >> 11u64,
                crn == (reg_id & 0x0780u64) >> 7u64,
                crm == (reg_id & 0x0078u64) >> 3u64,
                op2 == (reg_id & 0x0007u64) >> 0u64,
        ;
        let r = RegisterCoordinates { op0, op1, crn, crm, op2 };
        r
    }
}

/// The identifier of a system register with 64-bit storage: the class tags,
/// then each coordinate, cut to its width, at its place.
pub open spec fn sysreg_id(op0: u64, op1: u64, crn: u64, crm: u64, op2: u64) -> u64 {
    KVM_REG_ARM64 | KVM_REG_SIZE_U64 | KVM_REG_ARM64_SYSREG | ((op0 & 3) << 14u64) | ((op1
        & 7) << 11u64) | ((crn & 15) << 7u64) | ((crm & 15) << 3u64) | (op2 & 7)
}

/// The coordinates held in the low sixteen bits of an identifier.
pub open spec fn coordinates_of(reg_id: u64) -> RegisterCoordinates {
    RegisterCoordinates {
        op0: (reg_id >> 14u64) & 3,
        op1: (reg_id >> 11u64) & 7,
        crn: (reg_id >> 7u64) & 15,
        crm: (reg_id >> 3u64) & 15,
        op2: reg_id & 7,
    }
}

/// A named register and its identifier.
#[derive(Debug, Clone)]
pub struct Aarch64KvmRegister {
    pub name: String,
    pub id: u64,
}

impl Aarch64KvmRegister {
    /// The register `name` at the given coordinates.
    pub fn new(name: String, op0: u64, op1: u64, crn: u64, crm: u64, op2: u64) -> (r: Self)
        ensures
            r.name == name,
            r.id == sysreg_id(op0, op1, crn, crm, op2),
    {
        let id = Self::reg_id(op0, op1, crn, crm, op2);
        Self { name, id }
    }

    /// The identifier of the system register at the given coordinates. Bits
    /// of a coordinate beyond its field's width are dropped.
    pub fn reg_id(op0: u64, op1: u64, crn: u64, crm: u64, op2: u64) -> (r: u64)
        ensures
            r == sysreg_id(op0, op1, crn, crm, op2),
    {
        let r = KVM_REG_ARM64 | KVM_REG_SIZE_U64 | KVM_REG_ARM64_SYSREG | ((op0
            << KVM_REG_ARM64_SYSREG_OP0_SHIFT) & KVM_REG_ARM64_SYSREG_OP0_MASK) | ((op1
            << KVM_REG_ARM64_SYSREG_OP1_SHIFT) & KVM_REG_ARM64_SYSREG_OP1_MASK) | ((crn
            << KVM_REG_ARM64_SYSREG_CRN_SHIFT) & KVM_REG_ARM64_SYSREG_CRN_MASK) | ((crm
            << KVM_REG_ARM64_SYSREG_CRM_SHIFT) & KVM_REG_ARM64_SYSREG_CRM_MASK) | ((op2
            << KVM_REG_ARM64_SYSREG_OP2_SHIFT) & KVM_REG_ARM64_SYSREG_OP2_MASK);
        assert(r == sysreg_id(op0, op1, crn, crm, op2)) by (bit_vector)
            requires
                r == 0x6000_0000_0000_0000u64 | 0x0030_0000_0000_0000u64 | 0x0013_0000u64 | ((op0
                    << 14u64) & 0xc000u64) | ((op1 << 11u64) & 0x3800u64) | ((crn << 7u64)
                    & 0x0780u64) | ((crm << 3u64) & 0x0078u64) | ((op2 << 0u64) & 0x0007u64),
        ;
        r
    }
}

/// Reading the coordinates back from the identifier of valid coordinates
/// gives those coordinates.
pub proof fn lemma_decode_encode(c: RegisterCoordinates)
    requires
        c.is_valid(),
    ensures
        coordinates_of(c.id()) == c,
{
    lemma_decode_encode_masked(c);
    let (op0, op1, crn, crm, op2) = (c.op0, c.op1, c.crn, c.crm, c.op2);
    assert(op0 & 3 == op0 && op1 & 7 == op1 && crn & 15 == crn && crm & 15 == crm && op2 & 7
        == op2) by (bit_vector)
        requires
            op0 < 4 && op1 < 8 && crn < 16 && crm < 16 && op2 < 8,
    ;
}

/// Reading the coordinates back from any identifier that the encoding
/// gives yields the coordinates cut to their widths.
pub proof fn lemma_decode_encode_masked(c: RegisterCoordinates)
    ensures
        coordinates_of(c.id()) == c.masked(),
{
    let id = c.id();
    let (op0, op1, crn, crm, op2) = (c.op0, c.op1, c.crn, c.crm, c.op2);
    assert((id >> 14u64) & 3 == op0 & 3 && (id >> 11u64) & 7 == op1 & 7 && (id >> 7u64) & 15
        == crn & 15 && (id >> 3u64) & 15 == crm & 15 && id & 7 == op2 & 7) by (bit_vector)
        requires
            id == 0x6000_0000_0000_0000u64 | 0x0030_0000_0000_0000u64 | 0x0013_0000u64 | ((op0
                & 3) << 14u64) | ((op1 & 7) << 11u64) | ((crn & 15) << 7u64) | ((crm & 15)
                << 3u64) | (op2 & 7),
    ;
}

/// Distinct valid coordinates have distinct identifiers.
pub proof fn lemma_encode_injective(a: RegisterCoordinates, b: RegisterCoordinates)
    requires
        a.is_valid(),
        b.is_valid(),
        a != b,
    ensures
        a.id() != b.id(),
{
    lemma_decode_encode(a);
    lemma_decode_encode(b);
}

/// Every identifier that the encoding gives carries the 64-bit storage
/// tag, so its size reads as 64 bits.
pub proof fn lemma_encoded_size(op0: u64, op1: u64, crn: u64, crm: u64, op2: u64)
    ensures
        size_field(sysreg_id(op0, op1, crn, crm, op2)) == 3,
        size_bits(sysreg_id(op0, op1, crn, crm, op2)) == 64,
{
    let id = sysreg_id(op0, op1, crn, crm, op2);
    assert(((id & 0x00f0_0000_0000_0000u64) >> 52u32) == 3) by (bit_vector)
        requires
            id == 0x6000_0000_0000_0000u64 | 0x0030_0000_0000_0000u64 | 0x0013_0000u64 | ((op0
                & 3) << 14u64) | ((op1 & 7) << 11u64) | ((crn & 15) << 7u64) | ((crm & 15)
                << 3u64) | (op2 & 7),
    ;
    lemma2_to64();
}

/// An identifier whose size field holds the 64-bit storage tag reads as
/// 64 bits wide.
pub proof fn lemma_size_of_u64_tag(reg_id: u64)
    requires
        reg_id & KVM_REG_SIZE_MASK == KVM_REG_SIZE_U64,
    ensures
        size_bits(reg_id) == 64,
{
    assert(((reg_id & 0x00f0_0000_0000_0000u64) >> 52u32) == 3) by (bit_vector)
        requires
            reg_id & 0x00f0_0000_0000_0000u64 == 0x0030_0000_0000_0000u64,
    ;
    lemma2_to64();
}

} // verus!
