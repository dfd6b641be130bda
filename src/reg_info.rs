//! What the register extraction gathers of one register from the
//! architecture's register descriptions: its short name and the binary
//! literal of each encoding field. A register is kept only once all six
//! are known.
use vstd::prelude::*;

use crate::arm::{Aarch64KvmRegister, sysreg_id};

verus! {

/// The bytes of an ASCII text.
pub open spec fn ascii(s: Seq<char>) -> Seq<u8> {
    s.map_values(|c: char| c as u8)
}

/// The digits of an unsigned number as `u64::from_str_radix` reads them: a
/// leading `+` is dropped when digits follow it.
pub open spec fn unsigned_digits(d: Seq<u8>) -> Seq<u8> {
    if d.len() > 1 && d[0] == '+' as u8 {
        d.drop_first()
    } else {
        d
    }
}

/// At least one digit, each `0` or `1`.
pub open spec fn is_binary(d: Seq<u8>) -> bool {
    d.len() > 0 && forall|i: int| 0 <= i < d.len() ==> d[i] == '0' as u8 || d[i] == '1' as u8
}

/// The number that binary digits spell, most significant first.
pub open spec fn binary_value(d: Seq<u8>) -> nat
    decreases d.len(),
{
    if d.len() == 0 {
        0
    } else {
        binary_value(d.drop_last()) * 2 + (if d.last() == '1' as u8 { 1nat } else { 0nat })
    }
}

/// The number of a literal such as `0b0110`: the first two bytes are its
/// prefix, the rest are binary digits whose number fits in 64 bits.
pub open spec fn binary_literal(v: Seq<u8>) -> Option<u64> {
    let d = unsigned_digits(v.skip(2));
    if v.len() >= 2 && is_binary(d) && binary_value(d) <= u64::MAX {
        Some(binary_value(d) as u64)
    } else {
        None
    }
}

proof fn lemma_binary_value_prefix(d: Seq<u8>, k: int)
    requires
        0 <= k <= d.len(),
    ensures
        binary_value(d.take(k)) <= binary_value(d),
    decreases d.len(),
{
    if k < d.len() {
        assert(d.drop_last().take(k) =~= d.take(k));
        lemma_binary_value_prefix(d.drop_last(), k);
    } else {
        assert(d.take(k) =~= d);
    }
}

/// Reads a binary literal such as `0b0110`: its first two bytes are the
/// prefix and are not looked at.
pub fn parse_binary_literal(v: &[u8]) -> (r: Option<u64>)
    ensures
        r == binary_literal(v@),
{
    if v.len() < 2 {
        return None;
    }
    let mut start: usize = 2;
    if v.len() > 3 && v[2] == 43u8 {
        start = 3;
    }
    let ghost d = unsigned_digits(v@.skip(2));
    assert(d =~= v@.skip(start as int));
    if start == v.len() {
        return None;
    }
    let mut value: u64 = 0;
    let mut i: usize = start;
    while i < v.len()
        invariant
            start <= i <= v@.len(),
            start < v@.len(),
            d == v@.skip(start as int),
            d == unsigned_digits(v@.skip(2)),
            v@.len() >= 2,
            forall|k: int| start <= k < i ==> v@[k] == '0' as u8 || v@[k] == '1' as u8,
            value == binary_value(d.take(i - start)),
        decreases v.len() - i,
    {
        let c = v[i];
        if c != 48u8 && c != 49u8 {
            assert(!is_binary(d)) by {
                assert(d[i - start] == c);
            }
            return None;
        }
        let bit: u64 = if c == 49u8 { 1 } else { 0 };
        assert(d.take(i - start + 1).drop_last() =~= d.take(i - start));
        assert(d.take(i - start + 1).last() == c);
        if value > (u64::MAX - bit) / 2 {
            proof {
                lemma_binary_value_prefix(d, i - start + 1);
            }
            assert(binary_value(d) > u64::MAX);
            return None;
        }
        value = value * 2 + bit;
        i = i + 1;
    }
    assert(d.take(d.len() as int) =~= d);
    Some(value)
}

fn bytes_equal(a: &[u8], b: &[u8]) -> (r: bool)
    ensures
        r == (a@ == b@),
{
    if a.len() != b.len() {
        return false;
    }
    let mut i: usize = 0;
    while i < a.len()
        invariant
            a@.len() == b@.len(),
            i <= a@.len(),
            forall|k: int| 0 <= k < i ==> a@[k] == b@[k],
        decreases a.len() - i,
    {
        if a[i] != b[i] {
            return false;
        }
        i = i + 1;
    }
    assert(a@ =~= b@);
    true
}

/// What has been read so far of one register.
#[derive(Debug)]
pub struct Aarch64KvmRegisterInfo {
    pub name: Option<String>,
    pub op0: Option<u64>,
    pub op1: Option<u64>,
    pub crn: Option<u64>,
    pub crm: Option<u64>,
    pub op2: Option<u64>,
}

impl Aarch64KvmRegisterInfo {
    /// Nothing read yet.
    pub fn new() -> (r: Self)
        ensures
            r.name is None && r.op0 is None && r.op1 is None,
            r.crn is None && r.crm is None && r.op2 is None,
    {
        Aarch64KvmRegisterInfo { name: None, op0: None, op1: None, crn: None, crm: None, op2: None }
    }

    /// Records the register's short name.
    pub fn set_name(&mut self, name: String)
        ensures
            final(self).name == Some(name),
            final(self).op0 == old(self).op0 && final(self).op1 == old(self).op1,
            final(self).crn == old(self).crn && final(self).crm == old(self).crm,
            final(self).op2 == old(self).op2,
    {
        self.name = Some(name);
    }

    /// Records one encoding field, `field` being its name (`op0`, `op1`,
    /// `CRn`, `CRm` or `op2`) and `value` its binary literal. Returns false,
    /// recording nothing, where reading the description should stop: the
    /// field is none of the five, or the value is no binary literal.
    pub fn set_encoding(&mut self, field: &[u8], value: &[u8]) -> (r: bool)
        ensures
            r == (binary_literal(value@) is Some && encoding_field(field@) is Some),
            r ==> *final(self) == with_field(
                *old(self),
                encoding_field(field@)->0,
                binary_literal(value@)->0,
            ),
            !r ==> *final(self) == *old(self),
    {
        let op0: [u8; 3] = [111u8, 112u8, 48u8];
        let op1: [u8; 3] = [111u8, 112u8, 49u8];
        let op2: [u8; 3] = [111u8, 112u8, 50u8];
        let crn: [u8; 3] = [67u8, 82u8, 110u8];
        let crm: [u8; 3] = [67u8, 82u8, 109u8];
        let which = if bytes_equal(field, op0.as_slice()) {
            Some(EncodingField::Op0)
        } else if bytes_equal(field, op1.as_slice()) {
            Some(EncodingField::Op1)
        } else if bytes_equal(field, crn.as_slice()) {
            Some(EncodingField::Crn)
        } else if bytes_equal(field, crm.as_slice()) {
            Some(EncodingField::Crm)
        } else if bytes_equal(field, op2.as_slice()) {
            Some(EncodingField::Op2)
        } else {
            None
        };
        assert(which == encoding_field(field@)) by {
            assert(op0@ =~= ascii(seq!['o', 'p', '0']));
            assert(op1@ =~= ascii(seq!['o', 'p', '1']));
            assert(op2@ =~= ascii(seq!['o', 'p', '2']));
            assert(crn@ =~= ascii(seq!['C', 'R', 'n']));
            assert(crm@ =~= ascii(seq!['C', 'R', 'm']));
        }
        let parsed = parse_binary_literal(value);
        match (which, parsed) {
            (Some(f), Some(v)) => {
                match f {
                    EncodingField::Op0 => self.op0 = Some(v),
                    EncodingField::Op1 => self.op1 = Some(v),
                    EncodingField::Crn => self.crn = Some(v),
                    EncodingField::Crm => self.crm = Some(v),
                    EncodingField::Op2 => self.op2 = Some(v),
                }
                true
            },
            _ => false,
        }
    }
}

/// The five encoding fields of a system register.
#[derive(Clone, Copy, Debug, PartialEq, Eq, Structural)]
pub enum EncodingField {
    Op0,
    Op1,
    Crn,
    Crm,
    Op2,
}

/// The encoding field that a name stands for.
pub open spec fn encoding_field(name: Seq<u8>) -> Option<EncodingField> {
    if name == ascii(seq!['o', 'p', '0']) {
        Some(EncodingField::Op0)
    } else if name == ascii(seq!['o', 'p', '1']) {
        Some(EncodingField::Op1)
    } else if name == ascii(seq!['C', 'R', 'n']) {
        Some(EncodingField::Crn)
    } else if name == ascii(seq!['C', 'R', 'm']) {
        Some(EncodingField::Crm)
    } else if name == ascii(seq!['o', 'p', '2']) {
        Some(EncodingField::Op2)
    } else {
        None
    }
}

/// The record with one encoding field set.
pub open spec fn with_field(
    info: Aarch64KvmRegisterInfo,
    f: EncodingField,
    v: u64,
) -> Aarch64KvmRegisterInfo {
    match f {
        EncodingField::Op0 => Aarch64KvmRegisterInfo { op0: Some(v), ..info },
        EncodingField::Op1 => Aarch64KvmRegisterInfo { op1: Some(v), ..info },
        EncodingField::Crn => Aarch64KvmRegisterInfo { crn: Some(v), ..info },
        EncodingField::Crm => Aarch64KvmRegisterInfo { crm: Some(v), ..info },
        EncodingField::Op2 => Aarch64KvmRegisterInfo { op2: Some(v), ..info },
    }
}

/// All six parts of the register are known.
pub open spec fn is_complete(info: Aarch64KvmRegisterInfo) -> bool {
    info.name is Some && info.op0 is Some && info.op1 is Some && info.crn is Some && info.crm is Some
        && info.op2 is Some
}

impl Aarch64KvmRegister {
    /// The register that a complete record describes; `Err` where a part
    /// is missing.
    pub fn try_from_info(value: Aarch64KvmRegisterInfo) -> (r: Result<Self, ()>)
        ensures
            r is Ok <==> is_complete(value),
            r is Ok ==> r->Ok_0.name == value.name->0 && r->Ok_0.id == sysreg_id(
                value.op0->0,
                value.op1->0,
                value.crn->0,
                value.crm->0,
                value.op2->0,
            ),
    {
        match value {
            Aarch64KvmRegisterInfo {
                name: Some(name),
                op0: Some(op0),
                op1: Some(op1),
                crn: Some(crn),
                crm: Some(crm),
                op2: Some(op2),
            } => Ok(Self::new(name, op0, op1, crn, crm, op2)),
            _ => Err(()),
        }
    }
}

} // verus!
