//! The system registers that make a core a hypervisor's.

use tock_registers::fields::FieldValue;
use vstd::prelude::*;

verus! {

/// Fields of a system register: which bits they take, and the values there.
#[derive(Clone, Copy, PartialEq, Eq, Structural, Debug)]
pub struct RegFields {
    pub mask: u64,
    pub value: u64,
}

/// Values for the registers that [`init_sysregs`] sets.
#[derive(Clone, Copy, PartialEq, Eq, Structural, Debug)]
pub struct SysRegs {
    /// Hypervisor configuration.
    pub hcr_el2: u64,
    /// Address of the exception vectors.
    pub vbar_el2: u64,
    /// System control.
    pub sctlr_el2: u64,
}

/// `HCR_EL2.VM`: stage-2 translation.
pub const HCR_VM: u64 = 0;

/// `HCR_EL2.FMO`: physical FIQs come here, guests get virtual ones.
pub const HCR_FMO: u64 = 3;

/// `HCR_EL2.IMO`: physical IRQs come here, guests get virtual ones.
pub const HCR_IMO: u64 = 4;

/// `HCR_EL2.TSC`: secure monitor calls of guests are trapped.
pub const HCR_TSC: u64 = 19;

/// `HCR_EL2.RW`: guests are 64-bit.
pub const HCR_RW: u64 = 31;

/// `SCTLR_EL2.M`: address translation.
pub const SCTLR_M: u64 = 0;

/// `SCTLR_EL2.C`: data cache.
pub const SCTLR_C: u64 = 2;

/// `SCTLR_EL2.I`: instruction cache.
pub const SCTLR_I: u64 = 12;

/// [`FieldValue::new`] for a field of one bit that is to be set: the mask and
/// the value have that bit and no other.
#[verifier::external_body]
fn bit_set(offset: u64) -> (r: RegFields)
    requires
        offset < 64,
    ensures
        r.mask == 1u64 << offset,
        r.value == 1u64 << offset,
{
    let field = FieldValue::<u64, ()>::new(1, offset as usize, 1);
    RegFields { mask: field.mask(), value: field.value }
}

/// `+` on two [`FieldValue`]s: the bits of both, with the values of both. A
/// value has no bits outside its mask.
#[verifier::external_body]
fn join(a: RegFields, b: RegFields) -> (r: RegFields)
    ensures
        r.mask == a.mask | b.mask,
        r.value == (a.value & a.mask) | (b.value & b.mask),
{
    let left = FieldValue::<u64, ()>::new(a.mask, 0, a.value);
    let right = FieldValue::<u64, ()>::new(b.mask, 0, b.value);
    let field = left + right;
    RegFields { mask: field.mask(), value: field.value }
}

/// [`FieldValue::modify`]: the register's value with the fields replaced and
/// every other bit kept.
#[verifier::external_body]
fn modify(fields: RegFields, original: u64) -> (r: u64)
    ensures
        r == (original & !fields.mask) | (fields.value & fields.mask),
{
    FieldValue::<u64, ()>::new(fields.mask, 0, fields.value).modify(original)
}

/// Values for the system registers of a core: translation for guests is on,
/// their interrupts are virtual, they run 64-bit code and their secure monitor
/// calls are trapped; exceptions go to `vectors`; the core's own translation
/// and caches are on, and the rest of `sctlr`, the control register's present
/// value, stays.
pub fn init_sysregs(vectors: u64, sctlr: u64) -> (r: SysRegs)
    ensures
        r.hcr_el2 == (1u64 << HCR_VM) | (1u64 << HCR_RW) | (1u64 << HCR_IMO) | (1u64 << HCR_FMO)
            | (1u64 << HCR_TSC),
        r.hcr_el2 == 0x8008_0019,
        r.vbar_el2 == vectors,
        r.sctlr_el2 == sctlr | (1u64 << SCTLR_M) | (1u64 << SCTLR_C) | (1u64 << SCTLR_I),
        r.sctlr_el2 == sctlr | 0x1005,
{
    let hcr: RegFields = join(
        join(join(join(bit_set(HCR_VM), bit_set(HCR_RW)), bit_set(HCR_IMO)), bit_set(HCR_FMO)),
        bit_set(HCR_TSC),
    );
    let control: RegFields = join(join(bit_set(SCTLR_M), bit_set(SCTLR_C)), bit_set(SCTLR_I));
    let sctlr_el2: u64 = modify(control, sctlr);
    proof {
        let vm: u64 = 1u64 << HCR_VM;
        let rw: u64 = 1u64 << HCR_RW;
        let imo: u64 = 1u64 << HCR_IMO;
        let fmo: u64 = 1u64 << HCR_FMO;
        let tsc: u64 = 1u64 << HCR_TSC;
        assert((((vm & vm | rw & rw) & (vm | rw) | imo & imo) & (vm | rw | imo) | fmo & fmo) & (vm
            | rw | imo | fmo) | tsc & tsc == vm | rw | imo | fmo | tsc) by (bit_vector);
        assert((1u64 << 0u64) | (1u64 << 31u64) | (1u64 << 4u64) | (1u64 << 3u64) | (1u64 << 19u64)
            == 0x8008_0019) by (bit_vector);
        assert(sctlr | (1u64 << 0u64) | (1u64 << 2u64) | (1u64 << 12u64) == sctlr | 0x1005)
            by (bit_vector);
        let m: u64 = 1u64 << SCTLR_M;
        let c: u64 = 1u64 << SCTLR_C;
        let i: u64 = 1u64 << SCTLR_I;
        assert((sctlr & !(m | c | i)) | (((m & m | c & c) & (m | c) | i & i) & (m | c | i)) == sctlr
            | m | c | i) by (bit_vector);
    }
    SysRegs { hcr_el2: hcr.value, vbar_el2: vectors, sctlr_el2 }
}

} // verus!
