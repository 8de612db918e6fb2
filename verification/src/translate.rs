//! The Sv32 address translator: virtual address plus access type to a
//! 34-bit physical address, through a two-level page-table walk with
//! effective-privilege selection, permission checks, and A/D bit update.
use vstd::prelude::*;

verus! {

use crate::sys::System;
use crate::sys::control::{Control, MPriv, SatpMode};
use crate::sys::mem_map::{AccessAttr, AccessWidth, MemMap, MemTarget, spec_page_fault, page_fault};
use crate::trap::Exception;

pub use crate::sys::mem_map::AccessType;

/// A decoded Sv32 page-table entry.
#[derive(Debug, PartialEq, Eq, Structural, Clone, Copy)]
pub struct PageTableEntry {
    pub valid: bool,
    pub perm: Permission,
    pub user: bool,
    pub global: bool,
    pub access: bool,
    pub dirty: bool,
    pub rsw: u32,
    pub ppn: u32,
}

/// The legal R/W/X triples of a PTE; every other triple faults.
#[derive(Debug, PartialEq, Eq, Structural, Clone, Copy)]
pub enum Permission {
    NonLeaf,
    R,
    RW,
    X,
    RX,
    RWX,
}

/// The attribute of a page-table-entry read: the width of a PTE, carrying
/// the access type of the access being translated.
pub open spec fn pte_read_attr(atype: AccessType) -> AccessAttr {
    AccessAttr { atype, width: AccessWidth::Word, lrsc: false, amo: false }
}

/// The attribute of the A/D write-back.
pub open spec fn pte_store_attr() -> AccessAttr {
    AccessAttr { atype: AccessType::Store, width: AccessWidth::Word, lrsc: false, amo: false }
}

/// The privilege that data accesses translate under: MPP when MPRV is set
/// and the access is not a fetch, the current privilege otherwise.
pub open spec fn eff_priv_spec(c: Control, atype: AccessType) -> MPriv {
    if c.mprv && atype != AccessType::Instr {
        c.mpp
    } else {
        c.privilege
    }
}

impl Permission {
    pub open spec fn spec_from(code: u32) -> Option<Permission> {
        if code == 0 {
            Some(Permission::NonLeaf)
        } else if code == 1 {
            Some(Permission::R)
        } else if code == 3 {
            Some(Permission::RW)
        } else if code == 4 {
            Some(Permission::X)
        } else if code == 5 {
            Some(Permission::RX)
        } else if code == 7 {
            Some(Permission::RWX)
        } else {
            None
        }
    }

    #[verifier::when_used_as_spec(spec_from)]
    pub fn from(code: u32) -> (r: Option<Permission>)
        ensures
            r == Permission::spec_from(code),
    {
        if code == 0 {
            Some(Permission::NonLeaf)
        } else if code == 1 {
            Some(Permission::R)
        } else if code == 3 {
            Some(Permission::RW)
        } else if code == 4 {
            Some(Permission::X)
        } else if code == 5 {
            Some(Permission::RX)
        } else if code == 7 {
            Some(Permission::RWX)
        } else {
            None
        }
    }

    pub open spec fn spec_to_int(&self) -> u32 {
        match self {
            Permission::NonLeaf => 0,
            Permission::R => 1,
            Permission::RW => 3,
            Permission::X => 4,
            Permission::RX => 5,
            Permission::RWX => 7,
        }
    }

    #[verifier::when_used_as_spec(spec_to_int)]
    pub fn to_int(&self) -> (r: u32)
        ensures
            r == self.spec_to_int(),
    {
        match self {
            Permission::NonLeaf => 0,
            Permission::R => 1,
            Permission::RW => 3,
            Permission::X => 4,
            Permission::RX => 5,
            Permission::RWX => 7,
        }
    }

    pub open spec fn spec_can_read(&self) -> bool {
        *self == Permission::R || *self == Permission::RW || *self == Permission::RX || *self
            == Permission::RWX
    }

    #[verifier::when_used_as_spec(spec_can_read)]
    pub fn can_read(&self) -> (r: bool)
        ensures
            r == self.spec_can_read(),
    {
        match self {
            Permission::R | Permission::RW | Permission::RX | Permission::RWX => true,
            _ => false,
        }
    }

    pub open spec fn spec_can_write(&self) -> bool {
        *self == Permission::RW || *self == Permission::RWX
    }

    #[verifier::when_used_as_spec(spec_can_write)]
    pub fn can_write(&self) -> (r: bool)
        ensures
            r == self.spec_can_write(),
    {
        match self {
            Permission::RW | Permission::RWX => true,
            _ => false,
        }
    }

    pub open spec fn spec_can_exec(&self) -> bool {
        *self == Permission::X || *self == Permission::RX || *self == Permission::RWX
    }

    #[verifier::when_used_as_spec(spec_can_exec)]
    pub fn can_exec(&self) -> (r: bool)
        ensures
            r == self.spec_can_exec(),
    {
        match self {
            Permission::X | Permission::RX | Permission::RWX => true,
            _ => false,
        }
    }
}

impl PageTableEntry {
    /// The fields of a raw 32-bit entry; nothing when the permission triple
    /// is not a legal encoding.
    pub open spec fn spec_from(code: u32) -> Option<PageTableEntry> {
        match Permission::spec_from((code / 2) % 8) {
            None => None,
            Some(perm) => Some(
                PageTableEntry {
                    valid: code % 2 == 1,
                    perm,
                    user: (code / 0x10) % 2 == 1,
                    global: (code / 0x20) % 2 == 1,
                    access: (code / 0x40) % 2 == 1,
                    dirty: (code / 0x80) % 2 == 1,
                    rsw: ((code / 0x100) % 4) as u32,
                    ppn: (code / 0x400) as u32,
                },
            ),
        }
    }

    #[verifier::when_used_as_spec(spec_from)]
    pub fn from(code: u32) -> (r: Option<PageTableEntry>)
        ensures
            r == PageTableEntry::spec_from(code),
    {
        match Permission::from((code / 2) % 8) {
            None => None,
            Some(perm) => Some(
                PageTableEntry {
                    valid: code % 2 == 1,
                    perm,
                    user: (code / 0x10) % 2 == 1,
                    global: (code / 0x20) % 2 == 1,
                    access: (code / 0x40) % 2 == 1,
                    dirty: (code / 0x80) % 2 == 1,
                    rsw: (code / 0x100) % 4,
                    ppn: code / 0x400,
                },
            ),
        }
    }

    pub open spec fn spec_to_int(&self) -> u32
        recommends
            self.rsw < 4,
            self.ppn < 0x40_0000,
    {
        ((if self.valid {
            1u32
        } else {
            0u32
        }) + self.perm.spec_to_int() * 2 + (if self.user {
            0x10u32
        } else {
            0u32
        }) + (if self.global {
            0x20u32
        } else {
            0u32
        }) + (if self.access {
            0x40u32
        } else {
            0u32
        }) + (if self.dirty {
            0x80u32
        } else {
            0u32
        }) + self.rsw * 0x100 + self.ppn * 0x400) as u32
    }

    #[verifier::when_used_as_spec(spec_to_int)]
    pub fn to_int(&self) -> (r: u32)
        requires
            self.rsw < 4,
            self.ppn < 0x40_0000,
        ensures
            r == self.spec_to_int(),
    {
        (if self.valid {
            1u32
        } else {
            0u32
        }) + self.perm.to_int() * 2 + (if self.user {
            0x10u32
        } else {
            0u32
        }) + (if self.global {
            0x20u32
        } else {
            0u32
        }) + (if self.access {
            0x40u32
        } else {
            0u32
        }) + (if self.dirty {
            0x80u32
        } else {
            0u32
        }) + self.rsw * 0x100 + self.ppn * 0x400
    }

    /// A decoded entry re-encodes to the word it came from.
    pub proof fn lemma_roundtrip(code: u32)
        requires
            PageTableEntry::spec_from(code) is Some,
        ensures
            PageTableEntry::spec_from(code).unwrap().spec_to_int() == code,
            PageTableEntry::spec_from(code).unwrap().rsw < 4,
            PageTableEntry::spec_from(code).unwrap().ppn < 0x40_0000,
    {
        let p = PageTableEntry::spec_from(code).unwrap();
        lemma_field_split(code);
        assert(p.perm.spec_to_int() == (code / 2) % 8);
        assert((if p.valid {
            1u32
        } else {
            0u32
        }) == code % 2);
    }

    /// An encoded entry with small fields decodes back to itself.
    pub proof fn lemma_encode_decode(p: PageTableEntry)
        requires
            p.rsw < 4,
            p.ppn < 0x40_0000,
        ensures
            PageTableEntry::spec_from(p.spec_to_int()) == Some(p),
    {
        let v: u32 = if p.valid {
            1
        } else {
            0
        };
        let u: u32 = if p.user {
            1
        } else {
            0
        };
        let g: u32 = if p.global {
            1
        } else {
            0
        };
        let a: u32 = if p.access {
            1
        } else {
            0
        };
        let d: u32 = if p.dirty {
            1
        } else {
            0
        };
        lemma_field_join(v, p.perm.spec_to_int(), u, g, a, d, p.rsw, p.ppn);
        let code = p.spec_to_int();
        assert(Permission::spec_from((code / 2) % 8) == Some(p.perm));
    }
}

/// The little-field decomposition of a 32-bit word recomposes to the word.
proof fn lemma_field_split(code: u32)
    ensures
        code % 2 < 2,
        (code / 2) % 8 < 8,
        (code / 0x10) % 2 < 2,
        (code / 0x20) % 2 < 2,
        (code / 0x40) % 2 < 2,
        (code / 0x80) % 2 < 2,
        (code / 0x100) % 4 < 4,
        code / 0x400 < 0x40_0000,
        code % 2 + ((code / 2) % 8) * 2 + ((code / 0x10) % 2) * 0x10 + ((code / 0x20) % 2) * 0x20
            + ((code / 0x40) % 2) * 0x40 + ((code / 0x80) % 2) * 0x80 + ((code / 0x100) % 4)
            * 0x100 + (code / 0x400) * 0x400 == code,
{
    assert(code % 2 < 2 && (code / 2) % 8 < 8 && (code / 0x10) % 2 < 2 && (code / 0x20) % 2 < 2
        && (code / 0x40) % 2 < 2 && (code / 0x80) % 2 < 2 && (code / 0x100) % 4 < 4 && code
        / 0x400 < 0x40_0000) by (bit_vector);
    assert(vstd::prelude::add(
        vstd::prelude::add(
            vstd::prelude::add(
                vstd::prelude::add(
                    vstd::prelude::add(
                        vstd::prelude::add(
                            vstd::prelude::add(
                                code % 2,
                                vstd::prelude::mul((code / 2) % 8, 2),
                            ),
                            vstd::prelude::mul((code / 0x10) % 2, 0x10),
                        ),
                        vstd::prelude::mul((code / 0x20) % 2, 0x20),
                    ),
                    vstd::prelude::mul((code / 0x40) % 2, 0x40),
                ),
                vstd::prelude::mul((code / 0x80) % 2, 0x80),
            ),
            vstd::prelude::mul((code / 0x100) % 4, 0x100),
        ),
        vstd::prelude::mul(code / 0x400, 0x400),
    ) == code) by (bit_vector);
}

/// Joining small fields and taking them back out yields the fields.
proof fn lemma_field_join(v: u32, pm: u32, u: u32, g: u32, a: u32, d: u32, rsw: u32, ppn: u32)
    requires
        v < 2,
        pm < 8,
        u < 2,
        g < 2,
        a < 2,
        d < 2,
        rsw < 4,
        ppn < 0x40_0000,
    ensures
        ({
            let code = (v + pm * 2 + u * 0x10 + g * 0x20 + a * 0x40 + d * 0x80 + rsw * 0x100 + ppn
                * 0x400) as u32;
            &&& code % 2 == v
            &&& (code / 2) % 8 == pm
            &&& (code / 0x10) % 2 == u
            &&& (code / 0x20) % 2 == g
            &&& (code / 0x40) % 2 == a
            &&& (code / 0x80) % 2 == d
            &&& (code / 0x100) % 4 == rsw
            &&& code / 0x400 == ppn
        }),
{
    assert(({
        let code = vstd::prelude::add(
            vstd::prelude::add(
                vstd::prelude::add(
                    vstd::prelude::add(
                        vstd::prelude::add(
                            vstd::prelude::add(
                                vstd::prelude::add(v, vstd::prelude::mul(pm, 2)),
                                vstd::prelude::mul(u, 0x10),
                            ),
                            vstd::prelude::mul(g, 0x20),
                        ),
                        vstd::prelude::mul(a, 0x40),
                    ),
                    vstd::prelude::mul(d, 0x80),
                ),
                vstd::prelude::mul(rsw, 0x100),
            ),
            vstd::prelude::mul(ppn, 0x400),
        );
        &&& code % 2 == v
        &&& (code / 2) % 8 == pm
        &&& (code / 0x10) % 2 == u
        &&& (code / 0x20) % 2 == g
        &&& (code / 0x40) % 2 == a
        &&& (code / 0x80) % 2 == d
        &&& (code / 0x100) % 4 == rsw
        &&& code / 0x400 == ppn
    })) by (bit_vector)
        requires
            v < 2,
            pm < 8,
            u < 2,
            g < 2,
            a < 2,
            d < 2,
            rsw < 4,
            ppn < 0x40_0000,
    ;
}

/// Whether a successful translation must set the A bit (and D on a store).
pub open spec fn ad_update_needed(pte: PageTableEntry, atype: AccessType) -> bool {
    !pte.access || (atype == AccessType::Store && !pte.dirty)
}

/// The entry after the A/D update of this access.
pub open spec fn pte_with_ad(pte: PageTableEntry, atype: AccessType) -> PageTableEntry {
    PageTableEntry {
        access: true,
        dirty: pte.dirty || atype == AccessType::Store,
        ..pte
    }
}

/// The physical address a leaf maps `addr` to: for a superpage the low 22
/// bits come from the address, for a 4 KiB page the low 12.
pub open spec fn pa_of(pte: PageTableEntry, addr: u32, superpage: bool) -> u64 {
    if superpage {
        ((pte.ppn / 0x400) * 0x40_0000 + (addr % 0x40_0000)) as u64
    } else {
        (pte.ppn * 0x1000 + (addr % 0x1000)) as u64
    }
}

/// The permission checks of §Sv32 against the leaf and the control state:
/// fetches need X; loads need R, or X under MXR; stores need W; U pages are
/// closed to fetch-from-S and to S data access without SUM, S pages to U.
pub open spec fn perm_ok(c: Control, pte: PageTableEntry, atype: AccessType) -> bool {
    &&& match atype {
        AccessType::Instr => pte.perm.spec_can_exec(),
        AccessType::Load => pte.perm.spec_can_read() || (c.mxr && pte.perm.spec_can_exec()),
        AccessType::Store => pte.perm.spec_can_write(),
    }
    &&& !(!pte.user && eff_priv_spec(c, atype) == MPriv::U)
    &&& !(!c.sum && pte.user && eff_priv_spec(c, atype) == MPriv::S)
}

/// What handling a leaf entry yields: the translation result and, when the
/// A/D update writes the entry back, the performed write.
pub open spec fn process_page_spec(
    c: Control,
    m: MemMap,
    pte: PageTableEntry,
    pte_addr: u64,
    addr: u32,
    atype: AccessType,
    superpage: bool,
) -> (Result<u64, Exception>, Option<(u64, u32)>) {
    if !perm_ok(c, pte, atype) {
        (Err(spec_page_fault(atype)), None)
    } else if superpage && pte.ppn % 0x400 != 0 {
        (Err(spec_page_fault(atype)), None)
    } else if ad_update_needed(pte, atype) {
        let w = pte_with_ad(pte, atype).spec_to_int();
        match m.target_of(pte_addr, pte_store_attr()) {
            Err(_) => (Err(spec_page_fault(atype)), None),
            Ok(_) => (Ok(pa_of(pte, addr, superpage)), Some((pte_addr, w))),
        }
    } else {
        (Ok(pa_of(pte, addr, superpage)), None)
    }
}

/// The whole translation as a function of the control state and the memory:
/// identity in M mode or under Bare, otherwise the two-level walk. The
/// second component is the A/D write-back that a successful walk performs.
pub open spec fn translate_spec(c: Control, m: MemMap, addr: u32, atype: AccessType) -> (
    Result<u64, Exception>,
    Option<(u64, u32)>,
) {
    if eff_priv_spec(c, atype) == MPriv::M || c.satp_mode == SatpMode::Bare {
        (Ok(addr as u64), None)
    } else {
        let vpn1 = (addr / 0x40_0000) % 0x400;
        let vpn0 = ((addr / 0x1000) % 0x400) as u32;
        let pte1_addr = (c.satp_ppn * 0x1000 + vpn1 * 4) as u64;
        match m.read_word_val(pte1_addr, pte_read_attr(atype)) {
            Err(_) => (Err(spec_page_fault(atype)), None),
            Ok(w1) => match PageTableEntry::spec_from(w1) {
                None => (Err(spec_page_fault(atype)), None),
                Some(pte1) => {
                    if !pte1.valid {
                        (Err(spec_page_fault(atype)), None)
                    } else if pte1.perm != Permission::NonLeaf {
                        process_page_spec(c, m, pte1, pte1_addr, addr, atype, true)
                    } else {
                        let pte0_addr = (pte1.ppn * 0x1000 + vpn0 * 4) as u64;
                        match m.read_word_val(pte0_addr, pte_read_attr(atype)) {
                            Err(_) => (Err(spec_page_fault(atype)), None),
                            Ok(w0) => match PageTableEntry::spec_from(w0) {
                                None => (Err(spec_page_fault(atype)), None),
                                Some(pte0) => {
                                    if !pte0.valid || pte0.perm == Permission::NonLeaf {
                                        (Err(spec_page_fault(atype)), None)
                                    } else {
                                        process_page_spec(
                                            c,
                                            m,
                                            pte0,
                                            pte0_addr,
                                            addr,
                                            atype,
                                            false,
                                        )
                                    }
                                }
                            },
                        }
                    }
                }
            },
        }
    }
}

fn effective_privilege(sys: &System, access_type: AccessType) -> (r: MPriv)
    ensures
        r == eff_priv_spec(sys.ctrl, access_type),
{
    if sys.ctrl.mprv && access_type != AccessType::Instr {
        sys.ctrl.mpp
    } else {
        sys.ctrl.privilege
    }
}

/// Translate a virtual address for the given access; on success the result
/// is the physical address, and the only state change is the A/D write-back
/// when one is due.
pub fn translate(sys: &mut System, addr: u32, access_type: AccessType) -> (r: Result<
    u64,
    Exception,
>)
    requires
        old(sys).wf(),
    ensures
        final(sys).wf(),
        r == translate_spec(old(sys).ctrl, old(sys).mem, addr, access_type).0,
        final(sys).state == old(sys).state,
        final(sys).ctrl == old(sys).ctrl,
        final(sys).code == old(sys).code,
        match translate_spec(old(sys).ctrl, old(sys).mem, addr, access_type).1 {
            None => final(sys).mem == old(sys).mem,
            Some((a, w)) => MemMap::write_u32_post(
                old(sys).mem,
                final(sys).mem,
                a,
                w,
                pte_store_attr(),
                Ok::<(), Exception>(()),
            ),
        },
{
    let eff_priv = effective_privilege(sys, access_type);

    // No translation in M-mode or with paging off
    if eff_priv == MPriv::M || sys.ctrl.satp_mode == SatpMode::Bare {
        return Ok(addr as u64);
    }
    let rattr = AccessAttr {
        atype: access_type,
        width: AccessWidth::Word,
        lrsc: false,
        amo: false,
    };

    // First-level entry
    let vpn1: u32 = (addr / 0x40_0000) % 0x400;
    let vpn0: u32 = (addr / 0x1000) % 0x400;
    let pte1_addr: u64 = (sys.ctrl.satp_ppn as u64) * 0x1000 + (vpn1 as u64) * 4;
    let w1 = match sys.mem.read_u32(pte1_addr, rattr) {
        Ok(w) => w,
        Err(_) => {
            return Err(page_fault(access_type));
        }
    };
    let pte1 = match PageTableEntry::from(w1) {
        Some(p) => p,
        None => {
            return Err(page_fault(access_type));
        }
    };
    if !pte1.valid {
        return Err(page_fault(access_type));
    }
    if pte1.perm != Permission::NonLeaf {
        return process_page(sys, pte1, pte1_addr, addr, access_type, true);
    }

    // Second-level entry
    let pte0_addr: u64 = (pte1.ppn as u64) * 0x1000 + (vpn0 as u64) * 4;
    let w0 = match sys.mem.read_u32(pte0_addr, rattr) {
        Ok(w) => w,
        Err(_) => {
            return Err(page_fault(access_type));
        }
    };
    let pte0 = match PageTableEntry::from(w0) {
        Some(p) => p,
        None => {
            return Err(page_fault(access_type));
        }
    };
    if !pte0.valid || pte0.perm == Permission::NonLeaf {
        return Err(page_fault(access_type));
    }
    process_page(sys, pte0, pte0_addr, addr, access_type, false)
}

/// Handle a leaf entry: permission and alignment checks, the A/D update
/// with its write-back, and the composition of the physical address.
pub fn process_page(
    sys: &mut System,
    pte: PageTableEntry,
    pte_addr: u64,
    addr: u32,
    access_type: AccessType,
    superpage: bool,
) -> (r: Result<u64, Exception>)
    requires
        old(sys).wf(),
        pte.rsw < 4,
        pte.ppn < 0x40_0000,
    ensures
        final(sys).wf(),
        r == process_page_spec(
            old(sys).ctrl,
            old(sys).mem,
            pte,
            pte_addr,
            addr,
            access_type,
            superpage,
        ).0,
        final(sys).state == old(sys).state,
        final(sys).ctrl == old(sys).ctrl,
        final(sys).code == old(sys).code,
        match process_page_spec(
            old(sys).ctrl,
            old(sys).mem,
            pte,
            pte_addr,
            addr,
            access_type,
            superpage,
        ).1 {
            None => final(sys).mem == old(sys).mem,
            Some((a, w)) => MemMap::write_u32_post(
                old(sys).mem,
                final(sys).mem,
                a,
                w,
                pte_store_attr(),
                Ok::<(), Exception>(()),
            ),
        },
{
    // Check permission
    let allowed = match access_type {
        AccessType::Instr => pte.perm.can_exec(),
        AccessType::Load => pte.perm.can_read() || sys.ctrl.mxr && pte.perm.can_exec(),
        AccessType::Store => pte.perm.can_write(),
    };
    let eff_priv = effective_privilege(sys, access_type);
    // A user page is closed to nobody but its owner without SUM; a
    // supervisor page is closed to user code.
    let priv_ok = !(!pte.user && eff_priv == MPriv::U) && !(!sys.ctrl.sum && pte.user && eff_priv
        == MPriv::S);
    if !allowed || !priv_ok {
        return Err(page_fault(access_type));
    }

    // Check for a misaligned superpage
    if superpage && pte.ppn % 0x400 != 0 {
        return Err(page_fault(access_type));
    }

    // Update the A bit, and the D bit on a store
    if !pte.access || (access_type == AccessType::Store && !pte.dirty) {
        let new_pte = PageTableEntry {
            access: true,
            dirty: pte.dirty || access_type == AccessType::Store,
            ..pte
        };
        let wattr = AccessAttr {
            atype: AccessType::Store,
            width: AccessWidth::Word,
            lrsc: false,
            amo: false,
        };
        match sys.mem.write_u32(pte_addr, new_pte.to_int(), wattr) {
            Ok(()) => {}
            Err(_) => {
                return Err(page_fault(access_type));
            }
        }
    }

    // The translation is successful
    if superpage {
        Ok((pte.ppn as u64 / 0x400) * 0x40_0000 + (addr as u64) % 0x40_0000)
    } else {
        Ok((pte.ppn as u64) * 0x1000 + (addr as u64) % 0x1000)
    }
}


/// A/D update idempotence: after a successful translation, repeating the
/// same access yields the same physical address and touches no PTE memory —
/// the repeated walk performs no write-back at all.
pub proof fn lemma_translate_idempotent(c: Control, m0: MemMap, m1: MemMap, addr: u32, atype: AccessType)
    requires
        m0.wf(),
        translate_spec(c, m0, addr, atype).0 is Ok,
        match translate_spec(c, m0, addr, atype).1 {
            None => m1 == m0,
            Some((a, w)) => MemMap::write_u32_post(
                m0,
                m1,
                a,
                w,
                pte_store_attr(),
                Ok::<(), Exception>(()),
            ),
        },
    ensures
        translate_spec(c, m1, addr, atype).0 == translate_spec(c, m0, addr, atype).0,
        translate_spec(c, m1, addr, atype).1 is None,
{
    let t0 = translate_spec(c, m0, addr, atype);
    if eff_priv_spec(c, atype) == MPriv::M || c.satp_mode == SatpMode::Bare {
    } else {
        let vpn1 = (addr / 0x40_0000) % 0x400;
        let vpn0 = ((addr / 0x1000) % 0x400) as u32;
        let pte1_addr = (c.satp_ppn * 0x1000 + vpn1 * 4) as u64;
        let w1 = m0.read_word_val(pte1_addr, pte_read_attr(atype)).unwrap();
        let pte1 = PageTableEntry::spec_from(w1).unwrap();
        PageTableEntry::lemma_roundtrip(w1);
        if pte1.perm != Permission::NonLeaf {
            // A superpage leaf at level one
            if ad_update_needed(pte1, atype) {
                let wnew = pte_with_ad(pte1, atype).spec_to_int();
                PageTableEntry::lemma_encode_decode(pte_with_ad(pte1, atype));
                lemma_reread_written_word(m0, m1, pte1_addr, wnew, atype);
                assert(m1.read_word_val(pte1_addr, pte_read_attr(atype)) == Ok::<
                    u32,
                    Exception,
                >(wnew));
            } else {
                lemma_read_same(m0, m1, pte1_addr, atype);
            }
        } else {
            let pte0_addr = (pte1.ppn * 0x1000 + vpn0 * 4) as u64;
            let w0 = m0.read_word_val(pte0_addr, pte_read_attr(atype)).unwrap();
            let pte0 = PageTableEntry::spec_from(w0).unwrap();
            PageTableEntry::lemma_roundtrip(w0);
            if ad_update_needed(pte0, atype) {
                let wnew = pte_with_ad(pte0, atype).spec_to_int();
                PageTableEntry::lemma_encode_decode(pte_with_ad(pte0, atype));
                // The two entries sit at distinct word-aligned addresses:
                // were they the same word, the level-one entry would equal
                // the level-zero leaf and could not be a pointer.
                if pte0_addr == pte1_addr {
                    assert(w0 == w1);
                    assert(false);
                }
                lemma_reread_written_word(m0, m1, pte0_addr, wnew, atype);
                lemma_read_other_word(m0, m1, pte0_addr, wnew, pte1_addr, atype);
                assert(m1.read_word_val(pte1_addr, pte_read_attr(atype)) == m0.read_word_val(
                    pte1_addr,
                    pte_read_attr(atype),
                ));
                assert(m1.read_word_val(pte0_addr, pte_read_attr(atype)) == Ok::<
                    u32,
                    Exception,
                >(wnew));
            } else {
                lemma_read_same(m0, m1, pte1_addr, atype);
                lemma_read_same(m0, m1, pte0_addr, atype);
            }
        }
    }
}

/// With no write-back the two memories are equal, so every read agrees.
proof fn lemma_read_same(m0: MemMap, m1: MemMap, a: u64, atype: AccessType)
    requires
        m1 == m0,
    ensures
        m1.read_word_val(a, pte_read_attr(atype)) == m0.read_word_val(a, pte_read_attr(atype)),
{
}

/// Reading back the word that the A/D write-back stored yields the stored
/// word, whichever region took it.
proof fn lemma_reread_written_word(m0: MemMap, m1: MemMap, a: u64, w: u32, atype: AccessType)
    requires
        m0.wf(),
        MemMap::write_u32_post(m0, m1, a, w, pte_store_attr(), Ok::<(), Exception>(())),
        m0.read_word_val(a, pte_read_attr(atype)) is Ok,
    ensures
        m1.read_word_val(a, pte_read_attr(atype)) == Ok::<u32, Exception>(w),
{
    crate::arith::lemma_le32_roundtrip(w);
    match m0.target_of(a, pte_store_attr()) {
        Ok(crate::sys::mem_map::MemTarget::Time(off)) => {
            crate::sys::mem_map::timer::lemma_set_get_half(m0.timer.time, off, w);
        }
        Ok(crate::sys::mem_map::MemTarget::TimeCmp(off)) => {
            crate::sys::mem_map::timer::lemma_set_get_half(m0.timer.timecmp, off, w);
        }
        _ => {}
    }
}

/// The write-back touches only its own word: a read of a different
/// word-aligned address is unchanged.
proof fn lemma_read_other_word(
    m0: MemMap,
    m1: MemMap,
    a: u64,
    w: u32,
    b: u64,
    atype: AccessType,
)
    requires
        m0.wf(),
        MemMap::write_u32_post(m0, m1, a, w, pte_store_attr(), Ok::<(), Exception>(())),
        a != b,
        a % 4 == 0,
        b % 4 == 0,
        m0.read_word_val(b, pte_read_attr(atype)) is Ok,
    ensures
        m1.read_word_val(b, pte_read_attr(atype)) == m0.read_word_val(b, pte_read_attr(atype)),
{
    assert(b + 1 != a && b + 2 != a && b + 3 != a && a + 1 != b && a + 2 != b && a + 3 != b)
        by (nonlinear_arith)
        requires
            a != b && a % 4 == 0 && b % 4 == 0,
    ;
}

} // verus!
