//! The structures of the Linux KVM interface, declared `repr(C)` by
//! `kvm_bindings`, under the names that this crate gives to the records, and
//! conversions between them and this crate's records. A backend on a Unix
//! host hands these to the kernel; their byte layout is the kernel's own.

pub use kvm_bindings::kvm_cpuid2 as CpuId2;
pub use kvm_bindings::kvm_cpuid_entry2 as CpuIdEntry2;
pub use kvm_bindings::kvm_dtable as DescriptorTable;
pub use kvm_bindings::kvm_fpu as FpuState;
pub use kvm_bindings::kvm_lapic_state as LapicState;
pub use kvm_bindings::kvm_msr_entry as MsrEntry;
pub use kvm_bindings::kvm_msrs as MsrEntries;
pub use kvm_bindings::kvm_regs as StandardRegisters;
pub use kvm_bindings::kvm_segment as SegmentRegister;
pub use kvm_bindings::kvm_sregs as SpecialRegisters;

use crate::x86_64;
use vstd::prelude::*;

verus! {

/// Relies on `kvm_bindings::kvm_regs`: a `repr(C)` record of public fields, which
/// Verus reads from its definition.
#[verifier::external_type_specification]
pub struct ExKvmRegs(kvm_bindings::kvm_regs);

/// Relies on `kvm_bindings::kvm_segment`: a `repr(C)` record of public fields, which
/// Verus reads from its definition.
#[verifier::external_type_specification]
pub struct ExKvmSegment(kvm_bindings::kvm_segment);

/// Relies on `kvm_bindings::kvm_dtable`: a `repr(C)` record of public fields, which
/// Verus reads from its definition.
#[verifier::external_type_specification]
pub struct ExKvmDtable(kvm_bindings::kvm_dtable);

/// Relies on `kvm_bindings::kvm_sregs`: a `repr(C)` record of public fields, which
/// Verus reads from its definition.
#[verifier::external_type_specification]
pub struct ExKvmSregs(kvm_bindings::kvm_sregs);

/// Relies on `kvm_bindings::kvm_fpu`: a `repr(C)` record of public fields, which
/// Verus reads from its definition.
#[verifier::external_type_specification]
pub struct ExKvmFpu(kvm_bindings::kvm_fpu);

/// Relies on `kvm_bindings::kvm_msr_entry`: a `repr(C)` record of public fields, which
/// Verus reads from its definition.
#[verifier::external_type_specification]
pub struct ExKvmMsrEntry(kvm_bindings::kvm_msr_entry);

/// Relies on `kvm_bindings::kvm_cpuid_entry2`: a `repr(C)` record of public fields, which
/// Verus reads from its definition.
#[verifier::external_type_specification]
pub struct ExKvmCpuidEntry2(kvm_bindings::kvm_cpuid_entry2);

/// `r` and `k` hold the same values in every field.
pub open spec fn regs_matches(r: x86_64::StandardRegisters, k: StandardRegisters) -> bool {
    &&& r.rax == k.rax
    &&& r.rbx == k.rbx
    &&& r.rcx == k.rcx
    &&& r.rdx == k.rdx
    &&& r.rsi == k.rsi
    &&& r.rdi == k.rdi
    &&& r.rsp == k.rsp
    &&& r.rbp == k.rbp
    &&& r.r8 == k.r8
    &&& r.r9 == k.r9
    &&& r.r10 == k.r10
    &&& r.r11 == k.r11
    &&& r.r12 == k.r12
    &&& r.r13 == k.r13
    &&& r.r14 == k.r14
    &&& r.r15 == k.r15
    &&& r.rip == k.rip
    &&& r.rflags == k.rflags
}

/// Writes the general purpose registers, the instruction pointer and the flags in the kernel's
/// layout.
pub fn regs_to_kvm(r: &x86_64::StandardRegisters) -> (k: StandardRegisters)
    ensures
        regs_matches(*r, k),
{
    StandardRegisters {
        rax: r.rax,
        rbx: r.rbx,
        rcx: r.rcx,
        rdx: r.rdx,
        rsi: r.rsi,
        rdi: r.rdi,
        rsp: r.rsp,
        rbp: r.rbp,
        r8: r.r8,
        r9: r.r9,
        r10: r.r10,
        r11: r.r11,
        r12: r.r12,
        r13: r.r13,
        r14: r.r14,
        r15: r.r15,
        rip: r.rip,
        rflags: r.rflags,
    }
}

/// Reads the general purpose registers, the instruction pointer and the flags back from the
/// kernel's layout.
pub fn regs_from_kvm(k: &StandardRegisters) -> (r: x86_64::StandardRegisters)
    ensures
        regs_matches(r, *k),
{
    x86_64::StandardRegisters {
        rax: k.rax,
        rbx: k.rbx,
        rcx: k.rcx,
        rdx: k.rdx,
        rsi: k.rsi,
        rdi: k.rdi,
        rsp: k.rsp,
        rbp: k.rbp,
        r8: k.r8,
        r9: k.r9,
        r10: k.r10,
        r11: k.r11,
        r12: k.r12,
        r13: k.r13,
        r14: k.r14,
        r15: k.r15,
        rip: k.rip,
        rflags: k.rflags,
    }
}

/// `r` and `k` hold the same values in every field.
pub open spec fn segment_matches(r: x86_64::SegmentRegister, k: SegmentRegister) -> bool {
    &&& r.base == k.base
    &&& r.limit == k.limit
    &&& r.selector == k.selector
    &&& r.type_ == k.type_
    &&& r.present == k.present
    &&& r.dpl == k.dpl
    &&& r.db == k.db
    &&& r.s == k.s
    &&& r.l == k.l
    &&& r.g == k.g
    &&& r.avl == k.avl
    &&& r.unusable == k.unusable
    &&& r.padding == k.padding
}

/// Writes a segment register in the kernel's layout.
pub fn segment_to_kvm(r: &x86_64::SegmentRegister) -> (k: SegmentRegister)
    ensures
        segment_matches(*r, k),
{
    SegmentRegister {
        base: r.base,
        limit: r.limit,
        selector: r.selector,
        type_: r.type_,
        present: r.present,
        dpl: r.dpl,
        db: r.db,
        s: r.s,
        l: r.l,
        g: r.g,
        avl: r.avl,
        unusable: r.unusable,
        padding: r.padding,
    }
}

/// Reads a segment register back from the kernel's layout.
pub fn segment_from_kvm(k: &SegmentRegister) -> (r: x86_64::SegmentRegister)
    ensures
        segment_matches(r, *k),
{
    x86_64::SegmentRegister {
        base: k.base,
        limit: k.limit,
        selector: k.selector,
        type_: k.type_,
        present: k.present,
        dpl: k.dpl,
        db: k.db,
        s: k.s,
        l: k.l,
        g: k.g,
        avl: k.avl,
        unusable: k.unusable,
        padding: k.padding,
    }
}

/// `r` and `k` hold the same values in every field.
pub open spec fn dtable_matches(r: x86_64::DescriptorTable, k: DescriptorTable) -> bool {
    &&& r.base == k.base
    &&& r.limit == k.limit
    &&& r.padding == k.padding
}

/// Writes a descriptor table register in the kernel's layout.
pub fn dtable_to_kvm(r: &x86_64::DescriptorTable) -> (k: DescriptorTable)
    ensures
        dtable_matches(*r, k),
{
    DescriptorTable {
        base: r.base,
        limit: r.limit,
        padding: r.padding,
    }
}

/// Reads a descriptor table register back from the kernel's layout.
pub fn dtable_from_kvm(k: &DescriptorTable) -> (r: x86_64::DescriptorTable)
    ensures
        dtable_matches(r, *k),
{
    x86_64::DescriptorTable {
        base: k.base,
        limit: k.limit,
        padding: k.padding,
    }
}

/// `r` and `k` hold the same values in every field.
pub open spec fn sregs_matches(r: x86_64::SpecialRegisters, k: SpecialRegisters) -> bool {
    &&& segment_matches(r.cs, k.cs)
    &&& segment_matches(r.ds, k.ds)
    &&& segment_matches(r.es, k.es)
    &&& segment_matches(r.fs, k.fs)
    &&& segment_matches(r.gs, k.gs)
    &&& segment_matches(r.ss, k.ss)
    &&& segment_matches(r.tr, k.tr)
    &&& segment_matches(r.ldt, k.ldt)
    &&& dtable_matches(r.gdt, k.gdt)
    &&& dtable_matches(r.idt, k.idt)
    &&& r.cr0 == k.cr0
    &&& r.cr2 == k.cr2
    &&& r.cr3 == k.cr3
    &&& r.cr4 == k.cr4
    &&& r.cr8 == k.cr8
    &&& r.efer == k.efer
    &&& r.apic_base == k.apic_base
    &&& r.interrupt_bitmap == k.interrupt_bitmap
}

/// Writes the special registers in the kernel's layout.
pub fn sregs_to_kvm(r: &x86_64::SpecialRegisters) -> (k: SpecialRegisters)
    ensures
        sregs_matches(*r, k),
{
    SpecialRegisters {
        cs: segment_to_kvm(&r.cs),
        ds: segment_to_kvm(&r.ds),
        es: segment_to_kvm(&r.es),
        fs: segment_to_kvm(&r.fs),
        gs: segment_to_kvm(&r.gs),
        ss: segment_to_kvm(&r.ss),
        tr: segment_to_kvm(&r.tr),
        ldt: segment_to_kvm(&r.ldt),
        gdt: dtable_to_kvm(&r.gdt),
        idt: dtable_to_kvm(&r.idt),
        cr0: r.cr0,
        cr2: r.cr2,
        cr3: r.cr3,
        cr4: r.cr4,
        cr8: r.cr8,
        efer: r.efer,
        apic_base: r.apic_base,
        interrupt_bitmap: r.interrupt_bitmap,
    }
}

/// Reads the special registers back from the kernel's layout.
pub fn sregs_from_kvm(k: &SpecialRegisters) -> (r: x86_64::SpecialRegisters)
    ensures
        sregs_matches(r, *k),
{
    x86_64::SpecialRegisters {
        cs: segment_from_kvm(&k.cs),
        ds: segment_from_kvm(&k.ds),
        es: segment_from_kvm(&k.es),
        fs: segment_from_kvm(&k.fs),
        gs: segment_from_kvm(&k.gs),
        ss: segment_from_kvm(&k.ss),
        tr: segment_from_kvm(&k.tr),
        ldt: segment_from_kvm(&k.ldt),
        gdt: dtable_from_kvm(&k.gdt),
        idt: dtable_from_kvm(&k.idt),
        cr0: k.cr0,
        cr2: k.cr2,
        cr3: k.cr3,
        cr4: k.cr4,
        cr8: k.cr8,
        efer: k.efer,
        apic_base: k.apic_base,
        interrupt_bitmap: k.interrupt_bitmap,
    }
}

/// `r` and `k` hold the same values in every field.
pub open spec fn fpu_matches(r: x86_64::FpuState, k: FpuState) -> bool {
    &&& r.fpr == k.fpr
    &&& r.fcw == k.fcw
    &&& r.fsw == k.fsw
    &&& r.ftwx == k.ftwx
    &&& r.pad1 == k.pad1
    &&& r.last_opcode == k.last_opcode
    &&& r.last_ip == k.last_ip
    &&& r.last_dp == k.last_dp
    &&& r.xmm == k.xmm
    &&& r.mxcsr == k.mxcsr
    &&& r.pad2 == k.pad2
}

/// Writes the floating point state in the kernel's layout.
pub fn fpu_to_kvm(r: &x86_64::FpuState) -> (k: FpuState)
    ensures
        fpu_matches(*r, k),
{
    FpuState {
        fpr: r.fpr,
        fcw: r.fcw,
        fsw: r.fsw,
        ftwx: r.ftwx,
        pad1: r.pad1,
        last_opcode: r.last_opcode,
        last_ip: r.last_ip,
        last_dp: r.last_dp,
        xmm: r.xmm,
        mxcsr: r.mxcsr,
        pad2: r.pad2,
    }
}

/// Reads the floating point state back from the kernel's layout.
pub fn fpu_from_kvm(k: &FpuState) -> (r: x86_64::FpuState)
    ensures
        fpu_matches(r, *k),
{
    x86_64::FpuState {
        fpr: k.fpr,
        fcw: k.fcw,
        fsw: k.fsw,
        ftwx: k.ftwx,
        pad1: k.pad1,
        last_opcode: k.last_opcode,
        last_ip: k.last_ip,
        last_dp: k.last_dp,
        xmm: k.xmm,
        mxcsr: k.mxcsr,
        pad2: k.pad2,
    }
}

/// `r` and `k` hold the same values in every field.
pub open spec fn msr_entry_matches(r: x86_64::MsrEntry, k: MsrEntry) -> bool {
    &&& r.index == k.index
    &&& r.reserved == k.reserved
    &&& r.data == k.data
}

/// Writes one MSR in the kernel's layout.
pub fn msr_entry_to_kvm(r: &x86_64::MsrEntry) -> (k: MsrEntry)
    ensures
        msr_entry_matches(*r, k),
{
    MsrEntry {
        index: r.index,
        reserved: r.reserved,
        data: r.data,
    }
}

/// Reads one MSR back from the kernel's layout.
pub fn msr_entry_from_kvm(k: &MsrEntry) -> (r: x86_64::MsrEntry)
    ensures
        msr_entry_matches(r, *k),
{
    x86_64::MsrEntry {
        index: k.index,
        reserved: k.reserved,
        data: k.data,
    }
}

/// `r` and `k` hold the same values in every field.
pub open spec fn cpuid_entry_matches(r: x86_64::CpuIdEntry2, k: CpuIdEntry2) -> bool {
    &&& r.function == k.function
    &&& r.index == k.index
    &&& r.flags == k.flags
    &&& r.eax == k.eax
    &&& r.ebx == k.ebx
    &&& r.ecx == k.ecx
    &&& r.edx == k.edx
    &&& r.padding == k.padding
}

/// Writes one CPUID entry in the kernel's layout.
pub fn cpuid_entry_to_kvm(r: &x86_64::CpuIdEntry2) -> (k: CpuIdEntry2)
    ensures
        cpuid_entry_matches(*r, k),
{
    CpuIdEntry2 {
        function: r.function,
        index: r.index,
        flags: r.flags,
        eax: r.eax,
        ebx: r.ebx,
        ecx: r.ecx,
        edx: r.edx,
        padding: r.padding,
    }
}

/// Reads one CPUID entry back from the kernel's layout.
pub fn cpuid_entry_from_kvm(k: &CpuIdEntry2) -> (r: x86_64::CpuIdEntry2)
    ensures
        cpuid_entry_matches(r, *k),
{
    x86_64::CpuIdEntry2 {
        function: k.function,
        index: k.index,
        flags: k.flags,
        eax: k.eax,
        ebx: k.ebx,
        ecx: k.ecx,
        edx: k.edx,
        padding: k.padding,
    }
}

/// Writing the general purpose registers, the instruction pointer and the flags in the kernel's
/// layout and reading them back gives the
/// same record.
pub proof fn lemma_regs_round_trip(
    r: x86_64::StandardRegisters,
    k: StandardRegisters,
    back: x86_64::StandardRegisters,
)
    requires
        regs_matches(r, k),
        regs_matches(back, k),
    ensures
        back == r,
{}

/// Writing a segment register in the kernel's layout and reading them back gives the
/// same record.
pub proof fn lemma_segment_round_trip(
    r: x86_64::SegmentRegister,
    k: SegmentRegister,
    back: x86_64::SegmentRegister,
)
    requires
        segment_matches(r, k),
        segment_matches(back, k),
    ensures
        back == r,
{}

/// Writing a descriptor table register in the kernel's layout and reading them back gives the
/// same record.
pub proof fn lemma_dtable_round_trip(
    r: x86_64::DescriptorTable,
    k: DescriptorTable,
    back: x86_64::DescriptorTable,
)
    requires
        dtable_matches(r, k),
        dtable_matches(back, k),
    ensures
        back == r,
{}

/// Writing the special registers in the kernel's layout and reading them back gives the
/// same record.
pub proof fn lemma_sregs_round_trip(
    r: x86_64::SpecialRegisters,
    k: SpecialRegisters,
    back: x86_64::SpecialRegisters,
)
    requires
        sregs_matches(r, k),
        sregs_matches(back, k),
    ensures
        back == r,
{
    lemma_segment_round_trip(r.cs, k.cs, back.cs);
    lemma_segment_round_trip(r.ds, k.ds, back.ds);
    lemma_segment_round_trip(r.es, k.es, back.es);
    lemma_segment_round_trip(r.fs, k.fs, back.fs);
    lemma_segment_round_trip(r.gs, k.gs, back.gs);
    lemma_segment_round_trip(r.ss, k.ss, back.ss);
    lemma_segment_round_trip(r.tr, k.tr, back.tr);
    lemma_segment_round_trip(r.ldt, k.ldt, back.ldt);
    lemma_dtable_round_trip(r.gdt, k.gdt, back.gdt);
    lemma_dtable_round_trip(r.idt, k.idt, back.idt);
}

/// Writing the floating point state in the kernel's layout and reading them back gives the
/// same record.
pub proof fn lemma_fpu_round_trip(
    r: x86_64::FpuState,
    k: FpuState,
    back: x86_64::FpuState,
)
    requires
        fpu_matches(r, k),
        fpu_matches(back, k),
    ensures
        back == r,
{}

/// Writing one MSR in the kernel's layout and reading them back gives the
/// same record.
pub proof fn lemma_msr_entry_round_trip(
    r: x86_64::MsrEntry,
    k: MsrEntry,
    back: x86_64::MsrEntry,
)
    requires
        msr_entry_matches(r, k),
        msr_entry_matches(back, k),
    ensures
        back == r,
{}

/// Writing one CPUID entry in the kernel's layout and reading them back gives the
/// same record.
pub proof fn lemma_cpuid_entry_round_trip(
    r: x86_64::CpuIdEntry2,
    k: CpuIdEntry2,
    back: x86_64::CpuIdEntry2,
)
    requires
        cpuid_entry_matches(r, k),
        cpuid_entry_matches(back, k),
    ensures
        back == r,
{}

} // verus!
