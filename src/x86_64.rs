use vstd::prelude::*;

/// The CPUID entry container and the allocation it rests on.
pub mod cpuid;

pub use self::cpuid::{
    vec_with_array_field, vec_with_size_in_bytes, CpuId, MAX_CPUID_ENTRIES,
};

verus! {

/// Standard registers: the general purpose registers, the instruction pointer
/// and the flags.
#[derive(Debug, Default, Clone, Copy, PartialEq, Eq, Structural)]
pub struct StandardRegisters {
    /// RAX general purpose register
    pub rax: u64,
    /// RBX general purpose register
    pub rbx: u64,
    /// RCX general purpose register
    pub rcx: u64,
    /// RDX general purpose register
    pub rdx: u64,
    /// Source index general purpose register
    pub rsi: u64,
    /// Destination index general purpose register
    pub rdi: u64,
    /// Stack pointer register
    pub rsp: u64,
    /// Base pointer register
    pub rbp: u64,
    /// R8 general purpose register
    pub r8: u64,
    /// R9 general purpose register
    pub r9: u64,
    /// R10 general purpose register
    pub r10: u64,
    /// R11 general purpose register
    pub r11: u64,
    /// R12 general purpose register
    pub r12: u64,
    /// R13 general purpose register
    pub r13: u64,
    /// R14 general purpose register
    pub r14: u64,
    /// R15 general purpose register
    pub r15: u64,
    /// Instruction pointer register
    pub rip: u64,
    /// RFLAGS register
    pub rflags: u64,
}

/// Segment register (used for CS, DS, ES, FS, GS, SS, TR and LDT).
#[derive(Debug, Default, Clone, Copy, PartialEq, Eq, Structural)]
pub struct SegmentRegister {
    /// Starting memory address of the segment
    pub base: u64,
    /// Length of the segment
    pub limit: u32,
    /// Offset of a descriptor table entry
    pub selector: u16,
    /// Segment type
    pub type_: u8,
    /// Present
    pub present: u8,
    /// Descriptor privilege level
    pub dpl: u8,
    /// Default operation size (0 when `l` is set)
    pub db: u8,
    /// System-segment field
    pub s: u8,
    /// Long mode field
    pub l: u8,
    /// Granularity field
    pub g: u8,
    /// Available for use by system software
    pub avl: u8,
    /// Unusable
    pub unusable: u8,
    /// Padding
    pub padding: u8,
}

/// Descriptor table register (GDT, IDT).
#[derive(Debug, Default, Clone, Copy, PartialEq, Eq)]
pub struct DescriptorTable {
    /// Base address
    pub base: u64,
    /// Limit (size of the table in bytes)
    pub limit: u16,
    /// Padding
    pub padding: [u16; 3],
}

/// Special registers: segment, task, descriptor table, control and additional
/// registers, and the bitmap of pending interrupts.
#[derive(Debug, Default, Clone, Copy, PartialEq, Eq)]
pub struct SpecialRegisters {
    /// Code segment register
    pub cs: SegmentRegister,
    /// Data segment register
    pub ds: SegmentRegister,
    /// Extra segment register
    pub es: SegmentRegister,
    /// Additional segment register
    pub fs: SegmentRegister,
    /// Additional segment register
    pub gs: SegmentRegister,
    /// Stack segment register
    pub ss: SegmentRegister,
    /// Task register
    pub tr: SegmentRegister,
    /// Local descriptor table register
    pub ldt: SegmentRegister,
    /// Global descriptor table register
    pub gdt: DescriptorTable,
    /// Interrupt descriptor table register
    pub idt: DescriptorTable,
    /// Control register 0
    pub cr0: u64,
    /// Control register 2
    pub cr2: u64,
    /// Control register 3
    pub cr3: u64,
    /// Control register 4
    pub cr4: u64,
    /// Control register 8
    pub cr8: u64,
    /// Extended feature enable register
    pub efer: u64,
    /// APIC base register
    pub apic_base: u64,
    /// Bitmap of pending external interrupts
    pub interrupt_bitmap: [u64; 4],
}

/// Floating point unit state.
#[derive(Debug, Default, Clone, Copy, PartialEq, Eq)]
pub struct FpuState {
    /// Floating point (MMX) registers 0-7
    pub fpr: [[u8; 16]; 8],
    /// Floating point control register
    pub fcw: u16,
    /// Floating point status register
    pub fsw: u16,
    /// Floating point tag register
    pub ftwx: u8,
    /// Padding
    pub pad1: u8,
    /// Exception state: last opcode
    pub last_opcode: u16,
    /// Exception state: last instruction pointer
    pub last_ip: u64,
    /// Exception state: last data pointer
    pub last_dp: u64,
    /// SSE registers 0-15
    pub xmm: [[u8; 16]; 16],
    /// Media control and status register
    pub mxcsr: u32,
    /// Padding
    pub pad2: u32,
}

/// A single model-specific register to be read or written.
#[derive(Debug, Default, Clone, Copy, PartialEq, Eq, Structural)]
pub struct MsrEntry {
    /// MSR address index
    pub index: u32,
    /// Reserved
    pub reserved: u32,
    /// MSR data
    pub data: u64,
}

/// A CPUID leaf: the values that the CPUID instruction reports for one
/// function and index.
#[derive(Debug, Default, Clone, Copy)]
pub struct CpuIdEntry2 {
    /// The EAX value used to obtain the entry
    pub function: u32,
    /// The ECX value used to obtain the entry (if it matters)
    pub index: u32,
    /// Flags: the index field is valid; successive calls return different
    /// values; the entry is the first one to read
    pub flags: u32,
    /// Value returned in EAX
    pub eax: u32,
    /// Value returned in EBX
    pub ebx: u32,
    /// Value returned in ECX
    pub ecx: u32,
    /// Value returned in EDX
    pub edx: u32,
    /// Padding
    pub padding: [u32; 3],
}

impl CpuIdEntry2 {
    /// The entry with every field zero.
    pub fn zeroed() -> (r: Self)
        ensures
            r == Self::zero(),
    {
        CpuIdEntry2 {
            function: 0,
            index: 0,
            flags: 0,
            eax: 0,
            ebx: 0,
            ecx: 0,
            edx: 0,
            padding: [0, 0, 0],
        }
    }

    /// The entry with every field zero.
    pub open spec fn zero() -> Self {
        CpuIdEntry2 {
            function: 0,
            index: 0,
            flags: 0,
            eax: 0,
            ebx: 0,
            ecx: 0,
            edx: 0,
            padding: [0, 0, 0],
        }
    }
}

impl PartialEq for CpuIdEntry2 {
    fn eq(&self, other: &Self) -> (r: bool)
        ensures
            r == (*self == *other),
    {
        proof {
            broadcast use vstd::array::group_array_axioms;
        }
        let r = self.function == other.function && self.index == other.index && self.flags
            == other.flags && self.eax == other.eax && self.ebx == other.ebx && self.ecx
            == other.ecx && self.edx == other.edx && self.padding[0] == other.padding[0]
            && self.padding[1] == other.padding[1] && self.padding[2] == other.padding[2];
        proof {
            if r {
                assert(self.padding =~= other.padding);
            }
        }
        r
    }
}

impl vstd::std_specs::cmp::PartialEqSpecImpl for CpuIdEntry2 {
    open spec fn obeys_eq_spec() -> bool {
        true
    }

    open spec fn eq_spec(&self, other: &Self) -> bool {
        *self == *other
    }
}

/// A zero-length array that marks where the entries of a variable-length
/// record begin.
#[derive(Debug, Default)]
pub struct __IncompleteArrayField<T>(core::marker::PhantomData<T>, [T; 0]);

impl<T> __IncompleteArrayField<T> {
    /// Creates the marker.
    pub fn new() -> Self {
        __IncompleteArrayField(core::marker::PhantomData, [])
    }
}

/// Header of a batch of MSR entries.
#[derive(Debug, Default)]
pub struct MsrEntries {
    /// Number of MSR entries that follow the header
    pub nmsrs: u32,
    /// Padding
    pub pad: u32,
    /// Start of the MSR entries
    pub entries: __IncompleteArrayField<MsrEntry>,
}

/// Header of a batch of CPUID entries.
#[derive(Debug, Default)]
pub struct CpuId2 {
    /// Number of entries that follow the header
    pub nent: u32,
    /// Padding
    pub padding: u32,
    /// Start of the CPUID entries
    pub entries: __IncompleteArrayField<CpuIdEntry2>,
}

/// State of the local APIC: the block of its memory-mapped registers, in the
/// 4 KiB form that host-native backends require.
#[derive(Debug, Clone, Copy)]
pub struct LapicState {
    /// The registers that describe the local APIC
    pub regs: [i8; 4096],
}

impl Default for LapicState {
    fn default() -> (r: Self)
        ensures
            forall|i: int| 0 <= i < 4096 ==> r.regs[i] == 0,
    {
        LapicState { regs: [0i8; 4096] }
    }
}

} // verus!

