use crate::x86_64::{CpuId, FpuState, LapicState, MsrEntry, SpecialRegisters, StandardRegisters};
use vstd::prelude::*;

verus! {

/// The error of every vCPU operation: the backend's call failed.
#[verifier::external_type_specification]
#[verifier::external_body]
pub struct ExIoError(std::io::Error);

/// The result of a vCPU operation.
pub type Result<T> = core::result::Result<T, std::io::Error>;

/// The reasons for which a vCPU returns control to its caller.
///
/// Port and MMIO exits carry their address and a buffer: for the `In` and
/// `Read` directions the caller fills the buffer before the next `run`; for
/// `Out` and `Write` it holds the data the guest wrote.
#[derive(Debug)]
pub enum VcpuExit<'a> {
    /// The hypervisor gave no reason.
    NoReason,
    /// The reason is not known.
    Unknown,
    /// The guest raised an exception.
    Exception,
    /// An `out` instruction wrote the data to the port.
    IoOut(u16, &'a [u8]),
    /// An `in` instruction read from the port; fill the buffer before the
    /// next `run`.
    IoIn(u16, &'a mut [u8]),
    /// A hypercall.
    Hypercall,
    /// A debug event.
    Debug,
    /// The guest halted.
    Hlt,
    /// A read from the MMIO address; fill the buffer before the next `run`.
    MmioRead(u64, &'a mut [u8]),
    /// A write of the data to the MMIO address.
    MmioWrite(u64, &'a [u8]),
    /// A memory access that the hypervisor could not satisfy.
    MemoryAccess,
    /// A port access, described by the run context.
    IoPortAccess,
    /// The guest hit an exception it cannot recover from.
    UnrecoverableException,
    /// A register was given a value that is not valid.
    InvalidVpRegisterValue,
    /// The guest used a feature that the hypervisor does not support.
    UnsupportedFeature,
    /// The guest can now take interrupts.
    IrqWindowOpen,
    /// The guest shut down.
    Shutdown,
    /// Entering the guest failed.
    FailEntry,
    /// An interrupt stopped the vCPU.
    Intr,
    /// The task priority register was set.
    SetTpr,
    /// The task priority register was accessed.
    TprAccess,
    /// s390 SIE intercept.
    S390Sieic,
    /// s390 reset.
    S390Reset,
    /// Device control register access.
    Dcr,
    /// Non-maskable interrupt.
    Nmi,
    /// The hypervisor met an internal error.
    InternalError,
    /// OSI hypercall.
    Osi,
    /// PAPR hypercall.
    PaprHcall,
    /// s390 user-controlled fault.
    S390Ucontrol,
    /// Watchdog expiry.
    Watchdog,
    /// s390 TSCH intercept.
    S390Tsch,
    /// External proxy request.
    Epr,
    /// A system event (shutdown, reset, crash).
    SystemEvent,
    /// s390 STSI intercept.
    S390Stsi,
    /// End of interrupt on the I/O APIC.
    IoapicEoi,
    /// Hyper-V synthetic event.
    Hyperv,
    /// The guest accessed a model-specific register.
    MsrAccess,
    /// The guest ran CPUID.
    Cpuid,
    /// The run was canceled.
    Canceled,
}

/// A virtual CPU, as a hypervisor backend drives it.
///
/// Each backend owns one handle to its hypervisor. Every operation but `run`
/// returns at once; `run` blocks while the guest runs. Calls on one vCPU must
/// not overlap.
pub trait Vcpu {
    /// What a backend records of the most recent exit.
    type RunContextType;

    /// Runs the vCPU until it exits, and returns why it did. Every exit is
    /// an `Ok`; an `Err` means the call itself failed.
    fn run(&self) -> Result<VcpuExit<'_>>;

    /// The context of the most recent exit, valid until the next `run`.
    fn get_run_context(&self) -> Self::RunContextType;
}

/// The x86-64 operations of a virtual CPU. Each reads or writes a whole
/// record.
pub trait VcpuX86_64: Vcpu {
    /// Reads the general purpose registers, the instruction pointer and the
    /// flags.
    fn get_regs(&self) -> Result<StandardRegisters>;

    /// Writes the general purpose registers, the instruction pointer and the
    /// flags.
    fn set_regs(&self, regs: &StandardRegisters) -> Result<()>;

    /// Reads the segment, descriptor table, control and additional registers.
    fn get_sregs(&self) -> Result<SpecialRegisters>;

    /// Writes the segment, descriptor table, control and additional registers.
    fn set_sregs(&self, sregs: &SpecialRegisters) -> Result<()>;

    /// Reads the floating point state.
    fn get_fpu(&self) -> Result<FpuState>;

    /// Writes the floating point state.
    fn set_fpu(&self, fpu: &FpuState) -> Result<()>;

    /// Sets what the vCPU reports to the guest's CPUID instruction.
    fn set_cpuid2(&self, cpuid: &CpuId) -> Result<()>;

    /// Reads the local APIC state.
    fn get_lapic(&self) -> Result<LapicState>;

    /// Writes the local APIC state.
    fn set_lapic(&self, klapic: &LapicState) -> Result<()>;

    /// Reads the MSRs whose indices the caller placed in `msrs`, in order,
    /// and returns how many of them the backend filled in; fewer than asked
    /// is a partial read, not a failure.
    fn get_msrs(&self, msrs: &mut [MsrEntry]) -> Result<i32>;

    /// Writes exactly the MSRs in `msrs`, in order.
    fn set_msrs(&self, msrs: &[MsrEntry]) -> Result<()>;
}

} // verus!
