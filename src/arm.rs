use vstd::prelude::*;

verus! {

/// The type of CPU presented to the guest, and the optional features it has.
#[derive(Debug, Default, Clone, Copy, PartialEq, Eq)]
pub struct VcpuInit {
    /// The target CPU type.
    pub target: u32,
    /// Bitmap of optional features.
    pub features: [u32; 7],
}

} // verus!

verus! {

/// The ARM64 operations of a virtual CPU, needed before it can run.
pub trait VcpuArm64: crate::vcpu::Vcpu {
    /// Sets the CPU type presented to the guest and its optional features.
    fn vcpu_init(&self, kvi: &VcpuInit) -> crate::vcpu::Result<()>;

    /// Sets one register, named by its id.
    fn set_one_reg(&self, reg_id: u64, data: u64) -> crate::vcpu::Result<()>;
}

} // verus!
