//! A hypervisor-agnostic description of a virtual CPU (vCPU).
//!
//! The crate offers the register records that cross the boundary between a
//! virtual machine monitor and a hypervisor backend, a bounds-checked
//! container for CPUID entries, the reasons for which a vCPU returns control,
//! and the trait that a backend implements to drive one vCPU.

/// Architecture-dependent records for ARM64 vCPUs.
pub mod arm;
/// The kernel (KVM) layout of the x86-64 records, and conversions to it.
pub mod kvm;
/// The vCPU trait and the reasons for which a vCPU exits.
pub mod vcpu;
/// x86-64 records, as host-native backends declare them, and the CPUID
/// entry container. The records keep the hypervisor's field order; the
/// byte layout that the kernel reads is that of the records in [`kvm`].
pub mod x86_64;
