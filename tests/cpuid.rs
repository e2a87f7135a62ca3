use vmm_vcpu::kvm;
use vmm_vcpu::x86_64::{
    vec_with_array_field, vec_with_size_in_bytes, CpuId, CpuIdEntry2, MAX_CPUID_ENTRIES,
};

fn entry(function: u32, eax: u32) -> CpuIdEntry2 {
    CpuIdEntry2 {
        function,
        index: 0,
        flags: 1,
        eax,
        ebx: 0,
        ecx: 0,
        edx: 0,
        padding: [0, 0, 0],
    }
}

#[test]
fn new_offers_as_many_entries_as_slots() {
    for c in [0usize, 1, 7, 32] {
        let mut cpuid = CpuId::new(c);
        let entries = cpuid.mut_entries_slice();
        assert_eq!(entries.len(), c);
        assert!(entries.iter().all(|e| *e == CpuIdEntry2::zeroed()));
    }
}

#[test]
fn zero_capacity_is_always_empty() {
    let mut cpuid = CpuId::new(0);
    assert!(cpuid.mut_entries_slice().is_empty());
    let (header, slots) = cpuid.as_mut_ptr();
    header.nent = 9;
    assert!(slots.is_empty());
    assert!(cpuid.mut_entries_slice().is_empty());
    assert_eq!(cpuid.as_ptr().0.nent, 0);
}

#[test]
fn from_entries_keeps_entries_in_order() {
    let given = vec![entry(0x4, 0b1100000), entry(0x0, 7), entry(0x8000_0000, 1)];
    let mut cpuid = CpuId::from_entries(&given);
    assert_eq!(cpuid.mut_entries_slice().to_vec(), given);
    assert_eq!(cpuid.as_ptr().0.nent, 3);
}

#[test]
fn from_entries_of_an_edited_copy() {
    let mut cpuid = CpuId::new(1);
    let mut entries = cpuid.mut_entries_slice().to_vec();
    entries.insert(0, entry(0x4, 0b1100000));
    let mut cpuid = CpuId::from_entries(&entries);
    let view = cpuid.mut_entries_slice();
    assert_eq!(view.len(), 2);
    assert_eq!(view[0], entry(0x4, 0b1100000));
    assert_eq!(view[1], CpuIdEntry2::zeroed());
}

#[test]
fn clone_is_equal_and_independent() {
    let mut source = CpuId::from_entries(&[entry(1, 10), entry(2, 20)]);
    let mut copy = source.clone();
    assert!(copy == source);
    copy.mut_entries_slice()[0].eax = 99;
    assert!(copy != source);
    assert_eq!(source.mut_entries_slice()[0].eax, 10);
    assert_eq!(copy.mut_entries_slice()[0].eax, 99);
}

#[test]
fn clone_copies_undeclared_slots() {
    let mut source = CpuId::from_entries(&[entry(1, 10), entry(2, 20), entry(3, 30)]);
    source.as_mut_ptr().0.nent = 1;
    let mut copy = source.clone();
    assert_eq!(copy.as_ptr().1.to_vec(), source.as_ptr().1.to_vec());
    copy.as_mut_ptr().0.nent = 3;
    assert_eq!(copy.mut_entries_slice()[2], entry(3, 30));
}

#[test]
fn overdeclared_count_is_clamped_to_capacity() {
    let mut cpuid = CpuId::new(5);
    cpuid.as_mut_ptr().0.nent = 1000;
    assert_eq!(cpuid.mut_entries_slice().len(), 5);
    assert_eq!(cpuid.as_ptr().0.nent, 5);
}

#[test]
fn underdeclared_count_limits_the_view() {
    let mut cpuid = CpuId::from_entries(&[entry(1, 10), entry(2, 20), entry(3, 30)]);
    cpuid.as_mut_ptr().0.nent = 2;
    assert_eq!(cpuid.mut_entries_slice().to_vec(), vec![entry(1, 10), entry(2, 20)]);
    assert_eq!(cpuid.as_ptr().1.len(), 3);
}

#[test]
fn full_batch_view_is_stable() {
    let mut cpuid = CpuId::new(MAX_CPUID_ENTRIES);
    for (i, e) in cpuid.mut_entries_slice().iter_mut().enumerate() {
        *e = entry(i as u32, 2 * i as u32);
    }
    let first = cpuid.mut_entries_slice().to_vec();
    let second = cpuid.mut_entries_slice().to_vec();
    assert_eq!(first.len(), 80);
    assert_eq!(first, second);
    assert_eq!(second[79], entry(79, 158));
}

#[test]
fn equality_ignores_capacity() {
    let small = CpuId::from_entries(&[entry(1, 10)]);
    let mut large = CpuId::new(4);
    {
        let (header, slots) = large.as_mut_ptr();
        header.nent = 1;
        slots[0] = entry(1, 10);
        slots[3] = entry(9, 9);
    }
    assert!(small == large);
    assert!(large == small);
}

#[test]
fn equality_needs_equal_counts() {
    let a = CpuId::from_entries(&[entry(1, 10), entry(2, 20)]);
    let mut b = a.clone();
    b.as_mut_ptr().0.nent = 1;
    assert!(a != b);
    let mut c = CpuId::new(2);
    c.mut_entries_slice()[1].padding = [0, 0, 1];
    assert!(c != CpuId::new(2));
}

#[test]
fn entry_equality_reads_every_field() {
    let a = entry(1, 2);
    let mut b = a;
    assert_eq!(a, b);
    b.padding[2] = 5;
    assert_ne!(a, b);
}

#[test]
fn size_in_bytes_rounds_up_to_whole_elements() {
    let v: Vec<u64> = vec_with_size_in_bytes(17);
    assert_eq!(v, vec![0u64, 0, 0]);
    let w: Vec<u32> = vec_with_size_in_bytes(0);
    assert!(w.is_empty());
    let x: Vec<u16> = vec_with_size_in_bytes(4);
    assert_eq!(x.len(), 2);
}

#[test]
fn array_field_room_for_header_and_entries() {
    let v = vec_with_array_field::<kvm::CpuId2, kvm::CpuIdEntry2>(3);
    assert_eq!(v.len(), 16);
    assert_eq!(v[0].nent, 0);
    let w = vec_with_array_field::<kvm::CpuId2, kvm::CpuIdEntry2>(0);
    assert_eq!(w.len(), 1);
    let m = vec_with_array_field::<kvm::MsrEntries, kvm::MsrEntry>(2);
    assert_eq!(m.len(), 5);
}
