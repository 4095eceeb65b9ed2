use hsa::memory::{
    flag_label, segment_label, REGION_GLOBAL_FLAG_COARSE_GRAINED, REGION_GLOBAL_FLAG_FINE_GRAINED,
    REGION_GLOBAL_FLAG_KERNARG, REGION_SEGMENT_GLOBAL, REGION_SEGMENT_GROUP,
    REGION_SEGMENT_KERNARG, REGION_SEGMENT_PRIVATE, REGION_SEGMENT_READONLY,
};
use hsa::status::{STATUS_ERROR_INVALID_REGION, STATUS_ERROR_OUT_OF_RESOURCES};
use hsa::{Agent, HsaError, Memory, MemoryRegion, Reply, Status};

fn ok<T>(value: T) -> Reply<T> {
    Reply::new(Status::success(), value)
}

fn failed<T>(value: T) -> Reply<T> {
    Reply::new(Status::new(STATUS_ERROR_INVALID_REGION, Some("refused")), value)
}

fn region(segment: u32, flags: u32, max: usize) -> MemoryRegion {
    MemoryRegion {
        handle: 0xb0,
        segment: ok(segment),
        global_flags: ok(flags),
        size: ok(1 << 30),
        max_alloc_size: ok(max),
        runtime_alloc_allowed: ok(true),
    }
}

fn agent(handle: u64) -> Agent {
    Agent {
        handle,
        device: ok(1),
        name: ok([0u8; 64]),
        vendor_name: ok([0u8; 64]),
        feature: ok(1),
        queue_max_size: ok(1024),
        queue_min_size: ok(1),
    }
}

fn memory() -> Memory {
    region(REGION_SEGMENT_GLOBAL, REGION_GLOBAL_FLAG_COARSE_GRAINED, 1024)
        .allocate(256, ok(0x10_0000))
        .unwrap()
}

#[test]
fn segment_and_flag_codes_have_their_abi_values() {
    assert_eq!(REGION_SEGMENT_GLOBAL, 0);
    assert_eq!(REGION_SEGMENT_READONLY, 1);
    assert_eq!(REGION_SEGMENT_PRIVATE, 2);
    assert_eq!(REGION_SEGMENT_GROUP, 3);
    assert_eq!(REGION_SEGMENT_KERNARG, 4);
    assert_eq!(REGION_GLOBAL_FLAG_KERNARG, 1);
    assert_eq!(REGION_GLOBAL_FLAG_FINE_GRAINED, 2);
    assert_eq!(REGION_GLOBAL_FLAG_COARSE_GRAINED, 4);
}

#[test]
fn region_queries_pass_the_value_on() {
    let r = region(REGION_SEGMENT_GLOBAL, 6, 1024);
    assert_eq!(r.segment(), Ok(0));
    assert_eq!(r.global_flags(), Ok(6));
    assert_eq!(r.size(), Ok(1 << 30));
    assert_eq!(r.max_alloc_size(), Ok(1024));
    assert_eq!(r.runtime_alloc_allowed(), Ok(true));
}

#[test]
fn region_queries_translate_a_failure() {
    let r = MemoryRegion {
        handle: 1,
        segment: failed(0),
        global_flags: failed(0),
        size: failed(0),
        max_alloc_size: failed(0),
        runtime_alloc_allowed: failed(false),
    };
    let error = |context: &str| HsaError::InvalidRegion(format!("{}: refused", context));
    assert_eq!(r.segment().unwrap_err(), error("Failed to get memory region segment"));
    assert_eq!(r.global_flags().unwrap_err(), error("Failed to get memory region global flags"));
    assert_eq!(r.size().unwrap_err(), error("Failed to get memory region size"));
    assert_eq!(
        r.max_alloc_size().unwrap_err(),
        error("Failed to get memory region max allocation size")
    );
    assert_eq!(
        r.runtime_alloc_allowed().unwrap_err(),
        error("Failed to get memory region allocation permission")
    );
}

#[test]
fn allocate_at_the_maximum_succeeds() {
    let r = region(REGION_SEGMENT_GLOBAL, REGION_GLOBAL_FLAG_COARSE_GRAINED, 1024);
    let m = r.allocate(1024, ok(0x10_0000)).unwrap();
    assert_eq!(m.as_ptr(), 0x10_0000);
    assert_eq!(m.size(), 1024);
    assert!(!m.is_null());
}

#[test]
fn allocate_above_the_maximum_fails() {
    let r = region(REGION_SEGMENT_GLOBAL, REGION_GLOBAL_FLAG_COARSE_GRAINED, 1024);
    assert_eq!(
        r.allocate(1025, ok(0x10_0000)).unwrap_err(),
        HsaError::MemoryAllocationFailed(String::from(
            "Requested size 1025 exceeds maximum allocation size 1024 for this region"
        ))
    );
    assert_eq!(
        r.check_allocation(1025).unwrap_err(),
        HsaError::MemoryAllocationFailed(String::from(
            "Requested size 1025 exceeds maximum allocation size 1024 for this region"
        ))
    );
    assert_eq!(r.check_allocation(1024), Ok(()));
    assert_eq!(r.check_allocation(0), Ok(()));
}

#[test]
fn allocate_succeeds_in_each_class_of_region() {
    let classes = [
        region(REGION_SEGMENT_KERNARG, 0, 4096),
        region(REGION_SEGMENT_GLOBAL, REGION_GLOBAL_FLAG_FINE_GRAINED, 4096),
        region(REGION_SEGMENT_GLOBAL, REGION_GLOBAL_FLAG_COARSE_GRAINED, 4096),
    ];
    for (i, r) in classes.iter().enumerate() {
        let m = r.allocate(64, ok(0x1000 * (i + 1))).unwrap();
        assert_eq!(m.as_ptr(), 0x1000 * (i + 1));
        assert_eq!(m.size(), 64);
    }
}

#[test]
fn allocate_refuses_a_region_without_permission() {
    let mut r = region(REGION_SEGMENT_GLOBAL, 4, 1024);
    r.runtime_alloc_allowed = ok(false);
    assert_eq!(
        r.allocate(16, ok(0x10_0000)).unwrap_err(),
        HsaError::MemoryAllocationFailed(String::from(
            "Runtime allocation not allowed for this memory region"
        ))
    );
}

#[test]
fn permission_is_checked_before_size() {
    let mut r = region(REGION_SEGMENT_GLOBAL, 4, 1024);
    r.runtime_alloc_allowed = ok(false);
    assert_eq!(
        r.allocate(4096, ok(0x10_0000)).unwrap_err(),
        HsaError::MemoryAllocationFailed(String::from(
            "Runtime allocation not allowed for this memory region"
        ))
    );
}

#[test]
fn a_failed_region_query_is_a_failed_allocation() {
    let mut r = region(REGION_SEGMENT_GLOBAL, 4, 1024);
    r.runtime_alloc_allowed = failed(true);
    let expected = HsaError::MemoryAllocationFailed(String::from(
        "Invalid region: Failed to get memory region allocation permission: refused",
    ));
    assert_eq!(r.check_allocation(16).unwrap_err(), expected);
    assert_eq!(r.allocate(16, ok(0x10_0000)).unwrap_err(), expected);
    let mut r = region(REGION_SEGMENT_GLOBAL, 4, 1024);
    r.max_alloc_size = failed(1024);
    let expected = HsaError::MemoryAllocationFailed(String::from(
        "Invalid region: Failed to get memory region max allocation size: refused",
    ));
    assert_eq!(r.check_allocation(16).unwrap_err(), expected);
    assert_eq!(r.allocate(16, ok(0x10_0000)).unwrap_err(), expected);
}

#[test]
fn every_failed_allocation_is_of_the_same_kind() {
    let mut unanswered = region(REGION_SEGMENT_GLOBAL, 4, 1024);
    unanswered.runtime_alloc_allowed = failed(true);
    let mut forbidden = region(REGION_SEGMENT_GLOBAL, 4, 1024);
    forbidden.runtime_alloc_allowed = ok(false);
    let mut unbounded = region(REGION_SEGMENT_GLOBAL, 4, 1024);
    unbounded.max_alloc_size = failed(1024);
    let plain = region(REGION_SEGMENT_GLOBAL, 4, 1024);
    let refused = Reply::new(Status::new(STATUS_ERROR_OUT_OF_RESOURCES, None), 0x10_0000);
    let errors = vec![
        unanswered.allocate(16, ok(0x10_0000)).unwrap_err(),
        forbidden.allocate(16, ok(0x10_0000)).unwrap_err(),
        unbounded.allocate(16, ok(0x10_0000)).unwrap_err(),
        plain.allocate(2048, ok(0x10_0000)).unwrap_err(),
        plain.allocate(16, refused).unwrap_err(),
        plain.allocate(16, ok(0)).unwrap_err(),
    ];
    for error in errors {
        assert!(matches!(error, HsaError::MemoryAllocationFailed(_)));
    }
}

#[test]
fn allocate_reports_a_refusal_of_the_allocator() {
    let r = region(REGION_SEGMENT_GLOBAL, 4, 1024);
    let reply = Reply::new(Status::new(STATUS_ERROR_OUT_OF_RESOURCES, Some("no room")), 0);
    assert_eq!(
        r.allocate(512, reply).unwrap_err(),
        HsaError::MemoryAllocationFailed(String::from(
            "Out of resources: Failed to allocate 512 bytes from memory region: no room"
        ))
    );
}

#[test]
fn new_allocation_grants_nobody_access() {
    let m = memory();
    assert!(!m.allows(&agent(1)));
    assert!(!m.allows(&agent(2)));
}

#[test]
fn allow_access_without_agents_does_nothing() {
    let mut m = memory();
    let refused = Status::new(STATUS_ERROR_INVALID_REGION, Some("refused"));
    assert_eq!(m.allow_access(&[], refused), Ok(()));
    assert!(!m.allows(&agent(1)));
}

#[test]
fn allow_access_grants_the_listed_agents() {
    let mut m = memory();
    assert_eq!(m.allow_access(&[agent(1), agent(3)], Status::success()), Ok(()));
    assert!(m.allows(&agent(1)));
    assert!(!m.allows(&agent(2)));
    assert!(m.allows(&agent(3)));
    assert_eq!(m.allow_access(&[agent(2)], Status::success()), Ok(()));
    assert!(m.allows(&agent(1)));
    assert!(m.allows(&agent(2)));
}

#[test]
fn allow_access_that_fails_grants_nothing() {
    let mut m = memory();
    let refused = Status::new(STATUS_ERROR_INVALID_REGION, Some("refused"));
    assert_eq!(
        m.allow_access(&[agent(1)], refused),
        Err(HsaError::InvalidRegion(String::from(
            "Failed to allow memory access for agents: refused"
        )))
    );
    assert!(!m.allows(&agent(1)));
}

#[test]
fn access_request_holds_the_handles_in_order() {
    assert_eq!(Memory::access_request(&[agent(7), agent(3), agent(7)]), Some(vec![7, 3, 7]));
    assert_eq!(Memory::access_request(&[]), None);
}

#[test]
fn free_hands_back_the_address() {
    assert_eq!(memory().free(), 0x10_0000);
}

#[test]
fn allocate_refuses_a_null_address() {
    let r = region(REGION_SEGMENT_GLOBAL, 4, 1024);
    assert_eq!(
        r.allocate(16, ok(0)).unwrap_err(),
        HsaError::MemoryAllocationFailed(String::from(
            "Memory allocation returned null pointer"
        ))
    );
}

#[test]
fn segments_have_names() {
    assert_eq!(segment_label(REGION_SEGMENT_GLOBAL), "GLOBAL");
    assert_eq!(segment_label(REGION_SEGMENT_READONLY), "READONLY");
    assert_eq!(segment_label(REGION_SEGMENT_PRIVATE), "PRIVATE");
    assert_eq!(segment_label(REGION_SEGMENT_GROUP), "GROUP");
    assert_eq!(segment_label(REGION_SEGMENT_KERNARG), "KERNARG");
    assert_eq!(segment_label(5), "UNKNOWN");
}

#[test]
fn flags_are_named_in_order_and_joined_by_bars() {
    assert_eq!(flag_label(0), "NONE");
    assert_eq!(flag_label(8), "NONE");
    assert_eq!(flag_label(1), "KERNARG");
    assert_eq!(flag_label(2), "FINE_GRAINED");
    assert_eq!(flag_label(4), "COARSE_GRAINED");
    assert_eq!(flag_label(3), "KERNARG|FINE_GRAINED");
    assert_eq!(flag_label(5), "KERNARG|COARSE_GRAINED");
    assert_eq!(flag_label(6), "FINE_GRAINED|COARSE_GRAINED");
    assert_eq!(flag_label(7), "KERNARG|FINE_GRAINED|COARSE_GRAINED");
    assert_eq!(flag_label(u32::MAX), "KERNARG|FINE_GRAINED|COARSE_GRAINED");
}

#[test]
fn region_description_names_segment_and_flags() {
    let r = region(REGION_SEGMENT_GLOBAL, 3, 1024);
    assert_eq!(
        r.describe(12),
        Some(String::from("  Region 12: GLOBAL (flags: KERNARG|FINE_GRAINED)"))
    );
    let r = region(REGION_SEGMENT_KERNARG, 3, 1024);
    assert_eq!(r.describe(0), Some(String::from("  Region 0: KERNARG")));
    let mut r = region(REGION_SEGMENT_GLOBAL, 3, 1024);
    r.segment = failed(0);
    assert_eq!(r.describe(0), None);
}
