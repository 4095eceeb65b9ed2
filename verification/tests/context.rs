use hsa::context::{Discovery, CONTEXT_QUEUE_SIZE};
use hsa::queue::QueueDescriptor;
use hsa::status::{
    STATUS_ERROR_INVALID_AGENT, STATUS_ERROR_INVALID_REGION, STATUS_ERROR_NOT_INITIALIZED,
    STATUS_ERROR_OUT_OF_RESOURCES,
};
use hsa::{Agent, HsaContext, HsaError, MemoryRegion, Reply, Status};

fn ok<T>(value: T) -> Reply<T> {
    Reply::new(Status::success(), value)
}

fn agent(handle: u64, device: u32) -> Agent {
    Agent {
        handle,
        device: ok(device),
        name: ok([0u8; 64]),
        vendor_name: ok([0u8; 64]),
        feature: ok(1),
        queue_max_size: ok(131072),
        queue_min_size: ok(64),
    }
}

fn region(handle: u64, segment: u32, flags: u32) -> MemoryRegion {
    MemoryRegion {
        handle,
        segment: ok(segment),
        global_flags: ok(flags),
        size: ok(1 << 30),
        max_alloc_size: ok(1 << 20),
        runtime_alloc_allowed: ok(true),
    }
}

fn agents() -> Vec<Agent> {
    vec![agent(1, 0), agent(2, 1)]
}

fn regions() -> Vec<MemoryRegion> {
    vec![
        region(10, 0, 2),
        region(11, 0, 4),
        region(12, 4, 0),
        region(13, 3, 0),
    ]
}

fn ring() -> Reply<QueueDescriptor> {
    ok(QueueDescriptor {
        address: 0x7000,
        id: 1,
        size: 1024,
        queue_type: 0,
        features: 1,
        base_address: 0x9000,
        doorbell_signal: 0xd0,
    })
}

fn discover(regions: &Vec<MemoryRegion>) -> Result<Discovery, HsaError> {
    HsaContext::discover(Status::success(), &agents(), Status::success(), regions, Status::success())
}

#[test]
fn context_queue_has_1024_packets() {
    assert_eq!(CONTEXT_QUEUE_SIZE, 1024);
}

#[test]
fn new_builds_the_context_of_the_first_gpu() {
    let context = HsaContext::new(
        Status::success(),
        &agents(),
        Status::success(),
        &regions(),
        Status::success(),
        ring(),
    )
    .unwrap();
    assert_eq!(context.agent.handle, 2);
    assert_eq!(context.fine_grained_region.unwrap().handle, 10);
    assert_eq!(context.coarse_grained_region.unwrap().handle, 11);
    assert_eq!(context.kernarg_region.unwrap().handle, 12);
    let queue = context.queue.unwrap();
    assert_eq!(queue.get_size(), 1024);
    assert_eq!(queue.load_write_index(), 0);
}

#[test]
fn new_fails_first_on_a_failed_initialization() {
    let init = Status::new(STATUS_ERROR_OUT_OF_RESOURCES, Some("no room"));
    let error = HsaContext::new(
        init,
        &Vec::new(),
        Status::new(STATUS_ERROR_NOT_INITIALIZED, None),
        &Vec::new(),
        Status::success(),
        ring(),
    )
    .unwrap_err();
    assert_eq!(error, HsaError::OutOfResources(String::from("no room")));
}

#[test]
fn new_fails_without_a_gpu() {
    let error = HsaContext::new(
        Status::success(),
        &vec![agent(1, 0)],
        Status::success(),
        &regions(),
        Status::success(),
        ring(),
    )
    .unwrap_err();
    assert_eq!(error, HsaError::AgentNotFound);
}

#[test]
fn new_fails_on_a_failed_enumeration_of_regions() {
    let error = HsaContext::new(
        Status::success(),
        &agents(),
        Status::success(),
        &regions(),
        Status::new(STATUS_ERROR_INVALID_AGENT, Some("refused")),
        ring(),
    )
    .unwrap_err();
    assert_eq!(
        error,
        HsaError::InvalidAgent(String::from("Failed to iterate memory regions: refused"))
    );
}

#[test]
fn new_fails_on_a_ring_that_the_runtime_refused() {
    let mut reply = ring();
    reply.status = Status::new(STATUS_ERROR_OUT_OF_RESOURCES, Some("no room"));
    let error = HsaContext::new(
        Status::success(),
        &agents(),
        Status::success(),
        &regions(),
        Status::success(),
        reply,
    )
    .unwrap_err();
    assert_eq!(
        error,
        HsaError::QueueCreationFailed(String::from(
            "Out of resources: Failed to create queue with size 1024 for agent 0x2: no room"
        ))
    );
}

#[test]
fn new_fails_where_the_agent_accepts_no_ring_of_1024_packets() {
    let mut small = agent(2, 1);
    small.queue_max_size = ok(512);
    let error = HsaContext::new(
        Status::success(),
        &vec![small],
        Status::success(),
        &regions(),
        Status::success(),
        ring(),
    )
    .unwrap_err();
    assert_eq!(
        error,
        HsaError::QueueCreationFailed(String::from(
            "Queue size 1024 exceeds maximum 512 for this agent"
        ))
    );
}

#[test]
fn discovery_needs_a_fine_and_a_coarse_region() {
    let only_fine = vec![region(10, 0, 2), region(12, 4, 0)];
    assert_eq!(discover(&only_fine).unwrap_err(), HsaError::MemoryRegionNotFound);
    let only_coarse = vec![region(11, 0, 4), region(12, 4, 0)];
    assert_eq!(discover(&only_coarse).unwrap_err(), HsaError::MemoryRegionNotFound);
    assert_eq!(discover(&Vec::new()).unwrap_err(), HsaError::MemoryRegionNotFound);
}

#[test]
fn discovery_does_not_need_a_kernarg_region() {
    let found = discover(&vec![region(10, 0, 2), region(11, 0, 4)]).unwrap();
    assert!(found.regions.kernarg.is_none());
    assert_eq!(found.agent.handle, 2);
}

#[test]
fn a_global_region_that_is_not_fine_grained_counts_as_coarse() {
    let found = discover(&vec![region(10, 0, 3), region(11, 0, 0), region(12, 0, 1)]).unwrap();
    assert_eq!(found.regions.fine_grained.unwrap().handle, 10);
    assert_eq!(found.regions.coarse_grained.unwrap().handle, 12);
}

#[test]
fn the_last_region_of_a_class_stands() {
    let list = vec![
        region(10, 0, 2),
        region(11, 0, 4),
        region(12, 4, 0),
        region(20, 0, 2),
        region(21, 0, 4),
        region(22, 4, 0),
    ];
    let classes = HsaContext::classify(&list).unwrap();
    assert_eq!(classes.fine_grained.unwrap().handle, 20);
    assert_eq!(classes.coarse_grained.unwrap().handle, 21);
    assert_eq!(classes.kernarg.unwrap().handle, 22);
}

#[test]
fn the_first_failed_region_query_is_the_error() {
    let mut broken_segment = region(11, 0, 4);
    broken_segment.segment =
        Reply::new(Status::new(STATUS_ERROR_INVALID_REGION, Some("first")), 0);
    let mut broken_flags = region(12, 0, 4);
    broken_flags.global_flags =
        Reply::new(Status::new(STATUS_ERROR_INVALID_REGION, Some("second")), 0);
    let list = vec![region(10, 0, 2), broken_segment, broken_flags];
    assert_eq!(
        HsaContext::classify(&list).unwrap_err(),
        HsaError::InvalidRegion(String::from("Failed to get memory region segment: first"))
    );
    let list = vec![region(10, 0, 2), broken_flags, broken_segment];
    assert_eq!(
        HsaContext::classify(&list).unwrap_err(),
        HsaError::InvalidRegion(String::from("Failed to get memory region global flags: second"))
    );
}

#[test]
fn flags_are_asked_of_global_regions_only() {
    let mut kernarg = region(12, 4, 0);
    kernarg.global_flags =
        Reply::new(Status::new(STATUS_ERROR_INVALID_REGION, Some("refused")), 0);
    let classes = HsaContext::classify(&vec![kernarg]).unwrap();
    assert_eq!(classes.kernarg.unwrap().handle, 12);
    assert!(classes.fine_grained.is_none());
    assert!(classes.coarse_grained.is_none());
}

#[test]
fn new_fails_where_the_agent_does_not_report_its_ring_sizes() {
    let mut silent = agent(2, 1);
    silent.queue_min_size =
        Reply::new(Status::new(STATUS_ERROR_INVALID_AGENT, Some("refused")), 0);
    let error = HsaContext::new(
        Status::success(),
        &vec![silent],
        Status::success(),
        &regions(),
        Status::success(),
        ring(),
    )
    .unwrap_err();
    assert_eq!(
        error,
        HsaError::QueueCreationFailed(String::from(
            "Invalid agent: Failed to get queue min size: refused"
        ))
    );
}
