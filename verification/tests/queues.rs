use hsa::log::{LogLevel, LogLine};
use hsa::packet::DispatchPacket;
use hsa::queue::{DispatchStep, QueueDescriptor, QueueRequest, QUEUE_TYPE_MULTI};
use hsa::status::{STATUS_ERROR_INVALID_AGENT, STATUS_ERROR_OUT_OF_RESOURCES};
use hsa::{Agent, HsaError, Queue, Reply, Status};

fn ok<T>(value: T) -> Reply<T> {
    Reply::new(Status::success(), value)
}

fn agent(min: u32, max: u32) -> Agent {
    Agent {
        handle: 0xa1,
        device: ok(1),
        name: ok([0u8; 64]),
        vendor_name: ok([0u8; 64]),
        feature: ok(1),
        queue_max_size: ok(max),
        queue_min_size: ok(min),
    }
}

fn descriptor(size: u32) -> QueueDescriptor {
    QueueDescriptor {
        address: 0x7000,
        id: 5,
        size,
        queue_type: QUEUE_TYPE_MULTI,
        features: 1,
        base_address: 0x9000,
        doorbell_signal: 0xd0,
    }
}

fn queue(size: u32) -> Queue {
    Queue::create(&agent(1, 1024), size, ok(descriptor(size))).unwrap()
}

fn refused(message: &str) -> HsaError {
    HsaError::QueueCreationFailed(String::from(message))
}

#[test]
fn create_refuses_size_zero() {
    let a = agent(1, 1024);
    assert_eq!(
        Queue::create(&a, 0, ok(descriptor(0))).unwrap_err(),
        refused("Queue size 0 must be a power of 2 and greater than 0")
    );
}

#[test]
fn create_refuses_sizes_that_are_no_power_of_two() {
    let a = agent(1, 1024);
    assert_eq!(
        Queue::create(&a, 3, ok(descriptor(3))).unwrap_err(),
        refused("Queue size 3 must be a power of 2 and greater than 0")
    );
    assert_eq!(
        Queue::create(&a, 100, ok(descriptor(100))).unwrap_err(),
        refused("Queue size 100 must be a power of 2 and greater than 0")
    );
    assert_eq!(
        Queue::check_size(&a, u32::MAX).unwrap_err(),
        refused("Queue size 4294967295 must be a power of 2 and greater than 0")
    );
}

#[test]
fn create_refuses_sizes_outside_the_agents_bounds() {
    let a = agent(4, 1024);
    assert_eq!(
        Queue::create(&a, 2, ok(descriptor(2))).unwrap_err(),
        refused("Queue size 2 is below minimum 4 for this agent")
    );
    assert_eq!(
        Queue::create(&a, 2048, ok(descriptor(2048))).unwrap_err(),
        refused("Queue size 2048 exceeds maximum 1024 for this agent")
    );
}

#[test]
fn check_size_accepts_every_power_of_two_within_bounds() {
    let a = agent(1, 1024);
    let mut size = 1u32;
    while size <= 1024 {
        assert_eq!(Queue::check_size(&a, size), Ok(()));
        size *= 2;
    }
    assert!(Queue::check_size(&agent(1, u32::MAX), 0x8000_0000).is_ok());
}

#[test]
fn a_failed_minimum_query_fails_the_creation() {
    let mut a = agent(1, 1024);
    a.queue_min_size = Reply::new(Status::new(STATUS_ERROR_INVALID_AGENT, None), 1);
    let expected = refused(
        "Invalid agent: Failed to get queue min size: HSA status code: 0x1004",
    );
    assert_eq!(Queue::check_size(&a, 64).unwrap_err(), expected);
    assert_eq!(Queue::request(&a, 64).unwrap_err(), expected);
    assert_eq!(Queue::create(&a, 64, ok(descriptor(64))).unwrap_err(), expected);
}

#[test]
fn a_failed_maximum_query_fails_the_creation() {
    let mut a = agent(1, 1024);
    a.queue_max_size = Reply::new(Status::new(STATUS_ERROR_INVALID_AGENT, Some("refused")), 1024);
    let expected = refused("Invalid agent: Failed to get queue max size: refused");
    assert_eq!(Queue::check_size(&a, 64).unwrap_err(), expected);
    assert_eq!(Queue::request(&a, 64).unwrap_err(), expected);
    assert_eq!(Queue::create(&a, 64, ok(descriptor(64))).unwrap_err(), expected);
}

#[test]
fn where_both_limit_queries_failed_the_minimum_is_reported() {
    let mut a = agent(1, 1024);
    a.queue_min_size = Reply::new(Status::new(STATUS_ERROR_INVALID_AGENT, Some("first")), 1);
    a.queue_max_size = Reply::new(Status::new(STATUS_ERROR_INVALID_AGENT, Some("second")), 1024);
    assert_eq!(
        Queue::create(&a, 64, ok(descriptor(64))).unwrap_err(),
        refused("Invalid agent: Failed to get queue min size: first")
    );
}

#[test]
fn a_size_that_is_no_power_of_two_is_refused_before_the_limits_are_looked_at() {
    let mut a = agent(1, 1024);
    a.queue_min_size = Reply::new(Status::new(STATUS_ERROR_INVALID_AGENT, None), 1);
    assert_eq!(
        Queue::check_size(&a, 3).unwrap_err(),
        refused("Queue size 3 must be a power of 2 and greater than 0")
    );
}

#[test]
fn request_asks_for_a_multi_producer_ring() {
    let a = agent(1, 1024);
    assert_eq!(
        Queue::request(&a, 256),
        Ok(QueueRequest {
            agent: 0xa1,
            size: 256,
            queue_type: QUEUE_TYPE_MULTI,
            private_segment_size: 0,
            group_segment_size: 0,
        })
    );
    assert_eq!(
        Queue::request(&a, 3).unwrap_err(),
        refused("Queue size 3 must be a power of 2 and greater than 0")
    );
}

#[test]
fn create_reports_a_refusal_of_the_runtime() {
    let a = agent(1, 1024);
    let reply = Reply::new(
        Status::new(STATUS_ERROR_OUT_OF_RESOURCES, Some("no room")),
        descriptor(1024),
    );
    assert_eq!(
        Queue::create(&a, 1024, reply).unwrap_err(),
        refused(
            "Out of resources: Failed to create queue with size 1024 for agent 0xa1: no room"
        )
    );
}

#[test]
fn create_reports_a_missing_descriptor() {
    let a = agent(1, 1024);
    let mut d = descriptor(1024);
    d.address = 0;
    assert_eq!(
        Queue::create(&a, 1024, ok(d)).unwrap_err(),
        refused("Queue creation returned null pointer")
    );
}

#[test]
fn a_refused_size_wins_over_the_reply() {
    let a = agent(1, 1024);
    let reply = Reply::new(
        Status::new(STATUS_ERROR_OUT_OF_RESOURCES, Some("no room")),
        descriptor(3),
    );
    assert_eq!(
        Queue::create(&a, 3, reply).unwrap_err(),
        refused("Queue size 3 must be a power of 2 and greater than 0")
    );
}

#[test]
fn created_ring_starts_empty() {
    let q = queue(1024);
    assert_eq!(q.as_ptr(), 0x7000);
    assert_eq!(*q.get(), descriptor(1024));
    assert_eq!(q.get_id(), 5);
    assert_eq!(q.get_size(), 1024);
    assert_eq!(q.get_type(), QUEUE_TYPE_MULTI);
    assert_eq!(q.load_write_index(), 0);
    assert_eq!(q.load_read_index(), 0);
    assert_eq!(q.pending(), 0);
    assert_eq!(q.doorbell(), None);
    assert_eq!(q.packet(0), DispatchPacket::zeroed());
    assert_eq!(q.packet(1023), DispatchPacket::zeroed());
}

#[test]
fn ring_takes_the_size_that_the_runtime_reports() {
    let q = Queue::create(&agent(1, 1024), 256, ok(descriptor(512))).unwrap();
    assert_eq!(q.get_size(), 512);
}

#[test]
fn reservations_of_one_slot_hand_out_consecutive_indices() {
    let mut q = queue(8);
    q.store_write_index(40);
    let mut bases = Vec::new();
    for _ in 0..7 {
        bases.push(q.add_write_index(1));
    }
    assert_eq!(bases, vec![40, 41, 42, 43, 44, 45, 46]);
    assert_eq!(q.load_write_index(), 47);
    let mut slots: Vec<u64> = bases.iter().map(|b| b % 8).collect();
    slots.sort();
    slots.dedup();
    assert_eq!(slots.len(), 7);
}

#[test]
fn reservations_stay_disjoint_across_the_wrap_of_the_index() {
    let mut q = queue(4);
    q.store_write_index(u64::MAX - 1);
    let a = q.add_write_index(1);
    let b = q.add_write_index(1);
    let c = q.add_write_index(1);
    assert_eq!((a, b, c), (u64::MAX - 1, u64::MAX, 0));
    assert_eq!((a % 4, b % 4, c % 4), (2, 3, 0));
    assert_eq!(q.load_write_index(), 1);
}

#[test]
fn a_reservation_of_several_slots_returns_the_first() {
    let mut q = queue(16);
    assert_eq!(q.add_write_index(4), 0);
    assert_eq!(q.add_write_index(0), 4);
    assert_eq!(q.add_write_index(3), 4);
    assert_eq!(q.load_write_index(), 7);
}

#[test]
fn pending_is_the_distance_between_the_indices() {
    let mut q = queue(16);
    q.add_write_index(5);
    q.observe_read_index(2);
    assert_eq!(q.load_read_index(), 2);
    assert_eq!(q.pending(), 3);
    q.store_write_index(1);
    q.observe_read_index(u64::MAX);
    assert_eq!(q.pending(), 2);
}

#[test]
fn ring_has_room_while_fewer_packets_are_pending_than_it_has_slots() {
    let mut q = queue(4);
    assert!(q.has_room());
    q.add_write_index(3);
    assert!(q.has_room());
    q.add_write_index(1);
    assert!(!q.has_room());
    q.observe_read_index(1);
    assert!(q.has_room());
}

#[test]
fn packet_index_wraps_onto_the_slots() {
    let mut q = queue(4);
    q.perform(DispatchStep::WriteHeader { slot: q.slot(6), header: 0x1402 });
    assert_eq!(q.packet(2).header, 0x1402);
    assert_eq!(q.packet(6).header, 0x1402);
    assert_eq!(q.packet(10).header, 0x1402);
    assert_eq!(q.packet(3).header, 0);
    q.perform(DispatchStep::ClearSlot { slot: q.slot(2) });
    assert_eq!(q.packet(6), DispatchPacket::zeroed());
}

#[test]
fn create_refuses_a_ring_whose_reported_size_breaks_the_rules() {
    let a = agent(4, 1024);
    assert_eq!(
        Queue::create(&a, 8, ok(descriptor(0))).unwrap_err(),
        refused("Queue size 0 must be a power of 2 and greater than 0")
    );
    assert_eq!(
        Queue::create(&a, 8, ok(descriptor(12))).unwrap_err(),
        refused("Queue size 12 must be a power of 2 and greater than 0")
    );
    assert_eq!(
        Queue::create(&a, 8, ok(descriptor(2))).unwrap_err(),
        refused("Queue size 2 is below minimum 4 for this agent")
    );
    assert_eq!(
        Queue::create(&a, 8, ok(descriptor(2048))).unwrap_err(),
        refused("Queue size 2048 exceeds maximum 1024 for this agent")
    );
}

#[test]
fn slot_is_the_index_modulo_the_size() {
    let q = queue(8);
    assert_eq!(q.slot(0), 0);
    assert_eq!(q.slot(7), 7);
    assert_eq!(q.slot(8), 0);
    assert_eq!(q.slot(43), 3);
    assert_eq!(q.slot(u64::MAX), 7);
}

#[test]
fn doorbell_keeps_the_last_value() {
    let mut q = queue(4);
    q.ring_doorbell(3);
    assert_eq!(q.doorbell(), Some(3));
    q.ring_doorbell(-1);
    assert_eq!(q.doorbell(), Some(-1));
}

#[test]
fn inactivate_translates_a_failure() {
    let q = queue(4);
    assert_eq!(q.inactivate(Status::success()), Ok(()));
    assert_eq!(
        q.inactivate(Status::new(STATUS_ERROR_INVALID_AGENT, Some("refused"))),
        Err(HsaError::InvalidAgent(String::from("Failed to inactivate queue: refused")))
    );
}

#[test]
fn destroy_hands_back_the_descriptor_address() {
    assert_eq!(queue(4).destroy(), 0x7000);
}

#[test]
fn queue_info_shows_descriptor_and_state() {
    let mut q = queue(16);
    q.add_write_index(12);
    q.observe_read_index(10);
    let line = |m: &str| LogLine { level: LogLevel::Info, message: String::from(m) };
    let expected = vec![
        line("Queue Information:"),
        line("  ID: 5"),
        line("  Size: 16"),
        line("  Type: 0"),
        line("  Features: 0x1"),
        line("  Base Address: 0x9000"),
        line("  Doorbell Signal: 0xd0"),
        line("  Current State:"),
        line("    Read Index: 10"),
        line("    Write Index: 12"),
        line("    Pending Packets: 2"),
    ];
    assert_eq!(q.print_info(), expected);
}
