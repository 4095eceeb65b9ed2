use hsa::agent::find_gpu_callback;
use hsa::executable::{collect_symbol_names_callback, read_terminated, SymbolRecord};
use hsa::status::{STATUS_ERROR_INVALID_AGENT, STATUS_INFO_BREAK, STATUS_SUCCESS};
use hsa::{Agent, HsaError, Reply, Status};

fn ok<T>(value: T) -> Reply<T> {
    Reply::new(Status::success(), value)
}

fn agent(handle: u64, device: Reply<u32>) -> Agent {
    Agent {
        handle,
        device,
        name: ok([0u8; 64]),
        vendor_name: ok([0u8; 64]),
        feature: ok(1),
        queue_max_size: ok(1024),
        queue_min_size: ok(1),
    }
}

#[test]
fn visitor_passes_an_agent_that_is_no_gpu() {
    let mut found = None;
    let status = find_gpu_callback(&agent(1, ok(0)), &mut found);
    assert_eq!(status.code, STATUS_SUCCESS);
    assert!(found.is_none());
}

#[test]
fn visitor_records_a_gpu_and_breaks() {
    let mut found = None;
    let status = find_gpu_callback(&agent(2, ok(1)), &mut found);
    assert_eq!(status.code, STATUS_INFO_BREAK);
    assert_eq!(found.unwrap().handle, 2);
}

#[test]
fn visitor_returns_the_status_of_a_failed_query() {
    let mut found = None;
    let refused = Reply::new(Status::new(STATUS_ERROR_INVALID_AGENT, Some("refused")), 1);
    let status = find_gpu_callback(&agent(2, refused), &mut found);
    assert_eq!(status.code, STATUS_ERROR_INVALID_AGENT);
    assert_eq!(status.text, Some("refused"));
    assert!(found.is_none());
}

#[test]
fn search_concludes_from_status_and_record() {
    let gpu = agent(2, ok(1));
    assert_eq!(
        Agent::found_gpu(Status::new(STATUS_INFO_BREAK, None), Some(gpu)).unwrap().handle,
        2
    );
    assert_eq!(Agent::found_gpu(Status::success(), Some(gpu)).unwrap().handle, 2);
    assert_eq!(Agent::found_gpu(Status::success(), None).unwrap_err(), HsaError::AgentNotFound);
    assert_eq!(
        Agent::found_gpu(Status::new(STATUS_ERROR_INVALID_AGENT, Some("refused")), Some(gpu))
            .unwrap_err(),
        HsaError::InvalidAgent(String::from("Failed to iterate agents: refused"))
    );
}

#[test]
fn symbol_visitor_adds_a_name_and_goes_on() {
    let mut names = vec![String::from("first")];
    let record = SymbolRecord { name_length: ok(4), name: ok(b"next\0".to_vec()) };
    assert!(collect_symbol_names_callback(&record, &mut names).is_success());
    assert_eq!(names, vec![String::from("first"), String::from("next")]);
}

#[test]
fn symbol_visitor_stops_on_a_failed_length_query() {
    let mut names = vec![String::from("first")];
    let record = SymbolRecord {
        name_length: Reply::new(Status::new(STATUS_ERROR_INVALID_AGENT, None), 4),
        name: ok(b"next\0".to_vec()),
    };
    let status = collect_symbol_names_callback(&record, &mut names);
    assert_eq!(status.code, STATUS_ERROR_INVALID_AGENT);
    assert_eq!(names, vec![String::from("first")]);
}

#[test]
fn status_text_is_kept_only_from_a_query_that_succeeded() {
    let status = Status::from_query(0x1001, STATUS_SUCCESS, Some("bad argument"));
    assert_eq!(status.code, 0x1001);
    assert_eq!(status.text, Some("bad argument"));
    let status = Status::from_query(0x1001, 0x1000, Some("bad argument"));
    assert_eq!(status.text, None);
    assert_eq!(status.description(), "HSA status code: 0x1001");
    let status = Status::from_query(0x1001, STATUS_SUCCESS, None);
    assert_eq!(status.text, None);
}

#[test]
fn name_buffer_has_room_for_the_terminator() {
    assert_eq!(hsa::executable::name_buffer_len(&ok(0)), Some(1));
    assert_eq!(hsa::executable::name_buffer_len(&ok(6)), Some(7));
    assert_eq!(hsa::executable::name_buffer_len(&ok(u32::MAX)), None);
    let refused = Reply::new(Status::new(STATUS_ERROR_INVALID_AGENT, None), 6);
    assert_eq!(hsa::executable::name_buffer_len(&refused), None);
}

#[test]
fn name_bytes_end_at_the_first_zero_byte() {
    let mut buffer = [0u8; 64];
    buffer[..5].copy_from_slice(b"ab\0cd");
    assert_eq!(hsa::agent::name_prefix(&buffer), b"ab".to_vec());
    assert_eq!(hsa::agent::name_prefix(&[7u8; 64]), vec![7u8; 64]);
    assert_eq!(hsa::agent::name_prefix(&[0u8; 64]), Vec::<u8>::new());
}

#[test]
fn terminated_text_needs_exactly_one_zero_byte_at_the_end() {
    assert_eq!(read_terminated(&b"abc\0".to_vec()), Some(b"abc".to_vec()));
    assert_eq!(read_terminated(&vec![0u8]), Some(Vec::new()));
    assert_eq!(read_terminated(&Vec::new()), None);
    assert_eq!(read_terminated(&b"abc".to_vec()), None);
    assert_eq!(read_terminated(&b"a\0c\0".to_vec()), None);
    assert_eq!(read_terminated(&vec![0u8, 0u8]), None);
}
