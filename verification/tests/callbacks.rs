use host_bridge::{
    begin_host_call, complete_host_call, console_log, guest_error, guest_request, guest_response,
    host_call, host_error, host_error_len, host_response, host_response_len, read_request,
    EnvironmentState, HostCall, HostCallParams, Invocation,
};

fn memory_with(parts: &[&[u8]]) -> (Vec<u8>, Vec<(i32, i32)>) {
    let mut memory = Vec::new();
    let mut places = Vec::new();
    for part in parts {
        places.push((memory.len() as i32, part.len() as i32));
        memory.extend_from_slice(part);
    }
    (memory, places)
}

fn call_memory() -> (Vec<u8>, HostCallParams) {
    let (memory, places) = memory_with(&[b"binding", b"ns", b"op", &[1, 2]]);
    let params = HostCallParams {
        bd_ptr: places[0].0,
        bd_len: places[0].1,
        ns_ptr: places[1].0,
        ns_len: places[1].1,
        op_ptr: places[2].0,
        op_len: places[2].1,
        ptr: places[3].0,
        len: places[3].1,
    };
    (memory, params)
}

#[test]
fn host_call_that_succeeds_stages_the_response() {
    let (mut memory, params) = call_memory();
    let mut state = EnvironmentState::new(1, ());
    let code = host_call(&mut state, &memory, &params, |_, _, _| Ok(vec![1, 2, 3]));
    assert_eq!(code, 1);
    assert_eq!(host_response_len(&state), 3);
    assert_eq!(host_error_len(&state), 0);
    memory.resize(32, 0);
    assert!(host_response(&state, &mut memory, 20).is_ok());
    assert_eq!(&memory[20..23], &[1, 2, 3]);
    assert_eq!(&memory[23..], &[0u8; 9]);
}

#[test]
fn host_call_that_fails_stages_the_error() {
    let (mut memory, params) = call_memory();
    let mut state = EnvironmentState::new(1, ());
    let code = host_call(&mut state, &memory, &params, |_, _, _| Err("boom".to_string()));
    assert_eq!(code, 0);
    assert_eq!(host_response_len(&state), 0);
    assert_eq!(host_error_len(&state), 4);
    memory.resize(32, 0);
    assert!(host_error(&state, &mut memory, 24).is_ok());
    assert_eq!(&memory[24..28], b"boom");
    assert_eq!(&memory[28..], &[0u8; 4]);
}

#[test]
fn second_host_call_overwrites_the_first() {
    let (memory, params) = call_memory();
    let mut state = EnvironmentState::new(1, ());
    assert_eq!(host_call(&mut state, &memory, &params, |_, _, _| Ok(vec![1, 2, 3])), 1);
    assert_eq!(host_call(&mut state, &memory, &params, |_, _, _| Ok(vec![9])), 1);
    assert_eq!(host_response_len(&state), 1);
    assert_eq!(state.get_host_response(), Some(&vec![9]));
    assert_eq!(host_call(&mut state, &memory, &params, |_, _, _| Err("no".to_string())), 0);
    assert_eq!(host_response_len(&state), 0);
    assert_eq!(host_error_len(&state), 2);
    assert_eq!(state.get_host_response(), None);
    assert_eq!(host_call(&mut state, &memory, &params, |_, _, _| Ok(vec![4, 5])), 1);
    assert_eq!(host_error_len(&state), 0);
    assert_eq!(state.get_host_error(), None);
    assert_eq!(state.get_host_response(), Some(&vec![4, 5]));
}

#[test]
fn host_call_hands_the_request_to_the_handler() {
    let (memory, params) = call_memory();
    let mut state = EnvironmentState::new(42, "table".to_string());
    let code = host_call(&mut state, &memory, &params, |id, request, table| {
        assert_eq!(id, 42);
        assert_eq!(table, "table");
        assert_eq!(request.binding, "binding");
        assert_eq!(request.namespace, "ns");
        assert_eq!(request.operation, "op");
        assert_eq!(request.payload, vec![1, 2]);
        Ok(request.payload.clone())
    });
    assert_eq!(code, 1);
    assert_eq!(state.get_host_response(), Some(&vec![1, 2]));
}

#[test]
fn host_call_with_a_region_out_of_bounds_fails() {
    let (memory, mut params) = call_memory();
    params.len = 100;
    let mut state = EnvironmentState::new(1, ());
    let code = host_call(&mut state, &memory, &params, |_, _, _| Ok(vec![1]));
    assert_eq!(code, 0);
    assert_eq!(host_response_len(&state), 0);
    let text = "(TypeError)-Protocol violation: region out of bounds";
    assert_eq!(state.get_host_error().map(|s| s.as_str()), Some(text));
    assert_eq!(host_error_len(&state), text.len() as i32);
}

#[test]
fn host_call_with_a_name_that_is_not_utf8_fails() {
    let (mut memory, params) = call_memory();
    memory[params.ns_ptr as usize] = 0xff;
    let mut state = EnvironmentState::new(1, ());
    let code = host_call(&mut state, &memory, &params, |_, _, _| Ok(vec![1]));
    assert_eq!(code, 0);
    assert_eq!(
        state.get_host_error().map(|s| s.as_str()),
        Some("(TypeError)-Invalid UTF-8 in string argument")
    );
}

#[test]
fn read_request_reports_the_first_region_that_fails() {
    let (mut memory, mut params) = call_memory();
    memory[params.bd_ptr as usize] = 0xff;
    params.op_ptr = -1;
    let e = read_request(&memory, &params).err().unwrap();
    assert_eq!(e.message(), "Invalid UTF-8 in string argument");
    params.ptr = 1000;
    let e = read_request(&memory, &params).err().unwrap();
    assert_eq!(e.message(), "Protocol violation: region out of bounds");
}

#[test]
fn read_request_takes_the_payload_as_bytes() {
    let (mut memory, params) = call_memory();
    memory[params.ptr as usize] = 0xff;
    let request = read_request(&memory, &params).ok().unwrap();
    assert_eq!(request.payload, vec![0xff, 2]);
    assert_eq!(request.operation, "op");
}

#[test]
fn begin_and_complete_make_one_call() {
    let (memory, params) = call_memory();
    let mut state = EnvironmentState::new(1, ());
    assert!(matches!(state.host_call(), HostCall::Idle));
    let request = begin_host_call(&mut state, &memory, &params).unwrap();
    assert_eq!(request.namespace, "ns");
    assert!(matches!(state.host_call(), HostCall::RequestStaged));
    assert_eq!(host_response_len(&state), 0);
    assert_eq!(host_error_len(&state), 0);
    assert_eq!(complete_host_call(&mut state, Ok(vec![5, 6])), 1);
    assert!(matches!(state.host_call(), HostCall::CompletedOk(_)));
    assert_eq!(host_response_len(&state), 2);
    let _ = begin_host_call(&mut state, &memory, &params).unwrap();
    assert_eq!(host_response_len(&state), 0);
    assert_eq!(complete_host_call(&mut state, Err("bad".to_string())), 0);
    assert!(matches!(state.host_call(), HostCall::CompletedErr(_)));
    assert_eq!(host_error_len(&state), 3);
}

#[test]
fn begin_with_a_bad_pointer_ends_the_call() {
    let (memory, mut params) = call_memory();
    params.bd_ptr = -4;
    let mut state = EnvironmentState::new(1, ());
    assert!(begin_host_call(&mut state, &memory, &params).is_none());
    assert!(matches!(state.host_call(), HostCall::CompletedErr(_)));
}

#[test]
fn response_and_error_are_never_both_there() {
    let mut state = EnvironmentState::new(1, ());
    assert!(state.get_host_response().is_none() && state.get_host_error().is_none());
    complete_host_call(&mut state, Ok(vec![1]));
    assert!(state.get_host_response().is_some() && state.get_host_error().is_none());
    complete_host_call(&mut state, Err("e".to_string()));
    assert!(state.get_host_response().is_none() && state.get_host_error().is_some());
    state.set_host_response(vec![2]);
    assert!(state.get_host_response().is_some() && state.get_host_error().is_none());
    state.set_host_error("f".to_string());
    assert!(state.get_host_response().is_none() && state.get_host_error().is_some());
    state.stage_host_call();
    assert!(state.get_host_response().is_none() && state.get_host_error().is_none());
}

#[test]
fn host_response_without_a_response_copies_nothing() {
    let mut memory = [7u8; 8];
    let mut state = EnvironmentState::new(1, ());
    assert!(host_response(&state, &mut memory, 0).is_ok());
    assert!(host_response(&state, &mut memory, 1000).is_ok());
    complete_host_call(&mut state, Err("boom".to_string()));
    assert!(host_response(&state, &mut memory, 0).is_ok());
    assert_eq!(memory, [7u8; 8]);
}

#[test]
fn host_error_without_an_error_copies_nothing() {
    let mut memory = [7u8; 8];
    let mut state = EnvironmentState::new(1, ());
    assert!(host_error(&state, &mut memory, 0).is_ok());
    complete_host_call(&mut state, Ok(vec![1, 2, 3]));
    assert!(host_error(&state, &mut memory, 0).is_ok());
    assert_eq!(memory, [7u8; 8]);
}

#[test]
fn host_response_out_of_bounds_fails_and_copies_nothing() {
    let mut memory = [7u8; 4];
    let mut state = EnvironmentState::new(1, ());
    complete_host_call(&mut state, Ok(vec![1, 2, 3]));
    let e = host_response(&state, &mut memory, 2).err().unwrap();
    assert_eq!(e.message(), "Protocol violation: region out of bounds");
    assert!(host_response(&state, &mut memory, -1).is_err());
    assert_eq!(memory, [7u8; 4]);
    assert!(host_response(&state, &mut memory, 1).is_ok());
    assert_eq!(memory, [7, 1, 2, 3]);
}

#[test]
fn host_error_out_of_bounds_fails_and_copies_nothing() {
    let mut memory = [7u8; 4];
    let mut state = EnvironmentState::new(1, ());
    complete_host_call(&mut state, Err("boom".to_string()));
    assert!(host_error(&state, &mut memory, 1).is_err());
    assert_eq!(memory, [7u8; 4]);
    assert!(host_error(&state, &mut memory, 0).is_ok());
    assert_eq!(&memory, b"boom");
}

#[test]
fn host_error_len_counts_bytes() {
    let mut state = EnvironmentState::new(1, ());
    complete_host_call(&mut state, Err("é!".to_string()));
    assert_eq!(host_error_len(&state), 3);
    complete_host_call(&mut state, Err(String::new()));
    assert_eq!(host_error_len(&state), 0);
    assert!(state.get_host_error().is_some());
}

#[test]
fn host_response_len_of_an_empty_response_is_zero() {
    let mut state = EnvironmentState::new(1, ());
    assert_eq!(host_response_len(&state), 0);
    complete_host_call(&mut state, Ok(Vec::new()));
    assert_eq!(host_response_len(&state), 0);
    assert!(state.get_host_response().is_some());
}

#[test]
fn guest_request_copies_message_and_operation() {
    let mut memory = [0u8; 16];
    let mut state = EnvironmentState::new(1, ());
    state.set_guest_request(Some(Invocation { operation: "run".to_string(), msg: vec![1, 2, 3, 4] }));
    assert!(guest_request(&state, &mut memory, 2, 8).is_ok());
    assert_eq!(&memory[2..5], b"run");
    assert_eq!(&memory[8..12], &[1, 2, 3, 4]);
    assert_eq!(&memory[..2], &[0, 0]);
    assert_eq!(&memory[5..8], &[0, 0, 0]);
    assert_eq!(&memory[12..], &[0, 0, 0, 0]);
    assert!(state.get_guest_request().is_some());
}

#[test]
fn guest_request_writes_the_operation_last() {
    let mut memory = [0u8; 8];
    let mut state = EnvironmentState::new(1, ());
    state.set_guest_request(Some(Invocation { operation: "ab".to_string(), msg: vec![1, 2, 3] }));
    assert!(guest_request(&state, &mut memory, 1, 0).is_ok());
    assert_eq!(&memory[..4], &[1, b'a', b'b', 0]);
}

#[test]
fn guest_request_without_a_request_copies_nothing() {
    let mut memory = [5u8; 4];
    let state = EnvironmentState::new(1, ());
    assert!(guest_request(&state, &mut memory, 0, 0).is_ok());
    assert!(guest_request(&state, &mut memory, -1, 1000).is_ok());
    assert_eq!(memory, [5u8; 4]);
}

#[test]
fn guest_request_out_of_bounds_fails_and_copies_nothing() {
    let mut memory = [5u8; 6];
    let mut state = EnvironmentState::new(1, ());
    state.set_guest_request(Some(Invocation { operation: "run".to_string(), msg: vec![1, 2] }));
    let e = guest_request(&state, &mut memory, 4, 0).err().unwrap();
    assert_eq!(e.message(), "Protocol violation: region out of bounds");
    assert_eq!(memory, [5u8; 6]);
    assert!(guest_request(&state, &mut memory, 0, 5).is_err());
    assert!(guest_request(&state, &mut memory, 0, -1).is_err());
    assert_eq!(memory, [5u8; 6]);
}

#[test]
fn console_log_reads_the_text() {
    let memory = b"..log me..".to_vec();
    assert_eq!(console_log(&memory, 2, 6).ok().unwrap(), "log me");
}

#[test]
fn console_log_rejects_what_is_not_text() {
    let memory = [b'a', 0x80];
    let e = console_log(&memory, 0, 2).err().unwrap();
    assert_eq!(e.class(), "TypeError");
    assert_eq!(e.message(), "Invalid UTF-8 in string argument");
    let e = console_log(&memory, 1, 2).err().unwrap();
    assert_eq!(e.message(), "Protocol violation: region out of bounds");
}

#[test]
fn guest_response_records_the_bytes() {
    let memory = [1u8, 2, 3, 4];
    let mut state = EnvironmentState::new(1, ());
    assert!(state.get_guest_response().is_none());
    assert!(guest_response(&mut state, &memory, 1, 2).is_ok());
    assert_eq!(state.get_guest_response(), Some(&vec![2, 3]));
    assert!(guest_response(&mut state, &memory, 3, 2).is_err());
    assert_eq!(state.get_guest_response(), Some(&vec![2, 3]));
}

#[test]
fn guest_error_records_the_text() {
    let memory = b"xxfailed".to_vec();
    let mut state = EnvironmentState::new(1, ());
    assert!(state.get_guest_error().is_none());
    assert!(guest_error(&mut state, &memory, 2, 6).is_ok());
    assert_eq!(state.get_guest_error().map(|s| s.as_str()), Some("failed"));
    let bad = [0xffu8];
    let e = guest_error(&mut state, &bad, 0, 1).err().unwrap();
    assert_eq!(e.class(), "TypeError");
    assert_eq!(state.get_guest_error().map(|s| s.as_str()), Some("failed"));
}

#[test]
fn new_state_holds_what_it_was_given() {
    let state = EnvironmentState::new(9, 5u8);
    assert_eq!(state.id(), 9);
    assert_eq!(*state.resource_table(), 5);
    assert!(state.get_guest_request().is_none());
    assert!(state.get_guest_response().is_none());
    assert!(state.get_guest_error().is_none());
    assert!(matches!(state.host_call(), HostCall::Idle));
}

#[test]
fn set_guest_request_replaces_the_waiting_request() {
    let mut state = EnvironmentState::new(1, ());
    state.set_guest_request(Some(Invocation { operation: "a".to_string(), msg: vec![1] }));
    state.set_guest_request(Some(Invocation { operation: "b".to_string(), msg: vec![2] }));
    assert_eq!(state.get_guest_request().unwrap().operation, "b");
    state.set_guest_request(None);
    assert!(state.get_guest_request().is_none());
}
