use uomi_host::capability::{
    conclude, console_log, deliver, get_input_data, read_cid, read_region, set_output, write_envelope,
    HostState,
};
use uomi_host::codec::extract_wasm_data;
use uomi_host::config::{ApiConfig, IpfsConfig, ModelConfig, UomiConfig};
use uomi_host::error::{HostError, ServiceError};
use uomi_host::message::{prepare_request, process_messages, system_message, Message};
use uomi_host::retry::{next_step, AttemptOutcome, RetryStep};
use uomi_host::service::{build_inference_request, decode_inference_input, RequestBody};

#[test]
fn regions_are_bounds_checked() {
    let mem = b"0123456789".to_vec();
    assert_eq!(read_region(&mem, 2, 3), Ok(b"234".to_vec()));
    assert_eq!(read_region(&mem, 10, 0), Ok(vec![]));
    assert_eq!(read_region(&mem, 8, 3), Err(HostError::OutOfBounds));
    assert_eq!(read_region(&mem, -1, 1), Err(HostError::OutOfBounds));
    assert_eq!(read_region(&mem, 0, -1), Err(HostError::OutOfBounds));
    assert_eq!(read_region(&mem, i32::MAX, i32::MAX), Err(HostError::OutOfBounds));
}

#[test]
fn envelope_writes_respect_capacity_and_memory() {
    let mut mem = vec![0xaa; 12];
    assert_eq!(write_envelope(&mut mem, 2, 8, b"xyz"), Ok(()));
    assert_eq!(mem, vec![0xaa, 0xaa, 3, 0, 0, 0, b'x', b'y', b'z', 0xaa, 0xaa, 0xaa]);
    let before = mem.clone();
    assert_eq!(write_envelope(&mut mem, 0, 6, b"xyz"), Err(HostError::InsufficientCapacity));
    assert_eq!(write_envelope(&mut mem, 0, -5, b""), Err(HostError::OutOfBounds));
    assert_eq!(write_envelope(&mut mem, 10, 2, b""), Err(HostError::InsufficientCapacity));
    assert_eq!(write_envelope(&mut mem, 6, 100, b"xyz"), Err(HostError::OutOfBounds));
    assert_eq!(mem, before);
}

#[test]
fn delivered_results_are_framed_or_refused() {
    let mut mem = vec![0u8; 10];
    assert_eq!(deliver(&mut mem, 1, 9, Ok(b"abc".to_vec())), Ok(()));
    assert_eq!(mem, vec![0, 3, 0, 0, 0, b'a', b'b', b'c', 0, 0]);
    let before = mem.clone();
    assert_eq!(deliver(&mut mem, 0, 6, Ok(b"abc".to_vec())), Err(HostError::InsufficientCapacity));
    assert_eq!(deliver(&mut mem, 5, 7, Ok(b"abc".to_vec())), Err(HostError::OutOfBounds));
    assert_eq!(deliver(&mut mem, -1, 7, Ok(vec![])), Err(HostError::OutOfBounds));
    assert_eq!(mem, before);
}

#[test]
fn declared_capacity_must_lie_in_memory() {
    let mut mem = vec![0u8; 8];
    assert_eq!(write_envelope(&mut mem, 0, 1000, b"ab"), Err(HostError::OutOfBounds));
    assert_eq!(write_envelope(&mut mem, 2, 7, b"ab"), Err(HostError::OutOfBounds));
    assert_eq!(mem, vec![0u8; 8]);
    let state = HostState::new(b"ab".to_vec());
    assert_eq!(get_input_data(&state, &mut mem, 0, 1000), Err(HostError::OutOfBounds));
    assert_eq!(deliver(&mut mem, 0, 1000, Ok(b"ab".to_vec())), Err(HostError::OutOfBounds));
    assert_eq!(mem, vec![0u8; 8]);
    assert_eq!(get_input_data(&state, &mut mem, 2, 6), Ok(()));
    assert_eq!(mem, vec![0, 0, 2, 0, 0, 0, b'a', b'b']);
}

#[test]
fn log_drops_invalid_utf8() {
    let mem = vec![b'h', b'i', 0xff, 0xfe];
    assert_eq!(console_log(&mem, 0, 2), Ok(Some("hi".to_string())));
    assert_eq!(console_log(&mem, 1, 3), Ok(None));
    assert_eq!(console_log(&mem, 3, 2), Err(HostError::OutOfBounds));
}

#[test]
fn output_replaces_input_and_last_call_wins() {
    let mem = b"firstsecond".to_vec();
    let mut state = HostState::new(b"input".to_vec());
    assert_eq!(conclude(state.clone(), None), Ok(b"input".to_vec()));
    assert_eq!(set_output(&mut state, &mem, 0, 5), Ok(()));
    assert_eq!(set_output(&mut state, &mem, 5, 6), Ok(()));
    assert_eq!(set_output(&mut state, &mem, 5, 60), Err(HostError::OutOfBounds));
    assert_eq!(conclude(state, None), Ok(b"second".to_vec()));
}

#[test]
fn input_data_needs_room_for_header() {
    let state = HostState::new(b"abcd".to_vec());
    let mut mem = vec![0u8; 16];
    assert_eq!(get_input_data(&state, &mut mem, 0, 7), Err(HostError::InsufficientCapacity));
    assert_eq!(get_input_data(&state, &mut mem, 0, 8), Ok(()));
    assert_eq!(extract_wasm_data(&mem[..8]), Ok(b"abcd".to_vec()));
}

#[test]
fn sequential_runs_see_only_their_own_input() {
    let mut first = HostState::new(b"run one".to_vec());
    let mut mem = vec![0u8; 64];
    assert_eq!(get_input_data(&first, &mut mem, 0, 64), Ok(()));
    mem[20..25].copy_from_slice(b"OUT-1");
    assert_eq!(set_output(&mut first, &mem, 20, 5), Ok(()));
    assert_eq!(conclude(first, None), Ok(b"OUT-1".to_vec()));

    let second = HostState::new(b"two".to_vec());
    let mut mem2 = vec![0u8; 64];
    assert_eq!(get_input_data(&second, &mut mem2, 0, 64), Ok(()));
    assert_eq!(extract_wasm_data(&mem2), Ok(b"two".to_vec()));
}

#[test]
fn cid_must_be_text() {
    let mem = b"bafk\xff".to_vec();
    assert_eq!(read_cid(&mem, 0, 4), Ok("bafk".to_string()));
    assert_eq!(read_cid(&mem, 0, 5), Err(HostError::EncodingError));
    assert_eq!(read_cid(&mem, 0, 6), Err(HostError::OutOfBounds));
}

#[test]
fn missing_local_file_fails_the_run_with_its_error() {
    let mut state = HostState::new(b"in".to_vec());
    let mut mem = vec![0u8; 16];
    let missing = ServiceError::FileNotFound("/nowhere/input.txt".to_string());
    let r = deliver(&mut mem, 0, 16, Err(missing.clone()));
    assert_eq!(r, Err(HostError::Service(missing.clone())));
    assert_eq!(mem, vec![0u8; 16]);
    state.record_failure(r.unwrap_err());
    state.record_failure(HostError::Trap("later".to_string()));
    assert_eq!(
        conclude(state, Some("host function failed".to_string())),
        Err(HostError::Service(missing))
    );
    assert_eq!(
        conclude(HostState::new(vec![]), Some("unreachable".to_string())),
        Err(HostError::Trap("unreachable".to_string()))
    );
}

#[test]
fn end_to_end_conversation_reaches_the_default_model() {
    let config = UomiConfig {
        local_file_path: "input.txt".to_string(),
        api: ApiConfig::with_defaults(),
        models: vec![("1".to_string(), ModelConfig { name: "default".to_string(), url: None, api_key: None })],
        ipfs: IpfsConfig::with_defaults(),
    };
    let input = b"[{\"role\":\"user\",\"content\":\"hi\"}]".to_vec();
    let mut state = HostState::new(input.clone());
    let mut mem = vec![0u8; 1024];

    // The guest reads its input.
    assert_eq!(get_input_data(&state, &mut mem, 0, 512), Ok(()));
    assert_eq!(extract_wasm_data(&mem[..512]).unwrap(), input);

    // It prepends the system message and forwards the conversation.
    let conversation = process_messages(
        system_message("Your name is UOMI Agent".to_string()),
        vec![Message { role: "user".to_string(), content: "hi".to_string() }],
    );
    assert_eq!(conversation.len(), 2);
    let body = "{\"messages\": [{\"role\":\"system\",\"content\":\"Your name is UOMI Agent\"},{\"role\":\"user\",\"content\":\"hi\"}]}";
    let request = prepare_request(body);
    mem[600..600 + request.len()].copy_from_slice(&request);

    // The host reads the request and plans the call for model 1.
    let bytes = read_region(&mem, 600, request.len() as i32).unwrap();
    let (index, text) = decode_inference_input(&config, 1, &bytes).unwrap();
    let req = build_inference_request(&config, index, text, conversation).unwrap();
    assert_eq!(req.url, "http://localhost:8888/run");
    assert!(matches!(req.body, RequestBody::Plain { ref input, .. } if input == body));

    // The mocked backend answers at once.
    let reply = b"{\"response\":\"Hello, I am UOMI Agent\"}".to_vec();
    let answer = match next_step(0, req.retry_attempts, AttemptOutcome::Success(reply.clone())) {
        RetryStep::Done(b) => Ok(b),
        RetryStep::Fail(e) => Err(e),
        RetryStep::RetryAfterDelay => panic!("no retry expected"),
    };
    assert_eq!(deliver(&mut mem, 0, 512, answer), Ok(()));

    // The guest takes the answer as its output.
    let got = extract_wasm_data(&mem[..512]).unwrap();
    mem[700..700 + got.len()].copy_from_slice(&got);
    assert_eq!(set_output(&mut state, &mem, 700, got.len() as i32), Ok(()));
    assert_eq!(conclude(state, None), Ok(reply));
}
