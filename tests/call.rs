use wasmlanche_sdk::host::{call, prepare_call, CallRequest};
use wasmlanche_sdk::memory::{EncodingError, StagingArea};
use wasmlanche_sdk::program::Program;
use wasmlanche_sdk::recording::RecordingBridge;

#[test]
fn call_add_returns_host_result() {
    let mut bridge = RecordingBridge::new(42);
    let mut mem = StagingArea::new(1024);
    let caller = Program::new(1);
    let target = Program::new(2);
    let r = call(&mut bridge, &mut mem, &caller, &target, 1000, "add", &[0x01, 0x02]);
    assert_eq!(r, Ok(42));
    assert_eq!(bridge.invocation_count(), 1);
    let req = bridge.last_request().unwrap();
    assert_eq!(mem.decode_id(req.caller), Some(1));
    assert_eq!(mem.decode_id(req.target), Some(2));
    assert_eq!(req.max_units, 1000);
    assert_eq!(mem.decode(req.function), Some(b"add".to_vec()));
    assert_eq!(mem.decode(req.args), Some(vec![0x01, 0x02]));
}

#[test]
fn call_request_pointers_follow_staging_order() {
    let mut bridge = RecordingBridge::new(0);
    let mut mem = StagingArea::new(1024);
    let r = call(&mut bridge, &mut mem, &Program::new(1), &Program::new(2), 1000, "add", &[1, 2]);
    assert_eq!(r, Ok(0));
    let expected = CallRequest {
        caller: 8,
        target: (8i64 << 32) | 8,
        max_units: 1000,
        function: (16i64 << 32) | 3,
        args: (19i64 << 32) | 2,
    };
    assert_eq!(bridge.last_request(), Some(expected));
    assert_eq!(mem.len(), 21);
}

#[test]
fn oversized_args_fail_without_host_call() {
    let mut bridge = RecordingBridge::new(42);
    let mut mem = StagingArea::new(20);
    let r = call(&mut bridge, &mut mem, &Program::new(1), &Program::new(2), 1000, "add", &[0x01, 0x02]);
    assert_eq!(r, Err(EncodingError::StagingExhausted));
    assert_eq!(bridge.invocation_count(), 0);
    assert_eq!(bridge.last_request(), None);
    assert_eq!(mem.len(), 0);
}

#[test]
fn failure_on_first_value_makes_no_host_call() {
    let mut bridge = RecordingBridge::new(42);
    let mut mem = StagingArea::new(0);
    let r = call(&mut bridge, &mut mem, &Program::new(1), &Program::new(2), 10, "f", &[]);
    assert_eq!(r, Err(EncodingError::StagingExhausted));
    assert_eq!(bridge.invocation_count(), 0);
}

#[test]
fn failure_keeps_earlier_staged_bytes() {
    let mut bridge = RecordingBridge::new(42);
    let mut mem = StagingArea::new(30);
    mem.encode(&[9, 9, 9]).unwrap();
    let r = call(&mut bridge, &mut mem, &Program::new(1), &Program::new(2), 10, "name", &[1; 10]);
    assert_eq!(r, Err(EncodingError::StagingExhausted));
    assert_eq!(mem.as_slice(), &[9, 9, 9]);
    assert_eq!(bridge.invocation_count(), 0);
}

#[test]
fn host_result_passes_through_unchanged() {
    for reply in [-7i64, 0, i64::MIN, i64::MAX] {
        let mut bridge = RecordingBridge::new(reply);
        let mut mem = StagingArea::new(64);
        let r = call(&mut bridge, &mut mem, &Program::new(3), &Program::new(4), 5, "run", &[]);
        assert_eq!(r, Ok(reply));
    }
}

#[test]
fn budget_passes_through_unchanged() {
    for budget in [0i64, 1, 1000, i64::MAX] {
        let mut bridge = RecordingBridge::new(1);
        let mut mem = StagingArea::new(64);
        call(&mut bridge, &mut mem, &Program::new(3), &Program::new(4), budget, "run", &[]).unwrap();
        assert_eq!(bridge.last_request().unwrap().max_units, budget);
    }
}

#[test]
fn repeated_calls_are_each_recorded() {
    let mut bridge = RecordingBridge::new(5);
    let mut mem = StagingArea::new(256);
    call(&mut bridge, &mut mem, &Program::new(1), &Program::new(2), 10, "a", &[1]).unwrap();
    mem.reset();
    call(&mut bridge, &mut mem, &Program::new(1), &Program::new(3), 20, "b", &[2, 3]).unwrap();
    assert_eq!(bridge.invocation_count(), 2);
    let req = bridge.last_request().unwrap();
    assert_eq!(mem.decode_id(req.target), Some(3));
    assert_eq!(mem.decode(req.function), Some(b"b".to_vec()));
    assert_eq!(req.max_units, 20);
}

#[test]
fn multibyte_function_name_is_staged_as_utf8() {
    let mut bridge = RecordingBridge::new(0);
    let mut mem = StagingArea::new(64);
    call(&mut bridge, &mut mem, &Program::new(1), &Program::new(2), 1, "a\u{f1}adir", &[]).unwrap();
    let req = bridge.last_request().unwrap();
    assert_eq!(mem.decode(req.function), Some("a\u{f1}adir".as_bytes().to_vec()));
}

#[test]
fn program_handles_compare_by_id() {
    let a = Program::new(7);
    assert_eq!(a.id(), 7);
    assert_eq!(a, Program::new(7));
    assert_ne!(a, Program::new(8));
    assert_eq!(Program::new(-3).id(), -3);
}

#[test]
fn prepare_call_builds_exact_request() {
    let mut mem = StagingArea::new(64);
    mem.encode(&[0xff; 4]).unwrap();
    let req = prepare_call(&mut mem, &Program::new(-1), &Program::new(9), 77, "go", &[5]).unwrap();
    assert_eq!(
        req,
        CallRequest {
            caller: (4i64 << 32) | 8,
            target: (12i64 << 32) | 8,
            max_units: 77,
            function: (20i64 << 32) | 2,
            args: (22i64 << 32) | 1,
        }
    );
    assert_eq!(mem.decode_id(req.caller), Some(-1));
    assert_eq!(mem.decode_id(req.target), Some(9));
    assert_eq!(mem.decode(req.function), Some(b"go".to_vec()));
    assert_eq!(mem.decode(req.args), Some(vec![5]));
    assert_eq!(mem.len(), 23);
}

#[test]
fn prepare_call_reports_exhausted_staging() {
    let mut mem = StagingArea::new(18);
    let r = prepare_call(&mut mem, &Program::new(1), &Program::new(2), 1, "add", &[]);
    assert_eq!(r, Err(EncodingError::StagingExhausted));
    assert_eq!(mem.len(), 0);
    let mut roomy = StagingArea::new(19);
    assert!(prepare_call(&mut roomy, &Program::new(1), &Program::new(2), 1, "add", &[]).is_ok());
    assert_eq!(roomy.len(), 19);
}
