use rubixwasm::arena::{Arena, ArenaError};
use rubixwasm::codec::{bytes_to_text, decode_text, encode_text, text_to_bytes};
use rubixwasm::error::WasmError;
use rubixwasm::export::{publish_result, run_export};
use rubixwasm::generic::{add_three_nums, AddThreeNumsReq};
use rubixwasm::host::{interpret_host_reply, interpret_host_status, pass_host_result, HostError};
use rubixwasm::json::{encode_array, encode_object, JsonField};
use rubixwasm::text::{decimal_string, join_with, radix_string, signed_decimal_string};

#[test]
fn encode_text_quotes_plain_text() {
    assert_eq!(encode_text("hello"), "\"hello\"");
    assert_eq!(encode_text(""), "\"\"");
}

#[test]
fn encode_text_escapes_quotes_and_controls() {
    assert_eq!(encode_text("a\"b"), "\"a\\\"b\"");
    assert_eq!(encode_text("x\ny"), "\"x\\ny\"");
    assert_eq!(encode_text("c:\\d"), "\"c:\\\\d\"");
}

#[test]
fn decode_text_round_trips() {
    for s in ["", "plain", "quote \" inside", "line\nbreak", "{\"a\":1}", "unicode é ✓"] {
        let encoded = encode_text(s);
        assert_eq!(decode_text(&encoded), Some(s.to_string()));
    }
}

#[test]
fn decode_text_rejects_malformed_input() {
    assert_eq!(decode_text("not quoted"), None);
    assert_eq!(decode_text("\"unterminated"), None);
    assert_eq!(decode_text("42"), None);
}

#[test]
fn bytes_to_text_checks_utf8() {
    assert_eq!(bytes_to_text(vec![104, 105]), Some("hi".to_string()));
    assert_eq!(bytes_to_text(vec![0xff, 0xfe]), None);
    assert_eq!(text_to_bytes("é"), vec![0xc3, 0xa9]);
}

#[test]
fn numbers_are_written_in_decimal_and_hex() {
    assert_eq!(decimal_string(0), "0");
    assert_eq!(decimal_string(42), "42");
    assert_eq!(decimal_string(u64::MAX), "18446744073709551615");
    assert_eq!(radix_string(255, 16), "ff");
    assert_eq!(radix_string(4096, 16), "1000");
    assert_eq!(signed_decimal_string(-17), "-17");
    assert_eq!(signed_decimal_string(i64::MIN), "-9223372036854775808");
}

#[test]
fn join_with_puts_separator_between_neighbours() {
    let parts = vec!["a".to_string(), "b".to_string(), "c".to_string()];
    assert_eq!(join_with(&parts, "-"), "a-b-c");
    assert_eq!(join_with(&vec!["only".to_string()], "-"), "only");
    assert_eq!(join_with(&Vec::new(), "-"), "");
}

#[test]
fn objects_and_arrays_are_framed() {
    let fields = vec![
        JsonField::text("name", "x\"y"),
        JsonField::unsigned("n", 7),
        JsonField::signed("m", -3),
        JsonField::flag("ok", true),
        JsonField::optional_text("c", &None),
    ];
    assert_eq!(encode_object(&fields), "{\"name\":\"x\\\"y\",\"n\":7,\"m\":-3,\"ok\":true,\"c\":null}");
    assert_eq!(encode_object(&Vec::new()), "{}");
    assert_eq!(encode_array(&vec!["1".to_string(), "2".to_string()]), "[1,2]");
    assert_eq!(encode_array(&Vec::new()), "[]");
}

#[test]
fn arena_allocates_fresh_blocks() {
    let mut arena = Arena::new();
    let a = arena.allocate(3).unwrap();
    let b = arena.allocate(0).unwrap();
    let c = arena.allocate(2).unwrap();
    assert_eq!(a, 0);
    assert_eq!(b, 3);
    assert_eq!(c, 4);
    assert_eq!(arena.read(a), Some(vec![0, 0, 0]));
    assert_eq!(arena.write(a, vec![1, 2, 3]), Ok(()));
    assert_eq!(arena.read(a), Some(vec![1, 2, 3]));
}

#[test]
fn arena_refuses_double_release() {
    let mut arena = Arena::new();
    let a = arena.allocate(4).unwrap();
    assert_eq!(arena.release(a, 4), Ok(()));
    assert_eq!(arena.release(a, 4), Err(ArenaError::NotAllocated));
    assert_eq!(arena.read(a), None);
    let b = arena.allocate(4).unwrap();
    assert_ne!(a, b);
}

#[test]
fn arena_refuses_wrong_sizes() {
    let mut arena = Arena::new();
    let a = arena.allocate(4).unwrap();
    assert_eq!(arena.release(a, 5), Err(ArenaError::SizeMismatch));
    assert_eq!(arena.write(a, vec![1]), Err(ArenaError::LengthMismatch));
    assert_eq!(arena.write(99, vec![1]), Err(ArenaError::NotAllocated));
    assert_eq!(arena.release(a, 4), Ok(()));
}

#[test]
fn success_is_published_double_encoded() {
    let mut arena = Arena::new();
    let r = publish_result(&mut arena, Ok("{\"result\":\"hi\"}".to_string()));
    assert_eq!(r.status, 0);
    let p = r.output.unwrap();
    let bytes = arena.read(p.addr).unwrap();
    assert_eq!(bytes.len(), p.len);
    let once = bytes_to_text(bytes).unwrap();
    assert_eq!(once, "\"{\\\"result\\\":\\\"hi\\\"}\"");
    assert_eq!(decode_text(&once), Some("{\"result\":\"hi\"}".to_string()));
    assert_eq!(arena.release(p.addr, p.len), Ok(()));
}

#[test]
fn failure_is_published_single_encoded() {
    let mut arena = Arena::new();
    let r = publish_result(&mut arena, Err(WasmError::from_text("boom")));
    assert_eq!(r.status, 1);
    let p = r.output.unwrap();
    let once = bytes_to_text(arena.read(p.addr).unwrap()).unwrap();
    assert_eq!(decode_text(&once), Some("boom".to_string()));
}

#[test]
fn decode_failure_publishes_nothing() {
    let mut arena = Arena::new();
    let mut called = false;
    let r = run_export(&mut arena, None::<AddThreeNumsReq>, |req| {
        called = true;
        add_three_nums(req)
    });
    assert_eq!(r.status, 1);
    assert!(r.output.is_none());
    assert!(!called);
    assert_eq!(arena.allocate(1), Ok(0));
}

#[test]
fn run_export_publishes_the_business_result() {
    let mut arena = Arena::new();
    let r = run_export(&mut arena, Some(AddThreeNumsReq { a: 1, b: 2, c: 3 }), add_three_nums);
    assert_eq!(r.status, 0);
    let p = r.output.unwrap();
    assert_eq!(arena.read(p.addr).unwrap(), b"\"6\"".to_vec());
    let r = run_export(&mut arena, Some(AddThreeNumsReq { a: 1, b: 0, c: 3 }), add_three_nums);
    assert_eq!(r.status, 1);
    let p = r.output.unwrap();
    let once = bytes_to_text(arena.read(p.addr).unwrap()).unwrap();
    assert_eq!(decode_text(&once), Some("Parameter 'b' cannot be zero".to_string()));
}

#[test]
fn host_reply_nonzero_status_fails() {
    assert_eq!(interpret_host_reply(7, Some(b"ok".to_vec())), Err(HostError::HostReturnedCode(7)));
    assert_eq!(interpret_host_reply(-2, None), Err(HostError::HostReturnedCode(-2)));
    assert_eq!(HostError::HostReturnedCode(-2).message(), "Host function returned error code -2");
}

#[test]
fn host_reply_null_response_fails() {
    assert_eq!(interpret_host_reply(0, None), Err(HostError::NullResponse));
    assert_eq!(HostError::NullResponse.message(), "Response pointer is null");
    let passed = pass_host_result(interpret_host_reply(0, None));
    assert_eq!(passed.unwrap_err().msg, "Response pointer is null");
}

#[test]
fn host_reply_must_be_utf8() {
    assert_eq!(interpret_host_reply(0, Some(vec![0xc3])), Err(HostError::InvalidUtf8));
    assert_eq!(HostError::InvalidUtf8.message(), "Invalid UTF-8 response");
    assert_eq!(interpret_host_reply(0, Some(b"done".to_vec())), Ok("done".to_string()));
    assert_eq!(interpret_host_reply(0, Some(Vec::new())), Ok(String::new()));
}

#[test]
fn host_status_only_calls() {
    assert_eq!(interpret_host_status(0), Ok(()));
    assert_eq!(interpret_host_status(3), Err(HostError::HostReturnedCode(3)));
}
