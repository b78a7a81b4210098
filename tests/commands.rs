use upstash_redis_rs::batch::{Pipeline, Transaction};
use upstash_redis_rs::command::{Command, ReCmd};
use upstash_redis_rs::commands::{
    ExistsCommand, GetdelCommand, HdelCommand, HgetCommand, IncrCommand, IncrbyfloatCommand,
    SpopCommand, StrlenCommand, XdelCommand,
};
use upstash_redis_rs::error::ReError;
use upstash_redis_rs::response::{decode_usize_response, ReResponse};
use upstash_redis_rs::wire::WireValue;

fn s(x: &str) -> WireValue {
    WireValue::from_str(x)
}

fn is_str(v: &WireValue, x: &str) -> bool {
    matches!(v, WireValue::Str(t) if t == x)
}

fn is_num(v: &WireValue, n: u64) -> bool {
    matches!(v, WireValue::UInt(m) if *m == n) || matches!(v, WireValue::Int(m) if *m >= 0 && *m as u64 == n)
}

#[test]
fn descriptor_has_name_then_arguments() {
    let mut cmd = ReCmd::new("HSET");
    cmd.add_arg(s("Key"));
    cmd.add_pair(s("field"), s("VALUE"));
    let e = cmd.elems();
    assert_eq!(e.len(), 4);
    assert_eq!(cmd.len(), 4);
    assert!(is_str(&e[0], "HSET"));
    assert!(is_str(&e[1], "Key"));
    assert!(is_str(&e[2], "field"));
    assert!(is_str(&e[3], "VALUE"));
}

#[test]
fn descriptor_with_args_keeps_order() {
    let cmd = ReCmd::with_args("MSET", vec![s("a"), s("1"), s("b"), WireValue::from_u64(2)]);
    let e = cmd.elems();
    assert_eq!(e.len(), 5);
    assert!(is_str(&e[0], "MSET"));
    assert!(is_str(&e[1], "a"));
    assert!(is_str(&e[2], "1"));
    assert!(is_str(&e[3], "b"));
    assert!(is_num(&e[4], 2));
}

#[test]
fn descriptor_without_arguments() {
    let cmd = ReCmd::with_args("PING", vec![]);
    assert_eq!(cmd.len(), 1);
    assert!(is_str(&cmd.elems()[0], "PING"));
}

#[test]
fn exists_two_keys_descriptor_and_result() {
    let mut cmd = ExistsCommand::new(s("k1"));
    cmd.add_key(s("missing"));
    let e = cmd.as_cmd().elems();
    assert_eq!(e.len(), 3);
    assert!(is_str(&e[0], "EXISTS"));
    assert!(is_str(&e[1], "k1"));
    assert!(is_str(&e[2], "missing"));
    let r = cmd.json_to_output(ReResponse::Result(WireValue::from_u64(1)));
    assert_eq!(r, Ok(1));
}

#[test]
fn exists_add_keys_appends_in_order() {
    let mut cmd = ExistsCommand::new(s("a"));
    cmd.add_keys(vec![s("b"), s("c")]);
    let e = cmd.as_cmd().elems();
    assert_eq!(e.len(), 4);
    assert!(is_str(&e[2], "b"));
    assert!(is_str(&e[3], "c"));
}

#[test]
fn hdel_missing_field_and_missing_key_give_zero() {
    let mut cmd = HdelCommand::new(s("h"), s("nofield"));
    cmd.add_field(s("other"));
    assert_eq!(cmd.as_cmd().len(), 4);
    assert_eq!(cmd.json_to_output(ReResponse::Result(WireValue::from_u64(0))), Ok(0));
    let cmd2 = HdelCommand::new(s("nokey"), s("f"));
    assert_eq!(cmd2.json_to_output(ReResponse::Result(WireValue::from_i64(0))), Ok(0));
}

#[test]
fn getdel_missing_key_is_absent() {
    let cmd = GetdelCommand::new(s("missing"));
    let r = cmd.json_to_output(ReResponse::Result(WireValue::Null));
    assert_eq!(r, Ok(None));
    let present = cmd.json_to_output(ReResponse::Result(s("")));
    assert_eq!(present, Ok(Some(String::new())));
}

#[test]
fn hget_present_field() {
    let cmd = HgetCommand::new(s("h"), s("f"));
    assert_eq!(cmd.json_to_output(ReResponse::Result(s("v"))), Ok(Some("v".to_string())));
}

#[test]
fn incrbyfloat_returns_string() {
    let cmd = IncrbyfloatCommand::new(s("k"), s("0.1"));
    let e = cmd.as_cmd().elems();
    assert!(is_str(&e[0], "INCRBYFLOAT"));
    assert!(is_str(&e[2], "0.1"));
    let r = cmd.json_to_output(ReResponse::Result(s("10.6")));
    assert_eq!(r, Ok("10.6".to_string()));
}

#[test]
fn spop_add_count_appends_number() {
    let mut cmd = SpopCommand::new(s("set"));
    cmd.add_count(3);
    let e = cmd.as_cmd().elems();
    assert_eq!(e.len(), 3);
    assert!(is_str(&e[0], "SPOP"));
    assert!(is_num(&e[2], 3));
}

#[test]
fn xdel_add_id_appends() {
    let mut cmd = XdelCommand::new(s("stream"), s("1-0"));
    cmd.add_id(s("2-0"));
    let e = cmd.as_cmd().elems();
    assert_eq!(e.len(), 4);
    assert!(is_str(&e[3], "2-0"));
}

#[test]
fn set_options_with_arg_appends_pair() {
    let mut cmd = SpopCommand::new(s("set"));
    cmd.set_options_with_arg(s("A"), s("B"));
    let e = cmd.as_cmd().elems();
    assert_eq!(e.len(), 4);
    assert!(is_str(&e[2], "A"));
    assert!(is_str(&e[3], "B"));
}

#[test]
fn remote_error_is_reported() {
    let cmd = IncrCommand::new(s("k"));
    let r = cmd.json_to_output(ReResponse::Error("ERR value is not an integer".to_string()));
    assert_eq!(r, Err(ReError::Remote("ERR value is not an integer".to_string())));
}

#[test]
fn wrong_shape_is_decode_error() {
    let cmd = StrlenCommand::new(s("k"));
    assert_eq!(cmd.json_to_output(ReResponse::Result(s("3"))), Err(ReError::Decode));
    assert_eq!(cmd.json_to_output(ReResponse::Result(WireValue::from_i64(-1))), Err(ReError::Decode));
    let g = GetdelCommand::new(s("k"));
    assert_eq!(g.json_to_output(ReResponse::Result(WireValue::from_bool(true))), Err(ReError::Decode));
    let f = IncrbyfloatCommand::new(s("k"), s("1"));
    assert_eq!(f.json_to_output(ReResponse::Result(WireValue::Null)), Err(ReError::Decode));
}

#[test]
fn round_trip_primitives() {
    assert_eq!(WireValue::from_usize(42).to_usize(), Ok(42));
    assert_eq!(WireValue::from_u64(0).to_usize(), Ok(0));
    assert_eq!(WireValue::from_i64(-7).to_i64(), Ok(-7));
    assert_eq!(WireValue::from_i64(i64::MIN).to_i64(), Ok(i64::MIN));
    assert_eq!(WireValue::from_bool(false).to_bool(), Ok(false));
    assert_eq!(WireValue::from_string("héllo".to_string()).to_string_value(), Ok("héllo".to_string()));
    assert_eq!(WireValue::from_opt_string(None).to_opt_string(), Ok(None));
    assert_eq!(WireValue::from_opt_string(Some("x".to_string())).to_opt_string(), Ok(Some("x".to_string())));
    assert_eq!(WireValue::from_u64(u64::MAX).to_i64(), Err(ReError::Decode));
}

#[test]
fn envelope_helpers() {
    let ok: ReResponse<WireValue> = ReResponse::Result(WireValue::from_u64(5));
    assert!(!ok.is_error());
    assert_eq!(decode_usize_response(ok), Ok(5));
    let err: ReResponse<u8> = ReResponse::Error("boom".to_string());
    assert!(err.is_error());
    assert_eq!(err.into_result(), Err(ReError::Remote("boom".to_string())));
}

#[test]
fn pipeline_incr_then_strlen_in_order() {
    let mut p = Pipeline::new();
    p.add_cmd(IncrCommand::new(s("x")).into_cmd());
    p.add_cmd(StrlenCommand::new(s("missing")).into_cmd());
    assert_eq!(p.len(), 2);
    assert!(is_str(&p.cmds()[0].elems()[0], "INCR"));
    assert!(is_str(&p.cmds()[1].elems()[0], "STRLEN"));
    assert_eq!(Pipeline::path(), "/pipeline");
    let resp = vec![
        ReResponse::Result(WireValue::from_u64(1)),
        ReResponse::Result(WireValue::from_u64(0)),
    ];
    let out = p.accept_response(resp).unwrap();
    assert_eq!(out.len(), 2);
    assert!(matches!(&out[0], ReResponse::Result(v) if is_num(v, 1)));
    assert!(matches!(&out[1], ReResponse::Result(v) if is_num(v, 0)));
}

#[test]
fn pipeline_keeps_failed_entries() {
    let mut p = Pipeline::new();
    p.add_cmds(vec![ReCmd::new("INCR"), ReCmd::new("GET")]);
    let resp = vec![ReResponse::Error("ERR".to_string()), ReResponse::Result(WireValue::Null)];
    let out = p.accept_response(resp).unwrap();
    assert!(out[0].is_error());
    assert!(!out[1].is_error());
    let short = p.accept_response(vec![ReResponse::Result(WireValue::Null)]);
    assert_eq!(short.unwrap_err(), ReError::Decode);
}

#[test]
fn transaction_outer_error_has_no_entries() {
    let mut t = Transaction::new();
    t.add_cmd(ReCmd::new("INCR"));
    assert_eq!(Transaction::path(), "/multi-exec");
    let r = t.accept_response(ReResponse::Error("EXECABORT".to_string()));
    assert_eq!(r.unwrap_err(), ReError::Remote("EXECABORT".to_string()));
}

#[test]
fn transaction_outer_result_one_entry_per_command() {
    let mut t = Transaction::new();
    t.add_cmds(vec![ReCmd::new("INCR"), ReCmd::new("STRLEN")]);
    assert_eq!(t.len(), 2);
    let inner = vec![ReResponse::Result(WireValue::from_u64(1)), ReResponse::Error("ERR".to_string())];
    let out = t.accept_response(ReResponse::Result(inner)).unwrap();
    assert_eq!(out.len(), 2);
    assert!(out[1].is_error());
    let bad = t.accept_response(ReResponse::Result(vec![]));
    assert_eq!(bad.unwrap_err(), ReError::Decode);
}
