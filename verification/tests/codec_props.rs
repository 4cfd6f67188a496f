use libsql_bridge::BridgeError;
use libsql_bridge::NativeValue;
use libsql_bridge::Value;

#[test]
fn round_trip_null() {
    let v = Value::Null;
    assert_eq!(v.clone().into_native().into_boundary(), v);
}

#[test]
fn round_trip_integer() {
    let v = Value::Integer(-42);
    assert_eq!(v.clone().into_native().into_boundary(), v);
    assert_eq!(v.clone().into_native(), NativeValue::Integer(-42));
}

#[test]
fn round_trip_real_preserves_bits() {
    let bits = f64::to_bits(1.5);
    let v = Value::Real(bits);
    let back = v.clone().into_native().into_boundary();
    assert_eq!(back, v);
    match back {
        Value::Real(b) => assert_eq!(f64::from_bits(b), 1.5),
        _ => panic!("tag changed through the round trip"),
    }
}

#[test]
fn round_trip_text() {
    let v = Value::Text(String::from("hello"));
    assert_eq!(v.clone().into_native().into_boundary(), v);
}

#[test]
fn round_trip_blob() {
    let v = Value::Blob(vec![0u8, 1, 2, 255]);
    assert_eq!(v.clone().into_native().into_boundary(), v);
}

#[test]
fn native_round_trip_all_kinds() {
    let natives = vec![
        NativeValue::Null,
        NativeValue::Integer(7),
        NativeValue::Real(f64::to_bits(-0.25)),
        NativeValue::Text(String::from("abc")),
        NativeValue::Blob(vec![9u8, 8, 7]),
    ];
    for n in natives {
        assert_eq!(n.clone().into_boundary().into_native(), n);
    }
}

#[test]
fn tags_are_preserved_exactly() {
    // An integer never silently becomes a real, and the other way round.
    assert_eq!(Value::Integer(1).into_native(), NativeValue::Integer(1));
    let bits = f64::to_bits(1.0);
    assert_eq!(Value::Real(bits).into_native(), NativeValue::Real(bits));
}

#[test]
fn from_native_presents_boundary_value() {
    let v = Value::from(NativeValue::Text(String::from("x")));
    assert_eq!(v, Value::Text(String::from("x")));
}

#[test]
fn error_messages_name_the_failure() {
    let e = BridgeError::HandleNotFound(String::from("abc"));
    assert_eq!(e.message(), "connection handle not found: abc");
    let e = BridgeError::StorageOpenError(String::from("bad path"));
    assert_eq!(e.message(), "failed to open the storage target: bad path");
    let e = BridgeError::InvalidParameter(3, String::from("bad blob"));
    assert_eq!(e.message(), "invalid parameter: bad blob");
    let e = BridgeError::ExecutionFailed(String::from("syntax error"));
    assert_eq!(e.message(), "statement execution failed: syntax error");
    let e = BridgeError::SyncFailed(String::from("offline"));
    assert_eq!(e.message(), "replication sync failed: offline");
}

#[test]
fn ping_echoes_value() {
    let response = libsql_bridge::ping(libsql_bridge::PingRequest {
        value: Some(String::from("pong")),
    });
    assert_eq!(response.value, Some(String::from("pong")));
    let response = libsql_bridge::ping(libsql_bridge::PingRequest { value: None });
    assert_eq!(response.value, None);
}
