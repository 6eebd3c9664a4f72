use frb_codegen::time::{api2wire_time, wire2api_time, DecodedTime};

#[test]
fn io_wire2api() {
    // input in microseconds
    let input: i64 = 3_496_567_123;
    let t = wire2api_time(input, 1_000_000);
    assert_eq!(t.seconds, 3_496);
    assert_eq!(t.subsec_nanos, 567_123_000);
}

#[test]
fn wasm_wire2api() {
    // input in milliseconds
    let input: i64 = 3_496_567;
    let t = wire2api_time(input, 1_000);
    assert_eq!(t.seconds, 3_496);
    assert_eq!(t.subsec_nanos, 567_000_000);
}

#[test]
fn decode_then_encode_restores_the_wire_value() {
    let v: i64 = 3_496_567_123;
    let t = wire2api_time(v, 1_000_000);
    assert_eq!(api2wire_time(t, 1_000_000), v);

    let v: i64 = 987_654;
    let t = wire2api_time(v, 1_000);
    assert_eq!(api2wire_time(t, 1_000), v);

    let v: i64 = 0;
    let t = wire2api_time(v, 1_000_000);
    assert_eq!(t, DecodedTime { seconds: 0, subsec_nanos: 0 });
    assert_eq!(api2wire_time(t, 1_000_000), 0);
}

#[test]
fn negative_instants_decode_to_non_negative_nanoseconds() {
    // -1 µs is one microsecond before the epoch: one second back, all but
    // one microsecond forward again.
    let t = wire2api_time(-1, 1_000_000);
    assert_eq!(t.seconds, -1);
    assert_eq!(t.subsec_nanos, 999_999_000);
    assert_eq!(api2wire_time(t, 1_000_000), -1);

    let t = wire2api_time(-1_500, 1_000);
    assert_eq!(t.seconds, -2);
    assert_eq!(t.subsec_nanos, 500_000_000);
    assert_eq!(api2wire_time(t, 1_000), -1_500);

    let t = wire2api_time(i64::MIN, 1_000_000);
    assert!(t.subsec_nanos < 1_000_000_000);
}
