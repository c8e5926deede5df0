use w3p_ups::ups_data::{ChargingState, UpsData};
use w3p_ups::wire::{
    decode, encode, find_member, push_decimal, render_object, sample_from_members,
    sample_members, JsonMember, Lookup, ParseError,
};

fn full_sample() -> UpsData {
    UpsData {
        up: 1234,
        pd: 1,
        pdo: 2,
        cc: 3,
        t: 253,
        vs: 5000,
        is: 120,
        vr: 5100,
        ir: 900,
        soc: 87,
        sd: 85,
        bv: 7890,
        ba: -450,
        cs: 2,
        pg: 1,
        vi: 12000,
        ii: 700,
        ci: 300,
        cf: 1,
    }
}

fn member(name: &str, value: Option<i64>) -> JsonMember {
    JsonMember { name: name.to_string(), value }
}

#[test]
fn decode_full_line() {
    let line = "{\"up\":1234,\"pd\":1,\"pdo\":2,\"cc\":3,\"t\":253,\"vs\":5000,\"is\":120,\
                \"vr\":5100,\"ir\":900,\"soc\":87,\"sd\":85,\"bv\":7890,\"ba\":-450,\"cs\":2,\
                \"pg\":1,\"vi\":12000,\"ii\":700,\"ci\":300,\"cf\":1}";
    assert_eq!(decode(line), Ok(full_sample()));
}

#[test]
fn decode_minimal_line_defaults_everything_else_to_zero() {
    let expected = UpsData { soc: 42, vi: 9000, ..UpsData::zeroed() };
    assert_eq!(decode("{\"soc\":42,\"vi\":9000}"), Ok(expected));
}

#[test]
fn decode_defaults_decision_charge_to_zero() {
    let sample = decode("{\"soc\":42,\"vi\":9000,\"bv\":7000}").unwrap();
    assert_eq!(sample.sd, 0);
    assert_eq!(sample.soc, 42);
    assert_eq!(sample.bv, 7000);
}

#[test]
fn decode_keeps_charge_and_decision_charge_apart() {
    let sample = decode("{\"soc\":80,\"sd\":7,\"vi\":9000}").unwrap();
    assert_eq!(sample.soc, 80);
    assert_eq!(sample.sd, 7);
}

#[test]
fn decode_trims_white_space_around_the_line() {
    let expected = UpsData { soc: 42, vi: 9000, ..UpsData::zeroed() };
    assert_eq!(decode("  {\"soc\":42,\"vi\":9000}\r\n"), Ok(expected));
    assert_eq!(decode("\u{a0}{\"soc\":42,\"vi\":9000}\u{2003}"), Ok(expected));
}

#[test]
fn decode_passes_over_unknown_members() {
    let expected = UpsData { soc: 42, vi: 9000, ..UpsData::zeroed() };
    let line = "{\"soc\":42,\"vi\":9000,\"fw\":\"1.2\",\"dbg\":{\"a\":[1,2.5,null]},\"x\":true}";
    assert_eq!(decode(line), Ok(expected));
}

#[test]
fn decode_missing_required_fields() {
    assert_eq!(decode("{\"vi\":9000}"), Err(ParseError::MissingField));
    assert_eq!(decode("{\"soc\":42}"), Err(ParseError::MissingField));
    assert_eq!(decode("{}"), Err(ParseError::MissingField));
    assert_eq!(decode("{\"sd\":5,\"bv\":1}"), Err(ParseError::MissingField));
}

#[test]
fn decode_missing_field_is_reported_before_invalid_field() {
    assert_eq!(decode("{\"soc\":42,\"up\":-1}"), Err(ParseError::MissingField));
}

#[test]
fn decode_invalid_values() {
    assert_eq!(decode("{\"soc\":42,\"vi\":-1}"), Err(ParseError::InvalidField));
    assert_eq!(decode("{\"soc\":42.5,\"vi\":9000}"), Err(ParseError::InvalidField));
    assert_eq!(decode("{\"soc\":\"42\",\"vi\":9000}"), Err(ParseError::InvalidField));
    assert_eq!(decode("{\"soc\":null,\"vi\":9000}"), Err(ParseError::InvalidField));
    assert_eq!(decode("{\"soc\":42,\"vi\":4294967296}"), Err(ParseError::InvalidField));
    assert_eq!(decode("{\"soc\":42,\"vi\":9000,\"pd\":256}"), Err(ParseError::InvalidField));
    assert_eq!(
        decode("{\"soc\":42,\"vi\":9000,\"ba\":2147483648}"),
        Err(ParseError::InvalidField)
    );
    assert_eq!(
        decode("{\"soc\":42,\"vi\":9000,\"ba\":-2147483649}"),
        Err(ParseError::InvalidField)
    );
    assert_eq!(
        decode("{\"soc\":42,\"vi\":9000,\"up\":18446744073709551615}"),
        Err(ParseError::InvalidField)
    );
    assert_eq!(decode("{\"soc\":42,\"vi\":9000,\"cf\":[1]}"), Err(ParseError::InvalidField));
}

#[test]
fn decode_accepts_the_limits_of_each_field() {
    let sample = decode(
        "{\"soc\":100,\"sd\":100,\"vi\":4294967295,\"ba\":-2147483648,\"pd\":255,\"up\":0}",
    )
    .unwrap();
    assert_eq!(sample.soc, 100);
    assert_eq!(sample.sd, 100);
    assert_eq!(sample.vi, u32::MAX);
    assert_eq!(sample.ba, i32::MIN);
    assert_eq!(sample.pd, 255);
    let sample = decode("{\"soc\":0,\"vi\":0,\"ba\":2147483647}").unwrap();
    assert_eq!(sample.ba, i32::MAX);
}

#[test]
fn decode_rejects_percentages_above_one_hundred() {
    assert_eq!(decode("{\"soc\":101,\"vi\":9000}"), Err(ParseError::InvalidField));
    assert_eq!(decode("{\"soc\":50,\"sd\":101,\"vi\":9000}"), Err(ParseError::InvalidField));
    assert_eq!(decode("{\"soc\":255,\"vi\":9000}"), Err(ParseError::InvalidField));
}

#[test]
fn decoded_samples_are_well_formed() {
    for line in ["{\"soc\":100,\"sd\":100,\"vi\":1}", "{\"soc\":0,\"vi\":1}", "{\"soc\":7,\"sd\":99,\"vi\":1}"] {
        assert!(decode(line).unwrap().is_well_formed());
    }
    assert!(!UpsData { soc: 101, ..UpsData::zeroed() }.is_well_formed());
    assert!(!UpsData { sd: 200, ..UpsData::zeroed() }.is_well_formed());
}

#[test]
fn decode_malformed_lines() {
    for line in [
        "{",
        "{\"soc\":42,\"vi\":9000",
        "{\"soc\":42,\"vi\":9000}}",
        "{\"soc\":42,\"vi\":9000} x",
        "[1,2,3]",
        "42",
        "null",
        "\"soc\"",
        "soc=42",
        "{\"soc\":42,,\"vi\":9000}",
        "{soc:42,vi:9000}",
        "\u{0}",
    ] {
        assert_eq!(decode(line), Err(ParseError::Malformed), "{}", line);
    }
}

#[test]
fn decode_blank_lines() {
    assert_eq!(decode(""), Err(ParseError::Empty));
    assert_eq!(decode("   "), Err(ParseError::Empty));
    assert_eq!(decode("\r\n"), Err(ParseError::Empty));
    assert_eq!(decode("\t \u{2028}"), Err(ParseError::Empty));
}

#[test]
fn sample_from_members_reads_members_by_name() {
    let members = vec![
        member("vi", Some(9000)),
        member("other", None),
        member("soc", Some(42)),
        member("ba", Some(-5)),
    ];
    let expected = UpsData { soc: 42, vi: 9000, ba: -5, ..UpsData::zeroed() };
    assert_eq!(sample_from_members(&members), Ok(expected));
}

#[test]
fn sample_from_members_takes_the_first_member_of_a_name() {
    let members = vec![member("soc", Some(1)), member("vi", Some(2)), member("soc", Some(3))];
    assert_eq!(sample_from_members(&members).unwrap().soc, 1);
}

#[test]
fn sample_from_members_errors() {
    assert_eq!(sample_from_members(&vec![]), Err(ParseError::MissingField));
    assert_eq!(
        sample_from_members(&vec![member("soc", None), member("vi", Some(1))]),
        Err(ParseError::InvalidField)
    );
    assert_eq!(
        sample_from_members(&vec![member("soc", Some(1)), member("vi", Some(1)), member("t", None)]),
        Err(ParseError::InvalidField)
    );
    assert_eq!(
        sample_from_members(&vec![member("soc", Some(1)), member("vi", Some(-1))]),
        Err(ParseError::InvalidField)
    );
    assert_eq!(
        sample_from_members(&vec![member("soc", None)]),
        Err(ParseError::MissingField)
    );
}

#[test]
fn find_member_tells_absent_from_not_integer() {
    let members = vec![member("a", Some(7)), member("b", None)];
    assert_eq!(find_member(&members, "a"), Lookup::Integer(7));
    assert_eq!(find_member(&members, "b"), Lookup::NotInteger);
    assert_eq!(find_member(&members, "c"), Lookup::Absent);
    assert_eq!(find_member(&members, "A"), Lookup::Absent);
    assert_eq!(find_member(&members, ""), Lookup::Absent);
}

#[test]
fn encode_writes_every_field_in_wire_order() {
    let expected = "{\"up\":1234,\"pd\":1,\"pdo\":2,\"cc\":3,\"t\":253,\"vs\":5000,\"is\":120,\
                    \"vr\":5100,\"ir\":900,\"soc\":87,\"sd\":85,\"bv\":7890,\"ba\":-450,\"cs\":2,\
                    \"pg\":1,\"vi\":12000,\"ii\":700,\"ci\":300,\"cf\":1}";
    assert_eq!(encode(&full_sample()), expected);
}

#[test]
fn encode_zero_sample() {
    let expected = "{\"up\":0,\"pd\":0,\"pdo\":0,\"cc\":0,\"t\":0,\"vs\":0,\"is\":0,\"vr\":0,\
                    \"ir\":0,\"soc\":0,\"sd\":0,\"bv\":0,\"ba\":0,\"cs\":0,\"pg\":0,\"vi\":0,\
                    \"ii\":0,\"ci\":0,\"cf\":0}";
    assert_eq!(encode(&UpsData::zeroed()), expected);
}

#[test]
fn encode_then_decode_gives_the_same_sample() {
    let extremes = UpsData {
        up: u32::MAX,
        pd: 255,
        pdo: 255,
        cc: 255,
        t: u32::MAX,
        vs: u32::MAX,
        is: u32::MAX,
        vr: u32::MAX,
        ir: u32::MAX,
        soc: 100,
        sd: 100,
        bv: u32::MAX,
        ba: i32::MIN,
        cs: 255,
        pg: 255,
        vi: u32::MAX,
        ii: u32::MAX,
        ci: u32::MAX,
        cf: 255,
    };
    for sample in [full_sample(), UpsData::zeroed(), extremes, UpsData { ba: i32::MAX, ..extremes }] {
        assert_eq!(decode(&encode(&sample)), Ok(sample));
    }
}

#[test]
fn encoded_text_is_json_that_serde_json_reads() {
    let text = encode(&full_sample());
    let value: serde_json::Value = serde_json::from_str(&text).unwrap();
    let object = value.as_object().unwrap();
    assert_eq!(object.len(), 19);
    assert_eq!(object.get("soc").unwrap().as_u64(), Some(87));
    assert_eq!(object.get("sd").unwrap().as_u64(), Some(85));
    assert_eq!(object.get("ba").unwrap().as_i64(), Some(-450));
    assert_eq!(object.get("vi").unwrap().as_u64(), Some(12000));
    assert_eq!(object.get("is").unwrap().as_u64(), Some(120));
}

#[test]
fn written_members_decode_back_to_the_sample() {
    let sample = full_sample();
    assert_eq!(sample_from_members(&sample_members(&sample)), Ok(sample));
    let members = sample_members(&sample);
    assert_eq!(members.len(), 19);
    assert_eq!(members[0], member("up", Some(1234)));
    assert_eq!(members[12], member("ba", Some(-450)));
    assert_eq!(members[18], member("cf", Some(1)));
}

#[test]
fn render_object_forms() {
    assert_eq!(render_object(&vec![]), "{}");
    assert_eq!(render_object(&vec![member("a", Some(1))]), "{\"a\":1}");
    assert_eq!(
        render_object(&vec![member("a", Some(-10)), member("b", None), member("c", Some(0))]),
        "{\"a\":-10,\"b\":null,\"c\":0}"
    );
}

#[test]
fn push_decimal_exact_digits() {
    for (n, text) in [
        (0i64, "0"),
        (7, "7"),
        (10, "10"),
        (99, "99"),
        (100, "100"),
        (-1, "-1"),
        (-450, "-450"),
        (4294967295, "4294967295"),
        (i64::MAX, "9223372036854775807"),
        (i64::MIN, "-9223372036854775808"),
    ] {
        let mut out = String::from("x=");
        push_decimal(&mut out, n);
        assert_eq!(out, format!("x={}", text));
    }
}

#[test]
fn charging_state_of_each_number() {
    let with = |cs: u8| UpsData { cs, ..UpsData::zeroed() };
    assert_eq!(with(0).charging_state(), ChargingState::NotCharging);
    assert_eq!(with(1).charging_state(), ChargingState::PreCharge);
    assert_eq!(with(2).charging_state(), ChargingState::Charging);
    assert_eq!(with(3).charging_state(), ChargingState::Complete);
    assert_eq!(with(4).charging_state(), ChargingState::Unknown);
    assert_eq!(with(255).charging_state(), ChargingState::Unknown);
    assert_eq!(with(0).charging_state_str(), "Not charging");
    assert_eq!(with(1).charging_state_str(), "Pre-charge");
    assert_eq!(with(2).charging_state_str(), "Charging");
    assert_eq!(with(3).charging_state_str(), "Charge complete");
    assert_eq!(with(4).charging_state_str(), "Unknown");
    assert_eq!(with(200).charging_state_str(), "Unknown");
}
