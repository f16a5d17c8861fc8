use pay2wash::model::{
    decode_machine_status, DecodeError, FromMachineStatusError, JsonMachineStatus, MachineState,
    NumberBool, RawMachineStatus, RemainingTime, UserId,
};

fn raw_record() -> RawMachineStatus {
    RawMachineStatus {
        running: false,
        starter: 0,
        reserved: false,
        reserver: 0,
        in_maintenance: 0,
        remaining_time: String::from("0:00"),
        gateway_offline: 0,
        remaining_time_is_from_machine: 0,
        controller_logic: 13,
    }
}

#[test]
fn tribool_decodes_definite_values() {
    assert_eq!(NumberBool::decode(0), Ok(NumberBool::False));
    assert_eq!(NumberBool::decode(1), Ok(NumberBool::True));
}

#[test]
fn tribool_preserves_unknown_bytes() {
    assert_eq!(NumberBool::decode(2), Ok(NumberBool::Unknown(2)));
    assert_eq!(NumberBool::decode(7), Ok(NumberBool::Unknown(7)));
    assert_eq!(NumberBool::decode(255), Ok(NumberBool::Unknown(255)));
}

#[test]
fn tribool_rejects_values_over_a_byte() {
    assert_eq!(
        NumberBool::decode(256),
        Err(DecodeError::TriBoolOutOfRange(256))
    );
    assert_eq!(
        NumberBool::decode(u64::MAX),
        Err(DecodeError::TriBoolOutOfRange(u64::MAX))
    );
}

#[test]
fn tribool_round_trips_through_its_wire_byte() {
    for byte in 0..=255u8 {
        let decoded = NumberBool::from(byte);
        assert_eq!(u8::from(decoded), byte);
    }
}

#[test]
fn tribool_as_bool_surfaces_unknown_codes() {
    assert_eq!(NumberBool::False.as_bool(), Ok(false));
    assert_eq!(NumberBool::True.as_bool(), Ok(true));
    assert_eq!(NumberBool::Unknown(9).as_bool(), Err(9));
}

#[test]
fn duration_decodes_exact_values() {
    assert_eq!(RemainingTime::parse("0:00"), Ok(RemainingTime(0)));
    assert_eq!(RemainingTime::parse("1:30"), Ok(RemainingTime(5400)));
    assert_eq!(RemainingTime::parse("2:5"), Ok(RemainingTime(7500)));
    assert_eq!(RemainingTime::parse("99:99"), Ok(RemainingTime(362_340)));
    assert_eq!(RemainingTime::parse("00:01"), Ok(RemainingTime(60)));
}

#[test]
fn duration_rejects_malformed_strings() {
    assert_eq!(RemainingTime::parse("10"), Err(DecodeError::MissingColon));
    assert_eq!(RemainingTime::parse(""), Err(DecodeError::MissingColon));
    assert_eq!(
        RemainingTime::parse("123:4"),
        Err(DecodeError::TooLongHours)
    );
    assert_eq!(
        RemainingTime::parse("1:234"),
        Err(DecodeError::TooLongMinutes)
    );
    assert_eq!(RemainingTime::parse("a:b"), Err(DecodeError::BadHours));
    assert_eq!(RemainingTime::parse("1:b"), Err(DecodeError::BadMinutes));
    assert_eq!(RemainingTime::parse(":5"), Err(DecodeError::BadHours));
    assert_eq!(RemainingTime::parse("5:"), Err(DecodeError::BadMinutes));
}

#[test]
fn duration_fields_are_ascii_digits_only() {
    assert_eq!(RemainingTime::parse("+1:5"), Err(DecodeError::BadHours));
    assert_eq!(RemainingTime::parse("1:+5"), Err(DecodeError::BadMinutes));
    assert_eq!(RemainingTime::parse("+1:30"), Err(DecodeError::BadHours));
    assert_eq!(RemainingTime::parse(" 1:5"), Err(DecodeError::BadHours));
    assert_eq!(RemainingTime::parse("1:5 "), Err(DecodeError::BadMinutes));
    assert_eq!(RemainingTime::parse("-1:5"), Err(DecodeError::BadHours));
}

#[test]
fn remaining_time_accessors_expose_seconds() {
    let time = RemainingTime::from_secs(4321);
    assert_eq!(*time.inner(), 4321);
    assert_eq!(time.into_inner(), 4321);
}

fn status(running: bool, reserved: bool, in_maintenance: NumberBool) -> JsonMachineStatus {
    JsonMachineStatus {
        running,
        starter: UserId(11),
        reserved,
        reserver: UserId(22),
        in_maintenance,
        remaining_time: RemainingTime::from_secs(600),
        gateway_offline: NumberBool::False,
        remaining_time_is_from_machine: NumberBool::True,
        controller_logic: 3,
    }
}

#[test]
fn derive_state_accepts_exactly_the_four_table_rows() {
    let tristates = [NumberBool::False, NumberBool::True, NumberBool::Unknown(4)];
    let mut successes = 0;
    for running in [false, true] {
        for reserved in [false, true] {
            for in_maintenance in tristates {
                if MachineState::try_from(&status(running, reserved, in_maintenance)).is_ok() {
                    successes += 1;
                }
            }
        }
    }
    assert_eq!(successes, 4);
}

#[test]
fn derive_state_running_row() {
    let record = status(true, false, NumberBool::False);
    assert_eq!(
        MachineState::try_from(&record),
        Ok(MachineState::Running {
            starter: UserId(11),
            remaining_time: RemainingTime::from_secs(600),
            remaining_time_is_from_machine: NumberBool::True,
        })
    );
}

#[test]
fn derive_state_reserved_maintenance_and_idle_rows() {
    assert_eq!(
        MachineState::try_from(&status(false, true, NumberBool::False)),
        Ok(MachineState::Reserved {
            reserver: UserId(22)
        })
    );
    assert_eq!(
        MachineState::try_from(&status(false, false, NumberBool::True)),
        Ok(MachineState::Maintenance)
    );
    assert_eq!(
        MachineState::try_from(&status(false, false, NumberBool::False)),
        Ok(MachineState::Idle)
    );
}

#[test]
fn derive_state_rejects_running_while_reserved() {
    assert_eq!(
        MachineState::try_from(&status(true, true, NumberBool::False)),
        Err(FromMachineStatusError::BadInvariant {
            running: true,
            reserved: true,
            in_maintenance: NumberBool::False,
        })
    );
}

#[test]
fn derive_state_rejects_activity_during_maintenance() {
    for (running, reserved) in [(true, false), (false, true), (true, true)] {
        assert_eq!(
            MachineState::try_from(&status(running, reserved, NumberBool::True)),
            Err(FromMachineStatusError::BadInvariant {
                running,
                reserved,
                in_maintenance: NumberBool::True,
            })
        );
    }
}

#[test]
fn derive_state_surfaces_unknown_maintenance_codes() {
    for (running, reserved) in [(false, false), (true, false), (false, true), (true, true)] {
        assert_eq!(
            MachineState::try_from(&status(running, reserved, NumberBool::Unknown(4))),
            Err(FromMachineStatusError::UnknownNumberBool(4))
        );
    }
}

#[test]
fn decode_machine_status_validates_every_scalar() {
    let mut raw = raw_record();
    raw.running = true;
    raw.starter = 5;
    raw.in_maintenance = 0;
    raw.remaining_time = String::from("1:05");
    raw.gateway_offline = 9;
    raw.remaining_time_is_from_machine = 1;
    assert_eq!(
        decode_machine_status(&raw),
        Ok(JsonMachineStatus {
            running: true,
            starter: UserId(5),
            reserved: false,
            reserver: UserId(0),
            in_maintenance: NumberBool::False,
            remaining_time: RemainingTime(3900),
            gateway_offline: NumberBool::Unknown(9),
            remaining_time_is_from_machine: NumberBool::True,
            controller_logic: 13,
        })
    );
}

#[test]
fn decode_machine_status_reports_the_first_bad_scalar() {
    let mut raw = raw_record();
    raw.in_maintenance = 300;
    raw.remaining_time = String::from("oops");
    assert_eq!(
        decode_machine_status(&raw),
        Err(DecodeError::TriBoolOutOfRange(300))
    );

    let mut raw = raw_record();
    raw.remaining_time = String::from("oops");
    raw.gateway_offline = 300;
    assert_eq!(decode_machine_status(&raw), Err(DecodeError::MissingColon));

    let mut raw = raw_record();
    raw.gateway_offline = 300;
    assert_eq!(
        decode_machine_status(&raw),
        Err(DecodeError::TriBoolOutOfRange(300))
    );
}
