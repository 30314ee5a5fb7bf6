use misa_actuator::bytes::{
    i16_from_le, i16_to_le, i32_from_le, i32_to_le, i64_from_le, i64_to_le, u16_from_le,
    u16_to_le, u32_from_le, u32_to_le,
};
use misa_actuator::clock;
use misa_actuator::damiao;
use misa_actuator::error::Error;
use misa_actuator::feedback::ErrorFlags;
use misa_actuator::text;

#[test]
fn bytes_agree_with_std() {
    for v in [0u16, 1, 255, 256, 0x1234, u16::MAX] {
        assert_eq!(u16_to_le(v), v.to_le_bytes());
        let b = v.to_le_bytes();
        assert_eq!(u16_from_le(b[0], b[1]), v);
        assert_eq!(i16_from_le(b[0], b[1]), v as i16);
        assert_eq!(i16_to_le(v as i16), b);
    }
    for v in [0u32, 1, 0x0102_0304, 0x8000_0000, u32::MAX] {
        let b = v.to_le_bytes();
        assert_eq!(u32_to_le(v), b);
        assert_eq!(u32_from_le(b[0], b[1], b[2], b[3]), v);
        assert_eq!(i32_from_le(b[0], b[1], b[2], b[3]), v as i32);
        assert_eq!(i32_to_le(v as i32), b);
    }
    for v in [0i64, -1, i64::MIN, i64::MAX, 0x0102_0304_0506_0708] {
        assert_eq!(i64_to_le(v), v.to_le_bytes());
        assert_eq!(i64_from_le(&v.to_le_bytes()), v);
    }
}

#[test]
fn numbers_are_read_as_std_reads_them() {
    for s in [
        "", "+", "-", "0", "7", "+7", "007", "-1", "1.0", " 1", "1 ", "255", "256", "999", "x",
        "12a", "++1", "18446744073709551615", "18446744073709551616",
    ] {
        assert_eq!(text::parse_unsigned(s, u64::MAX), s.parse::<u64>().ok(), "{:?}", s);
        assert_eq!(
            text::parse_unsigned(s, 255),
            s.parse::<u8>().ok().map(|v| v as u64),
            "{:?}",
            s
        );
    }
}

#[test]
fn numbers_are_written_as_std_writes_them() {
    for n in [0u64, 9, 10, 255, 1_000_000, u64::MAX] {
        assert_eq!(text::dec_string(n), n.to_string());
        let mut s = String::from("n=");
        text::push_hex(&mut s, n, 2);
        assert_eq!(s, format!("n={:02X}", n));
        let mut s = String::new();
        text::push_dec_padded(&mut s, n, 2);
        assert_eq!(s, format!("{:02}", n));
    }
    let mut s = String::new();
    text::push_int(&mut s, -42);
    text::push_left_aligned(&mut s, "ab", 4);
    text::push_right_aligned(&mut s, "cd", 4);
    assert_eq!(s, format!("{}{:<4}{:>4}", -42, "ab", "cd"));
    assert!(text::same("Änd", "Änd"));
    assert!(!text::same("a", "b"));
}

#[test]
fn common_flags_read_back() {
    let names: [(u32, fn(ErrorFlags) -> bool); 10] = [
        (ErrorFlags::UNDER_VOLTAGE, ErrorFlags::under_voltage),
        (ErrorFlags::OVER_VOLTAGE, ErrorFlags::over_voltage),
        (ErrorFlags::OVER_CURRENT, ErrorFlags::over_current),
        (ErrorFlags::MOTOR_OVERHEAT, ErrorFlags::motor_overheat),
        (ErrorFlags::DRIVER_OVERHEAT, ErrorFlags::driver_overheat),
        (ErrorFlags::STALL, ErrorFlags::stall),
        (ErrorFlags::MOTOR_SHORT, ErrorFlags::motor_short),
        (ErrorFlags::SIGNAL_TIMEOUT, ErrorFlags::signal_timeout),
        (ErrorFlags::ENCODER_FAULT, ErrorFlags::encoder_fault),
        (ErrorFlags::UNCALIBRATED, ErrorFlags::uncalibrated),
    ];
    for (i, (bit, _)) in names.iter().enumerate() {
        let flags = ErrorFlags::new(*bit, 0xAB);
        assert!(flags.any());
        assert_eq!((flags.bits(), flags.raw()), (*bit, 0xAB));
        for (j, (_, reads)) in names.iter().enumerate() {
            assert_eq!(reads(flags), i == j);
        }
    }
    assert!(!ErrorFlags::default().any());
}

#[test]
fn common_error_messages() {
    assert_eq!(Error::bus("x").message(), "bus/transport: x");
    assert_eq!(Error::protocol(7).message(), "protocol: 7");
    assert_eq!(Error::other("free text").message(), "driver: free text");
    assert_eq!(
        Error::Timeout { motor_id: 3 }.message(),
        "timeout waiting for response from motor 3"
    );
    assert_eq!(
        Error::MotorFault { motor_id: 3, code: 0xAB }.message(),
        "motor 3 reported a fault (code 0x000000AB)"
    );
    assert_eq!(
        Error::NotEnabled { motor_id: 9 }.message(),
        "motor 9 is not enabled — call enable() first"
    );
    assert_eq!(
        Error::PositionNotAnchored { motor_id: 9 }.message(),
        "motor 9: position not anchored — call set_zero() first"
    );
    assert_eq!(Error::InvalidMotorId(77).message(), "invalid motor id 77");
    assert_eq!(
        Error::Unsupported("set_zero").message(),
        "operation not supported by this driver: set_zero"
    );
}

#[test]
fn driver_errors_become_common_errors() {
    let e = Error::from(damiao::error::Error::CanSocket("down".to_string()));
    assert!(matches!(e, Error::Bus(s) if s.contains("down")));
    let e = Error::from(damiao::error::Error::NotEnabled { motor_id: 4 });
    assert!(matches!(e, Error::NotEnabled { motor_id: 4 }));
    let e = Error::from(damiao::error::Error::ModeSwitchFailed {
        motor_id: 1,
        requested: 2,
        actual: -3,
    });
    assert!(matches!(
        e,
        Error::Other(s) if s == "motor 1: mode switch to 2 failed (still -3)"
    ));
    let e = Error::from(damiao::error::Error::InvalidFrame("bad"));
    assert!(matches!(e, Error::Protocol(s) if s == "bad"));
    let e = Error::from(damiao::error::Error::Unsupported {
        motor_id: 1,
        model: "m",
        op: "o",
    });
    assert!(matches!(e, Error::Unsupported("o")));
}

#[test]
fn the_clock_runs() {
    let start = clock::start();
    assert!(!clock::passed(&start, u64::MAX));
    while !clock::reached(&start, 1_000) {}
    assert!(clock::reached(&start, 1_000));
}
