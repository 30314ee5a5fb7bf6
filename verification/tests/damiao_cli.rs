use misa_actuator::damiao::cli::{
    after_send, enabled_line, fmt_fb, info_line, loop_goes_on, register_line, run, scan_lines,
    AfterSend, Command, Motion, Step,
};
use misa_actuator::damiao::feedback::{ErrorCode, Feedback};
use misa_actuator::damiao::register::{ControlMode, Rid};

/// What a plan does, one word per step, with the lines that it writes.
fn shown(steps: &[Step]) -> Vec<String> {
    steps
        .iter()
        .map(|s| match s {
            Step::Print(line) => format!("print {}", line),
            Step::Note(line) => format!("note {}", line),
            other => format!("{:?}", other),
        })
        .collect()
}

fn plan(cmd: Command) -> Vec<String> {
    shown(&run(&cmd, 3, "can1").unwrap())
}

#[test]
fn scan_wants_an_ascending_range() {
    assert_eq!(
        run(&Command::Scan { from: 5, to: 4 }, 1, "can0").unwrap_err(),
        "--to must be >= --from"
    );
    assert_eq!(
        plan(Command::Scan { from: 1, to: 16 })[0],
        "print scanning CAN_IDs 1..=16 on can1 ..."
    );
    assert_eq!(scan_lines(&vec![]), vec!["no motors responded"]);
    assert_eq!(
        scan_lines(&vec![1, 171]),
        vec!["  motor CAN_ID 1 (0x01) responded", "  motor CAN_ID 171 (0xAB) responded"]
    );
}

#[test]
fn motions_prepare_and_disable() {
    for (cmd, motion, mode) in [
        (Command::Mit, Motion::Mit, ControlMode::Mit),
        (Command::MoveTo, Motion::PosVel, ControlMode::PosVel),
        (Command::Spin, Motion::Vel, ControlMode::Vel),
    ] {
        let steps = run(&cmd, 3, "can1").unwrap();
        assert_eq!(steps.len(), 4);
        assert!(matches!(&steps[0], Step::SwitchMode(m) if *m == mode));
        assert!(matches!(steps[1], Step::Enable { report: false }));
        assert!(matches!(&steps[2], Step::Loop(m) if *m == motion));
        assert!(matches!(steps[3], Step::Disable));
    }
}

#[test]
fn zero_in_memory_or_in_flash() {
    let soft = run(&Command::Zero { nvm: false }, 3, "can1").unwrap();
    assert!(matches!(soft[2], Step::TakeSoftZero));
    assert!(matches!(soft[3], Step::Disable));
    assert!(matches!(soft[4], Step::SettleSoftZero));
    let flash = run(&Command::Zero { nvm: true }, 3, "can1").unwrap();
    assert!(matches!(flash[0], Step::StoreZero));
    assert_eq!(shown(&flash)[1], "print zero written to motor NVM (flash).");
}

#[test]
fn ids_are_assigned_and_saved() {
    let steps = run(
        &Command::SetId { new_can_id: Some(5), new_master_id: None, no_save: false },
        3,
        "can1",
    )
    .unwrap();
    let lines = shown(&steps);
    assert_eq!(lines[0], "print assigning (addressed at CAN_ID 3): MST_ID=0x15, CAN_ID=5");
    assert!(matches!(steps[1], Step::WriteInt { rid: Rid::MST_ID, value: 0x15 }));
    assert!(matches!(steps[2], Step::WriteInt { rid: Rid::ESC_ID, value: 5 }));
    assert!(matches!(steps[3], Step::Save));
    assert_eq!(lines[4], "print saved to flash.");
    assert_eq!(
        lines[5],
        "print \nNEXT: power-cycle the motor, then address it with:\n  -m 5 --master-id 21"
    );
    assert_eq!(lines[6], "print verify with:  damiao-cli -i can1 -m 5 info");

    let kept = plan(Command::SetId {
        new_can_id: None,
        new_master_id: Some(0x7F),
        no_save: true,
    });
    assert_eq!(kept[0], "print assigning (addressed at CAN_ID 3): MST_ID=0x7F");
    assert_eq!(
        kept[2],
        "note note: --no-save — changes are in RAM only and will be lost on power-cycle"
    );
}

#[test]
fn registers_are_written_and_shown() {
    let steps = run(
        &Command::RegWrite {
            rid: 10,
            int_value: 2,
            value_text: "2.5".to_string(),
            integer: true,
            save: true,
        },
        3,
        "can1",
    )
    .unwrap();
    assert!(matches!(steps[0], Step::WriteInt { rid: 10, value: 2 }));
    assert_eq!(shown(&steps)[1], "print wrote RID 10 = 2 (int)");
    assert!(matches!(steps[2], Step::ReadBack { rid: 10 }));
    assert!(matches!(steps[3], Step::Save));
    let float = plan(Command::RegWrite {
        rid: 21,
        int_value: 12,
        value_text: "12.5".to_string(),
        integer: false,
        save: false,
    });
    assert_eq!(float[1], "print wrote RID 21 = 12.5 (f32)");
    assert_eq!(float.len(), 2);
    assert_eq!(register_line(10, -3, "1.5"), "RID 10 = -3 (int)");
    assert_eq!(register_line(21, -3, "1.5"), "RID 21 = 1.5 (f32)");
    assert_eq!(info_line("MST_ID", 7, Ok("17")), "  MST_ID           (RID  7) = 17");
    assert_eq!(
        info_line("CAN_ID (ESC_ID)", 8, Err("lost")),
        "  CAN_ID (ESC_ID)  (RID  8) = <no reply: lost>"
    );
    assert_eq!(run(&Command::Info, 3, "can1").unwrap().len(), 7);
}

#[test]
fn feedback_lines() {
    let fb = Feedback {
        motor_id: 1,
        position: 0,
        velocity: 0,
        torque: 0,
        t_mos: 40,
        t_rotor: 50,
        err: ErrorCode::Unknown(5),
    };
    let line = fmt_fb(&fb, "+1.500", "-4.000", "+2.000");
    assert_eq!(
        line,
        "id=1 pos=+1.500 rad  vel=-4.000 rad/s  tau=+2.000 Nm  T_mos=40°C  T_rotor=50°C  err=Unknown(5)"
    );
    assert_eq!(enabled_line(Some("x")), "enabled. x");
    assert_eq!(enabled_line(None), "enabled. (no feedback)");
}

#[test]
fn the_loop_ends_when_told() {
    assert!(loop_goes_on(true, false, true));
    assert!(loop_goes_on(true, true, false));
    assert!(!loop_goes_on(true, true, true));
    assert!(!loop_goes_on(false, false, false));
    assert_eq!(after_send(true, true), AfterSend::Stop);
    assert_eq!(after_send(false, true), AfterSend::Show);
    assert_eq!(after_send(false, false), AfterSend::Quiet);
}
