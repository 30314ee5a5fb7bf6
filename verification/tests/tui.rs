use misa_actuator::feedback::{ErrorFlags, RunMode};
use misa_actuator::tui::app::{chrono_like_ts, App, Effect, Focus, Key, TickAction};
use misa_actuator::tui::commands::{
    dispatch, params_for, pf, pf_u64, pf_u8, report, scan_range, Call, Command, FeedbackTexts,
    Outcome,
};
use misa_actuator::tui::factory::{
    build_actuator, unknown_robstride_model, validate_driver_args, Backend, BusKind, DriverConfig,
    DriverKind,
};
use misa_actuator::tui::view::{
    command_items, dialog_area, dialog_lines, header_lines, header_title, hint, log_start, motor_items,
    motors_title, param_lines, params_title, Area, LiveStatus, LiveValues, Tone,
};

fn press(app: &mut App, key: Key) -> Effect {
    app.handle_key(key, false, 0)
}

fn type_text(app: &mut App, text: &str) {
    for c in text.chars() {
        press(app, Key::Char(c));
    }
}

/// An app with the command at `i` selected and the commands in focus.
fn at_command(i: usize) -> App {
    let mut app = App::new(1);
    while app.focus() != Focus::Commands {
        press(&mut app, Key::Tab);
    }
    for _ in 0..i {
        press(&mut app, Key::Down);
    }
    app
}

#[test]
fn focus_goes_round() {
    let mut app = App::new(1);
    let start = app.focus();
    press(&mut app, Key::Tab);
    assert!(app.focus() != start);
    press(&mut app, Key::Tab);
    press(&mut app, Key::Tab);
    assert!(app.focus() == start);
}

#[test]
fn commands_are_listed_once() {
    for i in 0..Command::COUNT {
        let app = at_command(i);
        assert_eq!(app.selected_command(), i);
        assert!(app.current_command() == Command::at(i));
        for j in 0..i {
            assert!(Command::at(i).label() != Command::at(j).label());
        }
    }
    // Above the first comes the last.
    let mut app = at_command(0);
    press(&mut app, Key::Up);
    assert_eq!(app.selected_command(), Command::COUNT - 1);
    press(&mut app, Key::Down);
    assert_eq!(app.selected_command(), 0);
}

#[test]
fn keys_quit() {
    let mut app = App::new(1);
    press(&mut app, Key::Char('q'));
    assert!(app.is_quit());
    let mut app = App::new(1);
    app.handle_key(Key::Char('c'), true, 0);
    assert!(app.is_quit());
    let mut app = App::new(1);
    press(&mut app, Key::Esc);
    assert!(app.is_quit());
}

#[test]
fn a_parameter_is_edited() {
    let mut app = at_command(0);
    press(&mut app, Key::Tab);
    assert!(app.focus() == Focus::Params);
    assert_eq!(app.current_params()[0].value, "1");
    press(&mut app, Key::Enter);
    assert!(app.is_editing());
    assert_eq!(app.edit_text(), "1");
    press(&mut app, Key::Backspace);
    type_text(&mut app, "12");
    assert_eq!(app.edit_text(), "12");
    assert_eq!(app.current_params()[0].value, "1");
    press(&mut app, Key::Enter);
    assert!(!app.is_editing());
    assert_eq!(app.current_params()[0].value, "12");
    // A cancelled edit changes nothing.
    press(&mut app, Key::Enter);
    type_text(&mut app, "99");
    press(&mut app, Key::Esc);
    assert_eq!(app.current_params()[0].value, "12");
    assert!(!app.is_quit());
}

#[test]
fn a_scan_probes_each_id_and_lists_what_answered() {
    let mut app = at_command(0);
    press(&mut app, Key::Tab);
    press(&mut app, Key::Down);
    press(&mut app, Key::Enter);
    press(&mut app, Key::Backspace);
    press(&mut app, Key::Backspace);
    type_text(&mut app, "5");
    press(&mut app, Key::Enter);
    press(&mut app, Key::Tab);
    press(&mut app, Key::Tab);
    assert!(app.focus() == Focus::Commands);
    press(&mut app, Key::Enter);
    assert!(app.scan().is_some());
    // Other keys do nothing meanwhile.
    press(&mut app, Key::Char('q'));
    assert!(!app.is_quit());
    let mut probed = Vec::new();
    loop {
        match app.tick(3_661, "0.5", true) {
            TickAction::Probe { id, timeout_ms } => {
                assert_eq!(timeout_ms, 50);
                probed.push(id);
                app.probed(id, id == 3 || id == 5);
            }
            _ => break,
        }
    }
    assert_eq!(probed, vec![1, 2, 3, 4, 5]);
    assert!(app.scan().is_none());
    assert_eq!(app.discovered_motors(), &vec![1, 3, 5]);
    assert_eq!(app.selected_motor(), 0);
    assert!(app.focus() == Focus::Motors);
    let log = app.log();
    let n = log.len();
    assert_eq!(log[n - 5], "[01:01:01] Scan complete: 3 motor(s) in 0.5 s");
    assert_eq!(log[n - 4], "[01:01:01]   id=1  (active)");
    assert_eq!(log[n - 2], "[01:01:01]   id=5");
    assert_eq!(log[n - 1], "[01:01:01] Tab → Motors → ↑/↓ → Enter to switch");

    // Another motor is switched to.
    press(&mut app, Key::Down);
    match press(&mut app, Key::Enter) {
        Effect::SwitchTo(id) => assert_eq!(id, 3),
        _ => panic!("no switch"),
    }
    app.switched(0, 3, None);
    assert_eq!(app.motor_id(), 3);
    assert_eq!(motors_title(&app), " motors (3) ");
    let items = motor_items(&app);
    assert_eq!(items.len(), 3);
    assert_eq!(items[0].text, "○ id=1");
    assert_eq!(items[1].text, "● id=3   (active)");
    assert!(items[1].tone == Tone::Cursor);
}

#[test]
fn a_scan_up_to_the_last_id_ends() {
    let mut app = at_command(0);
    press(&mut app, Key::Tab);
    for (field, text) in [(0, "254"), (1, "255")] {
        while app.selected_param() != field {
            press(&mut app, Key::Down);
        }
        press(&mut app, Key::Enter);
        for _ in 0..3 {
            press(&mut app, Key::Backspace);
        }
        type_text(&mut app, text);
        press(&mut app, Key::Enter);
    }
    press(&mut app, Key::Tab);
    press(&mut app, Key::Tab);
    press(&mut app, Key::Enter);
    let mut probed = Vec::new();
    while let TickAction::Probe { id, .. } = app.tick(0, "0.1", true) {
        probed.push(id);
        app.probed(id, id == 255);
    }
    assert_eq!(probed, vec![254, 255]);
    assert!(app.scan().is_none());
    assert_eq!(app.discovered_motors(), &vec![1, 255]);
}

#[test]
fn a_scan_is_cancelled() {
    let mut app = at_command(0);
    press(&mut app, Key::Enter);
    for _ in 0..4 {
        match app.tick(0, "0.1", false) {
            TickAction::Probe { id, .. } => app.probed(id, false),
            _ => panic!("no probe"),
        }
    }
    press(&mut app, Key::Esc);
    assert!(!app.is_quit());
    assert!(app.scan().unwrap().is_cancelled());
    assert!(matches!(app.tick(0, "0.4", false), TickAction::Nothing));
    assert_eq!(
        app.log().last().unwrap(),
        "[00:00:00] Scan cancelled after 4 of 32 probes (0.4 s)"
    );
}

#[test]
fn commands_run() {
    let mut app = at_command(1);
    match press(&mut app, Key::Enter) {
        Effect::Run(cmd) => assert!(cmd == Command::Enable),
        _ => panic!("no command"),
    }
    app.finished(
        86_399,
        &report(Command::Enable, &Outcome::Failed("no answer".to_string())),
    );
    let last = app.log().last().unwrap();
    assert!(last.starts_with("[23:59:59] "));
    assert!(last.contains("no answer"));
}

#[test]
fn polling_stops_where_it_fails() {
    let mut app = App::new(1);
    assert!(matches!(app.tick(0, "", true), TickAction::Nothing));
    press(&mut app, Key::Char('p'));
    assert!(app.is_auto_polling());
    assert!(matches!(app.tick(0, "", true), TickAction::Poll));
    assert!(matches!(app.tick(0, "", false), TickAction::Nothing));
    app.polled(0, None);
    assert!(app.is_auto_polling());
    app.polled(0, Some("lost"));
    assert!(!app.is_auto_polling());
    assert_eq!(app.log().last().unwrap(), "[00:00:00] auto-poll failed: lost");
}

#[test]
fn the_log_is_bounded() {
    let mut app = App::new(1);
    for _ in 0..1_000 {
        app.log_msg(1, "x");
    }
    let n = app.log().len();
    app.log_msg(1, "last");
    assert_eq!(app.log().len(), n);
    assert_eq!(app.log().last().unwrap(), "[00:00:01] last");
    assert_eq!(chrono_like_ts(86_400 + 59), "00:00:59");
}

#[test]
fn parameters_are_read() {
    let params = params_for(Command::Scan);
    assert_eq!(pf_u8(&params, "to", 9), 32);
    assert_eq!(pf_u8(&params, "nothing", 9), 9);
    assert_eq!(pf_u64(&params, "timeout_ms", 1), 50);
    assert_eq!(scan_range(&params), (1, 32, 50));
    let mut params = params_for(Command::Scan);
    params[0].value = "300".to_string();
    assert_eq!(pf_u8(&params, "from", 4), 4);
    let q = pf(&params, "gone", "1.5");
    assert!(q.text.is_none());
    assert_eq!(q.default, "1.5");
}

#[test]
fn commands_become_calls() {
    assert!(matches!(dispatch(Command::Enable, &[]), Call::Enable));
    assert!(matches!(dispatch(Command::SetModeVelocity, &[]), Call::SetRunMode(RunMode::Velocity)));
    match dispatch(Command::SetPosition, &params_for(Command::SetPosition)) {
        Call::SetPosition { pos, max_speed } => {
            assert_eq!(pos.text.unwrap(), "0.0");
            assert_eq!(max_speed.text.unwrap(), "5.0");
        }
        _ => panic!("another call"),
    }
    match dispatch(Command::Scan, &params_for(Command::Scan)) {
        Call::Scan { lo, hi, timeout_ms } => assert_eq!((lo, hi, timeout_ms), (1, 32, 50)),
        _ => panic!("another call"),
    }
    let fb = FeedbackTexts {
        position: "1.0".to_string(),
        velocity: "2.0".to_string(),
        torque: "3.0".to_string(),
        temperature: "4.0".to_string(),
    };
    let d = report(Command::Measure, &Outcome::Feedback(fb));
    assert_eq!(
        d.log_line,
        format!(
            "{} OK  pos=1.0 rad  vel=2.0 rad/s  τ=3.0 Nm  T=4.0°C",
            Command::Measure.label()
        )
    );
    let d = report(Command::Scan, &Outcome::Found { lo: 1, hi: 9, ids: vec![3, 7] });
    assert_eq!(d.log_line, format!("{} OK", Command::Scan.label()));
    assert_eq!(d.extra_log_lines, vec!["  found 2 motor(s):", "    id=3", "    id=7"]);
    let d = report(Command::Scan, &Outcome::Found { lo: 1, hi: 9, ids: vec![] });
    assert_eq!(d.extra_log_lines, vec!["  no motors found in 1..=9"]);
    let d = report(Command::Disable, &Outcome::Failed("gone".to_string()));
    assert_eq!(d.log_line, format!("{} FAILED: gone", Command::Disable.label()));
}

#[test]
fn drivers_are_chosen() {
    let mut cfg = DriverConfig::with_host(0xFD);
    assert!(matches!(build_actuator(&cfg).unwrap().backend, Backend::Robstride));
    assert_eq!(
        build_actuator(&cfg).unwrap().open_error,
        "failed to open SocketCAN interface can0 for motor 1"
    );
    cfg.kind = DriverKind::Lkmotor;
    cfg.kt_bits = 0.5f32.to_bits();
    match build_actuator(&cfg).unwrap().backend {
        Backend::Lkmotor { id, torque_constant_known } => {
            assert_eq!(id.get(), 1);
            assert!(torque_constant_known);
        }
        _ => panic!("another driver"),
    }
    cfg.motor_id = 33;
    match build_actuator(&cfg) {
        Err(e) => assert_eq!(e, "invalid lkmotor id 33 (must be 1..=32)"),
        Ok(_) => panic!("a driver"),
    }
    cfg.kind = DriverKind::Damiao;
    cfg.bus_kind = BusKind::CanFd;
    match build_actuator(&cfg).unwrap().backend {
        Backend::Damiao { fd, .. } => assert!(fd),
        _ => panic!("another driver"),
    }
    cfg.model = "RS00".to_string();
    match build_actuator(&cfg) {
        Err(e) => assert_eq!(e, "unknown DAMIAO motor model: RS00 (try --model DM4310)"),
        Ok(_) => panic!("a driver"),
    }
    assert_eq!(unknown_robstride_model("XX"), "unknown Robstride motor model: XX");
}

#[test]
fn arguments_are_checked() {
    let mut cfg = DriverConfig::with_host(0xFD);
    assert!(validate_driver_args(&cfg).is_ok());
    cfg.motor_id = 0;
    assert_eq!(validate_driver_args(&cfg), Err("--motor-id must be > 0"));
    cfg.interface = String::new();
    assert_eq!(validate_driver_args(&cfg), Err("--interface is required"));
}

#[test]
fn the_header_shows_what_is_known() {
    let title = header_title(DriverKind::Damiao, "can0", 4, Some(RunMode::Velocity), true);
    assert_eq!(
        title,
        " misa-actuator-tui — driver=Damiao iface=can0 id=4  mode=Velocity  enabled=YES "
    );
    assert_eq!(
        header_title(DriverKind::Lkmotor, "x", 1, None, false),
        " misa-actuator-tui — driver=Lkmotor iface=x id=1  mode=?  enabled=no "
    );
    let live = LiveValues {
        position: "+1.000".to_string(),
        velocity: "+2.000".to_string(),
        torque: "+3.000".to_string(),
        current: "+4.00".to_string(),
        temperature: "25.0".to_string(),
        age_ms: 12,
    };
    let status =
        LiveStatus { voltage: "24.0".to_string(), error: ErrorFlags::new(ErrorFlags::STALL, 0x40) };
    let lines = header_lines(&Some(live), &Some(status), true, 200);
    let text: Vec<String> =
        lines.iter().map(|l| l.iter().map(|p| p.text.as_str()).collect()).collect();
    assert_eq!(
        text,
        vec![
            "pos=+1.000 rad  vel=+2.000 rad/s",
            "τ=+3.000 Nm  iq=+4.00 A  T=25.0°C  (12 ms ago)",
            "Vbus=24.0 V  raw_err=0x00000040  ⚠",
            "auto-poll ON (toggle: p) — interval=200 ms",
        ]
    );
    assert!(lines[0][1].tone == Tone::Value);
    assert!(lines[3][0].tone == Tone::Dim);
    let none = header_lines(&None, &None, false, 200);
    assert_eq!(none[0][0].text, "no feedback yet — press Enter on Measure");
    assert_eq!(none.len(), 2);
}

#[test]
fn the_parameters_are_shown() {
    let mut app = at_command(0);
    press(&mut app, Key::Tab);
    assert_eq!(params_title(&app), format!(" params: {} ", Command::Scan.label()));
    let lines: Vec<String> =
        param_lines(&app).iter().map(|l| l.iter().map(|p| p.text.as_str()).collect()).collect();
    assert_eq!(lines.len(), 3);
    assert_eq!(lines[0], "  from       = 1               Start motor ID");
    assert_eq!(lines[2], "  timeout_ms = 50              Per-ID timeout [ms]");
    press(&mut app, Key::Enter);
    type_text(&mut app, "7");
    let text: String = param_lines(&app).iter().flatten().map(|p| p.text.clone()).collect();
    assert!(text.contains("17_"));
    let none = param_lines(&at_command(1));
    assert_eq!(none.len(), 1);
    assert_eq!(none[0][0].text, "(no parameters — press Enter on Commands pane to run)");
    assert!(none[0][0].tone == Tone::Dim);
    assert_eq!(hint(true), "EDIT  Enter=commit  Esc=cancel  Backspace=delete");
}

#[test]
fn the_selected_command_is_marked() {
    let app = at_command(2);
    let items = command_items(&app);
    assert_eq!(items.len(), Command::COUNT);
    for (i, item) in items.iter().enumerate() {
        assert_eq!(item.text, Command::at(i).label());
        assert!((item.tone == Tone::Cursor) == (i == 2));
    }
}

#[test]
fn the_scan_dialog_fits() {
    let a = dialog_area(Area { x: 0, y: 0, width: 100, height: 40 });
    assert_eq!((a.x, a.y, a.width, a.height), (20, 15, 60, 9));
    let a = dialog_area(Area { x: 2, y: 1, width: 3, height: 1 });
    assert_eq!((a.width, a.height), (0, 0));
    let mut app = at_command(0);
    press(&mut app, Key::Enter);
    let (range, found, note) = dialog_lines(app.scan().unwrap(), "1.5");
    assert_eq!(range, "Range: 1..=32   Probing id=1   Elapsed: 1.5s");
    assert_eq!(found, "Found so far: 0   Probed: 0/32");
    assert_eq!(note.text, "Esc to cancel");
    assert_eq!(log_start(10, 5), 7);
    assert_eq!(log_start(2, 5), 0);
    assert_eq!(log_start(2, 0), 2);
}
