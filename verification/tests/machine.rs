use ble_util::cmd::{parse_command, scan_window_secs, uart_read_uuid, uart_write_uuid, usage_text, Command, UsageError};
use ble_util::device::{BleError, CharProps, CharacteristicInfo, PeripheralInfo, ServiceInfo};
use ble_util::device::find_char;
use ble_util::locator::locate;
use ble_util::payload::trim_ascii;
use ble_util::session::{start, locate_and_start, Action, Event, Mode, Session, WriteMode};

fn no_props() -> CharProps {
    CharProps {
        broadcast: false,
        read: false,
        write_without_response: false,
        write: false,
        notify: false,
        indicate: false,
        authenticated_signed_writes: false,
        extended_properties: false,
    }
}

fn chr(uuid: &str) -> CharacteristicInfo {
    CharacteristicInfo { uuid: uuid.to_string(), properties: no_props() }
}

fn svc(uuid: &str, chars: Vec<CharacteristicInfo>) -> ServiceInfo {
    ServiceInfo { uuid: uuid.to_string(), characteristics: chars }
}

fn peri(addr: &str, name: Option<&str>) -> PeripheralInfo {
    PeripheralInfo { address: addr.to_string(), name: name.map(|n| n.to_string()) }
}

#[test]
fn locate_absent_address_is_none() {
    let ps = vec![peri("AA:BB:CC:DD:EE:01", Some("Sensor")), peri("AA:BB:CC:DD:EE:02", None)];
    assert!(locate(&"AA:BB:CC:DD:EE:99".to_string(), &ps).is_none());
    assert!(locate(&"".to_string(), &ps).is_none());
}

#[test]
fn locate_present_address_matches_exactly() {
    let ps = vec![peri("AA:BB:CC:DD:EE:01", Some("Sensor")), peri("AA:BB:CC:DD:EE:02", None)];
    let idx = locate(&"AA:BB:CC:DD:EE:02".to_string(), &ps).unwrap();
    assert_eq!(idx, 1);
    assert_eq!(ps[idx].address, "AA:BB:CC:DD:EE:02");
    // Case-sensitive: a lowercased address is a different address.
    assert!(locate(&"aa:bb:cc:dd:ee:02".to_string(), &ps).is_none());
}

#[test]
fn locate_duplicate_addresses_last_wins() {
    let ps = vec![
        peri("AA:BB:CC:DD:EE:01", Some("First")),
        peri("AA:BB:CC:DD:EE:02", None),
        peri("AA:BB:CC:DD:EE:01", Some("Second")),
    ];
    let idx = locate(&"AA:BB:CC:DD:EE:01".to_string(), &ps).unwrap();
    assert_eq!(idx, 2);
}

#[test]
fn locate_and_start_absent_is_device_not_found() {
    let ps = vec![peri("AA:BB:CC:DD:EE:01", Some("Sensor"))];
    let r = locate_and_start(&"AA:BB:CC:DD:EE:99".to_string(), &ps, Mode::Enumerate);
    match r {
        Err(e) => assert_eq!(e, BleError::DeviceNotFound),
        Ok(_) => panic!("expected DeviceNotFound"),
    }
}

#[test]
fn locate_and_start_present_connects() {
    let ps = vec![peri("AA:BB:CC:DD:EE:01", Some("Sensor"))];
    let (idx, _s, a) = locate_and_start(&"AA:BB:CC:DD:EE:01".to_string(), &ps, Mode::Enumerate)
        .unwrap();
    assert_eq!(idx, 0);
    assert!(matches!(a, Action::Connect));
}

#[test]
fn find_char_exact_match_over_flattened_set() {
    let services = vec![
        svc("1800", vec![chr("2a00"), chr("2a01")]),
        svc("180f", vec![chr("2a19")]),
    ];
    assert_eq!(find_char(&services, &"2a19".to_string()), Some((1, 0)));
    assert_eq!(find_char(&services, &"2a01".to_string()), Some((0, 1)));
    assert_eq!(find_char(&services, &"2aff".to_string()), None);
    // Exact string match only: no prefix or case-folded match.
    assert_eq!(find_char(&services, &"2A19".to_string()), None);
    assert_eq!(find_char(&services, &"2a1".to_string()), None);
}

#[test]
fn find_char_first_match_wins() {
    let services = vec![
        svc("1800", vec![chr("2a00")]),
        svc("1801", vec![chr("2a00")]),
    ];
    assert_eq!(find_char(&services, &"2a00".to_string()), Some((0, 0)));
}

#[test]
fn enumerate_session_connect_discover_then_stop() {
    let (s, a) = start(Mode::Enumerate);
    assert!(matches!(a, Action::Connect));
    let (s, a) = s.step(Event::Connected);
    assert!(matches!(a, Action::Discover));
    let services = vec![svc("1800", vec![chr("2a00")])];
    let (s, a) = s.step(Event::Discovered { services });
    assert!(matches!(a, Action::Stop { error: None }));
    assert!(matches!(s, Session::Done));
}

#[test]
fn read_missing_characteristic_fails_before_transport() {
    let (s, _a) = start(Mode::Read { uuid: "2aff".to_string() });
    let (s, a) = s.step(Event::Connected);
    assert!(matches!(a, Action::Discover));
    let services = vec![svc("1800", vec![chr("2a00"), chr("2a01")])];
    let (s, a) = s.step(Event::Discovered { services });
    match a {
        Action::Stop { error } => assert_eq!(error, Some(BleError::CharacteristicNotFound)),
        _ => panic!("expected the session to stop without a read"),
    }
    assert!(matches!(s, Session::Failed { error: BleError::CharacteristicNotFound }));
}

#[test]
fn read_present_characteristic_reads_then_stops() {
    let (s, _a) = start(Mode::Read { uuid: "2a19".to_string() });
    let (s, _a) = s.step(Event::Connected);
    let services = vec![svc("180f", vec![chr("2a19")])];
    let (s, a) = s.step(Event::Discovered { services });
    match a {
        Action::ReadChar { uuid } => assert_eq!(uuid, "2a19"),
        _ => panic!("expected a read"),
    }
    let (s, a) = s.step(Event::ReadResult { value: vec![1, 2, 3] });
    assert!(matches!(a, Action::Stop { error: None }));
    assert!(matches!(s, Session::Done));
}

#[test]
fn write_hello_issues_one_write_without_response() {
    let payload = trim_ascii(&b"hello".to_vec());
    let (s, _a) = start(Mode::Write { uuid: "2a19".to_string(), payload });
    let (s, _a) = s.step(Event::Connected);
    let services = vec![svc("180f", vec![chr("2a19")])];
    let (s, a) = s.step(Event::Discovered { services });
    match a {
        Action::WriteChar { uuid, payload, write_type } => {
            assert_eq!(uuid, "2a19");
            assert_eq!(payload, b"hello".to_vec());
            assert_eq!(write_type, WriteMode::WithoutResponse);
        },
        _ => panic!("expected exactly one write"),
    }
    let (s, a) = s.step(Event::WriteDone);
    assert!(matches!(a, Action::Stop { error: None }));
    assert!(matches!(s, Session::Done));
}

#[test]
fn interactive_loop_alternates_write_then_read() {
    let wu = uart_write_uuid();
    let ru = uart_read_uuid();
    let (s, _a) = start(Mode::Interactive { write_uuid: wu.clone(), read_uuid: ru.clone() });
    let (s, _a) = s.step(Event::Connected);
    let services = vec![svc("6e400001-b5a3-f393-e0a9-e50e24dcca9e", vec![
        chr("6e400002-b5a3-f393-e0a9-e50e24dcca9e"),
        chr("6e400003-b5a3-f393-e0a9-e50e24dcca9e"),
    ])];
    let (s, a) = s.step(Event::Discovered { services });
    assert!(matches!(a, Action::RequestLine));

    // write("a") -> read() -> write("b") -> read() -> clean stop at end of input
    let (s, a) = s.step(Event::Line { raw: b"a\n".to_vec() });
    match a {
        Action::WriteChar { uuid, payload, write_type } => {
            assert_eq!(uuid, wu);
            assert_eq!(payload, b"a".to_vec());
            assert_eq!(write_type, WriteMode::WithoutResponse);
        },
        _ => panic!("expected the first write"),
    }
    let (s, a) = s.step(Event::WriteDone);
    match a {
        Action::ReadChar { uuid } => assert_eq!(uuid, ru),
        _ => panic!("expected the paired read"),
    }
    let (s, a) = s.step(Event::ReadResult { value: vec![] });
    assert!(matches!(a, Action::RequestLine));
    let (s, a) = s.step(Event::Line { raw: b"b\n".to_vec() });
    match a {
        Action::WriteChar { uuid, payload, write_type } => {
            assert_eq!(uuid, wu);
            assert_eq!(payload, b"b".to_vec());
            assert_eq!(write_type, WriteMode::WithoutResponse);
        },
        _ => panic!("expected the second write"),
    }
    let (s, a) = s.step(Event::WriteDone);
    assert!(matches!(a, Action::ReadChar { .. }));
    let (s, a) = s.step(Event::ReadResult { value: vec![] });
    assert!(matches!(a, Action::RequestLine));
    let (s, a) = s.step(Event::EndOfInput);
    assert!(matches!(a, Action::Stop { error: None }));
    assert!(matches!(s, Session::Done));
}

#[test]
fn interactive_missing_uart_characteristics_fails() {
    let (s, _a) = start(Mode::Interactive {
        write_uuid: uart_write_uuid(),
        read_uuid: uart_read_uuid(),
    });
    let (s, _a) = s.step(Event::Connected);
    let services = vec![svc("1800", vec![chr("2a00")])];
    let (_s, a) = s.step(Event::Discovered { services });
    match a {
        Action::Stop { error } => assert_eq!(error, Some(BleError::CharacteristicNotFound)),
        _ => panic!("expected the session to stop"),
    }
}

#[test]
fn connect_failure_aborts() {
    let (s, _a) = start(Mode::Enumerate);
    let (s, a) = s.step(Event::ConnectFailed);
    match a {
        Action::Stop { error } => assert_eq!(error, Some(BleError::ConnectFailed)),
        _ => panic!("expected the session to stop"),
    }
    assert!(matches!(s, Session::Failed { error: BleError::ConnectFailed }));
}

#[test]
fn discovery_failure_aborts() {
    let (s, _a) = start(Mode::Enumerate);
    let (s, _a) = s.step(Event::Connected);
    let (_s, a) = s.step(Event::DiscoverFailed);
    match a {
        Action::Stop { error } => assert_eq!(error, Some(BleError::DiscoveryFailed)),
        _ => panic!("expected the session to stop"),
    }
}

#[test]
fn transport_failure_aborts_the_loop() {
    let (s, _a) = start(Mode::Interactive {
        write_uuid: uart_write_uuid(),
        read_uuid: uart_read_uuid(),
    });
    let (s, _a) = s.step(Event::Connected);
    let services = vec![svc("6e400001-b5a3-f393-e0a9-e50e24dcca9e", vec![
        chr("6e400002-b5a3-f393-e0a9-e50e24dcca9e"),
        chr("6e400003-b5a3-f393-e0a9-e50e24dcca9e"),
    ])];
    let (s, _a) = s.step(Event::Discovered { services });
    let (s, _a) = s.step(Event::Line { raw: b"x\n".to_vec() });
    let (_s, a) = s.step(Event::WriteFailed);
    match a {
        Action::Stop { error } => assert_eq!(error, Some(BleError::TransportFailure)),
        _ => panic!("expected the session to stop"),
    }
}

#[test]
fn trim_strips_surrounding_ascii_whitespace() {
    assert_eq!(trim_ascii(&b"hello\n".to_vec()), b"hello".to_vec());
    assert_eq!(trim_ascii(&b"  spaced\t \r\n".to_vec()), b"spaced".to_vec());
    assert_eq!(trim_ascii(&b"mid dle\n".to_vec()), b"mid dle".to_vec());
    assert_eq!(trim_ascii(&b" \t\r\n".to_vec()), Vec::<u8>::new());
    assert_eq!(trim_ascii(&Vec::new()), Vec::<u8>::new());
    assert_eq!(trim_ascii(&b"hello".to_vec()), b"hello".to_vec());
}

#[test]
fn parse_command_each_verb() {
    let args = |v: &[&str]| v.iter().map(|s| s.to_string()).collect::<Vec<String>>();
    assert!(matches!(parse_command(&args(&["ble-util", "scan"])), Ok(Command::Scan)));
    match parse_command(&args(&["ble-util", "ping", "AA"])) {
        Ok(Command::Ping { addr }) => assert_eq!(addr, "AA"),
        _ => panic!("expected ping"),
    }
    match parse_command(&args(&["ble-util", "read", "AA", "2a19"])) {
        Ok(Command::Read { addr, uuid }) => {
            assert_eq!(addr, "AA");
            assert_eq!(uuid, "2a19");
        },
        _ => panic!("expected read"),
    }
    match parse_command(&args(&["ble-util", "write", "AA"])) {
        Ok(Command::Write { addr }) => assert_eq!(addr, "AA"),
        _ => panic!("expected write"),
    }
    match parse_command(&args(&["ble-util", "write", "AA", "2a19"])) {
        Ok(Command::WriteValue { addr, uuid }) => {
            assert_eq!(addr, "AA");
            assert_eq!(uuid, "2a19");
        },
        _ => panic!("expected a single write"),
    }
    assert!(matches!(parse_command(&args(&["ble-util", "help"])), Ok(Command::Help)));
}

#[test]
fn parse_command_usage_errors() {
    let args = |v: &[&str]| v.iter().map(|s| s.to_string()).collect::<Vec<String>>();
    assert!(matches!(parse_command(&args(&["ble-util"])), Err(UsageError::MissingCommand)));
    assert!(matches!(parse_command(&args(&["ble-util", "ping"])), Err(UsageError::MissingAddress)));
    assert!(matches!(parse_command(&args(&["ble-util", "read"])), Err(UsageError::MissingAddress)));
    assert!(matches!(
        parse_command(&args(&["ble-util", "read", "AA"])),
        Err(UsageError::MissingUuid)
    ));
    assert!(matches!(parse_command(&args(&["ble-util", "write"])), Err(UsageError::MissingAddress)));
    match parse_command(&args(&["ble-util", "frobnicate"])) {
        Err(UsageError::Unrecognized { word }) => assert_eq!(word, "frobnicate"),
        _ => panic!("expected an unrecognized verb"),
    }
}

#[test]
fn scan_windows_match_the_verbs() {
    assert_eq!(scan_window_secs(&Command::Scan), 3);
    assert_eq!(scan_window_secs(&Command::Ping { addr: "AA".to_string() }), 3);
    assert_eq!(
        scan_window_secs(&Command::Read { addr: "AA".to_string(), uuid: "2a19".to_string() }),
        3
    );
    assert_eq!(scan_window_secs(&Command::Write { addr: "AA".to_string() }), 2);
    assert_eq!(
        scan_window_secs(&Command::WriteValue {
            addr: "AA".to_string(),
            uuid: "2a19".to_string(),
        }),
        2
    );
}

#[test]
fn usage_text_lists_every_verb() {
    let text = usage_text();
    assert!(text.contains("scan"));
    assert!(text.contains("ping <addr>"));
    assert!(text.contains("read <addr> <char>"));
    assert!(text.contains("write <addr>"));
    assert!(text.contains("help"));
}

#[test]
fn uart_uuids_are_the_fixed_pair() {
    assert_eq!(uart_write_uuid(), "6e400002-b5a3-f393-e0a9-e50e24dcca9e");
    assert_eq!(uart_read_uuid(), "6e400003-b5a3-f393-e0a9-e50e24dcca9e");
}
