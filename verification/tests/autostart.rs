use mistboard::autostart::{
    after_executable_located, after_run_key_opened, after_value_deleted, after_value_written,
    autostart_enabled, autostart_value, set_autostart_registry, AutostartStep, RUN_KEY,
};

#[test]
fn value_name_and_key() {
    assert_eq!(autostart_value(), "MistBoard");
    assert_eq!(RUN_KEY, r"Software\Microsoft\Windows\CurrentVersion\Run");
}

#[test]
fn enabled_exactly_when_value_reads() {
    assert!(autostart_enabled(&Ok("C:\\MistBoard.exe".to_string())));
    assert!(!autostart_enabled(&Err("not found".to_string())));
}

#[test]
fn switching_on() {
    assert!(matches!(set_autostart_registry(true), AutostartStep::OpenRunKey { enable: true }));
    assert!(matches!(after_run_key_opened(true, Ok(())), AutostartStep::LocateExecutable));
    match after_executable_located(Ok("C:\\Apps\\MistBoard.exe".to_string())) {
        AutostartStep::WriteValue { name, data } => {
            assert_eq!(name, "MistBoard");
            assert_eq!(data, "C:\\Apps\\MistBoard.exe");
        },
        _ => panic!("expected a write"),
    }
    assert!(matches!(after_value_written(Ok(())), AutostartStep::Done { outcome: Ok(()) }));
}

#[test]
fn switching_on_failures() {
    match after_run_key_opened(true, Err("access denied".to_string())) {
        AutostartStep::Done { outcome: Err(e) } => assert_eq!(e, "access denied"),
        _ => panic!("expected failure"),
    }
    match after_executable_located(Err("no exe".to_string())) {
        AutostartStep::Done { outcome: Err(e) } => assert_eq!(e, "no exe"),
        _ => panic!("expected failure"),
    }
    match after_value_written(Err("write failed".to_string())) {
        AutostartStep::Done { outcome: Err(e) } => assert_eq!(e, "write failed"),
        _ => panic!("expected failure"),
    }
}

#[test]
fn switching_off() {
    assert!(matches!(set_autostart_registry(false), AutostartStep::OpenRunKey { enable: false }));
    match after_run_key_opened(false, Ok(())) {
        AutostartStep::DeleteValue { name } => assert_eq!(name, "MistBoard"),
        _ => panic!("expected a delete"),
    }
    assert!(matches!(after_value_deleted(Ok(())), AutostartStep::Done { outcome: Ok(()) }));
    assert!(matches!(after_value_deleted(Err("missing".to_string())), AutostartStep::Done { outcome: Ok(()) }));
}
