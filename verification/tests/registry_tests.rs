use cursor_guest::registry::{machine_guid_from_read, set_machine_guid, verify_machine_guid, GuidAction, GuidRead, GuidUpdate};

fn finish(action: GuidAction) -> (Result<(), String>, bool) {
    match action {
        GuidAction::Finish { result, report_step_error } => (result, report_step_error),
        _ => panic!("expected the update to finish"),
    }
}

#[test]
fn read_results_carry_their_messages() {
    assert_eq!(machine_guid_from_read(GuidRead::Value("g".into())), Ok("g".to_string()));
    assert_eq!(
        machine_guid_from_read(GuidRead::KeyNotOpened("denied".into())),
        Err("无法打开Cryptography注册表项以进行读取: denied".to_string())
    );
    assert_eq!(
        machine_guid_from_read(GuidRead::ValueNotRead("gone".into())),
        Err("无法读取MachineGuid: gone".to_string())
    );
}

#[test]
fn verify_compares_with_expected() {
    assert_eq!(verify_machine_guid(Ok("abc".into()), "abc"), Ok(true));
    assert_eq!(verify_machine_guid(Ok("abd".into()), "abc"), Ok(false));
    assert_eq!(verify_machine_guid(Err("e".into()), "abc"), Err("e".to_string()));
}

#[test]
fn successful_update_runs_every_step() {
    let (s, a) = set_machine_guid("new".into());
    assert!(matches!(a, GuidAction::ReadGuid));
    let (s, a) = s.step(Ok("old".into()));
    assert!(matches!(a, GuidAction::OpenKeyForWrite));
    let (s, a) = s.step(Ok(String::new()));
    assert!(matches!(&a, GuidAction::WriteGuid(g) if g == "new"));
    let (s, a) = s.step(Ok(String::new()));
    assert!(matches!(a, GuidAction::ReadGuid));
    let (s, a) = s.step(Ok("new".into()));
    assert_eq!(finish(a), (Ok(()), false));
    assert!(s.finished());
}

#[test]
fn access_denied_on_first_read_stops_with_report() {
    let (s, _) = set_machine_guid("new".into());
    let (s, a) = s.step(Err("无法打开Cryptography注册表项以进行读取: access is denied".into()));
    assert!(s.finished());
    assert_eq!(
        finish(a),
        (Err("无法读取MachineGuid：无法打开Cryptography注册表项以进行读取: access is denied。请以管理员身份运行。".to_string()), true)
    );
}

#[test]
fn other_read_error_goes_on_without_original() {
    let (s, _) = set_machine_guid("new".into());
    let (s, a) = s.step(Err("无法读取MachineGuid: missing".into()));
    assert!(matches!(a, GuidAction::OpenKeyForWrite));
    let (s, _) = s.step(Ok(String::new()));
    let (s, _) = s.step(Ok(String::new()));
    let (s, a) = s.step(Ok("other".into()));
    assert!(s.finished());
    assert_eq!(finish(a), (Err("修改后的MachineGuid与预期不符，可能是权限不足".to_string()), false));
}

#[test]
fn mismatch_restores_original() {
    let (s, _) = set_machine_guid("new".into());
    let (s, _) = s.step(Ok("old".into()));
    let (s, _) = s.step(Ok(String::new()));
    let (s, _) = s.step(Ok(String::new()));
    let (s, a) = s.step(Err("boom".into()));
    assert!(matches!(&a, GuidAction::Restore(o) if o == "old"));
    assert!(!s.finished());
    let (s, a) = s.step(Err("restore failed too".into()));
    assert!(s.finished());
    assert_eq!(finish(a), (Err("无法验证MachineGuid修改: boom".to_string()), false));
}

#[test]
fn open_and_write_failures() {
    let (s, _) = set_machine_guid("new".into());
    let (s, _) = s.step(Ok("old".into()));
    let (_, a) = s.step(Err("e1".into()));
    assert_eq!(finish(a), (Err("无法打开Cryptography注册表项以进行写入: e1，请以管理员身份运行".to_string()), false));

    let (s, _) = set_machine_guid("new".into());
    let (s, _) = s.step(Ok("old".into()));
    let (s, _) = s.step(Ok(String::new()));
    let (_, a) = s.step(Err("e2".into()));
    assert_eq!(finish(a), (Err("无法修改MachineGuid: e2，请以管理员身份运行".to_string()), false));
    let _ = GuidUpdate::Finished;
}
