use cursor_guest::commands::{classify_config_read, modify_cursor_ids, ModifyEvent, ModifyIds, ModifyRequest, ModifyStep};
use cursor_guest::models::ConfigFile;
use cursor_guest::utils::{finish_step, start_step};

fn reports(step: &ModifyStep) -> Vec<(String, String, bool)> {
    step.reports.iter().map(|r| (r.step_id.clone(), r.status.clone(), r.is_error())).collect()
}

fn r(id: &str, status: &str) -> (String, String, bool) {
    (id.to_string(), status.to_string(), status == "error")
}

fn old_file() -> ConfigFile {
    ConfigFile {
        telemetry_machine_id: "m".into(),
        telemetry_mac_machine_id: "mac".into(),
        telemetry_dev_device_id: "dev".into(),
        telemetry_sqm_id: "{SQM}".into(),
    }
}

#[test]
fn step_reports() {
    let s = start_step("update-config");
    assert_eq!((s.step_id.as_str(), s.status.as_str(), s.is_error()), ("update-config", "in-progress", false));
    let (e, res) = finish_step("保存配置", "update-config", Err::<(), String>("disk full".into()));
    assert_eq!((e.status.as_str(), e.is_error()), ("error", true));
    assert_eq!(res, Err("步骤'保存配置'执行失败: disk full".to_string()));
    let (e, res) = finish_step("生成IDs", "generate-ids", Ok::<u8, String>(7));
    assert_eq!(e.status, "completed");
    assert_eq!(res, Ok(7));
}

#[test]
fn classify_reads() {
    assert!(matches!(classify_config_read(Ok(old_file())), Ok(Some(_))));
    assert!(matches!(
        classify_config_read(Err("Failed to open config file: No such file or directory (os error 2)".into())),
        Ok(None)
    ));
    assert_eq!(
        classify_config_read(Err("Failed to parse config file: x".into())).err(),
        Some("读取配置失败: Failed to parse config file: x".to_string())
    );
}

#[test]
fn unix_reset_saves_and_returns_new_config() {
    let (s, step) = modify_cursor_ids(false);
    assert_eq!(reports(&step), vec![r("backup-config", "in-progress")]);
    assert!(matches!(step.request, ModifyRequest::ReadConfig));
    let (s, step) = s.step(ModifyEvent::ConfigRead(Ok(old_file())));
    assert_eq!(
        reports(&step),
        vec![
            r("backup-config", "completed"),
            r("generate-ids", "in-progress"),
            r("generate-ids", "completed"),
            r("update-config", "in-progress")
        ]
    );
    let saved = match step.request {
        ModifyRequest::SaveConfig(c) => c,
        _ => panic!("expected a save"),
    };
    assert_eq!(saved.telemetry_sqm_id, "{SQM}");
    assert_eq!(saved.telemetry_machine_id.len(), 64);
    let (s, step) = s.step(ModifyEvent::ConfigSaved(Ok(())));
    assert!(matches!(s, ModifyIds::Done));
    assert_eq!(reports(&step), vec![r("update-config", "completed")]);
    match step.request {
        ModifyRequest::Finish(Ok(c)) => {
            assert_eq!(c.telemetry_machine_id, saved.telemetry_machine_id);
            assert_eq!(c.telemetry_dev_device_id, saved.telemetry_dev_device_id);
        }
        _ => panic!("expected success"),
    }
}

#[test]
fn windows_reset_sets_and_checks_machine_guid() {
    let (s, _) = modify_cursor_ids(true);
    let (s, step) = s.step(ModifyEvent::ConfigRead(Err("Failed to open config file: No such file or directory".into())));
    assert_eq!(reports(&step).last(), Some(&r("update-registry", "in-progress")));
    let guid = match step.request {
        ModifyRequest::SetMachineGuid(g) => g,
        _ => panic!("expected the registry step"),
    };
    assert_eq!(guid.len(), 64);
    let (s, step) = s.step(ModifyEvent::GuidSet(Ok(())));
    assert_eq!(reports(&step), vec![r("update-registry", "completed"), r("verify-registry", "in-progress")]);
    assert!(matches!(&step.request, ModifyRequest::VerifyMachineGuid(g) if *g == guid));
    let (s, step) = s.step(ModifyEvent::GuidVerified(Ok(false)));
    assert!(matches!(s, ModifyIds::Done));
    assert_eq!(reports(&step), vec![r("verify-registry", "error")]);
    match step.request {
        ModifyRequest::Finish(Err(m)) => assert_eq!(
            m,
            "步骤'验证MachineGuid'执行失败: 系统MachineGuid与telemetry_machine_id不一致。请尝试以管理员身份运行此应用程序。"
        ),
        _ => panic!("expected failure"),
    }
}

#[test]
fn failed_read_ends_the_reset() {
    let (s, _) = modify_cursor_ids(true);
    assert!(!s.accepts(&ModifyEvent::GuidSet(Ok(()))));
    let (s, step) = s.step(ModifyEvent::ConfigRead(Err("Failed to read config file: busy".into())));
    assert!(matches!(s, ModifyIds::Done));
    assert_eq!(reports(&step), vec![r("backup-config", "error")]);
    match step.request {
        ModifyRequest::Finish(Err(m)) => {
            assert_eq!(m, "步骤'读取配置'执行失败: 读取配置失败: Failed to read config file: busy")
        }
        _ => panic!("expected failure"),
    }
}

#[test]
fn failed_registry_and_save_steps() {
    let (s, _) = modify_cursor_ids(true);
    let (s, _) = s.step(ModifyEvent::ConfigRead(Ok(old_file())));
    let (_, step) = s.step(ModifyEvent::GuidSet(Err("无法修改MachineGuid: x".into())));
    assert_eq!(reports(&step), vec![r("update-registry", "error")]);
    assert!(matches!(step.request, ModifyRequest::Finish(Err(ref m)) if m == "步骤'修改系统MachineGuid'执行失败: 无法修改MachineGuid: x"));

    let (s, _) = modify_cursor_ids(false);
    let (s, _) = s.step(ModifyEvent::ConfigRead(Ok(old_file())));
    let (_, step) = s.step(ModifyEvent::ConfigSaved(Err("Failed to write config file: full".into())));
    assert!(matches!(step.request, ModifyRequest::Finish(Err(ref m)) if m == "步骤'保存配置'执行失败: Failed to write config file: full"));
}
