//! The identifier reset as a sequence of steps: read the old
//! configuration, generate fresh identifiers, on Windows replace and check
//! the system's `MachineGuid`, and save the new configuration. The library
//! decides; the caller performs each request and hands back its outcome.

use vstd::prelude::*;

use crate::config::{generate_new_config, is_fresh_config};
use crate::models::{ConfigFile, StorageConfig};
use crate::text::{joined, contains, occurs_in};
use crate::utils::{completed, failed, finish_step, start_step, started, step_failure, StepStatusEvent};

verus! {

/// Where the reset stands.
pub enum ModifyIds {
    /// Waiting for the old configuration to be read; `windows` says whether
    /// the system's `MachineGuid` is to be replaced too.
    ReadingConfig { windows: bool },
    /// Waiting for `MachineGuid` to be replaced by the new machine identifier.
    SettingGuid { config: StorageConfig },
    /// Waiting for `MachineGuid` to be compared with the new machine identifier.
    VerifyingGuid { config: StorageConfig },
    /// Waiting for the new configuration to be saved.
    SavingConfig { config: StorageConfig },
    /// Nothing left to do.
    Done,
}

/// The outcome of the request last made.
pub enum ModifyEvent {
    /// The old configuration, or the message of the failed read.
    ConfigRead(Result<ConfigFile, String>),
    /// Whether `MachineGuid` was replaced.
    GuidSet(Result<(), String>),
    /// Whether `MachineGuid` now equals the new machine identifier.
    GuidVerified(Result<bool, String>),
    /// Whether the new configuration was saved.
    ConfigSaved(Result<(), String>),
}

/// What the caller is asked to do next.
pub enum ModifyRequest {
    ReadConfig,
    SetMachineGuid(String),
    VerifyMachineGuid(String),
    SaveConfig(StorageConfig),
    /// The reset is over, with this result.
    Finish(Result<StorageConfig, String>),
}

/// The reports to send to the front end, in order, then the request.
pub struct ModifyStep {
    pub reports: Vec<StepStatusEvent>,
    pub request: ModifyRequest,
}

/// The reports of a step, as pairs of step identifier and status.
pub open spec fn reports_of(step: ModifyStep) -> Seq<(Seq<char>, Seq<char>)> {
    step.reports@.map_values(|e: StepStatusEvent| e@)
}

/// How a read of the old configuration counts: `Ok(Some(..))` with the
/// configuration; `Ok(None)` where the file does not exist (the message
/// says it could not be opened for want of such a file), so that a fresh
/// configuration is made; an error otherwise.
pub open spec fn read_outcome(read: Result<ConfigFile, String>) -> Result<Option<ConfigFile>, Seq<char>> {
    match read {
        Ok(c) => Ok(Some(c)),
        Err(e) => if occurs_in(e@, "Failed to open config file"@) && occurs_in(e@, "No such file"@) {
            Ok(None)
        } else {
            Err("读取配置失败: "@ + e@)
        },
    }
}

/// The error, if any, of the check of `MachineGuid`.
pub open spec fn verify_error(verified: Result<bool, String>) -> Option<Seq<char>> {
    match verified {
        Ok(true) => None,
        Ok(false) => Some("系统MachineGuid与telemetry_machine_id不一致"@),
        Err(e) => Some(e@),
    }
}

/// The hint added when the check of `MachineGuid` fails.
pub open spec fn admin_hint() -> Seq<char> {
    "。请尝试以管理员身份运行此应用程序。"@
}

/// How many outcomes a state still waits for at most.
pub open spec fn modify_rank(s: ModifyIds) -> nat {
    match s {
        ModifyIds::ReadingConfig { .. } => 4,
        ModifyIds::SettingGuid { .. } => 3,
        ModifyIds::VerifyingGuid { .. } => 2,
        ModifyIds::SavingConfig { .. } => 1,
        ModifyIds::Done => 0,
    }
}

/// The state waits for this kind of outcome.
pub open spec fn awaits(s: ModifyIds, event: ModifyEvent) -> bool {
    match s {
        ModifyIds::ReadingConfig { .. } => event is ConfigRead,
        ModifyIds::SettingGuid { .. } => event is GuidSet,
        ModifyIds::VerifyingGuid { .. } => event is GuidVerified,
        ModifyIds::SavingConfig { .. } => event is ConfigSaved,
        ModifyIds::Done => false,
    }
}

/// The request that hands a configuration on to be saved.
pub open spec fn asks_to_save(step: ModifyStep, ids: (Seq<char>, Seq<char>, Seq<char>, Seq<char>)) -> bool {
    step.request matches ModifyRequest::SaveConfig(c) && c@ == ids
}

/// One step of the reset: the state and the step that follow `pre` once
/// the outcome `event` of its pending request is known.
pub open spec fn modify_next(pre: ModifyIds, event: ModifyEvent, post: ModifyIds, step: ModifyStep) -> bool {
    match (pre, event) {
        (ModifyIds::ReadingConfig { windows }, ModifyEvent::ConfigRead(read)) => match read_outcome(read) {
            Err(e) => {
                &&& post is Done
                &&& reports_of(step) == seq![failed("backup-config"@)]
                &&& step.request matches ModifyRequest::Finish(Err(m))
                &&& m@ == step_failure("读取配置"@, e)
            },
            Ok(old) => if windows {
                &&& post matches ModifyIds::SettingGuid { config }
                &&& is_fresh_config(old, config@)
                &&& reports_of(step) == seq![
                    completed("backup-config"@),
                    started("generate-ids"@),
                    completed("generate-ids"@),
                    started("update-registry"@),
                ]
                &&& step.request matches ModifyRequest::SetMachineGuid(g)
                &&& g@ == config.telemetry_machine_id@
            } else {
                &&& post matches ModifyIds::SavingConfig { config }
                &&& is_fresh_config(old, config@)
                &&& reports_of(step) == seq![
                    completed("backup-config"@),
                    started("generate-ids"@),
                    completed("generate-ids"@),
                    started("update-config"@),
                ]
                &&& asks_to_save(step, config@)
            },
        },
        (ModifyIds::SettingGuid { config }, ModifyEvent::GuidSet(set)) => match set {
            Err(e) => {
                &&& post is Done
                &&& reports_of(step) == seq![failed("update-registry"@)]
                &&& step.request matches ModifyRequest::Finish(Err(m))
                &&& m@ == step_failure("修改系统MachineGuid"@, e@)
            },
            Ok(_) => {
                &&& post matches ModifyIds::VerifyingGuid { config: c }
                &&& c@ == config@
                &&& reports_of(step) == seq![completed("update-registry"@), started("verify-registry"@)]
                &&& step.request matches ModifyRequest::VerifyMachineGuid(g)
                &&& g@ == config.telemetry_machine_id@
            },
        },
        (ModifyIds::VerifyingGuid { config }, ModifyEvent::GuidVerified(verified)) => match verify_error(verified) {
            Some(e) => {
                &&& post is Done
                &&& reports_of(step) == seq![failed("verify-registry"@)]
                &&& step.request matches ModifyRequest::Finish(Err(m))
                &&& m@ == step_failure("验证MachineGuid"@, e) + admin_hint()
            },
            None => {
                &&& post matches ModifyIds::SavingConfig { config: c }
                &&& c@ == config@
                &&& reports_of(step) == seq![completed("verify-registry"@), started("update-config"@)]
                &&& asks_to_save(step, config@)
            },
        },
        (ModifyIds::SavingConfig { config }, ModifyEvent::ConfigSaved(saved)) => match saved {
            Err(e) => {
                &&& post is Done
                &&& reports_of(step) == seq![failed("update-config"@)]
                &&& step.request matches ModifyRequest::Finish(Err(m))
                &&& m@ == step_failure("保存配置"@, e@)
            },
            Ok(_) => {
                &&& post is Done
                &&& reports_of(step) == seq![completed("update-config"@)]
                &&& step.request matches ModifyRequest::Finish(Ok(c))
                &&& c@ == config@
            },
        },
        _ => false,
    }
}

/// How a read of the old configuration counts (see `read_outcome`).
pub fn classify_config_read(read: Result<ConfigFile, String>) -> (res: Result<Option<ConfigFile>, String>)
    ensures
        read_outcome(read) matches Ok(o) ==> res == Ok::<Option<ConfigFile>, String>(o),
        read_outcome(read) matches Err(e) ==> res matches Err(m) && m@ == e,
{
    match read {
        Ok(c) => Ok(Some(c)),
        Err(e) => {
            if contains(e.as_str(), "Failed to open config file") && contains(e.as_str(), "No such file") {
                Ok(None)
            } else {
                Err(joined("读取配置失败: ", e.as_str()))
            }
        },
    }
}

/// Starts the reset: the first step reads the old configuration.
pub fn modify_cursor_ids(windows: bool) -> (res: (ModifyIds, ModifyStep))
    ensures
        res.0 == (ModifyIds::ReadingConfig { windows }),
        reports_of(res.1) == seq![started("backup-config"@)],
        res.1.request is ReadConfig,
{
    let mut reports: Vec<StepStatusEvent> = Vec::new();
    reports.push(start_step("backup-config"));
    let step = ModifyStep { reports, request: ModifyRequest::ReadConfig };
    assert(reports_of(step) =~= seq![started("backup-config"@)]);
    (ModifyIds::ReadingConfig { windows }, step)
}

impl ModifyIds {
    /// Whether the state waits for this kind of outcome.
    pub fn accepts(&self, event: &ModifyEvent) -> (res: bool)
        ensures
            res == awaits(*self, *event),
    {
        match (self, event) {
            (ModifyIds::ReadingConfig { .. }, ModifyEvent::ConfigRead(_)) => true,
            (ModifyIds::SettingGuid { .. }, ModifyEvent::GuidSet(_)) => true,
            (ModifyIds::VerifyingGuid { .. }, ModifyEvent::GuidVerified(_)) => true,
            (ModifyIds::SavingConfig { .. }, ModifyEvent::ConfigSaved(_)) => true,
            _ => false,
        }
    }

    /// Advances the reset by the outcome of its pending request.
    pub fn step(self, event: ModifyEvent) -> (res: (ModifyIds, ModifyStep))
        requires
            awaits(self, event),
        ensures
            modify_next(self, event, res.0, res.1),
            modify_rank(res.0) < modify_rank(self),
            self is VerifyingGuid ==> (res.1.request is SaveConfig <==> event == ModifyEvent::GuidVerified(Ok(true))),
            self is VerifyingGuid && event is GuidVerified && event->GuidVerified_0 is Err ==> (res.1.request matches ModifyRequest::Finish(Err(m))
                && m@ == step_failure("验证MachineGuid"@, event->GuidVerified_0->Err_0@) + "。请尝试以管理员身份运行此应用程序。"@),
            self is VerifyingGuid && event == ModifyEvent::GuidVerified(Ok(false)) ==> (res.1.request matches ModifyRequest::Finish(Err(m))
                && m@ == step_failure("验证MachineGuid"@, "系统MachineGuid与telemetry_machine_id不一致"@)
                + "。请尝试以管理员身份运行此应用程序。"@),
            self is VerifyingGuid && !(event == ModifyEvent::GuidVerified(Ok(true))) ==> res.1.reports@.len() == 1
                && res.1.reports@[0]@ == ("verify-registry"@, "error"@),
            self is SettingGuid ==> (res.1.request is VerifyMachineGuid <==> event->GuidSet_0 is Ok),
            self is SettingGuid && event->GuidSet_0 is Err ==> (res.1.request matches ModifyRequest::Finish(Err(m))
                && m@ == step_failure("修改系统MachineGuid"@, event->GuidSet_0->Err_0@)),
            self is SavingConfig && event->ConfigSaved_0 is Ok ==> (res.1.request matches ModifyRequest::Finish(Ok(c))
                && c@ == self->SavingConfig_config@),
            self is SavingConfig && event->ConfigSaved_0 is Err ==> (res.1.request matches ModifyRequest::Finish(Err(m))
                && m@ == step_failure("保存配置"@, event->ConfigSaved_0->Err_0@)),
            self is ReadingConfig && event->ConfigRead_0 is Err && occurs_in(event->ConfigRead_0->Err_0@, "Failed to open config file"@)
                && occurs_in(event->ConfigRead_0->Err_0@, "No such file"@) ==> !(res.1.request is Finish),
            self is ReadingConfig && event->ConfigRead_0 is Err ==> (res.1.request is Finish <==> !(occurs_in(
                event->ConfigRead_0->Err_0@,
                "Failed to open config file"@,
            ) && occurs_in(event->ConfigRead_0->Err_0@, "No such file"@))),
            self is ReadingConfig && event->ConfigRead_0 is Ok ==> (if self->ReadingConfig_windows {
                res.1.request is SetMachineGuid
            } else {
                res.1.request is SaveConfig
            }),
            self is ReadingConfig && event->ConfigRead_0 is Err && !(occurs_in(event->ConfigRead_0->Err_0@, "Failed to open config file"@)
                && occurs_in(event->ConfigRead_0->Err_0@, "No such file"@)) ==> (res.1.request matches ModifyRequest::Finish(Err(m))
                && m@ == step_failure("读取配置"@, "读取配置失败: "@ + event->ConfigRead_0->Err_0@)),
    {
        let mut reports: Vec<StepStatusEvent> = Vec::new();
        match (self, event) {
            (ModifyIds::ReadingConfig { windows }, ModifyEvent::ConfigRead(read)) => {
                let (report, outcome) = finish_step("读取配置", "backup-config", classify_config_read(read));
                reports.push(report);
                match outcome {
                    Err(m) => {
                        let step = ModifyStep { reports, request: ModifyRequest::Finish(Err(m)) };
                        assert(reports_of(step) =~= seq![failed("backup-config"@)]);
                        (ModifyIds::Done, step)
                    },
                    Ok(old) => {
                        reports.push(start_step("generate-ids"));
                        let config = generate_new_config(old);
                        reports.push(finish_step("生成IDs", "generate-ids", Ok::<(), String>(())).0);
                        if windows {
                            reports.push(start_step("update-registry"));
                            let guid = config.telemetry_machine_id.clone();
                            let step = ModifyStep { reports, request: ModifyRequest::SetMachineGuid(guid) };
                            assert(reports_of(step) =~= seq![
                                completed("backup-config"@),
                                started("generate-ids"@),
                                completed("generate-ids"@),
                                started("update-registry"@),
                            ]);
                            (ModifyIds::SettingGuid { config }, step)
                        } else {
                            reports.push(start_step("update-config"));
                            let saved = config.duplicate();
                            let step = ModifyStep { reports, request: ModifyRequest::SaveConfig(saved) };
                            assert(reports_of(step) =~= seq![
                                completed("backup-config"@),
                                started("generate-ids"@),
                                completed("generate-ids"@),
                                started("update-config"@),
                            ]);
                            (ModifyIds::SavingConfig { config }, step)
                        }
                    },
                }
            },
            (ModifyIds::SettingGuid { config }, ModifyEvent::GuidSet(set)) => {
                let (report, outcome) = finish_step("修改系统MachineGuid", "update-registry", set);
                reports.push(report);
                match outcome {
                    Err(m) => {
                        let step = ModifyStep { reports, request: ModifyRequest::Finish(Err(m)) };
                        assert(reports_of(step) =~= seq![failed("update-registry"@)]);
                        (ModifyIds::Done, step)
                    },
                    Ok(_) => {
                        reports.push(start_step("verify-registry"));
                        let guid = config.telemetry_machine_id.clone();
                        let step = ModifyStep { reports, request: ModifyRequest::VerifyMachineGuid(guid) };
                        assert(reports_of(step) =~= seq![completed("update-registry"@), started("verify-registry"@)]);
                        (ModifyIds::VerifyingGuid { config }, step)
                    },
                }
            },
            (ModifyIds::VerifyingGuid { config }, ModifyEvent::GuidVerified(verified)) => {
                let checked: Result<(), String> = match verified {
                    Ok(true) => Ok(()),
                    Ok(false) => Err(String::from_str("系统MachineGuid与telemetry_machine_id不一致")),
                    Err(e) => Err(e),
                };
                let (report, outcome) = finish_step("验证MachineGuid", "verify-registry", checked);
                reports.push(report);
                match outcome {
                    Err(m) => {
                        let message = joined(m.as_str(), "。请尝试以管理员身份运行此应用程序。");
                        let step = ModifyStep { reports, request: ModifyRequest::Finish(Err(message)) };
                        assert(reports_of(step) =~= seq![failed("verify-registry"@)]);
                        (ModifyIds::Done, step)
                    },
                    Ok(_) => {
                        reports.push(start_step("update-config"));
                        let saved = config.duplicate();
                        let step = ModifyStep { reports, request: ModifyRequest::SaveConfig(saved) };
                        assert(reports_of(step) =~= seq![completed("verify-registry"@), started("update-config"@)]);
                        (ModifyIds::SavingConfig { config }, step)
                    },
                }
            },
            (ModifyIds::SavingConfig { config }, ModifyEvent::ConfigSaved(saved)) => {
                let (report, outcome) = finish_step("保存配置", "update-config", saved);
                reports.push(report);
                match outcome {
                    Err(m) => {
                        let step = ModifyStep { reports, request: ModifyRequest::Finish(Err(m)) };
                        assert(reports_of(step) =~= seq![failed("update-config"@)]);
                        (ModifyIds::Done, step)
                    },
                    Ok(_) => {
                        let step = ModifyStep { reports, request: ModifyRequest::Finish(Ok(config)) };
                        assert(reports_of(step) =~= seq![completed("update-config"@)]);
                        (ModifyIds::Done, step)
                    },
                }
            },
            // Ruled out by the precondition.
            (state, _) => (state, ModifyStep { reports, request: ModifyRequest::ReadConfig }),
        }
    }
}

/// A reset succeeds only once its configuration has been saved, and the
/// configuration it returns is the one that was saved.
pub proof fn lemma_success_only_after_save(pre: ModifyIds, event: ModifyEvent, post: ModifyIds, step: ModifyStep)
    requires
        modify_next(pre, event, post, step),
        step.request matches ModifyRequest::Finish(Ok(_)),
    ensures
        pre matches ModifyIds::SavingConfig { config } && step.request->Finish_0->Ok_0@ == config@,
        event matches ModifyEvent::ConfigSaved(Ok(_)),
{
}

/// The value that `MachineGuid` is to take, and the value it is checked
/// against, is the machine identifier of the configuration being made.
pub proof fn lemma_guid_is_machine_id(pre: ModifyIds, event: ModifyEvent, post: ModifyIds, step: ModifyStep)
    requires
        modify_next(pre, event, post, step),
        step.request is SetMachineGuid || step.request is VerifyMachineGuid,
    ensures
        step.request matches ModifyRequest::SetMachineGuid(g) ==> post matches ModifyIds::SettingGuid { config }
            && g@ == config.telemetry_machine_id@,
        step.request matches ModifyRequest::VerifyMachineGuid(g) ==> post matches ModifyIds::VerifyingGuid { config }
            && g@ == config.telemetry_machine_id@,
{
}

/// Once generated, the configuration is carried unchanged from step to step
/// until it is saved.
pub proof fn lemma_config_carried(pre: ModifyIds, event: ModifyEvent, post: ModifyIds, step: ModifyStep)
    requires
        modify_next(pre, event, post, step),
        !(pre is ReadingConfig),
        !(post is Done),
    ensures
        post matches ModifyIds::VerifyingGuid { config: c } ==> pre matches ModifyIds::SettingGuid { config }
            && c@ == config@,
        post matches ModifyIds::SavingConfig { config: c } ==> pre matches ModifyIds::VerifyingGuid { config }
            && c@ == config@ && asks_to_save(step, c@),
{
}

/// A configuration file that does not exist is no error: the reset goes on
/// and makes a fresh configuration, with a fresh SQM identifier.
pub proof fn lemma_missing_file_is_no_error(e: String)
    requires
        occurs_in(e@, "Failed to open config file"@),
        occurs_in(e@, "No such file"@),
    ensures
        read_outcome(Err(e)) == Ok::<Option<ConfigFile>, Seq<char>>(None),
{
}

/// Every request that ends a step with a failure reports that step as
/// `error` and nothing else.
pub proof fn lemma_failure_reported(pre: ModifyIds, event: ModifyEvent, post: ModifyIds, step: ModifyStep)
    requires
        modify_next(pre, event, post, step),
        step.request matches ModifyRequest::Finish(Err(_)),
    ensures
        reports_of(step).len() == 1,
        reports_of(step)[0].1 == "error"@,
{
}

/// The check of `MachineGuid` lets the reset go on to saving only when it
/// found the new machine identifier there (`Ok(true)`). A check that could
/// not be made fails the reset with its own message, and a mismatch fails it
/// with the mismatch message; both carry the hint to run as administrator,
/// and both report the check as `error` and nothing else.
pub proof fn lemma_guid_check_gates_save(pre: ModifyIds, verified: Result<bool, String>, post: ModifyIds, step: ModifyStep)
    requires
        pre is VerifyingGuid,
        modify_next(pre, ModifyEvent::GuidVerified(verified), post, step),
    ensures
        step.request is SaveConfig <==> verified == Ok::<bool, String>(true),
        verified == Ok::<bool, String>(true) ==> post is SavingConfig && asks_to_save(step, pre->VerifyingGuid_config@),
        verified matches Err(e) ==> (step.request matches ModifyRequest::Finish(Err(m))
            && m@ == step_failure("验证MachineGuid"@, e@) + "。请尝试以管理员身份运行此应用程序。"@),
        verified == Ok::<bool, String>(false) ==> (step.request matches ModifyRequest::Finish(Err(m))
            && m@ == step_failure("验证MachineGuid"@, "系统MachineGuid与telemetry_machine_id不一致"@)
                + "。请尝试以管理员身份运行此应用程序。"@),
        verified != Ok::<bool, String>(true) ==> post is Done && step.reports@.len() == 1
            && step.reports@[0]@ == ("verify-registry"@, "error"@),
{
    match verified {
        Ok(true) => {},
        Ok(false) => {
            assert(reports_of(step) == seq![failed("verify-registry"@)]);
            assert(reports_of(step).len() == 1);
            assert(step.reports@.len() == 1);
            assert(reports_of(step)[0] == step.reports@[0]@);
        },
        Err(_) => {
            assert(reports_of(step) == seq![failed("verify-registry"@)]);
            assert(reports_of(step).len() == 1);
            assert(step.reports@.len() == 1);
            assert(reports_of(step)[0] == step.reports@[0]@);
        },
    }
}

} // verus!
