//! The decisions around Windows' `MachineGuid` (under
//! `HKEY_LOCAL_MACHINE\SOFTWARE\Microsoft\Cryptography`): how a read is
//! reported, whether the value matches, and the steps of replacing it with
//! its read-back check and the restoring of the old value.

use vstd::prelude::*;

use crate::text::{joined, contains, occurs_in, same_text};

verus! {

/// What reading `MachineGuid` came to.
pub enum GuidRead {
    /// The Cryptography key could not be opened for reading.
    KeyNotOpened(String),
    /// The key opened but the value could not be read.
    ValueNotRead(String),
    /// The value that was read.
    Value(String),
}

/// The result of reading `MachineGuid`: the value, or the message that
/// says which part of the read failed.
pub fn machine_guid_from_read(read: GuidRead) -> (res: Result<String, String>)
    ensures
        read matches GuidRead::KeyNotOpened(e) ==> res matches Err(m)
            && m@ == "无法打开Cryptography注册表项以进行读取: "@ + e@,
        read matches GuidRead::ValueNotRead(e) ==> res matches Err(m) && m@ == "无法读取MachineGuid: "@ + e@,
        read matches GuidRead::Value(g) ==> res matches Ok(v) && v@ == g@,
{
    match read {
        GuidRead::KeyNotOpened(e) => Err(joined("无法打开Cryptography注册表项以进行读取: ", e.as_str())),
        GuidRead::ValueNotRead(e) => Err(joined("无法读取MachineGuid: ", e.as_str())),
        GuidRead::Value(g) => Ok(g),
    }
}

/// Whether the value read from the registry is the expected one; a failed
/// read passes its message on.
pub fn verify_machine_guid(read: Result<String, String>, expected_guid: &str) -> (res: Result<bool, String>)
    ensures
        read matches Ok(g) ==> res matches Ok(b) && b == (g@ == expected_guid@),
        read matches Err(e) ==> res matches Err(m) && m@ == e@,
{
    match read {
        Ok(current) => Ok(same_text(current.as_str(), expected_guid)),
        Err(e) => Err(e),
    }
}

/// A read failure that comes from missing rights.
pub open spec fn is_access_denied(error: Seq<char>) -> bool {
    occurs_in(error, "拒绝访问"@) || occurs_in(error, "access is denied"@) || occurs_in(error, "权限"@)
}

/// Where the replacement of `MachineGuid` stands.
pub enum GuidUpdate {
    /// Waiting for the old value to be read, before anything is written.
    ReadingOriginal { new_guid: String },
    /// Waiting for the key to be opened for writing.
    OpeningKey { new_guid: String, original: Option<String> },
    /// Waiting for the new value to be written.
    Writing { new_guid: String, original: Option<String> },
    /// Waiting for the value to be read back.
    Confirming { new_guid: String, original: Option<String> },
    /// Waiting for the old value to be written back; the error is final.
    Restoring { error: String },
    /// Nothing left to do.
    Finished,
}

/// What the caller does next.
pub enum GuidAction {
    /// Read `MachineGuid` and report the result of reading it.
    ReadGuid,
    /// Open the Cryptography key for writing and report whether it opened.
    OpenKeyForWrite,
    /// Write this value as `MachineGuid` and report whether it was written.
    WriteGuid(String),
    /// Write this old value back; whatever comes of it, report it.
    Restore(String),
    /// Stop with this result; where `report_step_error` holds, first tell the
    /// front end that the registry step failed.
    Finish { result: Result<(), String>, report_step_error: bool },
}

/// How many outcomes a state still waits for at most.
pub open spec fn guid_update_rank(s: GuidUpdate) -> nat {
    match s {
        GuidUpdate::ReadingOriginal { .. } => 5,
        GuidUpdate::OpeningKey { .. } => 4,
        GuidUpdate::Writing { .. } => 3,
        GuidUpdate::Confirming { .. } => 2,
        GuidUpdate::Restoring { .. } => 1,
        GuidUpdate::Finished => 0,
    }
}

/// The error with which a failed read-back ends the update.
pub open spec fn confirm_error(read_back: Result<String, String>) -> Seq<char> {
    match read_back {
        Ok(_) => "修改后的MachineGuid与预期不符，可能是权限不足"@,
        Err(e) => "无法验证MachineGuid修改: "@ + e@,
    }
}

/// One step of the replacement: the state and action that follow `pre`
/// once the outcome of its pending action is known.
pub open spec fn guid_update_next(pre: GuidUpdate, outcome: Result<String, String>, post: GuidUpdate, action: GuidAction) -> bool {
    match pre {
        GuidUpdate::ReadingOriginal { new_guid } => match outcome {
            Ok(g) => {
                &&& post matches GuidUpdate::OpeningKey { new_guid: n, original: Some(o) }
                &&& n@ == new_guid@
                &&& o@ == g@
                &&& action is OpenKeyForWrite
            },
            Err(e) => if is_access_denied(e@) {
                &&& post is Finished
                &&& action matches GuidAction::Finish { result: Err(m), report_step_error: true }
                &&& m@ == "无法读取MachineGuid："@ + e@ + "。请以管理员身份运行。"@
            } else {
                &&& post matches GuidUpdate::OpeningKey { new_guid: n, original: None }
                &&& n@ == new_guid@
                &&& action is OpenKeyForWrite
            },
        },
        GuidUpdate::OpeningKey { new_guid, original } => match outcome {
            Ok(_) => {
                &&& post matches GuidUpdate::Writing { new_guid: n, original: o }
                &&& n@ == new_guid@
                &&& o == original
                &&& action matches GuidAction::WriteGuid(w)
                &&& w@ == new_guid@
            },
            Err(e) => {
                &&& post is Finished
                &&& action matches GuidAction::Finish { result: Err(m), report_step_error: false }
                &&& m@ == "无法打开Cryptography注册表项以进行写入: "@ + e@ + "，请以管理员身份运行"@
            },
        },
        GuidUpdate::Writing { new_guid, original } => match outcome {
            Ok(_) => {
                &&& post matches GuidUpdate::Confirming { new_guid: n, original: o }
                &&& n@ == new_guid@
                &&& o == original
                &&& action is ReadGuid
            },
            Err(e) => {
                &&& post is Finished
                &&& action matches GuidAction::Finish { result: Err(m), report_step_error: false }
                &&& m@ == "无法修改MachineGuid: "@ + e@ + "，请以管理员身份运行"@
            },
        },
        GuidUpdate::Confirming { new_guid, original } => {
            if outcome matches Ok(g) && g@ == new_guid@ {
                &&& post is Finished
                &&& action matches GuidAction::Finish { result: Ok(_), report_step_error: false }
            } else {
                match original {
                    Some(o) => {
                        &&& post matches GuidUpdate::Restoring { error: m }
                        &&& m@ == confirm_error(outcome)
                        &&& action matches GuidAction::Restore(r)
                        &&& r@ == o@
                    },
                    None => {
                        &&& post is Finished
                        &&& action matches GuidAction::Finish { result: Err(m), report_step_error: false }
                        &&& m@ == confirm_error(outcome)
                    },
                }
            }
        },
        GuidUpdate::Restoring { error } => {
            &&& post is Finished
            &&& action matches GuidAction::Finish { result: Err(m), report_step_error: false }
            &&& m@ == error@
        },
        GuidUpdate::Finished => false,
    }
}

fn with_admin_hint(prefix: &str, detail: &str, suffix: &str) -> (res: String)
    ensures
        res@ == prefix@ + detail@ + suffix@,
{
    let head = joined(prefix, detail);
    joined(head.as_str(), suffix)
}

/// Starts replacing `MachineGuid` by `new_guid`: the old value is read
/// first, so that it can be written back if the new one does not hold.
pub fn set_machine_guid(new_guid: String) -> (res: (GuidUpdate, GuidAction))
    ensures
        res.0 matches GuidUpdate::ReadingOriginal { new_guid: n } && n@ == new_guid@,
        res.1 is ReadGuid,
{
    (GuidUpdate::ReadingOriginal { new_guid }, GuidAction::ReadGuid)
}

impl GuidUpdate {
    /// The replacement has come to an end.
    pub open spec fn is_finished(&self) -> bool {
        *self is Finished
    }

    /// Whether the replacement has come to an end.
    pub fn finished(&self) -> (res: bool)
        ensures
            res == self.is_finished(),
    {
        match self {
            GuidUpdate::Finished => true,
            _ => false,
        }
    }

    /// Advances the replacement by the outcome of the pending action: `Ok`
    /// with the value read (or anything, for actions that read nothing), or
    /// `Err` with the error's message. Each step brings the replacement
    /// closer to its end.
    pub fn step(self, outcome: Result<String, String>) -> (res: (GuidUpdate, GuidAction))
        requires
            !self.is_finished(),
        ensures
            guid_update_next(self, outcome, res.0, res.1),
            guid_update_rank(res.0) < guid_update_rank(self),
            self matches GuidUpdate::Confirming { new_guid, original } ==> (res.1 matches GuidAction::Finish {
                result: Ok(_),
                ..
            } <==> (outcome matches Ok(g) && g@ == new_guid@)),
            self matches GuidUpdate::Confirming { new_guid, original: Some(o) } ==> (!(outcome matches Ok(g)
                && g@ == new_guid@) ==> (res.1 matches GuidAction::Restore(r) && r@ == o@)),
            self matches GuidUpdate::Confirming { new_guid, original: None } ==> (!(outcome matches Ok(g)
                && g@ == new_guid@) ==> res.1 matches GuidAction::Finish { result: Err(_), .. }),
            self is ReadingOriginal && outcome is Ok ==> res.1 is OpenKeyForWrite && (res.0 matches GuidUpdate::OpeningKey {
                original: Some(o),
                ..
            } && o@ == outcome->Ok_0@),
            self is ReadingOriginal && outcome is Err && (occurs_in(outcome->Err_0@, "拒绝访问"@) || occurs_in(
                outcome->Err_0@,
                "access is denied"@,
            ) || occurs_in(outcome->Err_0@, "权限"@)) ==> (res.1 matches GuidAction::Finish {
                result: Err(m),
                report_step_error: true,
            } && m@ == "无法读取MachineGuid："@ + outcome->Err_0@ + "。请以管理员身份运行。"@),
            self is ReadingOriginal && outcome is Err && !occurs_in(outcome->Err_0@, "拒绝访问"@) && !occurs_in(
                outcome->Err_0@,
                "access is denied"@,
            ) && !occurs_in(outcome->Err_0@, "权限"@) ==> res.1 is OpenKeyForWrite && (res.0 matches GuidUpdate::OpeningKey {
                original: None,
                ..
            }),
            self is OpeningKey && outcome is Ok ==> (res.1 matches GuidAction::WriteGuid(w) && w@
                == self->OpeningKey_new_guid@),
            self is OpeningKey && outcome is Err ==> (res.1 matches GuidAction::Finish { result: Err(m), report_step_error: false }
                && m@ == "无法打开Cryptography注册表项以进行写入: "@ + outcome->Err_0@ + "，请以管理员身份运行"@),
            self is Writing && outcome is Ok ==> res.1 is ReadGuid,
            self is Writing && outcome is Err ==> (res.1 matches GuidAction::Finish { result: Err(m), report_step_error: false }
                && m@ == "无法修改MachineGuid: "@ + outcome->Err_0@ + "，请以管理员身份运行"@),
            self is Restoring ==> (res.1 matches GuidAction::Finish { result: Err(m), report_step_error: false } && m@
                == self->Restoring_error@),
    {
        match self {
            GuidUpdate::ReadingOriginal { new_guid } => match outcome {
                Ok(g) => (GuidUpdate::OpeningKey { new_guid, original: Some(g) }, GuidAction::OpenKeyForWrite),
                Err(e) => {
                    let denied = contains(e.as_str(), "拒绝访问") || contains(e.as_str(), "access is denied")
                        || contains(e.as_str(), "权限");
                    if denied {
                        let m = with_admin_hint("无法读取MachineGuid：", e.as_str(), "。请以管理员身份运行。");
                        (GuidUpdate::Finished, GuidAction::Finish { result: Err(m), report_step_error: true })
                    } else {
                        (GuidUpdate::OpeningKey { new_guid, original: None }, GuidAction::OpenKeyForWrite)
                    }
                },
            },
            GuidUpdate::OpeningKey { new_guid, original } => match outcome {
                Ok(_) => {
                    let w = new_guid.clone();
                    (GuidUpdate::Writing { new_guid, original }, GuidAction::WriteGuid(w))
                },
                Err(e) => {
                    let m = with_admin_hint("无法打开Cryptography注册表项以进行写入: ", e.as_str(), "，请以管理员身份运行");
                    (GuidUpdate::Finished, GuidAction::Finish { result: Err(m), report_step_error: false })
                },
            },
            GuidUpdate::Writing { new_guid, original } => match outcome {
                Ok(_) => (GuidUpdate::Confirming { new_guid, original }, GuidAction::ReadGuid),
                Err(e) => {
                    let m = with_admin_hint("无法修改MachineGuid: ", e.as_str(), "，请以管理员身份运行");
                    (GuidUpdate::Finished, GuidAction::Finish { result: Err(m), report_step_error: false })
                },
            },
            GuidUpdate::Confirming { new_guid, original } => {
                let confirmed = match &outcome {
                    Ok(g) => same_text(g.as_str(), new_guid.as_str()),
                    Err(_) => false,
                };
                if confirmed {
                    (GuidUpdate::Finished, GuidAction::Finish { result: Ok(()), report_step_error: false })
                } else {
                    let error = match &outcome {
                        Ok(_) => String::from_str("修改后的MachineGuid与预期不符，可能是权限不足"),
                        Err(e) => joined("无法验证MachineGuid修改: ", e.as_str()),
                    };
                    match original {
                        Some(o) => (GuidUpdate::Restoring { error }, GuidAction::Restore(o)),
                        None => (GuidUpdate::Finished, GuidAction::Finish { result: Err(error), report_step_error: false }),
                    }
                }
            },
            GuidUpdate::Restoring { error } => (
                GuidUpdate::Finished,
                GuidAction::Finish { result: Err(error), report_step_error: false },
            ),
            // Ruled out by the precondition.
            GuidUpdate::Finished => (GuidUpdate::Finished, GuidAction::Finish { result: Ok(()), report_step_error: false }),
        }
    }
}

/// The replacement ends in success only on reading back, after the write,
/// exactly the new value.
pub proof fn lemma_success_only_when_confirmed(
    pre: GuidUpdate,
    outcome: Result<String, String>,
    post: GuidUpdate,
    action: GuidAction,
)
    requires
        guid_update_next(pre, outcome, post, action),
        action matches GuidAction::Finish { result: Ok(_), .. },
    ensures
        pre matches GuidUpdate::Confirming { new_guid, .. } && outcome matches Ok(g) && g@ == new_guid@,
{
}

/// The old value is written back only when the read-back failed or showed
/// another value than the new one, and only if an old value had been read;
/// what is written back is that old value.
pub proof fn lemma_restore_only_after_failed_confirmation(
    pre: GuidUpdate,
    outcome: Result<String, String>,
    post: GuidUpdate,
    action: GuidAction,
)
    requires
        guid_update_next(pre, outcome, post, action),
        action is Restore,
    ensures
        pre matches GuidUpdate::Confirming { new_guid, original: Some(o) } && action->Restore_0@ == o@
            && !(outcome matches Ok(g) && g@ == new_guid@),
{
}

/// Nothing is written before the old value has been asked for: the new
/// value is written only from the state that follows the opening of the key,
/// and it is the value the replacement was started with.
pub proof fn lemma_write_carries_new_value(
    pre: GuidUpdate,
    outcome: Result<String, String>,
    post: GuidUpdate,
    action: GuidAction,
)
    requires
        guid_update_next(pre, outcome, post, action),
        action is WriteGuid,
    ensures
        pre matches GuidUpdate::OpeningKey { new_guid, .. } && action->WriteGuid_0@ == new_guid@,
        outcome is Ok,
{
}

/// Once the new value has been written, a read-back that fails or shows
/// any other value than the new one (a different value as well as an error)
/// leads to the old value being written back, whenever an old value was
/// read at the start; the update then ends in failure with the reason.
pub proof fn lemma_failed_confirmation_restores(
    pre: GuidUpdate,
    outcome: Result<String, String>,
    post: GuidUpdate,
    action: GuidAction,
    post2: GuidUpdate,
    action2: GuidAction,
    anything: Result<String, String>,
)
    requires
        guid_update_next(pre, outcome, post, action),
        pre matches GuidUpdate::Confirming { new_guid, original: Some(o) },
        !(outcome matches Ok(g) && g@ == pre->Confirming_new_guid@),
        guid_update_next(post, anything, post2, action2),
    ensures
        action matches GuidAction::Restore(r) && r@ == pre->Confirming_original->Some_0@,
        post is Restoring,
        post2 is Finished,
        action2 matches GuidAction::Finish { result: Err(m), .. } && (outcome matches Ok(_) ==> m@
            == "修改后的MachineGuid与预期不符，可能是权限不足"@),
        action2 matches GuidAction::Finish { result: Err(m), .. } && (outcome matches Err(e) ==> m@
            == "无法验证MachineGuid修改: "@ + e@),
{
}

} // verus!
