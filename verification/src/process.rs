//! What becomes of an attempt to close the running Cursor processes, and the
//! status line that the front end reads back.

use vstd::prelude::*;
use vstd::utf8::{decode_utf8, valid_utf8};

use crate::config::TargetOs;
use crate::text::{joined, contains, occurs_in};

verus! {

/// The text that `encoding_rs::GBK.decode` makes of the given bytes (GBK,
/// after the crate's byte-order-mark sniffing, with malformed sequences
/// replaced by U+FFFD).
pub uninterp spec fn gbk_decoded(bytes: Seq<u8>) -> Seq<char>;

/// The text that `String::from_utf8_lossy` makes of the given bytes.
pub uninterp spec fn utf8_lossy_decoded(bytes: Seq<u8>) -> Seq<char>;

/// Decodes bytes as GBK (`encoding_rs::GBK.decode`, keeping the text and
/// dropping the other two parts of its result). The contract names the
/// text; the decoding tables are not restated here.
#[verifier::external_body]
fn decode_gbk(bytes: &[u8]) -> (res: String)
    ensures
        res@ == gbk_decoded(bytes@),
{
    let (text, _encoding, _had_errors) = encoding_rs::GBK.decode(bytes);
    text.into_owned()
}

/// Decodes bytes as UTF-8, replacing invalid sequences by U+FFFD
/// (`String::from_utf8_lossy`). Its documentation gives that bytes which
/// are valid UTF-8 come back as the text they encode; what becomes of
/// invalid ones is left to the name.
#[verifier::external_body]
fn decode_utf8_lossy(bytes: &[u8]) -> (res: String)
    ensures
        res@ == utf8_lossy_decoded(bytes@),
        valid_utf8(bytes@) ==> res@ == decode_utf8(bytes@),
{
    String::from_utf8_lossy(bytes).into_owned()
}

/// How the command that closes Cursor (`taskkill /F /IM Cursor.exe` on
/// Windows, `pkill Cursor` elsewhere) ended.
pub enum KillOutcome {
    /// The command could not be started; the text describes why.
    NotStarted(String),
    /// The command ran: whether it succeeded, its exit code if it has one,
    /// and what it wrote to standard error.
    Finished { success: bool, code: Option<i32>, stderr: Vec<u8> },
}

/// The last status line recorded about closing Cursor (empty at first).
pub struct ProcessStatus {
    status: String,
}

impl View for ProcessStatus {
    type V = Seq<char>;

    closed spec fn view(&self) -> Seq<char> {
        self.status@
    }
}

impl ProcessStatus {
    /// No status recorded yet.
    pub fn new() -> (res: ProcessStatus)
        ensures
            res@ == Seq::<char>::empty(),
    {
        ProcessStatus { status: String::new() }
    }

    fn record(&mut self, status: String)
        ensures
            final(self)@ == status@,
    {
        self.status = status;
    }
}

/// The status recorded when Cursor was closed.
pub open spec fn closed_status() -> Seq<char> {
    "成功关闭Cursor进程"@
}

/// The status recorded when no Cursor process was running.
pub open spec fn none_running_status() -> Seq<char> {
    "未发现运行中的Cursor进程"@
}

/// The status recorded when closing failed, with the command's error text.
pub open spec fn failed_status(error: Seq<char>) -> Seq<char> {
    "关闭Cursor失败: "@ + error
}

/// The error text of the command, decoded as the platform writes it: GBK on
/// Windows, UTF-8 elsewhere.
pub open spec fn error_text(os: TargetOs, stderr: Seq<u8>) -> Seq<char> {
    if os is Windows {
        gbk_decoded(stderr)
    } else {
        utf8_lossy_decoded(stderr)
    }
}

/// The failed command only reports that no Cursor process was running:
/// on Windows its message says that the process was not found (in English
/// or Chinese); elsewhere `pkill` found nothing to match and wrote no error.
pub open spec fn reports_none_running(os: TargetOs, error: Seq<char>) -> bool {
    if os is Windows {
        occurs_in(error, "not found"@) || occurs_in(error, "没有找到"@) || occurs_in(error, "找不到"@)
    } else {
        error.len() == 0
    }
}

/// What closing Cursor yields for a given outcome of the command: `Ok` or
/// the error message.
pub open spec fn close_result(os: TargetOs, outcome: KillOutcome) -> Result<(), Seq<char>> {
    match outcome {
        KillOutcome::NotStarted(e) => Err("Failed to execute command: "@ + e@),
        KillOutcome::Finished { success, code, stderr } => {
            if success || reports_none_running(os, error_text(os, stderr@)) {
                Ok(())
            } else {
                Err("Failed to close Cursor: "@ + error_text(os, stderr@))
            }
        },
    }
}

/// The status line after closing Cursor, given the one before.
pub open spec fn status_after_close(os: TargetOs, outcome: KillOutcome, before: Seq<char>) -> Seq<char> {
    match outcome {
        KillOutcome::NotStarted(_) => before,
        KillOutcome::Finished { success, code, stderr } => {
            if success {
                closed_status()
            } else if reports_none_running(os, error_text(os, stderr@)) {
                none_running_status()
            } else {
                failed_status(error_text(os, stderr@))
            }
        },
    }
}

/// Judges the outcome of the command that closes Cursor and records the
/// status line that goes with it. Finding no running Cursor counts as
/// success. A command that could not be started is an error and leaves the
/// status as it was.
pub fn close_cursor_processes(os: &TargetOs, outcome: &KillOutcome, status: &mut ProcessStatus) -> (res: Result<(), String>)
    ensures
        res is Ok <==> close_result(*os, *outcome) is Ok,
        res matches Err(e) ==> close_result(*os, *outcome) == Err::<(), Seq<char>>(e@),
        final(status)@ == status_after_close(*os, *outcome, old(status)@),
        outcome matches KillOutcome::NotStarted(e) ==> res matches Err(m) && m@ == "Failed to execute command: "@ + e@,
        outcome is NotStarted ==> final(status)@ == old(status)@,
        outcome is Finished && outcome->success == true ==> res is Ok
            && final(status)@ == "成功关闭Cursor进程"@,
        outcome is Finished && outcome->success == false && *os is Windows
            && (occurs_in(gbk_decoded(outcome->stderr@), "not found"@) || occurs_in(gbk_decoded(outcome->stderr@), "没有找到"@)
            || occurs_in(gbk_decoded(outcome->stderr@), "找不到"@)) ==> res is Ok && final(status)@ == "未发现运行中的Cursor进程"@,
        outcome is Finished && outcome->success == false && *os is Windows
            && !occurs_in(gbk_decoded(outcome->stderr@), "not found"@) && !occurs_in(gbk_decoded(outcome->stderr@), "没有找到"@)
            && !occurs_in(gbk_decoded(outcome->stderr@), "找不到"@) ==> (res matches Err(m)
            && m@ == "Failed to close Cursor: "@ + gbk_decoded(outcome->stderr@)),
        outcome is Finished && outcome->success == false && *os is Windows
            && !occurs_in(gbk_decoded(outcome->stderr@), "not found"@) && !occurs_in(gbk_decoded(outcome->stderr@), "没有找到"@)
            && !occurs_in(gbk_decoded(outcome->stderr@), "找不到"@) ==> final(status)@ == "关闭Cursor失败: "@ + gbk_decoded(outcome->stderr@),
        outcome is Finished && outcome->success == false && !(*os is Windows)
            && utf8_lossy_decoded(outcome->stderr@).len() == 0 ==> res is Ok && final(status)@ == "未发现运行中的Cursor进程"@,
        outcome is Finished && outcome->success == false && !(*os is Windows)
            && utf8_lossy_decoded(outcome->stderr@).len() > 0 ==> (res matches Err(m)
            && m@ == "Failed to close Cursor: "@ + utf8_lossy_decoded(outcome->stderr@)),
        outcome is Finished && outcome->success == false && !(*os is Windows)
            && utf8_lossy_decoded(outcome->stderr@).len() > 0 ==> final(status)@ == "关闭Cursor失败: "@ + utf8_lossy_decoded(outcome->stderr@),
        outcome is Finished && outcome->success == false && !(*os is Windows)
            && outcome->stderr@.len() == 0 ==> res is Ok && final(status)@ == "未发现运行中的Cursor进程"@,
{
    match outcome {
        KillOutcome::NotStarted(e) => Err(joined("Failed to execute command: ", e.as_str())),
        KillOutcome::Finished { success, code, stderr } => {
            if *success {
                status.record(String::from_str("成功关闭Cursor进程"));
                return Ok(());
            }
            let windows = match os {
                TargetOs::Windows => true,
                _ => false,
            };
            let error = if windows {
                decode_gbk(stderr.as_slice())
            } else {
                decode_utf8_lossy(stderr.as_slice())
            };
            let none_running = if windows {
                contains(error.as_str(), "not found") || contains(error.as_str(), "没有找到")
                    || contains(error.as_str(), "找不到")
            } else {
                let exited_one = match code {
                    Some(c) => *c == 1,
                    None => false,
                };
                if exited_one && error.as_str().is_empty() {
                    true
                } else if !error.as_str().is_empty() {
                    false
                } else {
                    true
                }
            };
            if none_running {
                status.record(String::from_str("未发现运行中的Cursor进程"));
                Ok(())
            } else {
                status.record(joined("关闭Cursor失败: ", error.as_str()));
                Err(joined("Failed to close Cursor: ", error.as_str()))
            }
        },
    }
}

/// The status line last recorded.
pub fn check_cursor_process_status(status: &ProcessStatus) -> (res: String)
    ensures
        res@ == status@,
{
    status.status.clone()
}

/// When closing fails after the command ran, the status line records the
/// same error text as the error message carries.
pub proof fn lemma_failure_is_recorded(os: TargetOs, outcome: KillOutcome, before: Seq<char>)
    requires
        outcome is Finished,
        close_result(os, outcome) is Err,
    ensures
        close_result(os, outcome) == Err::<(), Seq<char>>(
            "Failed to close Cursor: "@ + error_text(os, outcome->stderr@),
        ),
        status_after_close(os, outcome, before) == failed_status(error_text(os, outcome->stderr@)),
{
}

/// Closing succeeds exactly when the command ran and either succeeded or
/// only reported that no Cursor process was running.
pub proof fn lemma_success_iff_closed_or_none_running(os: TargetOs, outcome: KillOutcome, before: Seq<char>)
    ensures
        close_result(os, outcome) is Ok <==> (outcome is Finished && (outcome->success || reports_none_running(
            os,
            error_text(os, outcome->stderr@),
        ))),
        close_result(os, outcome) is Ok ==> (status_after_close(os, outcome, before) == closed_status()
            || status_after_close(os, outcome, before) == none_running_status()),
{
}

/// A kill command that ran and succeeded closes Cursor on every system:
/// closing succeeds and the status line says that Cursor was closed,
/// whatever the line said before.
pub proof fn lemma_successful_kill_is_closed(os: TargetOs, outcome: KillOutcome, before: Seq<char>)
    requires
        outcome matches KillOutcome::Finished { success, .. } && success,
    ensures
        close_result(os, outcome) is Ok,
        status_after_close(os, outcome, before) == "成功关闭Cursor进程"@,
{
}

/// A command that could not be started fails with its own error text and
/// leaves the status line as it was.
pub proof fn lemma_unstarted_command_changes_nothing(os: TargetOs, e: String, before: Seq<char>)
    ensures
        close_result(os, KillOutcome::NotStarted(e)) == Err::<(), Seq<char>>("Failed to execute command: "@ + e@),
        status_after_close(os, KillOutcome::NotStarted(e), before) == before,
{
}

/// On Windows a failed `taskkill` whose GBK message says that the process
/// was not found (in English or in Chinese) counts as success, with the
/// status line saying that no Cursor was running; any other failure is an
/// error carrying the decoded message.
pub proof fn lemma_windows_failure(stderr: Vec<u8>, code: Option<i32>, before: Seq<char>)
    ensures
        ({
            let outcome = KillOutcome::Finished { success: false, code, stderr };
            let text = gbk_decoded(stderr@);
            let none = occurs_in(text, "not found"@) || occurs_in(text, "没有找到"@) || occurs_in(text, "找不到"@);
            &&& none ==> close_result(TargetOs::Windows, outcome) is Ok
                && status_after_close(TargetOs::Windows, outcome, before) == "未发现运行中的Cursor进程"@
            &&& !none ==> close_result(TargetOs::Windows, outcome) == Err::<(), Seq<char>>("Failed to close Cursor: "@ + text)
                && status_after_close(TargetOs::Windows, outcome, before) == "关闭Cursor失败: "@ + text
        }),
{
}

/// Elsewhere a failed `pkill` counts as success exactly when it wrote
/// nothing to standard error.
pub proof fn lemma_unix_failure(os: TargetOs, stderr: Vec<u8>, code: Option<i32>, before: Seq<char>)
    requires
        !(os is Windows),
    ensures
        ({
            let outcome = KillOutcome::Finished { success: false, code, stderr };
            let text = utf8_lossy_decoded(stderr@);
            &&& text.len() == 0 ==> close_result(os, outcome) is Ok
                && status_after_close(os, outcome, before) == "未发现运行中的Cursor进程"@
            &&& text.len() > 0 ==> close_result(os, outcome) == Err::<(), Seq<char>>("Failed to close Cursor: "@ + text)
                && status_after_close(os, outcome, before) == "关闭Cursor失败: "@ + text
        }),
{
}

} // verus!
