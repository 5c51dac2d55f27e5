use cursor_guest::config::TargetOs;
use cursor_guest::process::{check_cursor_process_status, close_cursor_processes, KillOutcome, ProcessStatus};

fn gbk(text: &str) -> Vec<u8> {
    encoding_rs::GBK.encode(text).0.into_owned()
}

fn failed(code: Option<i32>, stderr: Vec<u8>) -> KillOutcome {
    KillOutcome::Finished { success: false, code, stderr }
}

#[test]
fn status_starts_empty() {
    assert_eq!(check_cursor_process_status(&ProcessStatus::new()), "");
}

#[test]
fn successful_kill_is_recorded() {
    let mut status = ProcessStatus::new();
    let r = close_cursor_processes(
        &TargetOs::Windows,
        &KillOutcome::Finished { success: true, code: Some(0), stderr: vec![] },
        &mut status,
    );
    assert_eq!(r, Ok(()));
    assert_eq!(check_cursor_process_status(&status), "成功关闭Cursor进程");
}

#[test]
fn windows_not_found_in_chinese_is_success() {
    let mut status = ProcessStatus::new();
    let stderr = gbk("错误: 没有找到进程 \"Cursor.exe\"。");
    let r = close_cursor_processes(&TargetOs::Windows, &failed(Some(128), stderr), &mut status);
    assert_eq!(r, Ok(()));
    assert_eq!(check_cursor_process_status(&status), "未发现运行中的Cursor进程");
}

#[test]
fn windows_not_found_in_english_is_success() {
    let mut status = ProcessStatus::new();
    let stderr = b"ERROR: The process \"Cursor.exe\" not found.".to_vec();
    let r = close_cursor_processes(&TargetOs::Windows, &failed(Some(128), stderr), &mut status);
    assert_eq!(r, Ok(()));
    assert_eq!(check_cursor_process_status(&status), "未发现运行中的Cursor进程");
}

#[test]
fn windows_other_error_is_decoded_from_gbk() {
    let mut status = ProcessStatus::new();
    let stderr = gbk("错误: 拒绝访问。");
    let r = close_cursor_processes(&TargetOs::Windows, &failed(Some(1), stderr), &mut status);
    assert_eq!(r, Err("Failed to close Cursor: 错误: 拒绝访问。".to_string()));
    assert_eq!(check_cursor_process_status(&status), "关闭Cursor失败: 错误: 拒绝访问。");
}

#[test]
fn unix_no_match_is_success() {
    let mut status = ProcessStatus::new();
    let r = close_cursor_processes(&TargetOs::Other, &failed(Some(1), vec![]), &mut status);
    assert_eq!(r, Ok(()));
    assert_eq!(check_cursor_process_status(&status), "未发现运行中的Cursor进程");
    let r = close_cursor_processes(&TargetOs::MacOs, &failed(Some(3), vec![]), &mut status);
    assert_eq!(r, Ok(()));
}

#[test]
fn unix_error_text_fails() {
    let mut status = ProcessStatus::new();
    let r = close_cursor_processes(&TargetOs::Other, &failed(Some(1), b"pkill: bad \xff".to_vec()), &mut status);
    assert_eq!(r, Err("Failed to close Cursor: pkill: bad \u{fffd}".to_string()));
    assert_eq!(check_cursor_process_status(&status), "关闭Cursor失败: pkill: bad \u{fffd}");
}

#[test]
fn command_that_did_not_start_leaves_status() {
    let mut status = ProcessStatus::new();
    close_cursor_processes(&TargetOs::Other, &KillOutcome::Finished { success: true, code: Some(0), stderr: vec![] }, &mut status)
        .unwrap();
    let r = close_cursor_processes(&TargetOs::Other, &KillOutcome::NotStarted("no pkill".to_string()), &mut status);
    assert_eq!(r, Err("Failed to execute command: no pkill".to_string()));
    assert_eq!(check_cursor_process_status(&status), "成功关闭Cursor进程");
}
