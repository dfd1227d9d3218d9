use rustle::notice::{device_switch_failed_message, download_failed_message, import_cancelled, import_completed, import_failed, playback_error_message, seek_failed_toast, toast_duration_secs, ToastKind, ToastState};

#[test]
fn toast_durations() {
    assert_eq!(toast_duration_secs(ToastKind::Info), 3);
    assert_eq!(toast_duration_secs(ToastKind::Success), 3);
    assert_eq!(toast_duration_secs(ToastKind::Warning), 4);
    assert_eq!(toast_duration_secs(ToastKind::Error), 4);
    let mut t = ToastState::new();
    assert_eq!(t.show(ToastKind::Error, "x".to_string()), 4);
    assert!(t.visible);
    t.dismiss();
    assert!(!t.visible);
    assert!(t.toast.is_some());
}

#[test]
fn import_reports() {
    let r = import_completed(0, 0, 0);
    assert_eq!(r.kind, ToastKind::Error);
    assert_eq!(r.message, "导入失败：未找到任何音频文件");
    assert!(!r.create_playlist && r.drop_import);
    let r = import_completed(12, 3, 0);
    assert_eq!(r.kind, ToastKind::Success);
    assert_eq!(r.message, "导入完成！成功导入 12 首歌曲");
    assert!(r.create_playlist && !r.drop_import);
    let r = import_completed(0, 0, 2);
    assert_eq!(r.kind, ToastKind::Warning);
    assert_eq!(r.message, "导入完成：0 首成功，2 首失败");
    assert!(!r.create_playlist && !r.drop_import);
    let r = import_cancelled();
    assert_eq!(r.message, "导入已取消");
    let r = import_failed("disk");
    assert_eq!(r.message, "导入失败：disk");
    assert_eq!(r.kind, ToastKind::Error);
}

#[test]
fn seek_failure_toasts() {
    assert_eq!(
        seek_failed_toast("seeking not supported by decoder", 10).as_deref(),
        Some("该格式不支持拖动进度条")
    );
    assert_eq!(
        seek_failed_toast("unexpected end of stream", 42).as_deref(),
        Some("正在缓冲中 (42%)，请稍候再拖动进度")
    );
    assert_eq!(
        seek_failed_toast("streaming source busy", 0).as_deref(),
        Some("正在缓冲中 (0%)，请稍候再拖动进度")
    );
    assert_eq!(seek_failed_toast("io error", 7), None);
    assert_eq!(device_switch_failed_message("no device"), "切换音频设备失败: no device");
    assert_eq!(playback_error_message("decode"), "播放错误: decode");
}

#[test]
fn download_failure_toast() {
    assert_eq!(download_failed_message("timeout"), "下载失败: timeout");
}
