//! Notifications: the toast banner, how long each kind stays, and what the
//! end of a folder import reports.

use vstd::prelude::*;

use crate::text::{concat_str, contains, contains_text, decimal, push_decimal, push_str};

verus! {

/// The kinds of toast.
#[derive(Debug, Clone, Copy, PartialEq, Eq, Structural)]
pub enum ToastKind {
    Info,
    Success,
    Warning,
    Error,
}

/// Seconds a toast stays: warnings and errors a second longer.
pub open spec fn toast_secs(kind: ToastKind) -> u64 {
    match kind {
        ToastKind::Info | ToastKind::Success => 3,
        ToastKind::Warning | ToastKind::Error => 4,
    }
}

/// Seconds a toast of a kind stays before it hides.
pub fn toast_duration_secs(kind: ToastKind) -> (r: u64)
    ensures
        r == toast_secs(kind),
{
    match kind {
        ToastKind::Info | ToastKind::Success => 3,
        ToastKind::Warning | ToastKind::Error => 4,
    }
}

/// The toast banner.
#[derive(Debug)]
pub struct ToastState {
    pub toast: Option<(ToastKind, String)>,
    pub visible: bool,
}

impl ToastState {
    pub fn new() -> (r: Self)
        ensures
            r.toast is None,
            !r.visible,
    {
        ToastState { toast: None, visible: false }
    }

    /// Shows a toast; returns after how many seconds it is to hide.
    pub fn show(&mut self, kind: ToastKind, message: String) -> (r: u64)
        ensures
            final(self).toast matches Some((k, m)) && k == kind && m@ == message@,
            final(self).visible,
            r == toast_secs(kind),
    {
        self.toast = Some((kind, message));
        self.visible = true;
        toast_duration_secs(kind)
    }

    /// Hides the toast (its text stays for the fade-out).
    pub fn dismiss(&mut self)
        ensures
            !final(self).visible,
            final(self).toast == old(self).toast,
    {
        self.visible = false;
    }
}

/// What the end of a folder import reports.
#[derive(Debug)]
pub struct ImportReport {
    pub kind: ToastKind,
    pub message: String,
    /// A playlist is made from the imported songs.
    pub create_playlist: bool,
    /// The importing playlist entry of the sidebar goes away.
    pub drop_import: bool,
}

/// The message of a finished import: nothing found, all imported, or how
/// many were imported and how many failed.
pub open spec fn import_message(imported: usize, skipped: usize, errors: usize) -> (ToastKind, Seq<
    char,
>) {
    if imported + skipped + errors == 0 {
        (ToastKind::Error, "导入失败：未找到任何音频文件"@)
    } else if errors == 0 {
        (ToastKind::Success, "导入完成！成功导入 "@ + decimal(imported as nat) + " 首歌曲"@)
    } else {
        (
            ToastKind::Warning,
            "导入完成："@ + decimal(imported as nat) + " 首成功，"@ + decimal(errors as nat)
                + " 首失败"@,
        )
    }
}

/// The report of a finished import: a playlist is made when anything was
/// imported or skipped (already in the library); an import that found
/// nothing goes away.
pub fn import_completed(imported: usize, skipped: usize, errors: usize) -> (r: ImportReport)
    requires
        imported + skipped + errors <= usize::MAX,
    ensures
        (r.kind, r.message@) == import_message(imported, skipped, errors),
        r.create_playlist == (imported > 0 || skipped > 0),
        r.drop_import == (imported + skipped + errors == 0),
{
    let total = imported + skipped + errors;
    let create = imported > 0 || skipped > 0;
    if total == 0 {
        ImportReport {
            kind: ToastKind::Error,
            message: "导入失败：未找到任何音频文件".to_owned(),
            create_playlist: create,
            drop_import: true,
        }
    } else if errors == 0 {
        let mut m = "导入完成！成功导入 ".to_owned();
        push_decimal(&mut m, imported as u64);
        push_str(&mut m, " 首歌曲");
        ImportReport { kind: ToastKind::Success, message: m, create_playlist: create, drop_import: false }
    } else {
        let mut m = "导入完成：".to_owned();
        push_decimal(&mut m, imported as u64);
        push_str(&mut m, " 首成功，");
        push_decimal(&mut m, errors as u64);
        push_str(&mut m, " 首失败");
        ImportReport { kind: ToastKind::Warning, message: m, create_playlist: create, drop_import: false }
    }
}

/// The report of a cancelled import.
pub fn import_cancelled() -> (r: ImportReport)
    ensures
        r.kind == ToastKind::Warning,
        r.message@ == "导入已取消"@,
        !r.create_playlist,
        r.drop_import,
{
    ImportReport {
        kind: ToastKind::Warning,
        message: "导入已取消".to_owned(),
        create_playlist: false,
        drop_import: true,
    }
}

/// The report of an import that failed with an error.
pub fn import_failed(error: &str) -> (r: ImportReport)
    ensures
        r.kind == ToastKind::Error,
        r.message@ == "导入失败："@ + error@,
        !r.create_playlist,
        !r.drop_import,
{
    ImportReport {
        kind: ToastKind::Error,
        message: concat_str("导入失败：", error),
        create_playlist: false,
        drop_import: false,
    }
}

/// The plain toast a failed seek asks for: a format that cannot seek says
/// so; a stream still loading says how far it is buffered (in percent);
/// any other failure asks for none.
pub open spec fn seek_failed_text(error: Seq<char>, buffered_percent: u32) -> Option<Seq<char>> {
    if contains_text(error, "not supported"@) {
        Some("该格式不支持拖动进度条"@)
    } else if contains_text(error, "end of stream"@) || contains_text(error, "streaming"@) {
        Some("正在缓冲中 ("@ + decimal(buffered_percent as nat) + "%)，请稍候再拖动进度"@)
    } else {
        None
    }
}

/// The plain toast a failed seek asks for, if any.
pub fn seek_failed_toast(error: &str, buffered_percent: u32) -> (r: Option<String>)
    ensures
        match r {
            Some(t) => seek_failed_text(error@, buffered_percent) == Some(t@),
            None => seek_failed_text(error@, buffered_percent) is None,
        },
{
    if contains(error, "not supported") {
        return Some("该格式不支持拖动进度条".to_owned());
    }
    if contains(error, "end of stream") || contains(error, "streaming") {
        let mut t = String::new();
        push_str(&mut t, "正在缓冲中 (");
        push_decimal(&mut t, buffered_percent as u64);
        push_str(&mut t, "%)，请稍候再拖动进度");
        return Some(t);
    }
    None
}

/// The error toast when switching the audio device failed.
pub fn device_switch_failed_message(error: &str) -> (r: String)
    ensures
        r@ == "切换音频设备失败: "@ + error@,
{
    concat_str("切换音频设备失败: ", error)
}

/// The error toast when streaming a song failed.
pub fn download_failed_message(error: &str) -> (r: String)
    ensures
        r@ == "下载失败: "@ + error@,
{
    concat_str("下载失败: ", error)
}

/// The error toast when playback failed.
pub fn playback_error_message(message: &str) -> (r: String)
    ensures
        r@ == "播放错误: "@ + message@,
{
    concat_str("播放错误: ", message)
}

} // verus!
