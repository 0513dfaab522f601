//! Failures of the variable writer, with the text shown to the user.

use vstd::prelude::*;

verus! {

/// Why a write of the variable failed.
#[derive(Debug, PartialEq, Eq)]
pub enum StoreError {
    /// The home directory could not be found.
    HomeUnavailable,
    /// The start-up file exists but could not be read.
    ReadFailed { file: String, detail: String },
    /// The start-up file could not be created for writing.
    CreateFailed { file: String, detail: String },
    /// The new content could not be written.
    WriteFailed { file: String, detail: String },
    /// The helper process could not be started.
    LaunchFailed { detail: String },
    /// The helper process ran and reported failure on its error stream.
    CommandFailed { stderr: String },
}

/// The text shown for each failure.
pub open spec fn store_error_text(e: StoreError) -> Seq<char> {
    match e {
        StoreError::HomeUnavailable => "无法获取用户主目录"@,
        StoreError::ReadFailed { file, detail } => "读取 "@ + file@ + " 失败: "@ + detail@,
        StoreError::CreateFailed { file, detail } => "创建 "@ + file@ + " 失败: "@ + detail@,
        StoreError::WriteFailed { file, detail } => "写入 "@ + file@ + " 失败: "@ + detail@,
        StoreError::LaunchFailed { detail } => "执行命令失败: "@ + detail@,
        StoreError::CommandFailed { stderr } => "设置环境变量失败: "@ + stderr@,
    }
}

fn file_failure(head: &str, file: &String, detail: &String) -> (r: String)
    ensures
        r@ == head@ + file@ + " 失败: "@ + detail@,
{
    let mut r = String::from_str(head);
    r.append(file.as_str());
    r.append(" 失败: ");
    r.append(detail.as_str());
    r
}

impl StoreError {
    /// The text shown to the user for this failure.
    pub fn message(&self) -> (r: String)
        ensures
            r@ == store_error_text(*self),
    {
        match self {
            StoreError::HomeUnavailable => String::from_str("无法获取用户主目录"),
            StoreError::ReadFailed { file, detail } => file_failure("读取 ", file, detail),
            StoreError::CreateFailed { file, detail } => file_failure("创建 ", file, detail),
            StoreError::WriteFailed { file, detail } => file_failure("写入 ", file, detail),
            StoreError::LaunchFailed { detail } => {
                let mut r = String::from_str("执行命令失败: ");
                r.append(detail.as_str());
                r
            },
            StoreError::CommandFailed { stderr } => {
                let mut r = String::from_str("设置环境变量失败: ");
                r.append(stderr.as_str());
                r
            },
        }
    }
}

} // verus!
