//! The rules of the file sandbox: which paths are admitted, how much may
//! be written, and how the outcome of a file command is reported. The
//! commands themselves, which touch the disk, are the caller's.

use crate::foreign::{
    lowercase_text, path_extension, path_extension_of, path_parts, path_parts_of, to_lowercase,
};
use crate::text::{decimal_digits, push_decimal, same_text};
use vstd::prelude::*;

verus! {

/// The kind of one component of a path.
#[derive(Clone, Copy, Debug, PartialEq, Eq, Structural)]
pub enum PathPart {
    /// A volume or drive prefix.
    Prefix,
    /// The root directory: the path is absolute.
    Root,
    /// `.`
    Current,
    /// `..`
    Parent,
    /// A file or directory name.
    Normal,
}

/// The extensions of the files that the sandbox works on, in lower case.
pub open spec fn allowed_extensions() -> Seq<Seq<char>> {
    seq![
        "txt"@,
        "md"@,
        "json"@,
        "js"@,
        "ts"@,
        "jsx"@,
        "tsx"@,
        "css"@,
        "scss"@,
        "html"@,
        "xml"@,
        "yaml"@,
        "yml"@,
        "py"@,
        "java"@,
        "cpp"@,
        "c"@,
        "h"@,
        "cs"@,
        "php"@,
        "rb"@,
        "go"@,
        "rs"@,
        "swift"@,
        "kt"@,
        "scala"@,
        "sql"@,
        "sh"@,
        "bat"@,
        "ps1"@,
        "dockerfile"@,
        "gitignore"@,
        "env"@,
        "config"@,
        "ini"@,
        "toml"@,
    ]
}

/// Whether a lower-case extension is admitted: it is empty or one of the
/// allowed extensions.
pub open spec fn extension_admitted(lower: Seq<char>) -> bool {
    lower.len() == 0 || allowed_extensions().contains(lower)
}

/// Whether a path with the given components and extension is safe: no
/// component is `..` or the root directory, and the extension, if the
/// path has one, is admitted without regard to letter case.
pub open spec fn path_safe(parts: Seq<PathPart>, extension: Option<Seq<char>>) -> bool {
    &&& forall|i: int|
        0 <= i < parts.len() ==> #[trigger] parts[i] != PathPart::Parent && parts[i]
            != PathPart::Root
    &&& extension matches Some(e) ==> extension_admitted(lowercase_text(e))
}

/// The allowed extensions as string slices.
fn allowed_extension_list() -> (r: Vec<&'static str>)
    ensures
        r.len() == allowed_extensions().len(),
        forall|i: int| 0 <= i < r.len() ==> (#[trigger] r[i])@ == allowed_extensions()[i],
{
    vec![
        "txt",
        "md",
        "json",
        "js",
        "ts",
        "jsx",
        "tsx",
        "css",
        "scss",
        "html",
        "xml",
        "yaml",
        "yml",
        "py",
        "java",
        "cpp",
        "c",
        "h",
        "cs",
        "php",
        "rb",
        "go",
        "rs",
        "swift",
        "kt",
        "scala",
        "sql",
        "sh",
        "bat",
        "ps1",
        "dockerfile",
        "gitignore",
        "env",
        "config",
        "ini",
        "toml",
    ]
}

/// Tests [`extension_admitted`] on an extension in lower case.
pub fn is_extension_admitted(lower: &str) -> (r: bool)
    ensures
        r == extension_admitted(lower@),
{
    if lower.is_empty() {
        return true;
    }
    let list = allowed_extension_list();
    let mut i: usize = 0;
    while i < list.len()
        invariant
            i <= list.len(),
            list.len() == allowed_extensions().len(),
            forall|j: int| 0 <= j < list.len() ==> (#[trigger] list[j])@ == allowed_extensions()[j],
            forall|j: int| 0 <= j < i ==> allowed_extensions()[j] != lower@,
        decreases list.len() - i,
    {
        if same_text(list[i], lower) {
            return true;
        }
        i += 1;
    }
    false
}

/// Judges a path from its components and its extension.
pub fn judge_path(parts: &Vec<PathPart>, extension: Option<&str>) -> (r: bool)
    ensures
        r == path_safe(
            parts@,
            match extension {
                Some(e) => Some(e@),
                None => None,
            },
        ),
{
    let mut i: usize = 0;
    while i < parts.len()
        invariant
            i <= parts.len(),
            forall|j: int|
                0 <= j < i ==> #[trigger] parts[j] != PathPart::Parent && parts[j]
                    != PathPart::Root,
        decreases parts.len() - i,
    {
        match parts[i] {
            PathPart::Parent => {
                return false;
            },
            PathPart::Root => {
                return false;
            },
            _ => {},
        }
        i += 1;
    }
    match extension {
        Some(e) => {
            let lower = to_lowercase(e);
            is_extension_admitted(lower.as_str())
        },
        None => true,
    }
}

/// Whether the path `path` is safe: taken apart as the platform takes
/// paths apart, it has no component `..` and does not start at the root
/// directory, and its extension, if it has one, is admitted.
pub open spec fn safe_path(path: Seq<char>) -> bool {
    path_safe(path_parts_of(path), path_extension_of(path))
}

/// Whether `path` is safe: it is taken apart as the platform takes paths
/// apart, and judged by [`judge_path`].
pub fn is_path_safe(path: &str) -> (r: bool)
    ensures
        r == safe_path(path@),
{
    let parts = path_parts(path);
    let extension = path_extension(path);
    match &extension {
        Some(e) => judge_path(&parts, Some(e.as_str())),
        None => judge_path(&parts, None),
    }
}

/// Why the sandbox refuses a path.
#[derive(Clone, Copy, Debug, PartialEq, Eq, Structural)]
pub enum PathRefusal {
    /// The path climbs to a parent, starts at the root or names a file
    /// of a type that is not allowed.
    Unsafe,
    /// The path is absolute.
    Absolute,
    /// The path resolves to a place outside the working directory.
    Outside,
}

impl PathRefusal {
    /// The message of the refusal.
    pub open spec fn text(self) -> Seq<char> {
        match self {
            PathRefusal::Unsafe => "路径不安全或文件类型不被支持"@,
            PathRefusal::Absolute => "不允许使用绝对路径"@,
            PathRefusal::Outside => "路径超出允许范围"@,
        }
    }

    /// The message of the refusal.
    pub fn message(&self) -> (r: &'static str)
        ensures
            r@ == self.text(),
    {
        match self {
            PathRefusal::Unsafe => "路径不安全或文件类型不被支持",
            PathRefusal::Absolute => "不允许使用绝对路径",
            PathRefusal::Outside => "路径超出允许范围",
        }
    }
}

/// The verdict on a path before the disk is touched: unsafe first, then
/// absolute.
pub open spec fn admission(safe: bool, absolute: bool) -> Result<(), PathRefusal> {
    if !safe {
        Err(PathRefusal::Unsafe)
    } else if absolute {
        Err(PathRefusal::Absolute)
    } else {
        Ok(())
    }
}

/// Joins the two tests on a path into the verdict.
pub fn accept(safe: bool, absolute: bool) -> (r: Result<(), PathRefusal>)
    ensures
        r == admission(safe, absolute),
{
    if !safe {
        Err(PathRefusal::Unsafe)
    } else if absolute {
        Err(PathRefusal::Absolute)
    } else {
        Ok(())
    }
}

/// The verdict on an admitted path once it has been resolved on disk:
/// `resolved_inside` says whether the resolved path lies under the
/// resolved working directory, `None` where the path does not resolve
/// (it does not exist yet), which is let through.
pub fn confine(resolved_inside: Option<bool>) -> (r: Result<(), PathRefusal>)
    ensures
        r == (if resolved_inside == Some(false) {
            Err::<(), PathRefusal>(PathRefusal::Outside)
        } else {
            Ok(())
        }),
{
    match resolved_inside {
        Some(false) => Err(PathRefusal::Outside),
        _ => Ok(()),
    }
}

/// The most that one write may hold, in bytes: 10 MiB.
pub const MAX_WRITE_BYTES: usize = 10 * 1024 * 1024;

/// Whether content of `len` bytes may be written.
pub fn write_allowed(len: usize) -> (r: bool)
    ensures
        r == (len <= MAX_WRITE_BYTES),
{
    len <= MAX_WRITE_BYTES
}

/// The outcome of a file command.
#[derive(Clone, Debug, PartialEq, Eq)]
pub struct FileSystemResult {
    pub success: bool,
    /// What a successful command reports.
    pub data: Option<String>,
    /// Why the command failed.
    pub error: Option<String>,
}

/// The mathematical value of a [`FileSystemResult`].
pub struct OutcomeModel {
    pub success: bool,
    pub data: Option<Seq<char>>,
    pub error: Option<Seq<char>>,
}

impl View for FileSystemResult {
    type V = OutcomeModel;

    open spec fn view(&self) -> OutcomeModel {
        OutcomeModel {
            success: self.success,
            data: match self.data {
                Some(d) => Some(d@),
                None => None,
            },
            error: match self.error {
                Some(e) => Some(e@),
                None => None,
            },
        }
    }
}

/// The outcome of a command that succeeded with `data`.
pub open spec fn succeeded(data: Seq<char>) -> OutcomeModel {
    OutcomeModel { success: true, data: Some(data), error: None }
}

/// The outcome of a command that failed with `error`.
pub open spec fn failed(error: Seq<char>) -> OutcomeModel {
    OutcomeModel { success: false, data: None, error: Some(error) }
}

/// A step of a file command that can fail.
#[derive(Clone, Copy, Debug, PartialEq, Eq, Structural)]
pub enum FsStep {
    ReadFile,
    WriteFile,
    CreateParent,
    ListDirectory,
    CreateDirectory,
    DeleteFile,
    DeleteDirectory,
    MoveItem,
    CopyFile,
    CreateTargetParent,
    ItemInfo,
    Search,
    Pattern,
    SourcePath,
    TargetPath,
}

/// The text that introduces the failure of a step.
pub open spec fn step_prefix(step: FsStep) -> Seq<char> {
    match step {
        FsStep::ReadFile => "读取文件失败: "@,
        FsStep::WriteFile => "写入文件失败: "@,
        FsStep::CreateParent => "创建父目录失败: "@,
        FsStep::ListDirectory => "列出目录失败: "@,
        FsStep::CreateDirectory => "创建目录失败: "@,
        FsStep::DeleteFile => "删除文件失败: "@,
        FsStep::DeleteDirectory => "删除目录失败: "@,
        FsStep::MoveItem => "移动失败: "@,
        FsStep::CopyFile => "复制文件失败: "@,
        FsStep::CreateTargetParent => "创建目标目录失败: "@,
        FsStep::ItemInfo => "获取信息失败: "@,
        FsStep::Search => "搜索失败: "@,
        FsStep::Pattern => "正则表达式错误: "@,
        FsStep::SourcePath => "源路径验证失败: "@,
        FsStep::TargetPath => "目标路径验证失败: "@,
    }
}

fn step_lead(step: FsStep) -> (r: &'static str)
    ensures
        r@ == step_prefix(step),
{
    match step {
        FsStep::ReadFile => "读取文件失败: ",
        FsStep::WriteFile => "写入文件失败: ",
        FsStep::CreateParent => "创建父目录失败: ",
        FsStep::ListDirectory => "列出目录失败: ",
        FsStep::CreateDirectory => "创建目录失败: ",
        FsStep::DeleteFile => "删除文件失败: ",
        FsStep::DeleteDirectory => "删除目录失败: ",
        FsStep::MoveItem => "移动失败: ",
        FsStep::CopyFile => "复制文件失败: ",
        FsStep::CreateTargetParent => "创建目标目录失败: ",
        FsStep::ItemInfo => "获取信息失败: ",
        FsStep::Search => "搜索失败: ",
        FsStep::Pattern => "正则表达式错误: ",
        FsStep::SourcePath => "源路径验证失败: ",
        FsStep::TargetPath => "目标路径验证失败: ",
    }
}

/// A precondition of a file command that the disk does not meet.
#[derive(Clone, Copy, Debug, PartialEq, Eq, Structural)]
pub enum FsRefusal {
    /// The path to delete is not a file.
    NotAFile,
    /// The path to delete is not a directory.
    NotADirectory,
    /// The path to copy is not a file.
    SourceNotAFile,
    /// The content to write is over [`MAX_WRITE_BYTES`].
    TooLarge,
}

impl FsRefusal {
    /// The message of the refusal.
    pub open spec fn text(self) -> Seq<char> {
        match self {
            FsRefusal::NotAFile => "指定路径不是文件"@,
            FsRefusal::NotADirectory => "指定路径不是目录"@,
            FsRefusal::SourceNotAFile => "源路径不是文件"@,
            FsRefusal::TooLarge => "文件内容过大，超过10MB限制"@,
        }
    }

    /// The message of the refusal.
    pub fn message(&self) -> (r: &'static str)
        ensures
            r@ == self.text(),
    {
        match self {
            FsRefusal::NotAFile => "指定路径不是文件",
            FsRefusal::NotADirectory => "指定路径不是目录",
            FsRefusal::SourceNotAFile => "源路径不是文件",
            FsRefusal::TooLarge => "文件内容过大，超过10MB限制",
        }
    }
}

/// What a command that changed the disk reports.
#[derive(Clone, Copy, Debug, PartialEq, Eq, Structural)]
pub enum FsChange {
    DirectoryCreated,
    FileDeleted,
    DirectoryDeleted,
}

/// The report of a change at `path`.
pub open spec fn change_text(change: FsChange, path: Seq<char>) -> Seq<char> {
    match change {
        FsChange::DirectoryCreated => "目录已创建: "@ + path,
        FsChange::FileDeleted => "文件已删除: "@ + path,
        FsChange::DirectoryDeleted => "目录已删除: "@ + path,
    }
}

/// The report of a write of `len` bytes to `path`.
pub open spec fn written_text(path: Seq<char>, len: usize) -> Seq<char> {
    "文件已写入: "@ + path + " ("@ + decimal_digits(len as nat) + " 字符)"@
}

/// The report of a move or copy from `source` to `target`.
pub open spec fn transfer_text(copied: bool, source: Seq<char>, target: Seq<char>) -> Seq<char> {
    (if copied {
        "文件已复制: "@
    } else {
        "已移动: "@
    }) + source + " -> "@ + target
}

impl FileSystemResult {
    /// The outcome of a command that succeeded with `data`.
    pub fn done(data: String) -> (r: FileSystemResult)
        ensures
            r@ == succeeded(data@),
    {
        FileSystemResult { success: true, data: Some(data), error: None }
    }

    /// The outcome of a command that failed with `error`.
    pub fn fail(error: String) -> (r: FileSystemResult)
        ensures
            r@ == failed(error@),
    {
        FileSystemResult { success: false, data: None, error: Some(error) }
    }

    /// The outcome of a command whose path was refused.
    pub fn path_refused(refusal: PathRefusal) -> (r: FileSystemResult)
        ensures
            r@ == failed(refusal.text()),
    {
        FileSystemResult::fail(String::from_str(refusal.message()))
    }

    /// The outcome of a command whose precondition the disk does not meet.
    pub fn refused(refusal: FsRefusal) -> (r: FileSystemResult)
        ensures
            r@ == failed(refusal.text()),
    {
        FileSystemResult::fail(String::from_str(refusal.message()))
    }

    /// The outcome of a command that failed at `step` for `cause`.
    pub fn step_failed(step: FsStep, cause: &str) -> (r: FileSystemResult)
        ensures
            r@ == failed(step_prefix(step) + cause@),
    {
        let mut message = String::from_str(step_lead(step));
        message.append(cause);
        FileSystemResult::fail(message)
    }

    /// The outcome of a change at `path`.
    pub fn changed(change: FsChange, path: &str) -> (r: FileSystemResult)
        ensures
            r@ == succeeded(change_text(change, path@)),
    {
        let mut message = String::from_str(
            match change {
                FsChange::DirectoryCreated => "目录已创建: ",
                FsChange::FileDeleted => "文件已删除: ",
                FsChange::DirectoryDeleted => "目录已删除: ",
            },
        );
        message.append(path);
        FileSystemResult::done(message)
    }

    /// The outcome of a write of `len` bytes to `path`.
    pub fn written(path: &str, len: usize) -> (r: FileSystemResult)
        ensures
            r@ == succeeded(written_text(path@, len)),
    {
        let mut message = String::from_str("文件已写入: ");
        message.append(path);
        message.append(" (");
        push_decimal(&mut message, len as u64);
        message.append(" 字符)");
        FileSystemResult::done(message)
    }

    /// The outcome of a move (`copied` false) or copy from `source` to
    /// `target`.
    pub fn transferred(copied: bool, source: &str, target: &str) -> (r: FileSystemResult)
        ensures
            r@ == succeeded(transfer_text(copied, source@, target@)),
    {
        let mut message = String::from_str(
            if copied {
                "文件已复制: "
            } else {
                "已移动: "
            },
        );
        message.append(source);
        message.append(" -> ");
        message.append(target);
        FileSystemResult::done(message)
    }
}

} // verus!
