use aichat_relay::listing::{
    format_optional_time, format_time, get_permissions_string, item_type_name, Access,
    DirectoryItem, EntryFacts, FileInfo, ItemFacts,
};
use aichat_relay::sandbox::{
    accept, confine, is_extension_admitted, is_path_safe, judge_path, write_allowed,
    FileSystemResult, FsChange, FsRefusal, FsStep, PathPart, PathRefusal, MAX_WRITE_BYTES,
};
use aichat_relay::search::{
    compile_pattern, expression_for, is_selected, visit_entry, EntryKind, EntryVerdict,
    SearchOptions, SearchPlan,
};

#[test]
fn relative_paths_with_allowed_extension_are_safe() {
    assert!(is_path_safe("notes.txt"));
    assert!(is_path_safe("src/main.rs"));
    assert!(is_path_safe("./a/b/c.json"));
    assert!(is_path_safe("dir"));
    assert!(is_path_safe("dir/sub"));
    assert!(is_path_safe(""));
    assert!(is_path_safe("Makefile"));
    assert!(is_path_safe(".gitignore"));
    assert!(is_path_safe("a.TXT"));
    assert!(is_path_safe("a.Md"));
    assert!(is_path_safe("archive.tar.toml"));
    assert!(is_path_safe("trailing."));
}

#[test]
fn parent_and_root_components_are_unsafe() {
    assert!(!is_path_safe(".."));
    assert!(!is_path_safe("../a.txt"));
    assert!(!is_path_safe("a/../../b.txt"));
    assert!(!is_path_safe("a/.."));
    assert!(!is_path_safe("/etc/hosts"));
    assert!(!is_path_safe("/a.txt"));
    assert!(!is_path_safe("/"));
}

#[test]
fn other_extensions_are_unsafe() {
    assert!(!is_path_safe("run.exe"));
    assert!(!is_path_safe("lib.so"));
    assert!(!is_path_safe("a/b/photo.PNG"));
    assert!(!is_path_safe("notes.txt.bak"));
    assert!(!is_path_safe("a.tx"));
    assert!(!is_path_safe("a.txtx"));
}

#[test]
fn allow_list_is_exact_and_lower_case() {
    for e in [
        "txt", "md", "json", "js", "ts", "jsx", "tsx", "css", "scss", "html", "xml", "yaml",
        "yml", "py", "java", "cpp", "c", "h", "cs", "php", "rb", "go", "rs", "swift", "kt",
        "scala", "sql", "sh", "bat", "ps1", "dockerfile", "gitignore", "env", "config", "ini",
        "toml",
    ] {
        assert!(is_extension_admitted(e), "{}", e);
    }
    assert!(is_extension_admitted(""));
    for e in ["TXT", "exe", "t", "tx", "jsonx", " txt", "docker", "htm"] {
        assert!(!is_extension_admitted(e), "{}", e);
    }
}

#[test]
fn path_is_judged_by_parts_and_extension() {
    let normal = vec![PathPart::Current, PathPart::Normal, PathPart::Normal];
    assert!(judge_path(&normal, None));
    assert!(judge_path(&normal, Some("rs")));
    assert!(judge_path(&normal, Some("RS")));
    assert!(judge_path(&normal, Some("")));
    assert!(!judge_path(&normal, Some("exe")));
    assert!(judge_path(&vec![], None));
    assert!(judge_path(&vec![PathPart::Prefix, PathPart::Normal], Some("txt")));
    assert!(!judge_path(&vec![PathPart::Normal, PathPart::Parent], Some("txt")));
    assert!(!judge_path(&vec![PathPart::Root, PathPart::Normal], Some("txt")));
    assert!(!judge_path(&vec![PathPart::Parent], None));
}

#[test]
fn admission_tests_safety_before_absoluteness() {
    assert_eq!(accept(true, false), Ok(()));
    assert_eq!(accept(false, false), Err(PathRefusal::Unsafe));
    assert_eq!(accept(false, true), Err(PathRefusal::Unsafe));
    assert_eq!(accept(true, true), Err(PathRefusal::Absolute));
}

#[test]
fn resolved_path_must_stay_inside() {
    assert_eq!(confine(Some(true)), Ok(()));
    assert_eq!(confine(None), Ok(()));
    assert_eq!(confine(Some(false)), Err(PathRefusal::Outside));
}

#[test]
fn path_refusals_have_their_messages() {
    assert_eq!(PathRefusal::Unsafe.message(), "路径不安全或文件类型不被支持");
    assert_eq!(PathRefusal::Absolute.message(), "不允许使用绝对路径");
    assert_eq!(PathRefusal::Outside.message(), "路径超出允许范围");
    let r = FileSystemResult::path_refused(PathRefusal::Outside);
    assert!(!r.success);
    assert_eq!(r.data, None);
    assert_eq!(r.error, Some("路径超出允许范围".to_string()));
}

#[test]
fn write_limit_is_ten_mebibytes() {
    assert_eq!(MAX_WRITE_BYTES, 10_485_760);
    assert!(write_allowed(0));
    assert!(write_allowed(10_485_760));
    assert!(!write_allowed(10_485_761));
    assert!(!write_allowed(usize::MAX));
    assert_eq!(
        FileSystemResult::refused(FsRefusal::TooLarge).error,
        Some("文件内容过大，超过10MB限制".to_string())
    );
}

#[test]
fn command_outcomes_are_shaped() {
    let ok = FileSystemResult::done("content".to_string());
    assert_eq!(
        ok,
        FileSystemResult { success: true, data: Some("content".to_string()), error: None }
    );
    let bad = FileSystemResult::fail("why".to_string());
    assert_eq!(bad, FileSystemResult { success: false, data: None, error: Some("why".to_string()) });
    assert_eq!(FileSystemResult::refused(FsRefusal::NotAFile).error, Some("指定路径不是文件".to_string()));
    assert_eq!(
        FileSystemResult::refused(FsRefusal::NotADirectory).error,
        Some("指定路径不是目录".to_string())
    );
    assert_eq!(
        FileSystemResult::refused(FsRefusal::SourceNotAFile).error,
        Some("源路径不是文件".to_string())
    );
}

#[test]
fn failed_steps_are_worded() {
    let cases = [
        (FsStep::ReadFile, "读取文件失败: e"),
        (FsStep::WriteFile, "写入文件失败: e"),
        (FsStep::CreateParent, "创建父目录失败: e"),
        (FsStep::ListDirectory, "列出目录失败: e"),
        (FsStep::CreateDirectory, "创建目录失败: e"),
        (FsStep::DeleteFile, "删除文件失败: e"),
        (FsStep::DeleteDirectory, "删除目录失败: e"),
        (FsStep::MoveItem, "移动失败: e"),
        (FsStep::CopyFile, "复制文件失败: e"),
        (FsStep::CreateTargetParent, "创建目标目录失败: e"),
        (FsStep::ItemInfo, "获取信息失败: e"),
        (FsStep::Search, "搜索失败: e"),
        (FsStep::Pattern, "正则表达式错误: e"),
        (FsStep::SourcePath, "源路径验证失败: e"),
        (FsStep::TargetPath, "目标路径验证失败: e"),
    ];
    for (step, text) in cases {
        let r = FileSystemResult::step_failed(step, "e");
        assert_eq!(r, FileSystemResult { success: false, data: None, error: Some(text.to_string()) });
    }
}

#[test]
fn changes_are_reported() {
    assert_eq!(
        FileSystemResult::changed(FsChange::DirectoryCreated, "a/b").data,
        Some("目录已创建: a/b".to_string())
    );
    assert_eq!(
        FileSystemResult::changed(FsChange::FileDeleted, "a.txt").data,
        Some("文件已删除: a.txt".to_string())
    );
    assert_eq!(
        FileSystemResult::changed(FsChange::DirectoryDeleted, "a").data,
        Some("目录已删除: a".to_string())
    );
    assert_eq!(
        FileSystemResult::written("a.txt", 1234),
        FileSystemResult::done("文件已写入: a.txt (1234 字符)".to_string())
    );
    assert_eq!(
        FileSystemResult::transferred(false, "a", "b").data,
        Some("已移动: a -> b".to_string())
    );
    assert_eq!(
        FileSystemResult::transferred(true, "a.txt", "b.txt").data,
        Some("文件已复制: a.txt -> b.txt".to_string())
    );
}

#[test]
fn times_are_written_in_utc() {
    assert_eq!(format_time(0), "1970-01-01 00:00:00");
    assert_eq!(format_time(1431648000), "2015-05-15 00:00:00");
    assert_eq!(format_time(1700000000), "2023-11-14 22:13:20");
    assert_eq!(format_time(86399), "1970-01-01 23:59:59");
    assert_eq!(format_optional_time(Some(60)), Some("1970-01-01 00:01:00".to_string()));
    assert_eq!(format_optional_time(None), None);
}

#[test]
fn times_beyond_the_calendar_are_unknown() {
    assert_eq!(format_time(i64::MAX as u64), "Unknown");
    assert_eq!(format_time(1u64 << 62), "Unknown");
    assert_eq!(format_time(1u64 << 63), "Unknown");
}

#[test]
fn counts_above_the_signed_range_wrap_around() {
    assert_eq!(format_time(u64::MAX), "1969-12-31 23:59:59");
    assert_eq!(format_time(u64::MAX - 86399), "1969-12-31 00:00:00");
}

#[test]
fn directory_entries_are_described() {
    let file = DirectoryItem::describe(
        "a.txt".to_string(),
        EntryFacts { is_dir: false, is_file: true, len: 12, modified: Some(0) },
    );
    assert_eq!(
        file,
        DirectoryItem {
            name: "a.txt".to_string(),
            item_type: "file".to_string(),
            size: Some(12),
            modified: Some("1970-01-01 00:00:00".to_string()),
        }
    );
    let dir = DirectoryItem::describe(
        "sub".to_string(),
        EntryFacts { is_dir: true, is_file: false, len: 4096, modified: None },
    );
    assert_eq!(
        dir,
        DirectoryItem {
            name: "sub".to_string(),
            item_type: "directory".to_string(),
            size: None,
            modified: None,
        }
    );
    let other = DirectoryItem::describe(
        "pipe".to_string(),
        EntryFacts { is_dir: false, is_file: false, len: 0, modified: None },
    );
    assert_eq!(other.item_type, "file");
    assert_eq!(other.size, None);
    assert_eq!(item_type_name(true), "directory");
    assert_eq!(item_type_name(false), "file");
}

#[test]
fn permissions_are_written_in_octal() {
    assert_eq!(get_permissions_string(Access::Mode(0o100644)), "100644");
    assert_eq!(get_permissions_string(Access::Mode(0o40755)), "40755");
    assert_eq!(get_permissions_string(Access::Mode(0)), "0");
    assert_eq!(get_permissions_string(Access::Mode(7)), "7");
    assert_eq!(get_permissions_string(Access::Mode(8)), "10");
    assert_eq!(get_permissions_string(Access::Mode(u32::MAX)), "37777777777");
    assert_eq!(get_permissions_string(Access::ReadOnly(true)), "readonly");
    assert_eq!(get_permissions_string(Access::ReadOnly(false)), "readwrite");
}

#[test]
fn items_are_described() {
    let info = FileInfo::describe(
        "a.txt".to_string(),
        ItemFacts {
            is_dir: false,
            len: 5,
            created: None,
            modified: Some(1431648000),
            accessed: Some(i64::MAX as u64),
            access: Access::Mode(0o100600),
        },
    );
    assert_eq!(
        info,
        FileInfo {
            name: "a.txt".to_string(),
            item_type: "file".to_string(),
            size: 5,
            created: None,
            modified: Some("2015-05-15 00:00:00".to_string()),
            accessed: Some("Unknown".to_string()),
            permissions: "100600".to_string(),
        }
    );
}

#[test]
fn search_options_have_defaults() {
    let none = SearchOptions { recursive: None, case_sensitive: None, file_only: None };
    assert_eq!(
        none.resolve(),
        SearchPlan { recursive: true, case_sensitive: false, file_only: true }
    );
    let all = SearchOptions {
        recursive: Some(false),
        case_sensitive: Some(true),
        file_only: Some(false),
    };
    assert_eq!(
        all.resolve(),
        SearchPlan { recursive: false, case_sensitive: true, file_only: false }
    );
}

#[test]
fn search_expression_carries_the_case_flag() {
    assert_eq!(expression_for("a.*b", true), "a.*b");
    assert_eq!(expression_for("a.*b", false), "(?i)a.*b");
    assert_eq!(expression_for("", false), "(?i)");
}

#[test]
fn invalid_pattern_fails_the_search() {
    match compile_pattern("(", false) {
        Err(outcome) => {
            assert!(!outcome.success);
            assert_eq!(outcome.data, None);
            assert!(outcome.error.unwrap().starts_with("正则表达式错误: "));
        },
        Ok(_) => panic!("the pattern compiled"),
    }
    assert!(compile_pattern("[a-", true).is_err());
    assert!(compile_pattern(r"\.rs$", true).is_ok());
}

#[test]
fn entries_are_selected_by_kind_and_match() {
    assert!(is_selected(EntryKind::File, true, true));
    assert!(is_selected(EntryKind::File, true, false));
    assert!(!is_selected(EntryKind::File, false, false));
    assert!(!is_selected(EntryKind::Directory, true, true));
    assert!(is_selected(EntryKind::Directory, true, false));
    assert!(!is_selected(EntryKind::Directory, false, false));
    assert!(!is_selected(EntryKind::Other, true, false));
}

#[test]
fn search_visits_entries() {
    let plan = SearchPlan { recursive: true, case_sensitive: false, file_only: true };
    let re = compile_pattern(r"\.RS$", plan.case_sensitive).unwrap();
    assert_eq!(
        visit_entry(&re, "main.rs", EntryKind::File, plan),
        EntryVerdict { report: true, descend: false }
    );
    assert_eq!(
        visit_entry(&re, "main.py", EntryKind::File, plan),
        EntryVerdict { report: false, descend: false }
    );
    assert_eq!(
        visit_entry(&re, "old.rs", EntryKind::Directory, plan),
        EntryVerdict { report: false, descend: true }
    );
    assert_eq!(
        visit_entry(&re, "x.rs", EntryKind::Other, plan),
        EntryVerdict { report: false, descend: false }
    );
    let wide = SearchPlan { recursive: false, case_sensitive: true, file_only: false };
    let exact = compile_pattern(r"\.RS$", wide.case_sensitive).unwrap();
    assert_eq!(
        visit_entry(&exact, "main.rs", EntryKind::File, wide),
        EntryVerdict { report: false, descend: false }
    );
    assert_eq!(
        visit_entry(&exact, "OLD.RS", EntryKind::Directory, wide),
        EntryVerdict { report: true, descend: false }
    );
}
