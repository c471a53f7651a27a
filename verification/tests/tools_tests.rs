use std::path::PathBuf;

use maky::model::ToolCall;
use maky::tools::registry::{BuiltinTool, ToolRegistry};
use maky::tools::{
    exec_command_result, list_files_result, plan_exec_command, read_file_result,
    tool_string_arg, truncate_output, DirEntry, ExecCommandTool, ExecPlan, ListFilesTool,
    ReadFileTool, ToolContext, ToolHandler, within_root,
};

fn call(args: &[&str]) -> ToolCall {
    ToolCall {
        id: "call-1".to_string(),
        name: "tool".to_string(),
        args: args.iter().map(|a| a.to_string()).collect(),
    }
}

fn context(approval_required: bool, approval_granted: bool) -> ToolContext {
    ToolContext {
        workspace_root: PathBuf::from("."),
        approval_required,
        approval_granted,
        max_output_chars: 10,
    }
}

#[test]
fn truncation_keeps_a_prefix_and_marks_it() {
    assert_eq!(truncate_output("short", 10), ("short".to_string(), false));
    assert_eq!(
        truncate_output("ñandú es un ave", 5),
        ("ñandú...<truncated>".to_string(), true)
    );
}

#[test]
fn tool_arguments_come_from_json_or_the_raw_argument() {
    assert_eq!(
        tool_string_arg(&call(&[r#"{"path":"src/main.rs"}"#]), "path").as_deref(),
        Some("src/main.rs")
    );
    assert_eq!(
        tool_string_arg(&call(&[r#"{\"path\":\"a.txt\"}"#]), "path").as_deref(),
        Some("a.txt")
    );
    assert_eq!(tool_string_arg(&call(&["plain.txt"]), "path").as_deref(), Some("plain.txt"));
    assert_eq!(tool_string_arg(&call(&[]), "path"), None);
}

#[test]
fn exec_requires_approval_when_asked() {
    match plan_exec_command(&call(&["ls"]), &context(true, false)).expect("plan") {
        ExecPlan::Denied(result) => {
            assert_eq!(result.output, "exec_command denied: explicit approval is required");
            assert_eq!(result.error.as_deref(), Some("approval required"));
            assert!(!result.success);
        }
        other => panic!("unexpected {other:?}"),
    }
    assert_eq!(
        plan_exec_command(&call(&[r#"{"command":"echo hi"}"#]), &context(true, true)),
        Ok(ExecPlan::Run("echo hi".to_string()))
    );
    assert_eq!(
        plan_exec_command(&call(&[]), &context(false, true)),
        Err("exec_command requires `command` argument".to_string())
    );
}

#[test]
fn exec_results_merge_output_and_report_exit_status() {
    let ok = exec_command_result("c".to_string(), "out", "  ", true, Some(0), 100);
    assert_eq!(ok.output, "out");
    assert!(ok.success && ok.error.is_none());
    let failed = exec_command_result("c".to_string(), "out", "err", false, Some(2), 100);
    assert_eq!(failed.output, "out\n[stderr]\nerr");
    assert_eq!(failed.error.as_deref(), Some("command exited with status 2"));
    let killed = exec_command_result("c".to_string(), "", "err", false, None, 100);
    assert_eq!(killed.output, "err");
    assert_eq!(killed.error.as_deref(), Some("command exited with status unknown"));
}

#[test]
fn read_and_list_results() {
    let read = read_file_result("c".to_string(), "0123456789abc", 10);
    assert_eq!(read.output, "0123456789...<truncated>");
    assert!(read.truncated && read.success);
    let listing = list_files_result(
        "c".to_string(),
        &vec![entry("src", true), entry("a.txt", false)],
        100,
    );
    assert_eq!(listing.output, "a.txt\nsrc/");
    let empty = list_files_result("c".to_string(), &Vec::new(), 100);
    assert_eq!(empty.output, "(empty directory)");
}

fn entry(name: &str, is_dir: bool) -> DirEntry {
    DirEntry { name: name.to_string(), is_dir }
}

#[test]
fn listing_sorts_labels_in_str_order() {
    let entries = vec![
        entry("zeta", false),
        entry("Beta", false),
        entry("alpha", true),
        entry("alpha.txt", false),
        entry("é", false),
        entry("b", false),
    ];
    let listing = list_files_result("c".to_string(), &entries, 1000);
    let mut expected: Vec<String> =
        vec!["zeta", "Beta", "alpha/", "alpha.txt", "é", "b"].into_iter().map(String::from).collect();
    expected.sort();
    assert_eq!(listing.output, expected.join("\n"));
    assert_eq!(listing.output, "Beta\nalpha.txt\nalpha/\nb\nzeta\né");
    assert!(!listing.truncated && listing.success && listing.error.is_none());
}

#[test]
fn listing_is_truncated_after_sorting() {
    let entries = vec![entry("bbb", false), entry("aaa", false)];
    let listing = list_files_result("c".to_string(), &entries, 5);
    assert_eq!(listing.output, "aaa\nb...<truncated>");
    assert!(listing.truncated);
}

#[test]
fn tools_know_their_names_and_paths() {
    assert_eq!(ExecCommandTool.name(), "exec_command");
    assert_eq!(ReadFileTool.name(), "read_file");
    assert_eq!(ListFilesTool.name(), "list_files");
    assert_eq!(
        ReadFileTool.requested_path(&call(&[])),
        Err("read_file requires `path` argument".to_string())
    );
    assert_eq!(ListFilesTool.requested_path(&call(&[])), ".");
    assert_eq!(ListFilesTool.requested_path(&call(&["docs"])), "docs");
}

#[test]
fn registry_resolves_registered_tools() {
    let registry = ToolRegistry::with_defaults();
    assert_eq!(registry.resolve("read_file"), Some(&BuiltinTool::ReadFile));
    assert_eq!(registry.resolve("exec_command"), Some(&BuiltinTool::ExecCommand));
    assert_eq!(registry.resolve("nope"), None);
    let mut names = registry.names();
    names.sort();
    assert_eq!(names, vec!["exec_command", "list_files", "read_file"]);

    let mut registry = ToolRegistry::new();
    registry.register(BuiltinTool::ListFiles);
    registry.register(BuiltinTool::ListFiles);
    assert_eq!(registry.names(), vec!["list_files"]);
}

fn parts(p: &[&str]) -> Vec<String> {
    p.iter().map(|s| s.to_string()).collect()
}

#[test]
fn paths_stay_within_the_workspace_root() {
    let root = parts(&["/", "work", "repo"]);
    assert!(within_root(&root, &parts(&["/", "work", "repo"])));
    assert!(within_root(&root, &parts(&["/", "work", "repo", "src", "main.rs"])));
    assert!(!within_root(&root, &parts(&["/", "work"])));
    assert!(!within_root(&root, &parts(&["/", "work", "repository"])));
    assert!(!within_root(&root, &parts(&["/", "etc", "passwd"])));
}

#[test]
fn listing_is_the_same_for_any_entry_order() {
    let a = vec![entry("b", false), entry("a", true), entry("c", false)];
    let b = vec![entry("c", false), entry("b", false), entry("a", true)];
    assert_eq!(
        list_files_result("x".to_string(), &a, 100).output,
        list_files_result("x".to_string(), &b, 100).output
    );
}

#[test]
fn exec_without_granted_approval_is_denied_even_when_not_required() {
    match plan_exec_command(&call(&["ls"]), &context(false, false)).expect("plan") {
        ExecPlan::Denied(result) => {
            assert_eq!(result.output, "exec_command denied: explicit approval is required");
            assert!(!result.success);
        }
        other => panic!("unexpected {other:?}"),
    }
}

#[test]
fn default_registry_resolves_each_name_to_its_tool() {
    let defaults = ToolRegistry::with_defaults();
    for name in defaults.names() {
        assert_eq!(defaults.resolve(&name).map(|t| t.name()), Some(name.as_str()));
    }
    assert!(defaults.resolve("write_file").is_none());
}
