//! Tool calling: approval policy, argument extraction and output shaping.
pub mod registry;

use vstd::prelude::*;

use crate::model::{ToolCall, ToolResult};
use crate::text::{
    chars_eq, chars_of, concat2, concat3, i64_decimal, lower, lower_chars, owned, signed_decimal,
    string_of, trim, trim_chars, trim_str,
};

verus! {

#[verifier::external_type_specification]
#[verifier::external_body]
pub struct ExPathBuf(std::path::PathBuf);

/// Where and under which approval rules tools run.
#[derive(Debug)]
pub struct ToolContext {
    pub workspace_root: std::path::PathBuf,
    pub approval_required: bool,
    pub approval_granted: bool,
    pub max_output_chars: usize,
}

/// When tools ask for approval.
#[derive(Debug, Clone, Copy, PartialEq, Eq, Structural)]
pub enum ApprovalPolicy {
    AlwaysAsk,
    OnRequest,
    Never,
}

impl ApprovalPolicy {
    /// `always_ask` and `never` (trimmed, any ASCII case) select those
    /// policies; anything else is `OnRequest`.
    pub fn from_config(value: &str) -> (r: Self)
        ensures
            r == if lower(trim(value@)) == "always_ask"@ {
                ApprovalPolicy::AlwaysAsk
            } else if lower(trim(value@)) == "never"@ {
                ApprovalPolicy::Never
            } else {
                ApprovalPolicy::OnRequest
            },
    {
        let v = lower_chars(&trim_chars(&chars_of(value)));
        if chars_eq(&v, &chars_of("always_ask")) {
            ApprovalPolicy::AlwaysAsk
        } else if chars_eq(&v, &chars_of("never")) {
            ApprovalPolicy::Never
        } else {
            ApprovalPolicy::OnRequest
        }
    }
}

/// `text` cut to `max_chars` characters with a marker, when it is longer.
pub open spec fn spec_truncate(text: Seq<char>, max_chars: nat) -> (Seq<char>, bool) {
    if text.len() <= max_chars {
        (text, false)
    } else {
        (text.take(max_chars as int) + "...<truncated>"@, true)
    }
}

/// Limits tool output to `max_chars` characters.
pub fn truncate_output(text: &str, max_chars: usize) -> (r: (String, bool))
    ensures
        (r.0@, r.1) == spec_truncate(text@, max_chars as nat),
{
    let v = chars_of(text);
    if v.len() <= max_chars {
        return (owned(text), false);
    }
    let mut out: Vec<char> = Vec::new();
    let mut i: usize = 0;
    while i < max_chars
        invariant
            i <= max_chars < v@.len(),
            out@ == v@.take(i as int),
        decreases max_chars - i,
    {
        out.push(v[i]);
        i = i + 1;
        assert(out@ =~= v@.take(i as int));
    }
    let s = string_of(&out);
    (concat2(s.as_str(), "...<truncated>"), true)
}

/// What `serde_json` finds in `text` under `key`: `None` when `text` is not
/// JSON, `Some(None)` when it is JSON without a string under `key` at the
/// top level, `Some(Some(s))` when it holds the string `s` there.
pub uninterp spec fn json_string_field(text: Seq<char>, key: Seq<char>) -> Option<Option<Seq<char>>>;

/// Parses `text` as JSON and reads the string stored under `key`
/// (`serde_json::from_str::<Value>`, `Value::get`, `Value::as_str`).
#[verifier::external_body]
fn json_lookup_str(text: &str, key: &str) -> (r: Option<Option<String>>)
    ensures
        match r {
            None => json_string_field(text@, key@) is None,
            Some(None) => json_string_field(text@, key@) == Some(None::<Seq<char>>),
            Some(Some(s)) => json_string_field(text@, key@) == Some(Some(s@)),
        },
{
    match serde_json::from_str::<serde_json::Value>(text) {
        Ok(v) => Some(v.get(key).and_then(serde_json::Value::as_str).map(str::to_string)),
        Err(_) => None,
    }
}

/// `s` with every `\"` replaced by `"` (`str::replace`, left to right).
pub open spec fn unescape_quotes(s: Seq<char>) -> Seq<char>
    decreases s.len(),
{
    if s.len() == 0 {
        s
    } else if s.len() >= 2 && s[0] == '\\' && s[1] == '"' {
        seq!['"'] + unescape_quotes(s.skip(2))
    } else {
        seq![s[0]] + unescape_quotes(s.skip(1))
    }
}

fn unescape_quotes_exec(v: &Vec<char>) -> (r: Vec<char>)
    ensures
        r@ == unescape_quotes(v@),
{
    let mut r: Vec<char> = Vec::new();
    let mut i: usize = 0;
    assert(v@.skip(0) =~= v@);
    while i < v.len()
        invariant
            i <= v@.len(),
            unescape_quotes(v@) == r@ + unescape_quotes(v@.skip(i as int)),
        decreases v@.len() - i,
    {
        let ghost rest = v@.skip(i as int);
        if i + 1 < v.len() && v[i] == '\\' && v[i + 1] == '"' {
            proof {
                assert(rest[0] == v@[i as int] && rest[1] == v@[i + 1]);
                assert(rest.skip(2) =~= v@.skip(i + 2));
                assert(r@.push('"') + unescape_quotes(v@.skip(i + 2)) =~= r@ + (seq!['"']
                    + unescape_quotes(v@.skip(i + 2))));
            }
            r.push('"');
            i = i + 2;
        } else {
            proof {
                assert(rest[0] == v@[i as int]);
                assert(rest.skip(1) =~= v@.skip(i + 1));
                if rest.len() >= 2 {
                    assert(rest[1] == v@[i + 1]);
                }
                assert(r@.push(v@[i as int]) + unescape_quotes(v@.skip(i + 1)) =~= r@ + (seq![
                    v@[i as int],
                ] + unescape_quotes(v@.skip(i + 1))));
            }
            r.push(v[i]);
            i = i + 1;
        }
    }
    assert(v@.skip(i as int) =~= Seq::<char>::empty());
    assert(r@ + Seq::<char>::empty() =~= r@);
    r
}

/// What `parse_json_args` followed by a lookup of `key` yields for the first
/// argument: the raw text is parsed, and when it is not JSON the text with
/// `\"` unescaped is parsed instead.
pub open spec fn spec_json_arg(first: Seq<char>, key: Seq<char>) -> Option<Option<Seq<char>>> {
    match json_string_field(first, key) {
        Some(v) => Some(v),
        None => json_string_field(unescape_quotes(first), key),
    }
}

/// A string argument of a tool call: the string under `key` when the first
/// argument is a JSON object holding one, otherwise the first argument itself.
pub open spec fn spec_tool_string_arg(args: Seq<String>, key: Seq<char>) -> Option<Seq<char>> {
    if args.len() == 0 {
        None
    } else {
        match spec_json_arg(args[0]@, key) {
            Some(Some(s)) => Some(s),
            _ => Some(args[0]@),
        }
    }
}

/// Reads a string argument of a tool call (see `spec_tool_string_arg`).
pub fn tool_string_arg(call: &ToolCall, key: &str) -> (r: Option<String>)
    ensures
        r matches Some(s) ==> spec_tool_string_arg(call.args@, key@) == Some(s@),
        r is None ==> spec_tool_string_arg(call.args@, key@) is None,
{
    if call.args.len() == 0 {
        return None;
    }
    let first = &call.args[0];
    let parsed = match json_lookup_str(first.as_str(), key) {
        Some(v) => Some(v),
        None => {
            let unescaped = string_of(&unescape_quotes_exec(&chars_of(first.as_str())));
            json_lookup_str(unescaped.as_str(), key)
        },
    };
    match parsed {
        Some(Some(s)) => Some(s),
        _ => Some(first.clone()),
    }
}

/// How `exec_command` proceeds before running anything.
#[derive(Debug, Clone, PartialEq, Eq)]
pub enum ExecPlan {
    /// Approval is missing: this result is returned without running.
    Denied(ToolResult),
    /// Run this shell command.
    Run(String),
}

/// Decides whether `exec_command` may run and which command it runs: every
/// call needs explicit approval, so a call that was not granted is denied.
pub fn plan_exec_command(call: &ToolCall, ctx: &ToolContext) -> (r: Result<ExecPlan, String>)
    ensures
        !ctx.approval_granted ==> (r matches Ok(ExecPlan::Denied(t)) && {
            &&& t.call_id == call.id
            &&& t.output@ == "exec_command denied: explicit approval is required"@
            &&& (t.error matches Some(e) && e@ == "approval required"@)
            &&& !t.truncated && !t.success
        }),
        ctx.approval_granted ==> match r {
            Ok(ExecPlan::Run(c)) => spec_tool_string_arg(call.args@, "command"@) == Some(c@),
            Err(e) => spec_tool_string_arg(call.args@, "command"@) is None && e@
                == "exec_command requires `command` argument"@,
            _ => false,
        },
{
    if !ctx.approval_granted {
        return Ok(
            ExecPlan::Denied(
                ToolResult {
                    call_id: call.id.clone(),
                    output: owned("exec_command denied: explicit approval is required"),
                    error: Some(owned("approval required")),
                    truncated: false,
                    success: false,
                },
            ),
        );
    }
    match tool_string_arg(call, "command") {
        Some(c) => Ok(ExecPlan::Run(c)),
        None => Err(owned("exec_command requires `command` argument")),
    }
}

/// The combined output of a command: stdout, stderr, or both with a marker.
pub open spec fn spec_merge_output(stdout: Seq<char>, stderr: Seq<char>) -> Seq<char> {
    if trim(stderr).len() == 0 {
        stdout
    } else if trim(stdout).len() == 0 {
        stderr
    } else {
        stdout + "\n[stderr]\n"@ + stderr
    }
}

/// The error reported for a failed command.
pub open spec fn spec_exit_error(code: Option<i32>) -> Seq<char> {
    "command exited with status "@ + match code {
        Some(c) => signed_decimal(c as int),
        None => "unknown"@,
    }
}

/// The result of `exec_command` from what the command printed and how it exited.
pub fn exec_command_result(
    call_id: String,
    stdout: &str,
    stderr: &str,
    exit_success: bool,
    exit_code: Option<i32>,
    max_output_chars: usize,
) -> (r: ToolResult)
    ensures
        r.call_id == call_id,
        (r.output@, r.truncated) == spec_truncate(
            spec_merge_output(stdout@, stderr@),
            max_output_chars as nat,
        ),
        r.success == exit_success,
        exit_success ==> r.error is None,
        !exit_success ==> (r.error matches Some(e) && e@ == spec_exit_error(exit_code)),
{
    let merged = if trim_str(stderr).as_str().is_empty() {
        owned(stdout)
    } else if trim_str(stdout).as_str().is_empty() {
        owned(stderr)
    } else {
        let mut m = concat3(stdout, "\n[stderr]\n", stderr);
        m
    };
    let (output, truncated) = truncate_output(merged.as_str(), max_output_chars);
    let error = if exit_success {
        None
    } else {
        let code = match exit_code {
            Some(c) => i64_decimal(c as i64),
            None => owned("unknown"),
        };
        Some(concat2("command exited with status ", code.as_str()))
    };
    ToolResult { call_id, output, error, truncated, success: exit_success }
}

/// The result of `read_file` for a file's content.
pub fn read_file_result(call_id: String, content: &str, max_output_chars: usize) -> (r: ToolResult)
    ensures
        r.call_id == call_id,
        (r.output@, r.truncated) == spec_truncate(content@, max_output_chars as nat),
        r.error is None,
        r.success,
{
    let (output, truncated) = truncate_output(content, max_output_chars);
    ToolResult { call_id, output, error: None, truncated, success: true }
}

/// The listing text of a directory whose sorted entry labels are `entries`.
pub open spec fn spec_listing(entries: Seq<Seq<char>>) -> Seq<char> {
    if entries.len() == 0 {
        "(empty directory)"@
    } else {
        crate::text::join(entries, seq!['\n'])
    }
}

/// An entry of a listed directory.
#[derive(Debug, Clone, PartialEq, Eq)]
pub struct DirEntry {
    pub name: String,
    pub is_dir: bool,
}

/// How `list_files` shows an entry: its name, with `/` after a directory's.
pub open spec fn entry_label(e: DirEntry) -> Seq<char> {
    if e.is_dir {
        e.name@ + "/"@
    } else {
        e.name@
    }
}

/// The labels of `entries`, in their order.
pub open spec fn entry_labels(entries: Seq<DirEntry>) -> Seq<Seq<char>> {
    Seq::new(entries.len(), |i: int| entry_label(entries[i]))
}

/// The text of `list_files` for a directory's entries: their labels in
/// `str` order, one per line.
pub open spec fn spec_directory_listing(entries: Seq<DirEntry>) -> Seq<char> {
    spec_listing(crate::text::sorted_order(entry_labels(entries)))
}

/// The listing of a directory does not depend on the order in which its
/// entries were read: entries whose labels are the same, counted with
/// multiplicity, give the same listing.
pub proof fn law_listing_ignores_entry_order(a: Seq<DirEntry>, b: Seq<DirEntry>)
    requires
        entry_labels(a).to_multiset() == entry_labels(b).to_multiset(),
    ensures
        spec_directory_listing(a) == spec_directory_listing(b),
{
    assert(crate::text::sorted_order(entry_labels(a)) == crate::text::sorted_order(
        entry_labels(b),
    ));
}

/// Joins `parts` with newlines.
fn join_lines(parts: &Vec<String>) -> (r: Vec<char>)
    ensures
        r@ == crate::text::join(crate::text::string_views(parts@), seq!['\n']),
{
    let mut listing: Vec<char> = Vec::new();
    let mut i: usize = 0;
    let ghost sv = crate::text::string_views(parts@);
    assert(sv.take(0) =~= Seq::<Seq<char>>::empty());
    while i < parts.len()
        invariant
            i <= parts@.len(),
            sv == crate::text::string_views(parts@),
            listing@ == crate::text::join(sv.take(i as int), seq!['\n']),
        decreases parts@.len() - i,
    {
        proof {
            crate::text::lemma_join_push(sv.take(i as int), seq!['\n'], sv[i as int]);
            assert(sv.take(i + 1) =~= sv.take(i as int).push(sv[i as int]));
        }
        if i > 0 {
            listing.push('\n');
        }
        let w = chars_of(parts[i].as_str());
        let ghost l0 = listing@;
        let mut k: usize = 0;
        while k < w.len()
            invariant
                k <= w@.len(),
                listing@ == l0 + w@.take(k as int),
            decreases w@.len() - k,
        {
            listing.push(w[k]);
            k = k + 1;
            assert(listing@ =~= l0 + w@.take(k as int));
        }
        proof {
            assert(w@.take(k as int) =~= w@);
            if i > 0 {
                assert(l0 =~= crate::text::join(sv.take(i as int), seq!['\n']) + seq!['\n']);
            } else {
                assert(l0 =~= Seq::<char>::empty());
            }
            assert(listing@ =~= crate::text::join(sv.take(i + 1), seq!['\n']));
        }
        i = i + 1;
    }
    assert(sv.take(i as int) =~= sv);
    listing
}

/// The result of `list_files` for the entries of a directory, in any order.
pub fn list_files_result(call_id: String, entries: &Vec<DirEntry>, max_output_chars: usize) -> (r:
    ToolResult)
    ensures
        r.call_id == call_id,
        (r.output@, r.truncated) == spec_truncate(
            spec_directory_listing(entries@),
            max_output_chars as nat,
        ),
        r.error is None,
        r.success,
{
    let mut labels: Vec<String> = Vec::new();
    let mut i: usize = 0;
    while i < entries.len()
        invariant
            i <= entries@.len(),
            crate::text::string_views(labels@) =~= entry_labels(entries@).take(i as int),
        decreases entries@.len() - i,
    {
        let e = &entries[i];
        let label = if e.is_dir {
            concat2(e.name.as_str(), "/")
        } else {
            e.name.clone()
        };
        assert(label@ == entry_label(entries@[i as int]));
        let ghost before = labels@;
        labels.push(label);
        assert(crate::text::string_views(labels@) =~= crate::text::string_views(before).push(
            entry_label(entries@[i as int]),
        ));
        assert(entry_labels(entries@).take(i + 1) =~= entry_labels(entries@).take(i as int).push(
            entry_label(entries@[i as int]),
        ));
        i = i + 1;
    }
    assert(entry_labels(entries@).take(i as int) =~= entry_labels(entries@));
    let sorted = crate::text::sort_strings(labels);
    let text = if sorted.len() == 0 {
        owned("(empty directory)")
    } else {
        string_of(&join_lines(&sorted))
    };
    let (output, truncated) = truncate_output(text.as_str(), max_output_chars);
    ToolResult { call_id, output, error: None, truncated, success: true }
}

/// Whether a path lies under a root, given both as components: the root's
/// components begin the path's (the rule of `Path::starts_with`).
pub open spec fn spec_within_root(root: Seq<Seq<char>>, path: Seq<Seq<char>>) -> bool {
    root.len() <= path.len() && path.take(root.len() as int) == root
}

/// Decides whether a resolved path stays inside the workspace root.
pub fn within_root(root: &Vec<String>, path: &Vec<String>) -> (r: bool)
    ensures
        r == spec_within_root(
            crate::text::string_views(root@),
            crate::text::string_views(path@),
        ),
{
    let ghost rv = crate::text::string_views(root@);
    let ghost pv = crate::text::string_views(path@);
    if root.len() > path.len() {
        return false;
    }
    let mut i: usize = 0;
    while i < root.len()
        invariant
            i <= root@.len() <= path@.len(),
            rv == crate::text::string_views(root@),
            pv == crate::text::string_views(path@),
            pv.take(i as int) == rv.take(i as int),
        decreases root@.len() - i,
    {
        if !crate::text::str_eq(root[i].as_str(), path[i].as_str()) {
            assert(pv.take(rv.len() as int)[i as int] != rv[i as int]);
            return false;
        }
        assert(pv.take(i + 1) =~= rv.take(i + 1)) by {
            assert(pv.take(i as int) =~= rv.take(i as int));
        }
        i = i + 1;
    }
    assert(rv.take(i as int) =~= rv);
    true
}

/// A tool a model may call, known by its name.
pub trait ToolHandler {
    spec fn spec_name(&self) -> Seq<char>;

    fn name(&self) -> (r: &'static str)
        ensures
            r@ == self.spec_name(),
    ;
}

/// Runs a shell command in the workspace.
#[derive(Debug, Clone, Copy, Default, PartialEq, Eq)]
pub struct ExecCommandTool;

/// Reads a file of the workspace.
#[derive(Debug, Clone, Copy, Default, PartialEq, Eq)]
pub struct ReadFileTool;

/// Lists a directory of the workspace.
#[derive(Debug, Clone, Copy, Default, PartialEq, Eq)]
pub struct ListFilesTool;

impl ToolHandler for ExecCommandTool {
    open spec fn spec_name(&self) -> Seq<char> {
        "exec_command"@
    }

    fn name(&self) -> (r: &'static str) {
        "exec_command"
    }
}

impl ToolHandler for ReadFileTool {
    open spec fn spec_name(&self) -> Seq<char> {
        "read_file"@
    }

    fn name(&self) -> (r: &'static str) {
        "read_file"
    }
}

impl ToolHandler for ListFilesTool {
    open spec fn spec_name(&self) -> Seq<char> {
        "list_files"@
    }

    fn name(&self) -> (r: &'static str) {
        "list_files"
    }
}

impl ReadFileTool {
    /// The path `read_file` reads: the `path` argument.
    pub fn requested_path(&self, call: &ToolCall) -> (r: Result<String, String>)
        ensures
            r matches Ok(p) ==> spec_tool_string_arg(call.args@, "path"@) == Some(p@),
            r matches Err(e) ==> spec_tool_string_arg(call.args@, "path"@) is None
                && e@ == "read_file requires `path` argument"@,
    {
        match tool_string_arg(call, "path") {
            Some(p) => Ok(p),
            None => Err(owned("read_file requires `path` argument")),
        }
    }
}

impl ListFilesTool {
    /// The directory `list_files` lists: the `path` argument, else `.`.
    pub fn requested_path(&self, call: &ToolCall) -> (r: String)
        ensures
            r@ == match spec_tool_string_arg(call.args@, "path"@) {
                Some(p) => p,
                None => "."@,
            },
    {
        match tool_string_arg(call, "path") {
            Some(p) => p,
            None => owned("."),
        }
    }
}

} // verus!
