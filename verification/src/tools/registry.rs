//! The set of tools a model may call, by name.
use vstd::prelude::*;

use crate::text::{chars_eq, chars_of, owned};
use crate::tools::ToolHandler;

verus! {

/// The tools that come with the CLI.
#[derive(Debug, Clone, Copy, PartialEq, Eq, Structural)]
pub enum BuiltinTool {
    ListFiles,
    ReadFile,
    ExecCommand,
}

impl ToolHandler for BuiltinTool {
    open spec fn spec_name(&self) -> Seq<char> {
        match self {
            BuiltinTool::ListFiles => "list_files"@,
            BuiltinTool::ReadFile => "read_file"@,
            BuiltinTool::ExecCommand => "exec_command"@,
        }
    }

    fn name(&self) -> (r: &'static str) {
        match self {
            BuiltinTool::ListFiles => "list_files",
            BuiltinTool::ReadFile => "read_file",
            BuiltinTool::ExecCommand => "exec_command",
        }
    }
}

/// The handler registered under `name` among `entries` (later entries win).
pub open spec fn lookup<T>(entries: Seq<(String, T)>, name: Seq<char>) -> Option<T>
    decreases entries.len(),
{
    if entries.len() == 0 {
        None
    } else if entries.last().0@ == name {
        Some(entries.last().1)
    } else {
        lookup(entries.drop_last(), name)
    }
}

/// Tools by name: any tool type that knows its name (the built-in tools,
/// or an enum of a caller's own tools).
#[derive(Debug, Default)]
pub struct ToolRegistry<T> {
    handlers: Vec<(String, T)>,
}

impl<T: ToolHandler> ToolRegistry<T> {
    /// The tool registered under a name.
    pub closed spec fn spec_resolve(&self, name: Seq<char>) -> Option<T> {
        lookup(self.handlers@, name)
    }

    /// The names of the registered tools.
    pub closed spec fn spec_names(&self) -> Set<Seq<char>> {
        Set::new(|n: Seq<char>| lookup(self.handlers@, n) is Some)
    }

    /// Handler names are unique among the entries, and each entry is kept
    /// under its tool's own name.
    pub closed spec fn well_formed(&self) -> bool {
        &&& forall|i: int, j: int|
            0 <= i < j < self.handlers@.len() ==> self.handlers@[i].0@ != self.handlers@[j].0@
        &&& forall|i: int|
            0 <= i < self.handlers@.len() ==> #[trigger] self.handlers@[i].0@
                == self.handlers@[i].1.spec_name()
    }

    /// The registered names are the names that resolve, and a name resolves
    /// to a tool of that name.
    pub proof fn lemma_names_resolve(&self, n: Seq<char>)
        requires
            self.well_formed(),
        ensures
            self.spec_names().contains(n) <==> self.spec_resolve(n) is Some,
            self.spec_resolve(n) matches Some(t) ==> t.spec_name() == n,
    {
        lemma_lookup_name(self.handlers@, n);
    }

    pub fn new() -> (r: Self)
        ensures
            r.well_formed(),
            forall|n: Seq<char>| #[trigger] r.spec_resolve(n) is None,
    {
        ToolRegistry { handlers: Vec::new() }
    }

    /// Registers `handler` under its name, replacing a handler of that name.
    pub fn register(&mut self, handler: T)
        requires
            old(self).well_formed(),
        ensures
            final(self).well_formed(),
            forall|n: Seq<char>|
                #[trigger] final(self).spec_resolve(n) == if n == handler.spec_name() {
                    Some(handler)
                } else {
                    old(self).spec_resolve(n)
                },
    {
        let name = chars_of(handler.name());
        let mut i: usize = 0;
        while i < self.handlers.len()
            invariant
                i <= self.handlers@.len(),
                self.handlers == old(self).handlers,
                old(self).well_formed(),
                name@ == handler.spec_name(),
                forall|k: int| 0 <= k < i ==> self.handlers@[k].0@ != name@,
            decreases self.handlers@.len() - i,
        {
            let existing = chars_of(self.handlers[i].0.as_str());
            if chars_eq(&existing, &name) {
                let entry = (owned(handler.name()), handler);
                self.handlers.set(i, entry);
                proof {
                    assert(self.handlers@ == old(self).handlers@.update(i as int, entry));
                    assert forall|n: Seq<char>| #[trigger]
                        self.spec_resolve(n) == if n == handler.spec_name() {
                            Some(handler)
                        } else {
                            old(self).spec_resolve(n)
                        } by {
                        lemma_lookup_set(old(self).handlers@, i as int, entry, n);
                    }
                }
                return;
            }
            i = i + 1;
        }
        let entry = (owned(handler.name()), handler);
        self.handlers.push(entry);
        proof {
            assert(self.handlers@.drop_last() =~= old(self).handlers@);
            assert forall|a: int, b: int|
                0 <= a < b < self.handlers@.len() implies self.handlers@[a].0@
                != self.handlers@[b].0@ by {
                if b == self.handlers@.len() - 1 {
                    assert(self.handlers@[a] == old(self).handlers@[a]);
                }
            }
            assert forall|n: Seq<char>| #[trigger]
                self.spec_resolve(n) == if n == handler.spec_name() {
                    Some(handler)
                } else {
                    old(self).spec_resolve(n)
                } by {}
        }
    }

    /// The tool registered under `tool_name`.
    pub fn resolve(&self, tool_name: &str) -> (r: Option<&T>)
        ensures
            match r {
                Some(t) => self.spec_resolve(tool_name@) == Some(*t),
                None => self.spec_resolve(tool_name@) is None,
            },
    {
        let name = chars_of(tool_name);
        let mut i: usize = self.handlers.len();
        assert(self.handlers@.take(i as int) =~= self.handlers@);
        while i > 0
            invariant
                i <= self.handlers@.len(),
                name@ == tool_name@,
                lookup(self.handlers@, tool_name@) == lookup(self.handlers@.take(i as int), tool_name@),
            decreases i,
        {
            proof {
                assert(self.handlers@.take(i as int).drop_last() =~= self.handlers@.take(i - 1));
                assert(self.handlers@.take(i as int).last() == self.handlers@[i - 1]);
            }
            let existing = chars_of(self.handlers[i - 1].0.as_str());
            if chars_eq(&existing, &name) {
                return Some(&self.handlers[i - 1].1);
            }
            i = i - 1;
        }
        assert(self.handlers@.take(0) =~= Seq::<(String, T)>::empty());
        None
    }

    /// The names of the registered tools, each once.
    pub fn names(&self) -> (r: Vec<String>)
        requires
            self.well_formed(),
        ensures
            forall|n: Seq<char>| self.spec_names().contains(n) <==> exists|k: int| 0 <= k < r@.len() && (#[trigger] r@[k])@ == n,
            forall|n: Seq<char>| self.spec_resolve(n) is Some <==> exists|k: int| 0 <= k < r@.len() && (#[trigger] r@[k])@ == n,
            forall|i: int, j: int| 0 <= i < j < r@.len() ==> r@[i]@ != r@[j]@,
    {
        let mut r: Vec<String> = Vec::new();
        let mut i: usize = 0;
        while i < self.handlers.len()
            invariant
                i <= self.handlers@.len(),
                self.well_formed(),
                r@.len() == i,
                forall|k: int| 0 <= k < i ==> (#[trigger] r@[k])@ == self.handlers@[k].0@,
            decreases self.handlers@.len() - i,
        {
            r.push(self.handlers[i].0.clone());
            i = i + 1;
        }
        proof {
            assert forall|n: Seq<char>| #[trigger] self.spec_names().contains(n) <==> self.spec_resolve(n) is Some by {}
            assert forall|n: Seq<char>| self.spec_names().contains(n) <==> exists|k: int| 0 <= k < r@.len() && (#[trigger] r@[k])@ == n by {
                lemma_lookup_some(self.handlers@, n);
                if exists|k: int| 0 <= k < r@.len() && (#[trigger] r@[k])@ == n {
                    let k = choose|k: int| 0 <= k < r@.len() && (#[trigger] r@[k])@ == n;
                    assert(self.handlers@[k].0@ == n);
                }
                if exists|k: int| 0 <= k < self.handlers@.len() && self.handlers@[k].0@ == n {
                    let k = choose|k: int| 0 <= k < self.handlers@.len() && self.handlers@[k].0@ == n;
                    assert(r@[k]@ == n);
                }
            }
        }
        proof {
            assert forall|n: Seq<char>| self.spec_resolve(n) is Some <==> exists|k: int|
                0 <= k < r@.len() && (#[trigger] r@[k])@ == n by {
                assert(self.spec_names().contains(n) <==> self.spec_resolve(n) is Some);
                assert(self.spec_names().contains(n) <==> exists|k: int|
                    0 <= k < r@.len() && (#[trigger] r@[k])@ == n);
            }
        }
        r
    }

}

impl ToolRegistry<BuiltinTool> {
    /// A registry with the built-in tools.
    pub fn with_defaults() -> (r: Self)
        ensures
            r.well_formed(),
            r.spec_names() == set!["list_files"@, "read_file"@, "exec_command"@],
            r.spec_resolve("list_files"@) == Some(BuiltinTool::ListFiles),
            r.spec_resolve("read_file"@) == Some(BuiltinTool::ReadFile),
            r.spec_resolve("exec_command"@) == Some(BuiltinTool::ExecCommand),
            forall|n: Seq<char>| #[trigger] r.spec_resolve(n) is Some ==> n == "list_files"@ || n
                == "read_file"@ || n == "exec_command"@,
    {
        proof {
            reveal_strlit("list_files");
            reveal_strlit("read_file");
            reveal_strlit("exec_command");
        }
        let mut registry = Self::new();
        registry.register(BuiltinTool::ListFiles);
        let ghost r1 = registry;
        registry.register(BuiltinTool::ReadFile);
        let ghost r2 = registry;
        registry.register(BuiltinTool::ExecCommand);
        assert("list_files"@ != "read_file"@ && "list_files"@ != "exec_command"@
            && "read_file"@ != "exec_command"@) by {
            assert("list_files"@.len() != "read_file"@.len());
            assert("list_files"@.len() != "exec_command"@.len());
            assert("read_file"@.len() != "exec_command"@.len());
        }
        assert(registry.spec_resolve("list_files"@) == r2.spec_resolve("list_files"@));
        assert(r2.spec_resolve("list_files"@) == r1.spec_resolve("list_files"@));
        assert(registry.spec_resolve("read_file"@) == r2.spec_resolve("read_file"@));
        assert forall|n: Seq<char>| #[trigger] registry.spec_names().contains(n) <==> set![
            "list_files"@,
            "read_file"@,
            "exec_command"@,
        ].contains(n) by {
            assert(registry.spec_names().contains(n) <==> registry.spec_resolve(n) is Some);
            assert(registry.spec_resolve(n) == if n == "exec_command"@ {
                Some(BuiltinTool::ExecCommand)
            } else {
                r2.spec_resolve(n)
            });
            assert(r2.spec_resolve(n) == if n == "read_file"@ {
                Some(BuiltinTool::ReadFile)
            } else {
                r1.spec_resolve(n)
            });
        }
        assert(registry.spec_names() =~= set!["list_files"@, "read_file"@, "exec_command"@]);
        registry
    }
}

proof fn lemma_lookup_set<T>(
    entries: Seq<(String, T)>,
    i: int,
    entry: (String, T),
    n: Seq<char>,
)
    requires
        0 <= i < entries.len(),
        entries[i].0@ == entry.0@,
        forall|a: int, b: int| 0 <= a < b < entries.len() ==> entries[a].0@ != entries[b].0@,
    ensures
        lookup(entries.update(i, entry), n) == if n == entry.0@ {
            Some(entry.1)
        } else {
            lookup(entries, n)
        },
    decreases entries.len(),
{
    let u = entries.update(i, entry);
    if i == entries.len() - 1 {
        assert(u.drop_last() =~= entries.drop_last());
        if n != entry.0@ {
        }
    } else {
        assert(u.drop_last() =~= entries.drop_last().update(i, entry));
        lemma_lookup_set(entries.drop_last(), i, entry, n);
        if n == entry.0@ {
            assert(entries.last().0@ != entry.0@);
        }
    }
}

proof fn lemma_lookup_name<T: ToolHandler>(entries: Seq<(String, T)>, n: Seq<char>)
    requires
        forall|i: int| 0 <= i < entries.len() ==> #[trigger] entries[i].0@ == entries[i].1.spec_name(),
    ensures
        lookup(entries, n) matches Some(t) ==> t.spec_name() == n,
    decreases entries.len(),
{
    if entries.len() > 0 {
        assert(entries.last().0@ == entries.last().1.spec_name());
        assert forall|i: int| 0 <= i < entries.drop_last().len() implies #[trigger] entries.drop_last()[i].0@
            == entries.drop_last()[i].1.spec_name() by {
            assert(entries.drop_last()[i] == entries[i]);
        }
        lemma_lookup_name(entries.drop_last(), n);
    }
}

proof fn lemma_lookup_some<T>(entries: Seq<(String, T)>, n: Seq<char>)
    ensures
        lookup(entries, n) is Some <==> exists|k: int| 0 <= k < entries.len() && entries[k].0@ == n,
    decreases entries.len(),
{
    if entries.len() > 0 {
        lemma_lookup_some(entries.drop_last(), n);
        let d = entries.drop_last();
        if exists|k: int| 0 <= k < entries.len() && entries[k].0@ == n {
            let k = choose|k: int| 0 <= k < entries.len() && entries[k].0@ == n;
            if k < entries.len() - 1 {
                assert(d[k] == entries[k]);
            }
        }
        if exists|k: int| 0 <= k < d.len() && d[k].0@ == n {
            let k = choose|k: int| 0 <= k < d.len() && d[k].0@ == n;
            assert(entries[k] == d[k]);
        }
    }
}

} // verus!
