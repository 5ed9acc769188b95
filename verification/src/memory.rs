//! Agent memory: the built-in memory files of a workspace, the text they add
//! to a system prompt, and the manager that combines built-in and external
//! memory.
use vstd::prelude::*;
use crate::text::{join2, join3, owned};

verus! {

/// The files of the built-in memory, in the order they are read.
pub open spec fn memory_files() -> Seq<Seq<char>> {
    seq!["MEMORY.md"@, "USER.md"@, "SOUL.md"@, "AGENTS.md"@, "TOOLS.md"@]
}

/// The names of the built-in memory files, in the order they are read.
pub fn memory_file_names() -> (r: Vec<&'static str>)
    ensures
        r@.len() == memory_files().len(),
        forall|i: int| 0 <= i < r@.len() ==> #[trigger] r@[i]@ == memory_files()[i],
{
    let names = vec!["MEMORY.md", "USER.md", "SOUL.md", "AGENTS.md", "TOOLS.md"];
    proof {
        reveal_strlit("MEMORY.md");
        reveal_strlit("USER.md");
        reveal_strlit("SOUL.md");
        reveal_strlit("AGENTS.md");
        reveal_strlit("TOOLS.md");
        assert forall|i: int| 0 <= i < names@.len() implies #[trigger] names@[i]@ == memory_files()[i] by {
            if i == 0 {} else if i == 1 {} else if i == 2 {} else if i == 3 {} else {}
        }
    }
    names
}

/// The section a memory file adds: its name as a heading, then its text.
pub open spec fn memory_section(file: Seq<char>, text: Seq<char>) -> Seq<char> {
    "# "@ + file + "\n\n"@ + text + "\n\n"@
}

/// The text a new memory file starts with: its name as a heading.
pub open spec fn memory_file_start(file: Seq<char>) -> Seq<char> {
    "# "@ + file + "\n\n"@
}

pub fn memory_file_initial_text(file: &str) -> (r: String)
    ensures
        r@ == memory_file_start(file@),
{
    join3("# ", file, "\n\n")
}

/// The memory of a workspace: the sections of the files that could be read,
/// in order; files that are absent or unreadable add nothing.
pub open spec fn memory_text(files: Seq<Seq<char>>, texts: Seq<Option<String>>) -> Seq<char>
    decreases texts.len(),
{
    if texts.len() == 0 || files.len() == 0 {
        Seq::<char>::empty()
    } else {
        let rest = memory_text(files.drop_last(), texts.drop_last());
        match texts.last() {
            Some(t) => rest + memory_section(files.last(), t@),
            None => rest,
        }
    }
}

/// Joins what was read of each memory file (none where it was absent or
/// unreadable), given in the order of `memory_file_names`.
pub fn memory_content(texts: &Vec<Option<String>>) -> (r: String)
    requires
        texts@.len() == memory_files().len(),
    ensures
        r@ == memory_text(memory_files(), texts@),
{
    let names = memory_file_names();
    let mut content = String::new();
    let mut i: usize = 0;
    while i < texts.len()
        invariant
            i <= texts@.len(),
            texts@.len() == memory_files().len(),
            names@.len() == memory_files().len(),
            forall|k: int| 0 <= k < names@.len() ==> #[trigger] names@[k]@ == memory_files()[k],
            content@ == memory_text(memory_files().subrange(0, i as int), texts@.subrange(0, i as int)),
        decreases texts.len() - i,
    {
        let ghost files_next = memory_files().subrange(0, i as int + 1);
        let ghost texts_next = texts@.subrange(0, i as int + 1);
        assert(files_next.drop_last() =~= memory_files().subrange(0, i as int));
        assert(texts_next.drop_last() =~= texts@.subrange(0, i as int));
        assert(files_next.last() == names@[i as int]@);
        match &texts[i] {
            Some(t) => {
                let section = join3("# ", names[i], "\n\n");
                let body = join2(t.as_str(), "\n\n");
                content = content.concat(section.as_str()).concat(body.as_str());
                assert(content@ =~= memory_text(files_next, texts_next));
            },
            None => {},
        }
        i = i + 1;
    }
    assert(memory_files().subrange(0, i as int) =~= memory_files());
    assert(texts@.subrange(0, i as int) =~= texts@);
    content
}

/// The block the built-in memory adds to a system prompt: nothing when the
/// memory is empty, else the memory wrapped in a `memory-context` element.
pub open spec fn memory_block(content: Seq<char>) -> Seq<char> {
    if content.len() == 0 {
        Seq::<char>::empty()
    } else {
        "<memory-context>\n"@ + content + "\n</memory-context>\n"@
    }
}

pub fn system_prompt_block(content: &str) -> (r: String)
    ensures
        r@ == memory_block(content@),
{
    if content.unicode_len() == 0 {
        String::new()
    } else {
        join3("<memory-context>\n", content, "\n</memory-context>\n")
    }
}

/// The context a manager builds: the built-in block when it is not empty,
/// then the external memory wrapped in an `external-memory` element when it is
/// not empty.
pub open spec fn context_text(builtin: Option<Seq<char>>, external: Option<Seq<char>>) -> Seq<char> {
    let head = match builtin {
        Some(b) => b,
        None => Seq::<char>::empty(),
    };
    match external {
        Some(e) => if e.len() == 0 { head } else { head + "<external-memory>\n"@ + e + "\n</external-memory>\n"@ },
        None => head,
    }
}

/// Combines the built-in block and what the external provider recalled (none
/// where no such provider is registered).
pub fn context_block(builtin_block: Option<&str>, external_block: Option<&str>) -> (r: String)
    ensures
        r@ == context_text(
            match builtin_block { Some(b) => Some(b@), None => None },
            match external_block { Some(e) => Some(e@), None => None },
        ),
{
    let mut block = String::new();
    match builtin_block {
        Some(b) => {
            if b.unicode_len() != 0 {
                block = owned(b);
            }
        },
        None => {},
    }
    match external_block {
        Some(e) => {
            if e.unicode_len() != 0 {
                let wrapped = join3("<external-memory>\n", e, "\n</external-memory>\n");
                block = block.concat(wrapped.as_str());
            }
        },
        None => {},
    }
    block
}

#[derive(Debug)]
pub enum MemoryError {
    Io(String),
    NotInitialized,
    Provider(String),
}

pub open spec fn memory_error_text(e: MemoryError) -> Seq<char> {
    match e {
        MemoryError::Io(d) => "io error: "@ + d@,
        MemoryError::NotInitialized => "not initialized"@,
        MemoryError::Provider(d) => "provider error: "@ + d@,
    }
}

impl MemoryError {
    pub fn message(&self) -> (r: String)
        ensures
            r@ == memory_error_text(*self),
    {
        match self {
            MemoryError::Io(d) => join2("io error: ", d.as_str()),
            MemoryError::NotInitialized => owned("not initialized"),
            MemoryError::Provider(d) => join2("provider error: ", d.as_str()),
        }
    }
}

/// The memory kept in files of a workspace; the workspace is held as text.
#[derive(Debug)]
pub struct BuiltinMemory {
    pub session_id: Option<String>,
    pub workspace: String,
    pub last_prefetch: Option<String>,
}

impl BuiltinMemory {
    /// The memory of `workspace`, before any session.
    pub fn new(workspace: &str) -> (r: Self)
        ensures
            r.session_id is None,
            r.workspace@ == workspace@,
            r.last_prefetch is None,
    {
        BuiltinMemory { session_id: None, workspace: owned(workspace), last_prefetch: None }
    }

    pub fn name(&self) -> (r: &'static str)
        ensures
            r@ == "builtin"@,
    {
        let r = "builtin";
        proof {
            reveal_strlit("builtin");
        }
        r
    }

    /// A session starts in `workspace`.
    pub fn begin_session(&mut self, session_id: &str, workspace: &str)
        ensures
            final(self).session_id matches Some(s) && s@ == session_id@,
            final(self).workspace@ == workspace@,
            final(self).last_prefetch == old(self).last_prefetch,
    {
        self.session_id = Some(owned(session_id));
        self.workspace = owned(workspace);
    }

    /// Keeps what a prefetch recalled.
    pub fn remember_prefetch(&mut self, content: &str)
        ensures
            final(self).last_prefetch matches Some(c) && c@ == content@,
            final(self).session_id == old(self).session_id,
            final(self).workspace == old(self).workspace,
    {
        self.last_prefetch = Some(owned(content));
    }
}

/// The built-in memory provider and at most one external provider, and the
/// session they serve.
pub struct MemoryManager<P> {
    pub builtin: Option<P>,
    pub external: Option<P>,
    pub active_session: String,
}

impl<P> MemoryManager<P> {
    /// A manager with no providers and no session.
    pub fn new() -> (r: Self)
        ensures
            r.builtin is None,
            r.external is None,
            r.active_session@.len() == 0,
    {
        MemoryManager { builtin: None, external: None, active_session: String::new() }
    }

    /// Sets the built-in provider, replacing any earlier one.
    pub fn register_builtin(&mut self, provider: P)
        ensures
            final(self).builtin == Some(provider),
            final(self).external == old(self).external,
            final(self).active_session == old(self).active_session,
    {
        self.builtin = Some(provider);
    }

    /// Sets the external provider, replacing any earlier one: there is at most one.
    pub fn register_external(&mut self, provider: P)
        ensures
            final(self).external == Some(provider),
            final(self).builtin == old(self).builtin,
            final(self).active_session == old(self).active_session,
    {
        self.external = Some(provider);
    }

    /// Records the session the providers now serve.
    pub fn set_active_session(&mut self, session_id: &str)
        ensures
            final(self).active_session@ == session_id@,
            final(self).builtin == old(self).builtin,
            final(self).external == old(self).external,
    {
        self.active_session = owned(session_id);
    }
}

} // verus!
