//! The command registry: the native functions that web content may invoke
//! by name.
//!
//! The registry is populated once during assembly and immutable afterwards.
//! Registering a name twice is a startup-fatal error; invoking a name that
//! was never registered yields the unknown-command error, never a crash.

use vstd::prelude::*;

verus! {

/// Identifies one natively implemented command.
///
/// `CanAppExit` is implemented inside this library (a pure read of the
/// exit-permission flag). The two download commands are external
/// collaborators: the registry only guarantees their stable names and that
/// their failures propagate as opaque errors.
#[derive(Clone, Copy, Debug, PartialEq, Eq, Structural)]
pub enum CommandKind {
    CanAppExit,
    DownloadFile,
    DownloadFileByBinary,
}

/// One registered command: its invocation name and what implements it.
pub struct CommandEntry {
    pub name: String,
    pub kind: CommandKind,
}

/// An error surfaced to the invoking web content. Invocation errors never
/// crash the host process.
#[derive(Debug)]
pub enum InvokeError {
    /// The requested name was never registered.
    UnknownCommand,
    /// A collaborator command failed; its message is carried opaquely.
    CommandFailed(String),
}

/// A startup-fatal registration error.
#[derive(Clone, Copy, Debug, PartialEq, Eq, Structural)]
pub enum RegistrationError {
    DuplicateName,
}

/// The name-to-command table that a sequence of entries denotes.
pub open spec fn spec_table(entries: Seq<CommandEntry>) -> Map<Seq<char>, CommandKind>
    decreases entries.len(),
{
    if entries.len() == 0 {
        Map::empty()
    } else {
        spec_table(entries.drop_last()).insert(entries.last().name@, entries.last().kind)
    }
}

/// The table's domain is exactly the set of registered names.
proof fn lemma_table_dom(entries: Seq<CommandEntry>, n: Seq<char>)
    ensures
        spec_table(entries).dom().contains(n) <==> (exists|i: int|
            0 <= i < entries.len() && entries[i].name@ == n),
    decreases entries.len(),
{
    if entries.len() > 0 {
        lemma_table_dom(entries.drop_last(), n);
        if entries.last().name@ != n && spec_table(entries).dom().contains(n) {
            let i = choose|i: int|
                0 <= i < entries.drop_last().len() && entries.drop_last()[i].name@ == n;
            assert(entries[i].name@ == n);
        }
        if exists|i: int| 0 <= i < entries.len() && entries[i].name@ == n {
            let i = choose|i: int| 0 <= i < entries.len() && entries[i].name@ == n;
            if i < entries.len() - 1 {
                assert(entries.drop_last()[i].name@ == n);
            }
        }
    }
}

/// With pairwise-distinct names, each entry is bound to its own kind.
proof fn lemma_table_at(entries: Seq<CommandEntry>, i: int)
    requires
        0 <= i < entries.len(),
        forall|j: int, k: int|
            0 <= j < k < entries.len() ==> entries[j].name@ != entries[k].name@,
    ensures
        spec_table(entries).dom().contains(entries[i].name@),
        spec_table(entries)[entries[i].name@] == entries[i].kind,
    decreases entries.len(),
{
    if i == entries.len() - 1 {
    } else {
        lemma_table_at(entries.drop_last(), i);
        assert(entries.drop_last()[i] == entries[i]);
        assert(entries[i].name@ != entries.last().name@);
    }
}

/// The set of native commands reachable from web content. Immutable after
/// assembly; safe to consult from concurrent invocations since lookups take
/// the registry by shared reference.
pub struct CommandRegistry {
    pub entries: Vec<CommandEntry>,
}

impl CommandRegistry {
    /// Registered names are pairwise distinct.
    pub open spec fn wf(self) -> bool {
        forall|j: int, k: int|
            0 <= j < k < self.entries@.len() ==> self.entries@[j].name@ != self.entries@[k].name@
    }

    /// The name-to-command table this registry denotes.
    pub open spec fn table(self) -> Map<Seq<char>, CommandKind> {
        spec_table(self.entries@)
    }

    /// Whether a name is registered.
    pub open spec fn knows(self, n: Seq<char>) -> bool {
        self.table().dom().contains(n)
    }

    /// An empty registry.
    pub fn new() -> (r: Self)
        ensures
            r.wf(),
            r.entries@.len() == 0,
            r.table() == Map::<Seq<char>, CommandKind>::empty(),
    {
        CommandRegistry { entries: Vec::new() }
    }

    /// Registers one command under a name. Succeeds exactly when the name is
    /// new; a duplicate name is reported and leaves the registry unchanged.
    pub fn register(&mut self, name: String, kind: CommandKind) -> (r: Result<
        (),
        RegistrationError,
    >)
        requires
            old(self).wf(),
        ensures
            final(self).wf(),
            (r is Ok) == !old(self).knows(name@),
            r is Ok ==> final(self).entries@ == old(self).entries@.push(
                CommandEntry { name, kind },
            ),
            r is Ok ==> final(self).table() == old(self).table().insert(name@, kind),
            r is Err ==> *final(self) == *old(self) && r == Err::<(), RegistrationError>(
                RegistrationError::DuplicateName,
            ),
    {
        proof {
            lemma_table_dom(self.entries@, name@);
        }
        let n = self.entries.len();
        for i in 0..n
            invariant
                self.entries@ == old(self).entries@,
                n == self.entries@.len(),
                self.wf(),
                forall|j: int| 0 <= j < i ==> self.entries@[j].name@ != name@,
        {
            if self.entries[i].name.eq(&name) {
                proof {
                    lemma_table_dom(self.entries@, name@);
                    assert(old(self).entries@[i as int].name@ == name@);
                }
                return Err(RegistrationError::DuplicateName);
            }
        }
        self.entries.push(CommandEntry { name, kind });
        proof {
            assert(self.entries@.drop_last() == old(self).entries@);
        }
        Ok(())
    }

    /// Looks a name up. Returns the registered command exactly when the name
    /// is known, and nothing otherwise.
    pub fn lookup(&self, name: &String) -> (r: Option<CommandKind>)
        requires
            self.wf(),
        ensures
            (r is Some) == self.knows(name@),
            r matches Some(k) ==> self.table()[name@] == k,
    {
        proof {
            lemma_table_dom(self.entries@, name@);
        }
        let n = self.entries.len();
        for i in 0..n
            invariant
                n == self.entries@.len(),
                self.wf(),
                forall|j: int| 0 <= j < i ==> self.entries@[j].name@ != name@,
        {
            if self.entries[i].name.eq(name) {
                proof {
                    lemma_table_at(self.entries@, i as int);
                }
                return Some(self.entries[i].kind);
            }
        }
        None
    }
}

impl InvokeError {
    /// A human-readable description, for the reply sent back to web content.
    pub fn message(&self) -> (r: String)
        ensures
            *self is UnknownCommand ==> r@ == "unknown command"@,
            self matches InvokeError::CommandFailed(m) ==> r@ == m@,
    {
        match self {
            InvokeError::UnknownCommand => "unknown command".to_owned(),
            InvokeError::CommandFailed(m) => m.clone(),
        }
    }
}

/// Folds an external collaborator's outcome into the bridge's reply: success
/// passes through, and a failure is carried opaquely, never interpreted and
/// never allowed to crash the host.
pub fn relay_collaborator_result(r: Result<(), String>) -> (out: Result<(), InvokeError>)
    ensures
        (out is Ok) == (r is Ok),
        r matches Err(m) ==> out matches Err(e) && e == InvokeError::CommandFailed(m),
{
    match r {
        Ok(()) => Ok(()),
        Err(m) => Err(InvokeError::CommandFailed(m)),
    }
}

} // verus!
