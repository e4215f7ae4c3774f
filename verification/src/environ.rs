//! The variables through which a session reaches the processes it starts.

use vstd::prelude::*;

verus! {

pub const ENV_BASE: &'static str = "REDO_BASE";
pub const ENV_COLOR: &'static str = "REDO_COLOR";
pub const ENV_DEBUG: &'static str = "REDO_DEBUG";
pub const ENV_DEBUG_LOCKS: &'static str = "REDO_DEBUG_LOCKS";
pub const ENV_DEBUG_PIDS: &'static str = "REDO_DEBUG_PIDS";
pub const ENV_DEPTH: &'static str = "REDO_DEPTH";
pub const ENV_KEEP_GOING: &'static str = "REDO_KEEP_GOING";
pub const ENV_LOCKS_BROKEN: &'static str = "REDO_LOCKS_BROKEN";
pub const ENV_LOG: &'static str = "REDO_LOG";
pub const ENV_LOG_INODE: &'static str = "REDO_LOG_INODE";
pub const ENV_NO_OOB: &'static str = "REDO_NO_OOB";
pub const ENV_PRETTY: &'static str = "REDO_PRETTY";
pub const ENV_PWD: &'static str = "REDO_PWD";
pub const ENV_REDO: &'static str = "REDO";
pub const ENV_RUNID: &'static str = "REDO_RUNID";
pub const ENV_SHUFFLE: &'static str = "REDO_SHUFFLE";
pub const ENV_STARTDIR: &'static str = "REDO_STARTDIR";
pub const ENV_TARGET: &'static str = "REDO_TARGET";
pub const ENV_UNLOCKED: &'static str = "REDO_UNLOCKED";
pub const ENV_VERBOSE: &'static str = "REDO_VERBOSE";
pub const ENV_XTRACE: &'static str = "REDO_XTRACE";
pub const ENV_PATH: &'static str = "PATH";

/// One of the variables that a session reads or writes.
#[derive(Clone, Copy, Debug, PartialEq, Eq, Structural, Hash)]
pub enum Var {
    /// Set inside a tree of invocations; holds the path of the executable.
    Redo,
    /// The project root, fixed by the first process of the tree.
    Base,
    /// The working directory of the current invocation.
    Pwd,
    /// The working directory of the first process of the tree.
    StartDir,
    /// The target that this process builds.
    Target,
    /// The indentation of nested log lines.
    Depth,
    Debug,
    Verbose,
    Xtrace,
    DebugLocks,
    DebugPids,
    KeepGoing,
    Shuffle,
    /// Applies to the next process only.
    Unlocked,
    /// Applies to the next process only.
    NoOob,
    /// Set once file locking is found unusable.
    LocksBroken,
    Log,
    LogInode,
    Color,
    Pretty,
    /// The identifier of the build run; 0 or absent while none is assigned.
    RunId,
    /// The search path for executables.
    Path,
}

/// How many variables there are.
pub const VAR_COUNT: usize = 22;

impl Var {
    /// The position of a variable among all of them.
    pub open spec fn slot(self) -> int {
        match self {
            Var::Redo => 0,
            Var::Base => 1,
            Var::Pwd => 2,
            Var::StartDir => 3,
            Var::Target => 4,
            Var::Depth => 5,
            Var::Debug => 6,
            Var::Verbose => 7,
            Var::Xtrace => 8,
            Var::DebugLocks => 9,
            Var::DebugPids => 10,
            Var::KeepGoing => 11,
            Var::Shuffle => 12,
            Var::Unlocked => 13,
            Var::NoOob => 14,
            Var::LocksBroken => 15,
            Var::Log => 16,
            Var::LogInode => 17,
            Var::Color => 18,
            Var::Pretty => 19,
            Var::RunId => 20,
            Var::Path => 21,
        }
    }

    /// The position of a variable among all of them.
    pub fn index(self) -> (r: usize)
        ensures
            r == self.slot(),
            r < VAR_COUNT,
    {
        match self {
            Var::Redo => 0,
            Var::Base => 1,
            Var::Pwd => 2,
            Var::StartDir => 3,
            Var::Target => 4,
            Var::Depth => 5,
            Var::Debug => 6,
            Var::Verbose => 7,
            Var::Xtrace => 8,
            Var::DebugLocks => 9,
            Var::DebugPids => 10,
            Var::KeepGoing => 11,
            Var::Shuffle => 12,
            Var::Unlocked => 13,
            Var::NoOob => 14,
            Var::LocksBroken => 15,
            Var::Log => 16,
            Var::LogInode => 17,
            Var::Color => 18,
            Var::Pretty => 19,
            Var::RunId => 20,
            Var::Path => 21,
        }
    }

    /// The name under which the process environment holds the variable.
    pub open spec fn name_spec(self) -> Seq<char> {
        match self {
            Var::Redo => ENV_REDO@,
            Var::Base => ENV_BASE@,
            Var::Pwd => ENV_PWD@,
            Var::StartDir => ENV_STARTDIR@,
            Var::Target => ENV_TARGET@,
            Var::Depth => ENV_DEPTH@,
            Var::Debug => ENV_DEBUG@,
            Var::Verbose => ENV_VERBOSE@,
            Var::Xtrace => ENV_XTRACE@,
            Var::DebugLocks => ENV_DEBUG_LOCKS@,
            Var::DebugPids => ENV_DEBUG_PIDS@,
            Var::KeepGoing => ENV_KEEP_GOING@,
            Var::Shuffle => ENV_SHUFFLE@,
            Var::Unlocked => ENV_UNLOCKED@,
            Var::NoOob => ENV_NO_OOB@,
            Var::LocksBroken => ENV_LOCKS_BROKEN@,
            Var::Log => ENV_LOG@,
            Var::LogInode => ENV_LOG_INODE@,
            Var::Color => ENV_COLOR@,
            Var::Pretty => ENV_PRETTY@,
            Var::RunId => ENV_RUNID@,
            Var::Path => ENV_PATH@,
        }
    }

    /// The name under which the process environment holds the variable.
    pub fn name(self) -> (r: &'static str)
        ensures
            r@ == self.name_spec(),
    {
        match self {
            Var::Redo => ENV_REDO,
            Var::Base => ENV_BASE,
            Var::Pwd => ENV_PWD,
            Var::StartDir => ENV_STARTDIR,
            Var::Target => ENV_TARGET,
            Var::Depth => ENV_DEPTH,
            Var::Debug => ENV_DEBUG,
            Var::Verbose => ENV_VERBOSE,
            Var::Xtrace => ENV_XTRACE,
            Var::DebugLocks => ENV_DEBUG_LOCKS,
            Var::DebugPids => ENV_DEBUG_PIDS,
            Var::KeepGoing => ENV_KEEP_GOING,
            Var::Shuffle => ENV_SHUFFLE,
            Var::Unlocked => ENV_UNLOCKED,
            Var::NoOob => ENV_NO_OOB,
            Var::LocksBroken => ENV_LOCKS_BROKEN,
            Var::Log => ENV_LOG,
            Var::LogInode => ENV_LOG_INODE,
            Var::Color => ENV_COLOR,
            Var::Pretty => ENV_PRETTY,
            Var::RunId => ENV_RUNID,
            Var::Path => ENV_PATH,
        }
    }

    /// Every variable, in the order of their positions.
    pub fn all() -> (r: Vec<Var>)
        ensures
            r.len() == VAR_COUNT,
            forall|i: int| 0 <= i < r.len() ==> (#[trigger] r[i]).slot() == i,
    {
        vec![
            Var::Redo,
            Var::Base,
            Var::Pwd,
            Var::StartDir,
            Var::Target,
            Var::Depth,
            Var::Debug,
            Var::Verbose,
            Var::Xtrace,
            Var::DebugLocks,
            Var::DebugPids,
            Var::KeepGoing,
            Var::Shuffle,
            Var::Unlocked,
            Var::NoOob,
            Var::LocksBroken,
            Var::Log,
            Var::LogInode,
            Var::Color,
            Var::Pretty,
            Var::RunId,
            Var::Path,
        ]
    }
}

/// The values of the session's variables as one process holds them: what it
/// was started with, and what it will hand to the processes it starts.
///
/// Its view maps each variable that is set to its value.
#[derive(Debug)]
pub struct Environ {
    slots: Vec<Option<String>>,
}

impl View for Environ {
    type V = Map<Var, Seq<char>>;

    closed spec fn view(&self) -> Map<Var, Seq<char>> {
        Map::new(
            |v: Var| self.slots@[v.slot()] is Some,
            |v: Var| self.slots@[v.slot()]->0@,
        )
    }
}

impl Environ {
    #[verifier::type_invariant]
    spec fn well_formed(&self) -> bool {
        self.slots@.len() == VAR_COUNT
    }

    /// An environment in which no variable is set.
    pub fn new() -> (r: Environ)
        ensures
            r@ == Map::<Var, Seq<char>>::empty(),
    {
        let mut slots: Vec<Option<String>> = Vec::new();
        let mut i: usize = 0;
        while i < VAR_COUNT
            invariant
                i <= VAR_COUNT,
                slots@.len() == i,
                forall|j: int| 0 <= j < i ==> slots@[j] is None,
            decreases VAR_COUNT - i,
        {
            slots.push(None);
            i = i + 1;
        }
        let r = Environ { slots };
        assert(r@ =~= Map::<Var, Seq<char>>::empty());
        r
    }

    /// The value of a variable, if it is set.
    pub fn get(&self, var: Var) -> (r: Option<&String>)
        ensures
            r is Some <==> self@.contains_key(var),
            r is Some ==> r->0@ == self@[var],
    {
        proof {
            use_type_invariant(self);
        }
        self.slots[var.index()].as_ref()
    }

    /// Sets a variable.
    pub fn set(&mut self, var: Var, value: String)
        ensures
            final(self)@ == old(self)@.insert(var, value@),
    {
        proof {
            use_type_invariant(&*self);
        }
        let i = var.index();
        self.slots[i] = Some(value);
        assert(self@ =~= old(self)@.insert(var, value@)) by {
            assert forall|v: Var| v.slot() == var.slot() implies v == var by {}
        }
    }
}

impl Clone for Environ {
    fn clone(&self) -> (r: Environ)
        ensures
            r@ == self@,
    {
        proof {
            use_type_invariant(self);
        }
        let mut slots: Vec<Option<String>> = Vec::new();
        let mut i: usize = 0;
        while i < VAR_COUNT
            invariant
                i <= VAR_COUNT,
                self.slots@.len() == VAR_COUNT,
                slots@.len() == i,
                forall|j: int| 0 <= j < i ==> slots@[j] == self.slots@[j],
            decreases VAR_COUNT - i,
        {
            let copy = match &self.slots[i] {
                Some(s) => Some(s.clone()),
                None => None,
            };
            slots.push(copy);
            i = i + 1;
        }
        let r = Environ { slots };
        assert(r@ =~= self@);
        r
    }
}

} // verus!
