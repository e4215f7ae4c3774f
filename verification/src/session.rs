//! The session: what one process knows of the build it takes part in,
//! decoded from the variables it was started with.

use vstd::prelude::*;
use vstd::string::StringExecFns;
use crate::bootstrap::{links_used, make_search_path, needs_links_dir, search_candidates, search_dirs, search_path, unique_dirs};
use crate::codec::{flag_of, get_bool, get_int, get_level, get_str, get_tristate, int_of, is_indent, low_bits, only_spaces, text_of, tri_level};
use crate::decimal::{all_digits, decimal_text, digits_value, format_i64, i64_value, lemma_text_round_trip, unsigned_part};
use crate::environ::{Environ, Var};
use crate::error::{RedoError, RedoErrorView, TargetOrigin};
use crate::paths::{is_absolute, is_rooted, texts};
use crate::resolver::{ancestors, any_marked, common_base, find_common_base, lemma_resolved_base, nearest_marked, resolve_base, resolved_base};
use crate::tristate::OptionalBool;

verus! {

/// What stands in for the executable's path and for the project root in a
/// session that keeps no build state.
pub const NOT_DEFINED: &'static str = "NOT_DEFINED";

/// What a process found out about its surroundings before it set up its
/// session. Only the first process of a tree needs the executable; only a
/// process that has to find the project root needs the working directory
/// and the markers.
#[derive(Clone, Debug)]
pub struct Host {
    /// The path of the running executable.
    pub exe: String,
    /// The same path with every symbolic link resolved.
    pub exe_real: String,
    /// Whether the sentinel exists in each directory in which the helper
    /// commands may be installed, in the order of those directories.
    pub sentinels: Vec<bool>,
    /// The directory of links to the executable that the process made, if
    /// it made one.
    pub links_dir: Option<String>,
    /// The working directory.
    pub cwd: String,
    /// Whether the marker exists in the common ancestor of what is built
    /// and in each directory above it, nearest first.
    pub markers: Vec<bool>,
}

/// A [`Host`] with its texts as sequences of characters.
pub ghost struct HostView {
    pub exe: Seq<char>,
    pub exe_real: Seq<char>,
    pub sentinels: Seq<bool>,
    pub links_dir: Option<Seq<char>>,
    pub cwd: Seq<char>,
    pub markers: Seq<bool>,
}

impl View for Host {
    type V = HostView;

    open spec fn view(&self) -> HostView {
        HostView {
            exe: self.exe@,
            exe_real: self.exe_real@,
            sentinels: self.sentinels@,
            links_dir: match self.links_dir {
                Some(d) => Some(d@),
                None => None,
            },
            cwd: self.cwd@,
            markers: self.markers@,
        }
    }
}

/// The settings of one process of a build.
#[derive(Debug)]
#[non_exhaustive]
pub struct Env {
    is_toplevel: bool,
    base: String,
    pwd: String,
    target: String,
    depth: String,
    debug: i32,
    debug_locks: bool,
    debug_pids: bool,
    locks_broken: bool,
    verbose: i32,
    xtrace: i32,
    keep_going: bool,
    log: i32,
    log_inode: String,
    color: i32,
    pretty: i32,
    shuffle: bool,
    startdir: String,
    runid: Option<i64>,
    unlocked: bool,
    no_oob: bool,
    redo_links_dir: Option<String>,
}

/// An [`Env`] with its texts as sequences of characters.
pub ghost struct EnvView {
    /// Whether this process is the first of its tree.
    pub is_toplevel: bool,
    /// The project root.
    pub base: Seq<char>,
    pub pwd: Seq<char>,
    /// The target that this process builds, a relative path.
    pub target: Seq<char>,
    /// The indentation of log lines: spaces only.
    pub depth: Seq<char>,
    pub debug: i32,
    pub debug_locks: bool,
    pub debug_pids: bool,
    pub locks_broken: bool,
    pub verbose: i32,
    pub xtrace: i32,
    pub keep_going: bool,
    pub log: i32,
    pub log_inode: Seq<char>,
    pub color: i32,
    pub pretty: i32,
    pub shuffle: bool,
    /// The working directory of the first process of the tree.
    pub startdir: Seq<char>,
    /// The identifier of the build run, once one is assigned.
    pub runid: Option<i64>,
    pub unlocked: bool,
    pub no_oob: bool,
    /// The directory of links that this session owns.
    pub redo_links_dir: Option<Seq<char>>,
}

impl View for Env {
    type V = EnvView;

    closed spec fn view(&self) -> EnvView {
        EnvView {
            is_toplevel: self.is_toplevel,
            base: self.base@,
            pwd: self.pwd@,
            target: self.target@,
            depth: self.depth@,
            debug: self.debug,
            debug_locks: self.debug_locks,
            debug_pids: self.debug_pids,
            locks_broken: self.locks_broken,
            verbose: self.verbose,
            xtrace: self.xtrace,
            keep_going: self.keep_going,
            log: self.log,
            log_inode: self.log_inode@,
            color: self.color,
            pretty: self.pretty,
            shuffle: self.shuffle,
            startdir: self.startdir@,
            runid: self.runid,
            unlocked: self.unlocked,
            no_oob: self.no_oob,
            redo_links_dir: match self.redo_links_dir {
                Some(d) => Some(d@),
                None => None,
            },
        }
    }
}

impl EnvView {
    /// What holds of every session: the target is a relative path, the
    /// indentation is all spaces, and only the first process of a tree owns
    /// a directory of links.
    pub open spec fn well_formed(self) -> bool {
        &&& !is_rooted(self.target)
        &&& only_spaces(self.depth)
        &&& self.redo_links_dir is Some ==> self.is_toplevel
    }
}

impl Clone for Env {
    fn clone(&self) -> (r: Env)
        ensures
            r@ == self@,
    {
        proof {
            use_type_invariant(self);
        }
        Env {
            is_toplevel: self.is_toplevel,
            base: self.base.clone(),
            pwd: self.pwd.clone(),
            target: self.target.clone(),
            depth: self.depth.clone(),
            debug: self.debug,
            debug_locks: self.debug_locks,
            debug_pids: self.debug_pids,
            locks_broken: self.locks_broken,
            verbose: self.verbose,
            xtrace: self.xtrace,
            keep_going: self.keep_going,
            log: self.log,
            log_inode: self.log_inode.clone(),
            color: self.color,
            pretty: self.pretty,
            shuffle: self.shuffle,
            startdir: self.startdir.clone(),
            runid: self.runid,
            unlocked: self.unlocked,
            no_oob: self.no_oob,
            redo_links_dir: match &self.redo_links_dir {
                Some(d) => Some(d.clone()),
                None => None,
            },
        }
    }
}

/// The run identifier that the variables hold: none where they hold 0, no
/// integer, or nothing.
pub open spec fn runid_of(vars: Map<Var, Seq<char>>) -> Option<i64> {
    if int_of(vars, Var::RunId, 0) == 0 {
        None
    } else {
        Some(int_of(vars, Var::RunId, 0))
    }
}

/// The settings that the variables hold, for a process that is not the
/// first of its tree and owns no directory of links.
pub open spec fn decoded(vars: Map<Var, Seq<char>>) -> EnvView {
    EnvView {
        is_toplevel: false,
        base: text_of(vars, Var::Base),
        pwd: text_of(vars, Var::Pwd),
        target: text_of(vars, Var::Target),
        depth: text_of(vars, Var::Depth),
        debug: low_bits(int_of(vars, Var::Debug, 0)),
        debug_locks: flag_of(vars, Var::DebugLocks),
        debug_pids: flag_of(vars, Var::DebugPids),
        locks_broken: flag_of(vars, Var::LocksBroken),
        verbose: low_bits(int_of(vars, Var::Verbose, 0)),
        xtrace: low_bits(int_of(vars, Var::Xtrace, 0)),
        keep_going: flag_of(vars, Var::KeepGoing),
        log: tri_level(int_of(vars, Var::Log, 1)),
        log_inode: text_of(vars, Var::LogInode),
        color: tri_level(int_of(vars, Var::Color, 0)),
        pretty: tri_level(int_of(vars, Var::Pretty, 0)),
        shuffle: flag_of(vars, Var::Shuffle),
        startdir: text_of(vars, Var::StartDir),
        runid: runid_of(vars),
        unlocked: flag_of(vars, Var::Unlocked),
        no_oob: flag_of(vars, Var::NoOob),
        redo_links_dir: None,
    }
}

/// What decoding the variables gives: the settings, or the first of these
/// that applies: no tree to belong to, a target that starts at the root,
/// an indentation that is not all spaces.
pub open spec fn inherited(vars: Map<Var, Seq<char>>) -> Result<EnvView, RedoErrorView> {
    if !flag_of(vars, Var::Redo) {
        Err(RedoErrorView::Usage)
    } else if is_rooted(text_of(vars, Var::Target)) {
        Err(RedoErrorView::InvalidTarget(text_of(vars, Var::Target), TargetOrigin::HandedDown))
    } else if !only_spaces(text_of(vars, Var::Depth)) {
        Err(RedoErrorView::MalformedDepth(text_of(vars, Var::Depth)))
    } else {
        Ok(decoded(vars))
    }
}

/// The variables as the next process gets them: the two flags that apply
/// to one process only are emptied.
pub open spec fn handed_down(vars: Map<Var, Seq<char>>) -> Map<Var, Seq<char>> {
    vars.insert(Var::Unlocked, Seq::<char>::empty()).insert(Var::NoOob, Seq::<char>::empty())
}

/// The variables once a session without build state is entered: the tree
/// and the project root each get a placeholder where they are not set.
pub open spec fn entered(vars: Map<Var, Seq<char>>) -> Map<Var, Seq<char>> {
    let marked = if flag_of(vars, Var::Redo) {
        vars
    } else {
        vars.insert(Var::Redo, NOT_DEFINED@)
    };
    if flag_of(marked, Var::Base) {
        marked
    } else {
        marked.insert(Var::Base, NOT_DEFINED@)
    }
}

/// The variables once the tree is set up: where the process is the first
/// of its tree, the search path starts with the directories of the helper
/// commands and the tree is marked with the executable's path.
pub open spec fn rooted(vars: Map<Var, Seq<char>>, host: HostView) -> Map<Var, Seq<char>> {
    if flag_of(vars, Var::Redo) {
        vars
    } else {
        vars.insert(
            Var::Path,
            search_path(
                search_dirs(host.exe, host.exe_real, host.sentinels, host.links_dir),
                text_of(vars, Var::Path),
            ),
        ).insert(Var::Redo, host.exe)
    }
}

/// The variables once the project root is known: where it was not set, it
/// is resolved from the targets and set together with the directory that
/// the process started in.
pub open spec fn based(vars: Map<Var, Seq<char>>, targets: Seq<Seq<char>>, host: HostView) -> Result<
    Map<Var, Seq<char>>,
    RedoErrorView,
> {
    if flag_of(vars, Var::Base) {
        Ok(vars)
    } else {
        match common_base(targets, host.cwd) {
            Ok(b) => Ok(
                vars.insert(Var::Base, resolved_base(b, host.markers)).insert(
                    Var::StartDir,
                    host.cwd,
                ),
            ),
            Err(e) => Err(e),
        }
    }
}

/// Whether a session can still take a run identifier: it has none.
pub open spec fn can_fill(env: EnvView) -> bool {
    env.runid is None
}

/// The settings once the run identifier is assigned.
pub open spec fn filled(env: EnvView, runid: i64) -> EnvView {
    EnvView { runid: Some(runid), ..env }
}

/// The settings once file locking is found unusable.
pub open spec fn broken(env: EnvView) -> EnvView {
    EnvView { locks_broken: true, log: 0, ..env }
}

/// The variables once file locking is found unusable.
pub open spec fn broken_vars(vars: Map<Var, Seq<char>>) -> Map<Var, Seq<char>> {
    vars.insert(Var::LocksBroken, seq!['1']).insert(Var::Log, seq!['0'])
}

impl Env {
    #[verifier::type_invariant]
    spec fn valid(&self) -> bool {
        self@.well_formed()
    }

    /// Starts a session, if none is running, for a command that needs the
    /// build state.
    ///
    /// The first process of a tree puts the directories of the helper
    /// commands at the front of the search path, behind them the directory
    /// of links where no sentinel was found and one was made, and marks the
    /// tree. A process that finds no project root set resolves it from
    /// `targets`.
    /// The settings are then decoded from the variables; the session is
    /// the first of its tree exactly where the tree was not marked, and
    /// only then owns the directory of links.
    pub fn init(vars: &mut Environ, targets: &Vec<String>, host: &Host) -> (r: Result<
        Env,
        RedoError,
    >)
        ensures
            match based(rooted(old(vars)@, host@), texts(targets@), host@) {
                Err(e) => r matches Err(x) && x@ == e && final(vars)@ == rooted(old(vars)@, host@),
                Ok(set) => match inherited(set) {
                    Err(e) => r matches Err(x) && x@ == e && final(vars)@ == set,
                    Ok(v) => r matches Ok(env) && final(vars)@ == handed_down(set) && env@
                        == (EnvView {
                        is_toplevel: !flag_of(old(vars)@, Var::Redo),
                        redo_links_dir: if flag_of(old(vars)@, Var::Redo) {
                            None
                        } else {
                            links_used(host@.sentinels, host@.links_dir)
                        },
                        ..v
                    }),
                },
            },
            r matches Ok(env) ==> env@.well_formed() && env@.is_toplevel == !flag_of(
                old(vars)@,
                Var::Redo,
            ),
            flag_of(old(vars)@, Var::Base) ==> text_of(final(vars)@, Var::Base) == text_of(
                old(vars)@,
                Var::Base,
            ) && text_of(final(vars)@, Var::StartDir) == text_of(old(vars)@, Var::StartDir),
            flag_of(old(vars)@, Var::Redo) ==> text_of(final(vars)@, Var::Redo) == text_of(
                old(vars)@,
                Var::Redo,
            ) && text_of(final(vars)@, Var::Path) == text_of(old(vars)@, Var::Path),
            r is Ok ==> flag_of(final(vars)@, Var::Redo) && !flag_of(final(vars)@, Var::Unlocked)
                && !flag_of(final(vars)@, Var::NoOob),
    {
        let is_toplevel = !get_bool(vars, Var::Redo);
        let mut redo_links_dir: Option<String> = None;
        if is_toplevel {
            let try_names = search_candidates(host.exe.as_str(), host.exe_real.as_str());
            let mut dirs = unique_dirs(&try_names);
            if needs_links_dir(&host.sentinels) {
                match &host.links_dir {
                    Some(d) => {
                        let ghost before = texts(dirs@);
                        dirs.push(d.clone());
                        assert(texts(dirs@) =~= before.push(d@));
                        redo_links_dir = Some(d.clone());
                    },
                    None => {},
                }
            }
            let old_path = get_str(vars, Var::Path);
            let new_path = make_search_path(&dirs, old_path.as_str());
            vars.set(Var::Path, new_path);
            vars.set(Var::Redo, host.exe.clone());
        }
        assert(vars@ == rooted(old(vars)@, host@));
        if !get_bool(vars, Var::Base) {
            let orig_base = match find_common_base(targets, host.cwd.as_str()) {
                Ok(b) => b,
                Err(e) => {
                    return Err(e);
                },
            };
            let base = resolve_base(orig_base.as_str(), &host.markers);
            vars.set(Var::Base, base);
            vars.set(Var::StartDir, host.cwd.clone());
        }
        match Env::inherit(vars) {
            Ok(v) => {
                let mut env = v;
                proof {
                    use_type_invariant(&env);
                }
                env.is_toplevel = is_toplevel;
                env.redo_links_dir = redo_links_dir;
                Ok(env)
            },
            Err(e) => Err(e),
        }
    }

    /// Starts a session, if none is running, for a command that needs no
    /// build state: the tree and the project root get a placeholder where
    /// they are not set, and the settings are decoded. The session is the
    /// first of its tree exactly where the tree was not marked.
    pub fn init_no_state(vars: &mut Environ) -> (r: Result<Env, RedoError>)
        ensures
            match inherited(entered(old(vars)@)) {
                Err(e) => r matches Err(x) && x@ == e && final(vars)@ == entered(old(vars)@),
                Ok(v) => r matches Ok(env) && final(vars)@ == handed_down(entered(old(vars)@))
                    && env@ == (EnvView { is_toplevel: !flag_of(old(vars)@, Var::Redo), ..v }),
            },
            r matches Ok(env) ==> env@.well_formed() && env@.is_toplevel == !flag_of(
                old(vars)@,
                Var::Redo,
            ),
            flag_of(old(vars)@, Var::Base) ==> text_of(final(vars)@, Var::Base) == text_of(
                old(vars)@,
                Var::Base,
            ),
            flag_of(old(vars)@, Var::Redo) ==> text_of(final(vars)@, Var::Redo) == text_of(
                old(vars)@,
                Var::Redo,
            ),
            r is Ok ==> flag_of(final(vars)@, Var::Redo) && !flag_of(final(vars)@, Var::Unlocked)
                && !flag_of(final(vars)@, Var::NoOob),
    {
        let mut is_toplevel = false;
        if !get_bool(vars, Var::Redo) {
            vars.set(Var::Redo, String::from_str(NOT_DEFINED));
            is_toplevel = true;
        }
        if !get_bool(vars, Var::Base) {
            vars.set(Var::Base, String::from_str(NOT_DEFINED));
        }
        match Env::inherit(vars) {
            Ok(v) => {
                let mut env = v;
                proof {
                    use_type_invariant(&env);
                }
                env.is_toplevel = is_toplevel;
                Ok(env)
            },
            Err(e) => Err(e),
        }
    }

    /// Decodes the settings from variables that are already set.
    ///
    /// Fails, and leaves the variables as they are, where the tree is not
    /// marked, where the target starts at the root, or where the
    /// indentation holds anything but spaces. On success the two flags
    /// that apply to one process only are emptied in the variables.
    pub fn inherit(vars: &mut Environ) -> (r: Result<Env, RedoError>)
        ensures
            match inherited(old(vars)@) {
                Err(e) => r matches Err(x) && x@ == e && final(vars)@ == old(vars)@,
                Ok(v) => r matches Ok(env) && env@ == v && final(vars)@ == handed_down(
                    old(vars)@,
                ),
            },
            !flag_of(old(vars)@, Var::Redo) ==> (r matches Err(x) && x@ == RedoErrorView::Usage),
            r is Err ==> final(vars)@ == old(vars)@,
            r matches Ok(env) ==> env@.well_formed() && !env@.is_toplevel && env@.depth == text_of(
                old(vars)@,
                Var::Depth,
            ),
            flag_of(old(vars)@, Var::Redo) && !is_rooted(text_of(old(vars)@, Var::Target)) ==> (r is Ok
                <==> only_spaces(text_of(old(vars)@, Var::Depth))),
            r is Ok ==> flag_of(final(vars)@, Var::Redo) && !flag_of(final(vars)@, Var::Unlocked)
                && !flag_of(final(vars)@, Var::NoOob),
    {
        if !get_bool(vars, Var::Redo) {
            return Err(RedoError::Usage);
        }
        let target = get_str(vars, Var::Target);
        if is_absolute(target.as_str()) {
            return Err(RedoError::InvalidTarget(target, TargetOrigin::HandedDown));
        }
        let depth = get_str(vars, Var::Depth);
        if !is_indent(depth.as_str()) {
            return Err(RedoError::MalformedDepth(depth));
        }
        let runid = get_int(vars, Var::RunId, 0);
        let v = Env {
            is_toplevel: false,
            base: get_str(vars, Var::Base),
            pwd: get_str(vars, Var::Pwd),
            target,
            depth,
            debug: get_level(vars, Var::Debug, 0),
            debug_locks: get_bool(vars, Var::DebugLocks),
            debug_pids: get_bool(vars, Var::DebugPids),
            locks_broken: get_bool(vars, Var::LocksBroken),
            verbose: get_level(vars, Var::Verbose, 0),
            xtrace: get_level(vars, Var::Xtrace, 0),
            keep_going: get_bool(vars, Var::KeepGoing),
            log: get_tristate(vars, Var::Log, 1),
            log_inode: get_str(vars, Var::LogInode),
            color: get_tristate(vars, Var::Color, 0),
            pretty: get_tristate(vars, Var::Pretty, 0),
            shuffle: get_bool(vars, Var::Shuffle),
            startdir: get_str(vars, Var::StartDir),
            runid: if runid == 0 {
                None
            } else {
                Some(runid)
            },
            unlocked: get_bool(vars, Var::Unlocked),
            no_oob: get_bool(vars, Var::NoOob),
            redo_links_dir: None,
        };
        vars.set(Var::Unlocked, String::new());
        vars.set(Var::NoOob, String::new());
        Ok(v)
    }

    /// Whether this process is the first of its tree.
    #[inline]
    pub fn is_toplevel(&self) -> (r: bool)
        ensures
            r == self@.is_toplevel,
    {
        self.is_toplevel
    }

    /// The directory that contains, or should contain, the build state.
    #[inline]
    pub fn base(&self) -> (r: &str)
        ensures
            r@ == self@.base,
    {
        self.base.as_str()
    }

    /// The working directory handed down to this process.
    #[inline]
    pub fn pwd(&self) -> (r: &str)
        ensures
            r@ == self@.pwd,
    {
        self.pwd.as_str()
    }

    /// The target that this process builds.
    #[inline]
    pub fn target(&self) -> (r: &str)
        ensures
            r@ == self@.target,
            !is_rooted(r@),
    {
        proof {
            use_type_invariant(self);
        }
        self.target.as_str()
    }

    /// The indentation of this process's log lines: spaces only.
    #[inline]
    pub fn depth(&self) -> (r: &str)
        ensures
            r@ == self@.depth,
            only_spaces(r@),
    {
        proof {
            use_type_invariant(self);
        }
        self.depth.as_str()
    }

    /// The level of debugging output.
    #[inline]
    pub fn debug(&self) -> (r: i32)
        ensures
            r == self@.debug,
    {
        self.debug
    }

    /// The level of verbosity.
    #[inline]
    pub fn verbose(&self) -> (r: i32)
        ensures
            r == self@.verbose,
    {
        self.verbose
    }

    /// The level of command tracing.
    #[inline]
    pub fn xtrace(&self) -> (r: i32)
        ensures
            r == self@.xtrace,
    {
        self.xtrace
    }

    /// Whether to print messages about file locking.
    #[inline]
    pub fn debug_locks(&self) -> (r: bool)
        ensures
            r == self@.debug_locks,
    {
        self.debug_locks
    }

    #[inline]
    pub fn set_debug_locks(&mut self, val: bool)
        ensures
            final(self)@ == (EnvView { debug_locks: val, ..old(self)@ }),
    {
        proof {
            use_type_invariant(&*self);
        }
        self.debug_locks = val;
    }

    /// Whether to print process ids as part of log messages.
    #[inline]
    pub fn debug_pids(&self) -> (r: bool)
        ensures
            r == self@.debug_pids,
    {
        self.debug_pids
    }

    #[inline]
    pub fn set_debug_pids(&mut self, val: bool)
        ensures
            final(self)@ == (EnvView { debug_pids: val, ..old(self)@ }),
    {
        proof {
            use_type_invariant(&*self);
        }
        self.debug_pids = val;
    }

    /// Whether file locking was found unusable.
    #[inline]
    pub fn locks_broken(&self) -> (r: bool)
        ensures
            r == self@.locks_broken,
    {
        self.locks_broken
    }

    /// Whether to go on after a target failed.
    #[inline]
    pub fn keep_going(&self) -> (r: bool)
        ensures
            r == self@.keep_going,
    {
        self.keep_going
    }

    /// Whether to build targets in a random order.
    #[inline]
    pub fn shuffle(&self) -> (r: bool)
        ensures
            r == self@.shuffle,
    {
        self.shuffle
    }

    /// Whether output is logged.
    #[inline]
    pub fn log(&self) -> (r: OptionalBool)
        ensures
            r == OptionalBool::of_level(self@.log as int),
    {
        OptionalBool::from_level(self.log)
    }

    /// What ties the log output of the tree's processes together.
    #[inline]
    pub fn log_inode(&self) -> (r: &str)
        ensures
            r@ == self@.log_inode,
    {
        self.log_inode.as_str()
    }

    /// Whether output is coloured.
    #[inline]
    pub fn color(&self) -> (r: OptionalBool)
        ensures
            r == OptionalBool::of_level(self@.color as int),
    {
        OptionalBool::from_level(self.color)
    }

    /// Whether log lines are prettified.
    #[inline]
    pub fn pretty(&self) -> (r: OptionalBool)
        ensures
            r == OptionalBool::of_level(self@.pretty as int),
    {
        OptionalBool::from_level(self.pretty)
    }

    /// The working directory of the first process of the tree.
    #[inline]
    pub fn startdir(&self) -> (r: &str)
        ensures
            r@ == self@.startdir,
    {
        self.startdir.as_str()
    }

    /// The identifier of the build run, once one is assigned.
    #[inline]
    pub fn runid(&self) -> (r: Option<i64>)
        ensures
            r == self@.runid,
    {
        self.runid
    }

    /// Whether this process runs without taking locks.
    #[inline]
    pub fn is_unlocked(&self) -> (r: bool)
        ensures
            r == self@.unlocked,
    {
        self.unlocked
    }

    /// Whether this process skips the check for out-of-band changes.
    #[inline]
    pub fn no_oob(&self) -> (r: bool)
        ensures
            r == self@.no_oob,
    {
        self.no_oob
    }

    /// The directory of links that this session owns, if it owns one.
    #[inline]
    pub fn links_dir(&self) -> (r: Option<&String>)
        ensures
            match r {
                Some(d) => self@.redo_links_dir == Some(d@) && self@.is_toplevel,
                None => self@.redo_links_dir is None,
            },
    {
        proof {
            use_type_invariant(self);
        }
        self.redo_links_dir.as_ref()
    }

    /// If file locking is broken, records it, in the session and in the
    /// variables, and turns logging off, which cannot work without locks.
    pub fn mark_locks_broken(&mut self, vars: &mut Environ)
        ensures
            final(self)@ == broken(old(self)@),
            final(vars)@ == broken_vars(old(vars)@),
    {
        proof {
            use_type_invariant(&*self);
            reveal_strlit("1");
            reveal_strlit("0");
        }
        let one = String::from_str("1");
        let zero = String::from_str("0");
        assert(one@ =~= seq!['1']);
        assert(zero@ =~= seq!['0']);
        vars.set(Var::LocksBroken, one);
        vars.set(Var::Log, zero);
        self.locks_broken = true;
        self.log = 0;
    }

    /// Assigns the identifier of the build run, in the session and in the
    /// variables. A session gets one at most once: the call is open only to
    /// a session that has none, and a session that got one has one for good.
    pub fn fill_runid(&mut self, vars: &mut Environ, runid: i64)
        requires
            can_fill(old(self)@),
        ensures
            final(self)@ == filled(old(self)@, runid),
            !can_fill(final(self)@),
            final(vars)@ == old(vars)@.insert(Var::RunId, decimal_text(runid as int)),
            runid != 0 ==> runid_of(final(vars)@) == Some(runid),
    {
        proof {
            use_type_invariant(&*self);
            lemma_runid_handed_down(vars@, runid);
        }
        self.runid = Some(runid);
        vars.set(Var::RunId, format_i64(runid));
    }
}

/// Finding file locking unusable a second time changes nothing: the session
/// and the variables are as after the first time, with the locks recorded
/// as broken and logging off.
pub proof fn lemma_broken_idempotent(env: EnvView, vars: Map<Var, Seq<char>>)
    ensures
        broken(broken(env)) == broken(env),
        broken_vars(broken_vars(vars)) == broken_vars(vars),
        broken(env).locks_broken,
        OptionalBool::of_level(broken(env).log as int) == OptionalBool::Off,
{
    assert(broken_vars(broken_vars(vars)) =~= broken_vars(vars));
}

/// A process that decodes variables in which locking is recorded as broken
/// finds the locks broken and logging off.
pub proof fn lemma_broken_handed_down(vars: Map<Var, Seq<char>>)
    ensures
        decoded(broken_vars(vars)).locks_broken,
        OptionalBool::of_level(decoded(broken_vars(vars)).log as int) == OptionalBool::Off,
{
    let s = seq!['0'];
    assert(unsigned_part(s) == s);
    assert(s.drop_last() =~= Seq::<char>::empty());
    assert(digits_value(s.drop_last()) == 0);
    assert(digits_value(s) == 0);
    assert(all_digits(s));
    assert(i64_value(s) == Some(0i64));
}

/// Each tri-state setting is decoded from the whole integer that its
/// variable holds: off for 0, automatic for 1, on for every other integer.
/// A variable that is not set or holds no integer counts as 1 for logging
/// and as 0 for colour and prettifying.
pub proof fn lemma_decoded_settings(vars: Map<Var, Seq<char>>)
    ensures
        OptionalBool::of_level(decoded(vars).log as int) == OptionalBool::of_level(
            int_of(vars, Var::Log, 1) as int,
        ),
        OptionalBool::of_level(decoded(vars).color as int) == OptionalBool::of_level(
            int_of(vars, Var::Color, 0) as int,
        ),
        OptionalBool::of_level(decoded(vars).pretty as int) == OptionalBool::of_level(
            int_of(vars, Var::Pretty, 0) as int,
        ),
{
}

/// A run identifier is assigned at most once: a session that was given
/// one, by an assignment or by the variables it was decoded from, cannot be
/// given another, whether the same or a different one.
pub proof fn lemma_runid_once(env: EnvView, vars: Map<Var, Seq<char>>, runid: i64)
    ensures
        !can_fill(filled(env, runid)),
        runid_of(vars) is Some ==> !can_fill(decoded(vars)),
        can_fill(broken(env)) == can_fill(env),
{
}

/// Where no project root is set, the root that `init` sets and the session
/// holds is resolved from the common ancestor of the targets' directories
/// and the working directory: it is that ancestor where no marker was
/// found in it or above it, and the nearest directory upwards whose marker
/// was found otherwise. The session is set up exactly where the tree is
/// marked or the executable has a path, the target handed down is relative
/// and the indentation is all spaces.
pub proof fn lemma_init_base(vars: Map<Var, Seq<char>>, targets: Seq<Seq<char>>, host: HostView)
    ensures
        !flag_of(vars, Var::Base) ==> match common_base(targets, host.cwd) {
            Err(e) => based(rooted(vars, host), targets, host) == Err::<
                Map<Var, Seq<char>>,
                RedoErrorView,
            >(e),
            Ok(base) => {
                let root = resolved_base(base, host.markers);
                &&& !any_marked(host.markers, ancestors(base).len() as int) ==> root == base
                &&& forall|i: int| #[trigger]
                    nearest_marked(host.markers, ancestors(base).len() as int, i) ==> root
                        == ancestors(base)[i]
                &&& based(rooted(vars, host), targets, host) matches Ok(set)
                &&& text_of(set, Var::Base) == root
                &&& text_of(handed_down(set), Var::Base) == root
                &&& text_of(set, Var::StartDir) == host.cwd
                &&& inherited(set) is Ok <==> (flag_of(vars, Var::Redo) || host.exe.len() > 0)
                    && !is_rooted(text_of(vars, Var::Target)) && only_spaces(
                    text_of(vars, Var::Depth),
                )
                &&& inherited(set) matches Ok(v) ==> v.base == root && v.startdir == host.cwd
            },
        },
{
    if !flag_of(vars, Var::Base) {
        match common_base(targets, host.cwd) {
            Ok(base) => {
                lemma_resolved_base(base, host.markers);
            },
            Err(_) => {},
        }
    }
}

/// A run identifier that was written to the variables is the one that a
/// process decoding them finds, but for 0, which stands for none.
pub proof fn lemma_runid_handed_down(vars: Map<Var, Seq<char>>, runid: i64)
    ensures
        runid_of(vars.insert(Var::RunId, decimal_text(runid as int))) == if runid == 0 {
            None
        } else {
            Some(runid)
        },
{
    lemma_text_round_trip(runid as int);
}

/// A session is decoded exactly where the tree is marked, the target is
/// relative and the indentation is all spaces; its indentation is then the
/// one that the variables hold.
pub proof fn lemma_inherited_depth(vars: Map<Var, Seq<char>>)
    ensures
        !flag_of(vars, Var::Redo) ==> inherited(vars) == Err::<EnvView, RedoErrorView>(
            RedoErrorView::Usage,
        ),
        inherited(vars) is Ok <==> flag_of(vars, Var::Redo) && !is_rooted(
            text_of(vars, Var::Target),
        ) && only_spaces(text_of(vars, Var::Depth)),
        inherited(vars) matches Ok(v) ==> v.depth == text_of(vars, Var::Depth),
{
}

/// The next process sees neither of the two flags that apply to one
/// process only, whatever they were.
pub proof fn lemma_handed_down_clears(vars: Map<Var, Seq<char>>)
    ensures
        !flag_of(handed_down(vars), Var::Unlocked),
        !flag_of(handed_down(vars), Var::NoOob),
        forall|v: Var|
            v != Var::Unlocked && v != Var::NoOob ==> text_of(handed_down(vars), v) == text_of(vars, v),
{
}

} // verus!
