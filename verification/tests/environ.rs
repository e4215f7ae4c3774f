use redo_env::codec::{get_bool, get_int, get_level, get_str, get_tristate, is_indent};
use redo_env::environ::{Environ, Var, ENV_BASE, ENV_REDO, VAR_COUNT};

fn with(pairs: &[(Var, &str)]) -> Environ {
    let mut vars = Environ::new();
    for (var, value) in pairs {
        vars.set(*var, value.to_string());
    }
    vars
}

#[test]
fn new_environment_holds_nothing() {
    let vars = Environ::new();
    for var in Var::all() {
        assert_eq!(vars.get(var), None);
    }
}

#[test]
fn set_then_get() {
    let mut vars = Environ::new();
    vars.set(Var::Base, "/proj".to_string());
    assert_eq!(vars.get(Var::Base), Some(&"/proj".to_string()));
    assert_eq!(vars.get(Var::Pwd), None);
    vars.set(Var::Base, "/other".to_string());
    assert_eq!(vars.get(Var::Base), Some(&"/other".to_string()));
}

#[test]
fn set_leaves_other_variables() {
    let mut vars = with(&[(Var::Debug, "1"), (Var::Path, "/bin")]);
    vars.set(Var::Verbose, "2".to_string());
    assert_eq!(get_str(&vars, Var::Debug), "1");
    assert_eq!(get_str(&vars, Var::Path), "/bin");
    assert_eq!(get_str(&vars, Var::Verbose), "2");
}

#[test]
fn clone_keeps_values() {
    let vars = with(&[(Var::Target, "a/b"), (Var::Depth, "  ")]);
    let copy = vars.clone();
    for var in Var::all() {
        assert_eq!(copy.get(var), vars.get(var));
    }
}

#[test]
fn variables_have_their_names() {
    assert_eq!(Var::Redo.name(), "REDO");
    assert_eq!(Var::Base.name(), "REDO_BASE");
    assert_eq!(Var::Pwd.name(), "REDO_PWD");
    assert_eq!(Var::StartDir.name(), "REDO_STARTDIR");
    assert_eq!(Var::Target.name(), "REDO_TARGET");
    assert_eq!(Var::Depth.name(), "REDO_DEPTH");
    assert_eq!(Var::Debug.name(), "REDO_DEBUG");
    assert_eq!(Var::Verbose.name(), "REDO_VERBOSE");
    assert_eq!(Var::Xtrace.name(), "REDO_XTRACE");
    assert_eq!(Var::DebugLocks.name(), "REDO_DEBUG_LOCKS");
    assert_eq!(Var::DebugPids.name(), "REDO_DEBUG_PIDS");
    assert_eq!(Var::KeepGoing.name(), "REDO_KEEP_GOING");
    assert_eq!(Var::Shuffle.name(), "REDO_SHUFFLE");
    assert_eq!(Var::Unlocked.name(), "REDO_UNLOCKED");
    assert_eq!(Var::NoOob.name(), "REDO_NO_OOB");
    assert_eq!(Var::LocksBroken.name(), "REDO_LOCKS_BROKEN");
    assert_eq!(Var::Log.name(), "REDO_LOG");
    assert_eq!(Var::LogInode.name(), "REDO_LOG_INODE");
    assert_eq!(Var::Color.name(), "REDO_COLOR");
    assert_eq!(Var::Pretty.name(), "REDO_PRETTY");
    assert_eq!(Var::RunId.name(), "REDO_RUNID");
    assert_eq!(Var::Path.name(), "PATH");
    assert_eq!(ENV_REDO, "REDO");
    assert_eq!(ENV_BASE, "REDO_BASE");
}

#[test]
fn all_lists_each_variable_once() {
    let all = Var::all();
    assert_eq!(all.len(), VAR_COUNT);
    for (i, var) in all.iter().enumerate() {
        assert_eq!(var.index(), i);
    }
    assert_eq!(all[0], Var::Redo);
    assert_eq!(all[21], Var::Path);
}

#[test]
fn text_of_unset_variable_is_empty() {
    let vars = Environ::new();
    assert_eq!(get_str(&vars, Var::LogInode), "");
    let vars = with(&[(Var::LogInode, "12:34")]);
    assert_eq!(get_str(&vars, Var::LogInode), "12:34");
}

#[test]
fn flag_is_set_when_not_empty() {
    let vars = with(&[(Var::Shuffle, "1"), (Var::KeepGoing, ""), (Var::Unlocked, "0"), (Var::NoOob, "no")]);
    assert!(get_bool(&vars, Var::Shuffle));
    assert!(!get_bool(&vars, Var::KeepGoing));
    assert!(get_bool(&vars, Var::Unlocked));
    assert!(get_bool(&vars, Var::NoOob));
    assert!(!get_bool(&vars, Var::DebugLocks));
}

#[test]
fn integer_falls_back_to_default() {
    let vars = with(&[(Var::Debug, "3"), (Var::Verbose, "x"), (Var::Xtrace, ""), (Var::Log, "-2")]);
    assert_eq!(get_int(&vars, Var::Debug, 0), 3);
    assert_eq!(get_int(&vars, Var::Verbose, 5), 5);
    assert_eq!(get_int(&vars, Var::Xtrace, 6), 6);
    assert_eq!(get_int(&vars, Var::Log, 1), -2);
    assert_eq!(get_int(&vars, Var::Color, 9), 9);
}

#[test]
fn level_keeps_the_lower_32_bits() {
    let vars = with(&[
        (Var::Debug, "2"),
        (Var::Verbose, "4294967296"),
        (Var::Xtrace, "4294967297"),
        (Var::Log, "2147483648"),
        (Var::Color, "-1"),
    ]);
    assert_eq!(get_level(&vars, Var::Debug, 0), 2);
    assert_eq!(get_level(&vars, Var::Verbose, 0), 0);
    assert_eq!(get_level(&vars, Var::Xtrace, 0), 1);
    assert_eq!(get_level(&vars, Var::Log, 1), i32::MIN);
    assert_eq!(get_level(&vars, Var::Color, 0), -1);
    assert_eq!(get_level(&vars, Var::Pretty, 1), 1);
}

#[test]
fn tri_state_level_goes_by_the_whole_integer() {
    let vars = with(&[
        (Var::Log, "0"),
        (Var::Color, "1"),
        (Var::Pretty, "2"),
        (Var::Debug, "4294967296"),
        (Var::Verbose, "4294967297"),
        (Var::Xtrace, "-1"),
        (Var::RunId, "9223372036854775807"),
        (Var::Depth, "-9223372036854775808"),
        (Var::Target, "7"),
    ]);
    assert_eq!(get_tristate(&vars, Var::Log, 1), 0);
    assert_eq!(get_tristate(&vars, Var::Color, 0), 1);
    assert_eq!(get_tristate(&vars, Var::Pretty, 0), 2);
    assert_eq!(get_tristate(&vars, Var::Debug, 0), 2);
    assert_eq!(get_tristate(&vars, Var::Verbose, 0), 2);
    assert_eq!(get_tristate(&vars, Var::Xtrace, 0), 2);
    assert_eq!(get_tristate(&vars, Var::RunId, 0), 2);
    assert_eq!(get_tristate(&vars, Var::Depth, 0), 2);
    assert_eq!(get_tristate(&vars, Var::Target, 0), 2);
}

#[test]
fn tri_state_level_falls_back_to_default() {
    let vars = with(&[(Var::Log, "junk"), (Var::Color, ""), (Var::Pretty, "99999999999999999999")]);
    assert_eq!(get_tristate(&vars, Var::Log, 1), 1);
    assert_eq!(get_tristate(&vars, Var::Log, 0), 0);
    assert_eq!(get_tristate(&vars, Var::Color, 0), 0);
    assert_eq!(get_tristate(&vars, Var::Pretty, 1), 1);
    assert_eq!(get_tristate(&vars, Var::KeepGoing, 5), 2);
}

#[test]
fn indent_is_spaces_only() {
    assert!(is_indent(""));
    assert!(is_indent(" "));
    assert!(is_indent("      "));
    assert!(!is_indent("\t"));
    assert!(!is_indent("  x"));
    assert!(!is_indent("x  "));
    assert!(!is_indent(" \u{00a0}"));
}
