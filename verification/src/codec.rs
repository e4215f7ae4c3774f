//! Reading one variable: as text, as a flag, or as an integer.
//! None of the reads can fail.

use vstd::prelude::*;
use vstd::string::StringExecFns;
use crate::decimal::{i64_value, parse_i64};
use crate::environ::{Environ, Var};
use crate::tristate::OptionalBool;

verus! {

/// The text of a variable; empty where it is not set.
pub open spec fn text_of(vars: Map<Var, Seq<char>>, var: Var) -> Seq<char> {
    if vars.contains_key(var) {
        vars[var]
    } else {
        Seq::<char>::empty()
    }
}

/// Whether a variable is set to something other than the empty text.
pub open spec fn flag_of(vars: Map<Var, Seq<char>>, var: Var) -> bool {
    text_of(vars, var).len() > 0
}

/// The integer that a variable holds; `default` where it is not set or
/// holds no 64-bit integer.
pub open spec fn int_of(vars: Map<Var, Seq<char>>, var: Var, default: i64) -> i64 {
    match i64_value(text_of(vars, var)) {
        Some(x) => x,
        None => default,
    }
}

/// Whether `s` holds nothing but spaces.
pub open spec fn only_spaces(s: Seq<char>) -> bool {
    forall|i: int| 0 <= i < s.len() ==> s[i] == ' '
}

/// The lower 32 bits of `x`, read as a signed integer.
pub open spec fn low_bits(x: i64) -> i32 {
    x as i32
}

/// The level of the tri-state setting that `x` stands for: 0 and 1 as they
/// are, and 2 for every other integer, however large and whatever its sign.
pub open spec fn tri_level(x: i64) -> i32 {
    if x == 0 {
        0
    } else if x == 1 {
        1
    } else {
        2
    }
}

/// The level kept for an integer is the level of the setting that the whole
/// integer stands for, and stands for that setting itself.
pub proof fn lemma_tri_level(x: i64)
    ensures
        tri_level(x) == OptionalBool::of_level(x as int).level(),
        OptionalBool::of_level(tri_level(x) as int) == OptionalBool::of_level(x as int),
        x != 0 && x != 1 ==> OptionalBool::of_level(tri_level(x) as int) == OptionalBool::On,
{
}

/// Reads a variable as text.
pub fn get_str(vars: &Environ, var: Var) -> (r: String)
    ensures
        r@ == text_of(vars@, var),
{
    match vars.get(var) {
        Some(s) => s.clone(),
        None => String::new(),
    }
}

/// Reads a variable as a flag: true where it is set and not empty,
/// whatever it holds.
pub fn get_bool(vars: &Environ, var: Var) -> (r: bool)
    ensures
        r == flag_of(vars@, var),
{
    match vars.get(var) {
        Some(s) => !s.as_str().is_empty(),
        None => false,
    }
}

/// Reads a variable as a 64-bit integer, with `default` for one that is
/// not set or does not hold one.
pub fn get_int(vars: &Environ, var: Var, default: i64) -> (r: i64)
    ensures
        r == int_of(vars@, var, default),
{
    match vars.get(var) {
        Some(s) => match parse_i64(s.as_str()) {
            Some(x) => x,
            None => default,
        },
        None => default,
    }
}

/// Reads a variable as a 32-bit level of verbosity: the lower 32 bits of
/// the integer that it holds.
pub fn get_level(vars: &Environ, var: Var, default: i64) -> (r: i32)
    ensures
        r == low_bits(int_of(vars@, var, default)),
{
    let x = get_int(vars, var, default);
    #[verifier::truncate]
    (x as i32)
}

/// Reads a variable as the level of a tri-state setting. The whole integer
/// that the variable holds decides: 0 is off, 1 is automatic, and every
/// other integer is on.
pub fn get_tristate(vars: &Environ, var: Var, default: i64) -> (r: i32)
    ensures
        r == tri_level(int_of(vars@, var, default)),
        OptionalBool::of_level(r as int) == OptionalBool::of_level(
            int_of(vars@, var, default) as int,
        ),
{
    let x = get_int(vars, var, default);
    if x == 0 {
        0
    } else if x == 1 {
        1
    } else {
        2
    }
}

/// Whether `s` holds nothing but spaces.
pub fn is_indent(s: &str) -> (r: bool)
    ensures
        r == only_spaces(s@),
{
    let mut ok = true;
    for c in it: s.chars()
        invariant
            it.seq() == s@,
            ok == only_spaces(s@.take(it.index() as int)),
    {
        assert(c == s@[it.index() as int]);
        if c != ' ' {
            ok = false;
            assert(s@.take(it.index() + 1)[it.index() as int] == c);
        } else {
            assert(s@.take(it.index() + 1) =~= s@.take(it.index() as int).push(c));
        }
    }
    assert(s@.take(s@.len() as int) =~= s@);
    ok
}

} // verus!
