//! Integers as the variables hold them: an optional sign and decimal digits.

use vstd::prelude::*;
use vstd::string::StringExecFns;

verus! {

/// Whether `c` is one of the digits `0` to `9`.
pub open spec fn is_digit(c: char) -> bool {
    48 <= c as u32 <= 57
}

/// The number that a digit stands for.
pub open spec fn digit_value(c: char) -> nat {
    (c as u32 - 48) as nat
}

/// Whether every character of `s` is a digit.
pub open spec fn all_digits(s: Seq<char>) -> bool {
    forall|i: int| 0 <= i < s.len() ==> is_digit(#[trigger] s[i])
}

/// The number that a run of digits stands for; 0 for the empty run.
pub open spec fn digits_value(s: Seq<char>) -> nat
    decreases s.len(),
{
    if s.len() == 0 {
        0
    } else {
        digits_value(s.drop_last()) * 10 + digit_value(s.last())
    }
}

/// Whether `s` begins with a sign.
pub open spec fn has_sign(s: Seq<char>) -> bool {
    s.len() > 0 && (s[0] == '-' || s[0] == '+')
}

/// What follows the sign, or all of `s` where it has none.
pub open spec fn unsigned_part(s: Seq<char>) -> Seq<char> {
    if has_sign(s) {
        s.drop_first()
    } else {
        s
    }
}

/// The integer that `s` denotes: an optional `+` or `-`, then at least one
/// digit and nothing else. Any other text denotes none.
pub open spec fn decimal_value(s: Seq<char>) -> Option<int> {
    let body = unsigned_part(s);
    if body.len() == 0 || !all_digits(body) {
        None
    } else if s[0] == '-' {
        Some(-(digits_value(body) as int))
    } else {
        Some(digits_value(body) as int)
    }
}

/// The 64-bit integer that `s` denotes, if it denotes an integer and that
/// integer fits.
pub open spec fn i64_value(s: Seq<char>) -> Option<i64> {
    match decimal_value(s) {
        Some(v) => if i64::MIN <= v <= i64::MAX {
            Some(v as i64)
        } else {
            None
        },
        None => None,
    }
}

/// The digit that stands for `d`, for `d` below 10.
pub open spec fn digit_char(d: nat) -> char {
    (d + 48) as char
}

/// The digits of `n`, without leading zeros.
pub open spec fn digits_text(n: nat) -> Seq<char>
    decreases n,
{
    if n < 10 {
        seq![digit_char(n)]
    } else {
        digits_text(n / 10).push(digit_char(n % 10))
    }
}

/// How `v` is written: its digits, behind a `-` where it is negative.
pub open spec fn decimal_text(v: int) -> Seq<char> {
    if v < 0 {
        seq!['-'] + digits_text((-v) as nat)
    } else {
        digits_text(v as nat)
    }
}

proof fn lemma_value_push(s: Seq<char>, c: char)
    ensures
        digits_value(s.push(c)) == digits_value(s) * 10 + digit_value(c),
        digits_value(s.push(c)) >= digits_value(s),
{
    assert(s.push(c).drop_last() =~= s);
}

proof fn lemma_digits_text(n: nat)
    ensures
        digits_text(n).len() > 0,
        all_digits(digits_text(n)),
        digits_value(digits_text(n)) == n,
    decreases n,
{
    if n < 10 {
        let t = digits_text(n);
        assert(t.drop_last() =~= Seq::<char>::empty());
        assert(digits_value(t.drop_last()) == 0);
    } else {
        lemma_digits_text(n / 10);
        lemma_value_push(digits_text(n / 10), digit_char(n % 10));
    }
}

/// What is written for an integer denotes that integer.
pub proof fn lemma_text_round_trip(v: int)
    ensures
        decimal_value(decimal_text(v)) == Some(v),
{
    if v < 0 {
        let n = (-v) as nat;
        lemma_digits_text(n);
        let t = decimal_text(v);
        assert(t[0] == '-');
        assert(unsigned_part(t) =~= digits_text(n));
    } else {
        let n = v as nat;
        lemma_digits_text(n);
        let t = digits_text(n);
        assert(is_digit(t[0]));
        assert(unsigned_part(t) == t);
    }
}

/// Reads a 64-bit integer: an optional sign, then digits. Text that holds
/// anything else, or a number that does not fit, gives `None`.
pub fn parse_i64(s: &str) -> (r: Option<i64>)
    ensures
        r == i64_value(s@),
{
    let mut first = true;
    let mut signed = false;
    let mut negative = false;
    let mut any = false;
    let mut bad = false;
    let mut over = false;
    let mut acc: u64 = 0;
    for c in it: s.chars()
        invariant
            it.seq() == s@,
            first == (it.index() == 0),
            signed == (it.index() > 0 && has_sign(s@)),
            negative == (it.index() > 0 && s@[0] == '-'),
            any == (it.index() > (if signed { 1int } else { 0int })),
            bad == !all_digits(s@.subrange(if signed { 1int } else { 0int }, it.index() as int)),
            !bad && !over ==> acc == digits_value(
                s@.subrange(if signed { 1int } else { 0int }, it.index() as int),
            ),
            !bad && over ==> digits_value(
                s@.subrange(if signed { 1int } else { 0int }, it.index() as int),
            ) > 0x8000_0000_0000_0000,
            acc <= 0x8000_0000_0000_0000,
    {
        let ghost i = it.index() as int;
        assert(c == s@[i]);
        if first && (c == '-' || c == '+') {
            signed = true;
            negative = c == '-';
            assert(s@.subrange(1, i + 1) =~= Seq::<char>::empty());
        } else {
            let ghost start = if signed { 1int } else { 0int };
            let ghost before = s@.subrange(start, i);
            let ghost after = s@.subrange(start, i + 1);
            assert(after =~= before.push(c));
            proof {
                lemma_value_push(before, c);
            }
            any = true;
            let u: u32 = c as u32;
            if 48 <= u && u <= 57 {
                if bad {
                    assert(!all_digits(after)) by {
                        let j = choose|j: int| 0 <= j < before.len() && !is_digit(#[trigger] before[j]);
                        assert(after[j] == before[j]);
                    }
                } else {
                    assert(all_digits(after)) by {
                        assert forall|j: int| 0 <= j < after.len() implies is_digit(
                            #[trigger] after[j],
                        ) by {
                            if j < before.len() {
                                assert(after[j] == before[j]);
                            }
                        }
                    }
                    if !over {
                        let d: u64 = (u - 48) as u64;
                        if acc > 922337203685477580 {
                            over = true;
                        } else {
                            let next: u64 = acc * 10 + d;
                            if next > 0x8000_0000_0000_0000 {
                                over = true;
                            } else {
                                acc = next;
                            }
                        }
                    }
                }
            } else {
                bad = true;
                assert(!is_digit(after[after.len() - 1]));
            }
        }
        first = false;
    }
    proof {
        let n = s@.len() as int;
        if has_sign(s@) {
            assert(s@.subrange(1, n) =~= s@.drop_first());
        } else {
            assert(s@.subrange(0, n) =~= s@);
        }
    }
    if !any || bad || over {
        None
    } else if negative {
        if acc == 0x8000_0000_0000_0000 {
            Some(i64::MIN)
        } else {
            Some(0 - (acc as i64))
        }
    } else if acc > 0x7fff_ffff_ffff_ffff {
        None
    } else {
        Some(acc as i64)
    }
}

fn digit_str(d: u64) -> (r: &'static str)
    requires
        d < 10,
    ensures
        r@ == seq![digit_char(d as nat)],
{
    proof {
        reveal_strlit("0");
        reveal_strlit("1");
        reveal_strlit("2");
        reveal_strlit("3");
        reveal_strlit("4");
        reveal_strlit("5");
        reveal_strlit("6");
        reveal_strlit("7");
        reveal_strlit("8");
        reveal_strlit("9");
    }
    let r = if d == 0 {
        "0"
    } else if d == 1 {
        "1"
    } else if d == 2 {
        "2"
    } else if d == 3 {
        "3"
    } else if d == 4 {
        "4"
    } else if d == 5 {
        "5"
    } else if d == 6 {
        "6"
    } else if d == 7 {
        "7"
    } else if d == 8 {
        "8"
    } else {
        "9"
    };
    assert(r@ =~= seq![digit_char(d as nat)]);
    r
}

fn push_digits(n: u64, out: &mut String)
    ensures
        final(out)@ == old(out)@ + digits_text(n as nat),
    decreases n,
{
    if n >= 10 {
        push_digits(n / 10, out);
    }
    out.append(digit_str(n % 10));
    assert(out@ =~= old(out)@ + digits_text(n as nat));
}

/// Writes a 64-bit integer in decimal.
pub fn format_i64(v: i64) -> (r: String)
    ensures
        r@ == decimal_text(v as int),
        i64_value(r@) == Some(v),
{
    let mut out = String::new();
    if v < 0 {
        proof {
            reveal_strlit("-");
        }
        out.append("-");
        let magnitude: u64 = if v == i64::MIN {
            0x8000_0000_0000_0000
        } else {
            (0 - v) as u64
        };
        push_digits(magnitude, &mut out);
        assert(out@ =~= decimal_text(v as int));
    } else {
        push_digits(v as u64, &mut out);
        assert(out@ =~= decimal_text(v as int));
    }
    proof {
        lemma_text_round_trip(v as int);
    }
    out
}

} // verus!
