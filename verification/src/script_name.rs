//! The name of the file that the script is written to, one for each
//! invocation.

use vstd::prelude::*;

verus! {

/// The character of a decimal digit.
pub open spec fn digit(d: int) -> char {
    if d == 0 {
        '0'
    } else if d == 1 {
        '1'
    } else if d == 2 {
        '2'
    } else if d == 3 {
        '3'
    } else if d == 4 {
        '4'
    } else if d == 5 {
        '5'
    } else if d == 6 {
        '6'
    } else if d == 7 {
        '7'
    } else if d == 8 {
        '8'
    } else {
        '9'
    }
}

/// A number in decimal digits, with no zero in front.
pub open spec fn decimal(n: nat) -> Seq<char>
    decreases n,
{
    if n < 10 {
        seq![digit(n as int)]
    } else {
        decimal(n / 10).push(digit((n % 10) as int))
    }
}

/// How many invocations of one process get stamps of their own before the
/// stamps come round again.
pub const TURNS: u64 = 1_000_000;

/// The stamp of an invocation: the turns of a process follow one another,
/// and those of another process lie elsewhere.
pub open spec fn stamp_of(process: u32, turn: u64) -> nat {
    (process * TURNS + turn % TURNS) as nat
}

/// The stamp of the invocation that is the `turn`-th of the process
/// `process`.
pub fn invocation_stamp(process: u32, turn: u64) -> (stamp: u64)
    ensures
        stamp == stamp_of(process, turn),
{
    let base: u64 = process as u64 * TURNS;
    base + turn % TURNS
}

/// Two invocations have the same stamp only where they are of the same
/// process and their turns lie a whole round apart.
pub proof fn lemma_stamps_distinct(process: u32, turn: u64, other_process: u32, other_turn: u64)
    requires
        stamp_of(process, turn) == stamp_of(other_process, other_turn),
    ensures
        process == other_process,
        turn % TURNS == other_turn % TURNS,
{
}

/// The name of the script's file for one invocation: the stamp keeps the
/// files of invocations that run side by side apart.
pub open spec fn script_name(stamp: nat) -> Seq<char> {
    "rebond_fetch_config_"@ + decimal(stamp) + ".py"@
}

fn digit_char(d: u64) -> (c: char)
    requires
        d < 10,
    ensures
        c == digit(d as int),
{
    if d == 0 {
        '0'
    } else if d == 1 {
        '1'
    } else if d == 2 {
        '2'
    } else if d == 3 {
        '3'
    } else if d == 4 {
        '4'
    } else if d == 5 {
        '5'
    } else if d == 6 {
        '6'
    } else if d == 7 {
        '7'
    } else if d == 8 {
        '8'
    } else {
        '9'
    }
}

/// Adds the decimal digits of `n` to `out`.
fn push_decimal(out: &mut String, n: u64)
    ensures
        final(out)@ == old(out)@ + decimal(n as nat),
    decreases n,
{
    if n >= 10 {
        push_decimal(out, n / 10);
    }
    out.push(digit_char(n % 10));
    assert(final(out)@ =~= old(out)@ + decimal(n as nat));
}

/// The name of the script's file for the invocation with the given stamp:
/// `rebond_fetch_config_`, the stamp in decimal digits, and `.py`.
pub fn script_file_name(stamp: u64) -> (name: String)
    ensures
        name@ == script_name(stamp as nat),
{
    let mut name = String::from_str("rebond_fetch_config_");
    push_decimal(&mut name, stamp);
    name.append(".py");
    name
}

/// Numbers with the same digits are the same number.
pub proof fn lemma_decimal_distinct(a: nat, b: nat)
    requires
        decimal(a) == decimal(b),
    ensures
        a == b,
    decreases a,
{
    if a < 10 {
        assert(decimal(a).len() == 1);
        if b >= 10 {
            lemma_decimal_not_empty(b / 10);
            assert(decimal(b).len() == decimal(b / 10).len() + 1);
        } else {
            assert(decimal(a)[0] == digit(a as int));
            assert(decimal(b)[0] == digit(b as int));
        }
    } else {
        if b < 10 {
            lemma_decimal_not_empty(a / 10);
            assert(decimal(a).len() == decimal(a / 10).len() + 1);
            assert(decimal(b).len() == 1);
        } else {
            let da = decimal(a / 10);
            let db = decimal(b / 10);
            let la = digit((a % 10) as int);
            let lb = digit((b % 10) as int);
            assert(da.push(la).drop_last() =~= da);
            assert(db.push(lb).drop_last() =~= db);
            assert(da.push(la).last() == la);
            assert(db.push(lb).last() == lb);
            assert(decimal(a) == da.push(la));
            assert(decimal(b) == db.push(lb));
            assert(da == db);
            assert(la == lb);
            lemma_decimal_distinct(a / 10, b / 10);
            assert(a % 10 == b % 10);
            assert(a == 10 * (a / 10) + a % 10);
            assert(b == 10 * (b / 10) + b % 10);
        }
    }
}

/// Every number has a digit.
pub proof fn lemma_decimal_not_empty(n: nat)
    ensures
        decimal(n).len() >= 1,
    decreases n,
{
    if n >= 10 {
        lemma_decimal_not_empty(n / 10);
    }
}

/// Invocations with different stamps get files of different names.
pub proof fn lemma_script_names_distinct(a: nat, b: nat)
    requires
        script_name(a) == script_name(b),
    ensures
        a == b,
{
    let head = "rebond_fetch_config_"@;
    let tail = ".py"@;
    let na = script_name(a);
    let nb = script_name(b);
    assert(na.len() == head.len() + decimal(a).len() + tail.len());
    assert(nb.len() == head.len() + decimal(b).len() + tail.len());
    let at = head.len() as int;
    assert(na.subrange(at, at + decimal(a).len()) =~= decimal(a));
    assert(nb.subrange(at, at + decimal(b).len()) =~= decimal(b));
    lemma_decimal_distinct(a, b);
}

} // verus!
