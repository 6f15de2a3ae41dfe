//! Idle-command construction. The active profile's three levels are formatted
//! into a single shell invocation of the idle-timeout utility: one
//! `timeout N 'cmd'` clause per enabled level, in level order; a level whose
//! timeout is zero is omitted entirely.

use vstd::prelude::*;
use vstd::string::StringExecFns;
use crate::config::{Level, Levels};

verus! {

/// The decimal digit character for `d` (`d < 10`).
pub open spec fn digit_char(d: nat) -> char {
    if d == 0 {
        '0'
    } else if d == 1 {
        '1'
    } else if d == 2 {
        '2'
    } else if d == 3 {
        '3'
    } else if d == 4 {
        '4'
    } else if d == 5 {
        '5'
    } else if d == 6 {
        '6'
    } else if d == 7 {
        '7'
    } else if d == 8 {
        '8'
    } else {
        '9'
    }
}

/// The decimal digits of `n`, most significant first, with no leading zeros
/// (except for `n == 0`, written as a single `'0'`).
pub open spec fn dec_digits(n: nat) -> Seq<char>
    decreases n,
{
    if n < 10 {
        seq![digit_char(n)]
    } else {
        dec_digits(n / 10) + seq![digit_char(n % 10)]
    }
}

/// The clause a level contributes when enabled:
/// ` timeout <timeout> '<command>'`.
pub open spec fn clause(l: Level) -> Seq<char> {
    " timeout "@ + dec_digits(l.timeout as nat) + " '"@ + l.command@ + "'"@
}

/// What a level contributes to the command line: its clause when its timeout
/// is positive, nothing when the level is disabled.
pub open spec fn enabled_clause(l: Level) -> Seq<char> {
    if l.timeout > 0 {
        clause(l)
    } else {
        Seq::<char>::empty()
    }
}

/// The full idle command line for a profile: the utility name followed by the
/// enabled levels' clauses, in level order.
pub open spec fn command_line(p: Levels) -> Seq<char> {
    "swayidle"@ + enabled_clause(p.level1) + enabled_clause(p.level2) + enabled_clause(p.level3)
}

/// The single-character string for digit `d`.
fn digit_str(d: u64) -> (r: &'static str)
    requires
        d < 10,
    ensures
        r@ == seq![digit_char(d as nat)],
{
    let r: &'static str = if d == 0 {
        "0"
    } else if d == 1 {
        "1"
    } else if d == 2 {
        "2"
    } else if d == 3 {
        "3"
    } else if d == 4 {
        "4"
    } else if d == 5 {
        "5"
    } else if d == 6 {
        "6"
    } else if d == 7 {
        "7"
    } else if d == 8 {
        "8"
    } else {
        "9"
    };
    proof {
        reveal_strlit("0");
        reveal_strlit("1");
        reveal_strlit("2");
        reveal_strlit("3");
        reveal_strlit("4");
        reveal_strlit("5");
        reveal_strlit("6");
        reveal_strlit("7");
        reveal_strlit("8");
        reveal_strlit("9");
        assert(r@ =~= seq![digit_char(d as nat)]);
    }
    r
}

/// `n` written in decimal.
pub fn u64_to_dec(n: u64) -> (r: String)
    ensures
        r@ == dec_digits(n as nat),
    decreases n,
{
    if n < 10 {
        String::from_str(digit_str(n))
    } else {
        let mut prefix = u64_to_dec(n / 10);
        prefix.append(digit_str(n % 10));
        proof {
            assert(prefix@ =~= dec_digits(n as nat));
        }
        prefix
    }
}

/// Appends to `cmd` what level `l` contributes: its ` timeout N 'cmd'` clause
/// when enabled, nothing when its timeout is zero.
fn append_clause(cmd: &mut String, l: &Level)
    ensures
        final(cmd)@ == old(cmd)@ + enabled_clause(*l),
{
    if l.timeout > 0 {
        cmd.append(" timeout ");
        let t = u64_to_dec(l.timeout);
        cmd.append(t.as_str());
        cmd.append(" '");
        cmd.append(l.command.as_str());
        cmd.append("'");
        proof {
            assert(cmd@ =~= old(cmd)@ + enabled_clause(*l));
        }
    } else {
        proof {
            assert(cmd@ =~= old(cmd)@ + enabled_clause(*l));
        }
    }
}

/// Idle-command builder: formats the profile's enabled levels, in level
/// order, into one shell invocation of the idle-timeout utility.
pub fn build_command(levels: &Levels) -> (r: String)
    ensures
        r@ == command_line(*levels),
{
    let mut cmd = String::from_str("swayidle");
    append_clause(&mut cmd, &levels.level1);
    append_clause(&mut cmd, &levels.level2);
    append_clause(&mut cmd, &levels.level3);
    proof {
        assert(cmd@ =~= command_line(*levels));
    }
    cmd
}

/// Whether `needle` occurs contiguously somewhere in `hay`.
pub open spec fn appears_in(needle: Seq<char>, hay: Seq<char>) -> bool {
    exists|i: int|
        0 <= i && i + needle.len() <= hay.len() && #[trigger] hay.subrange(
            i,
            i + needle.len() as int,
        ) == needle
}

proof fn lemma_appears_in_concat(needle: Seq<char>, a: Seq<char>, b: Seq<char>)
    ensures
        appears_in(needle, a) ==> appears_in(needle, a + b),
        appears_in(needle, b) ==> appears_in(needle, a + b),
{
    if appears_in(needle, a) {
        let i = choose|i: int|
            0 <= i && i + needle.len() <= a.len() && #[trigger] a.subrange(
                i,
                i + needle.len() as int,
            ) == needle;
        assert((a + b).subrange(i, i + needle.len() as int) =~= needle);
    }
    if appears_in(needle, b) {
        let i = choose|i: int|
            0 <= i && i + needle.len() <= b.len() && #[trigger] b.subrange(
                i,
                i + needle.len() as int,
            ) == needle;
        assert((a + b).subrange(a.len() + i, a.len() + i + needle.len() as int) =~= needle);
    }
}

proof fn lemma_command_appears_in_clause(l: Level)
    ensures
        appears_in(l.command@, clause(l)),
{
    reveal_strlit(" timeout ");
    reveal_strlit(" '");
    reveal_strlit("'");
    let dlen = dec_digits(l.timeout as nat).len() as int;
    let clen = l.command@.len() as int;
    assert(clause(l).subrange(11 + dlen, 11 + dlen + clen) =~= l.command@);
}

/// Law: the built command line holds, in level order, one clause for each
/// level with a positive timeout — each containing that level's exact command
/// string — and omits every level whose timeout is zero; with all three
/// levels disabled it is the bare utility name.
pub proof fn lemma_command_line_levels(p: Levels)
    ensures
        command_line(p) == "swayidle"@ + enabled_clause(p.level1) + enabled_clause(p.level2)
            + enabled_clause(p.level3),
        p.level1.timeout == 0 ==> enabled_clause(p.level1) == Seq::<char>::empty(),
        p.level2.timeout == 0 ==> enabled_clause(p.level2) == Seq::<char>::empty(),
        p.level3.timeout == 0 ==> enabled_clause(p.level3) == Seq::<char>::empty(),
        p.level1.timeout > 0 ==> command_line(p).subrange(
            "swayidle"@.len() as int,
            ("swayidle"@.len() + clause(p.level1).len()) as int,
        ) == clause(p.level1),
        p.level2.timeout > 0 ==> command_line(p).subrange(
            ("swayidle"@.len() + enabled_clause(p.level1).len()) as int,
            ("swayidle"@.len() + enabled_clause(p.level1).len() + clause(p.level2).len()) as int,
        ) == clause(p.level2),
        p.level3.timeout > 0 ==> command_line(p).subrange(
            ("swayidle"@.len() + enabled_clause(p.level1).len() + enabled_clause(
                p.level2,
            ).len()) as int,
            ("swayidle"@.len() + enabled_clause(p.level1).len() + enabled_clause(p.level2).len()
                + clause(p.level3).len()) as int,
        ) == clause(p.level3),
        p.level1.timeout > 0 ==> appears_in(p.level1.command@, command_line(p)),
        p.level2.timeout > 0 ==> appears_in(p.level2.command@, command_line(p)),
        p.level3.timeout > 0 ==> appears_in(p.level3.command@, command_line(p)),
        p.level1.timeout == 0 && p.level2.timeout == 0 && p.level3.timeout == 0 ==> command_line(
            p,
        ) == "swayidle"@,
{
    let head = "swayidle"@;
    let e1 = enabled_clause(p.level1);
    let e2 = enabled_clause(p.level2);
    let e3 = enabled_clause(p.level3);
    if p.level1.timeout > 0 {
        assert(command_line(p).subrange(
            head.len() as int,
            (head.len() + clause(p.level1).len()) as int,
        ) =~= clause(p.level1));
        lemma_command_appears_in_clause(p.level1);
        lemma_appears_in_concat(p.level1.command@, head, e1);
        lemma_appears_in_concat(p.level1.command@, head + e1, e2);
        lemma_appears_in_concat(p.level1.command@, head + e1 + e2, e3);
    }
    if p.level2.timeout > 0 {
        assert(command_line(p).subrange(
            (head.len() + e1.len()) as int,
            (head.len() + e1.len() + clause(p.level2).len()) as int,
        ) =~= clause(p.level2));
        lemma_command_appears_in_clause(p.level2);
        lemma_appears_in_concat(p.level2.command@, head + e1, e2);
        lemma_appears_in_concat(p.level2.command@, head + e1 + e2, e3);
    }
    if p.level3.timeout > 0 {
        assert(command_line(p).subrange(
            (head.len() + e1.len() + e2.len()) as int,
            (head.len() + e1.len() + e2.len() + clause(p.level3).len()) as int,
        ) =~= clause(p.level3));
        lemma_command_appears_in_clause(p.level3);
        lemma_appears_in_concat(p.level3.command@, head + e1 + e2, e3);
    }
    if p.level1.timeout == 0 && p.level2.timeout == 0 && p.level3.timeout == 0 {
        assert(command_line(p) =~= head);
    }
}

} // verus!
