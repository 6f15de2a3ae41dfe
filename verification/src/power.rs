//! Power-source classification. The daemon reads two probe files (an AC
//! "online" flag and a battery status word); the functions here decide, from
//! those raw readings alone, whether the machine is on battery power. Reading
//! the files is I/O and happens outside this crate; a probe that could not be
//! read is handed in as `None`.

use vstd::prelude::*;
use vstd::string::StrSliceExecFns;

verus! {

/// The characters that `str::trim` removes: those with the Unicode
/// `White_Space` property.
pub open spec fn is_space(c: char) -> bool {
    c == '\u{0009}' || c == '\u{000a}' || c == '\u{000b}' || c == '\u{000c}' || c == '\u{000d}'
        || c == '\u{0020}' || c == '\u{0085}' || c == '\u{00a0}' || c == '\u{1680}'
        || c == '\u{2000}' || c == '\u{2001}' || c == '\u{2002}' || c == '\u{2003}'
        || c == '\u{2004}' || c == '\u{2005}' || c == '\u{2006}' || c == '\u{2007}'
        || c == '\u{2008}' || c == '\u{2009}' || c == '\u{200a}' || c == '\u{2028}'
        || c == '\u{2029}' || c == '\u{202f}' || c == '\u{205f}' || c == '\u{3000}'
}

/// `s` with its leading whitespace removed.
pub open spec fn trim_front(s: Seq<char>) -> Seq<char>
    decreases s.len(),
{
    if s.len() > 0 && is_space(s[0]) {
        trim_front(s.drop_first())
    } else {
        s
    }
}

/// `s` with its trailing whitespace removed.
pub open spec fn trim_back(s: Seq<char>) -> Seq<char>
    decreases s.len(),
{
    if s.len() > 0 && is_space(s.last()) {
        trim_back(s.drop_last())
    } else {
        s
    }
}

/// `s` with whitespace removed from both ends, as `str::trim` yields it.
pub open spec fn trimmed(s: Seq<char>) -> Seq<char> {
    trim_back(trim_front(s))
}

/// An AC probe reading reports online power iff it was readable and trims to
/// exactly `"1"`.
pub open spec fn ac_reports_online(ac_probe: Option<String>) -> bool {
    match ac_probe {
        Some(s) => trimmed(s@) == "1"@,
        None => false,
    }
}

/// A battery probe reading reports discharging iff it was readable and trims
/// to exactly `"Discharging"`.
pub open spec fn battery_reports_discharging(battery_probe: Option<String>) -> bool {
    match battery_probe {
        Some(s) => trimmed(s@) == "Discharging"@,
        None => false,
    }
}

/// The classification the daemon acts on: on battery iff the AC probe does
/// not report online power and the battery probe reports discharging.
pub open spec fn on_battery(ac_probe: Option<String>, battery_probe: Option<String>) -> bool {
    !ac_reports_online(ac_probe) && battery_reports_discharging(battery_probe)
}

proof fn lemma_trim_front_is_subrange(s: Seq<char>, i: int)
    requires
        0 <= i <= s.len(),
        forall|k: int| 0 <= k < i ==> is_space(s[k]),
        i == s.len() || !is_space(s[i]),
    ensures
        trim_front(s) == s.subrange(i, s.len() as int),
    decreases i,
{
    if i == 0 {
        assert(trim_front(s) =~= s.subrange(0, s.len() as int));
    } else {
        let t = s.drop_first();
        assert(t =~= s.subrange(1, s.len() as int));
        lemma_trim_front_is_subrange(t, i - 1);
        assert(t.subrange(i - 1, t.len() as int) =~= s.subrange(i, s.len() as int));
    }
}

proof fn lemma_trim_back_is_subrange(s: Seq<char>, j: int)
    requires
        0 <= j <= s.len(),
        forall|k: int| j <= k < s.len() ==> is_space(s[k]),
        j == 0 || !is_space(s[j - 1]),
    ensures
        trim_back(s) == s.subrange(0, j),
    decreases s.len() - j,
{
    if j == s.len() {
        assert(trim_back(s) =~= s.subrange(0, j));
    } else {
        let t = s.drop_last();
        assert(is_space(s.last()));
        lemma_trim_back_is_subrange(t, j);
        assert(t.subrange(0, j) =~= s.subrange(0, j));
    }
}

/// Whether `c` is one of the `White_Space` characters.
fn is_space_char(c: char) -> (r: bool)
    ensures
        r == is_space(c),
{
    c == '\u{0009}' || c == '\u{000a}' || c == '\u{000b}' || c == '\u{000c}' || c == '\u{000d}'
        || c == '\u{0020}' || c == '\u{0085}' || c == '\u{00a0}' || c == '\u{1680}'
        || c == '\u{2000}' || c == '\u{2001}' || c == '\u{2002}' || c == '\u{2003}'
        || c == '\u{2004}' || c == '\u{2005}' || c == '\u{2006}' || c == '\u{2007}'
        || c == '\u{2008}' || c == '\u{2009}' || c == '\u{200a}' || c == '\u{2028}'
        || c == '\u{2029}' || c == '\u{202f}' || c == '\u{205f}' || c == '\u{3000}'
}

/// Whether `s`, with whitespace trimmed from both ends, equals `pat` exactly.
pub fn trimmed_matches(s: &str, pat: &str) -> (r: bool)
    ensures
        r == (trimmed(s@) == pat@),
{
    let n = s.unicode_len();
    let plen = pat.unicode_len();

    let mut i: usize = 0;
    while i < n && is_space_char(s.get_char(i))
        invariant
            i <= n,
            n == s@.len(),
            forall|k: int| 0 <= k < i ==> is_space(s@[k]),
        decreases n - i,
    {
        i += 1;
    }

    if i == n {
        proof {
            lemma_trim_front_is_subrange(s@, n as int);
            assert(trim_front(s@) =~= Seq::<char>::empty());
            assert(trimmed(s@) =~= Seq::<char>::empty());
            if pat@.len() == 0 {
                assert(trimmed(s@) =~= pat@);
            }
        }
        return plen == 0;
    }

    let mut j: usize = n - 1;
    while is_space_char(s.get_char(j))
        invariant
            i <= j < n,
            n == s@.len(),
            !is_space(s@[i as int]),
            forall|k: int| j < k < n ==> is_space(s@[k]),
        decreases j,
    {
        proof {
            assert(j != i);
        }
        j -= 1;
    }

    proof {
        lemma_trim_front_is_subrange(s@, i as int);
        let sub = s@.subrange(i as int, n as int);
        lemma_trim_back_is_subrange(sub, j + 1 - i as int);
        assert(sub.subrange(0, j + 1 - i as int) =~= s@.subrange(i as int, j + 1));
        assert(trimmed(s@) == s@.subrange(i as int, j + 1));
    }

    let m = j - i + 1;
    if m != plen {
        proof {
            assert(trimmed(s@).len() != pat@.len());
        }
        return false;
    }

    let mut k: usize = 0;
    while k < m
        invariant
            k <= m,
            m == j - i + 1,
            i <= j < n,
            n == s@.len(),
            m == pat@.len(),
            trimmed(s@) == s@.subrange(i as int, j + 1),
            forall|t: int| 0 <= t < k ==> s@[i + t] == pat@[t],
        decreases m - k,
    {
        if s.get_char(i + k) != pat.get_char(k) {
            proof {
                assert(trimmed(s@)[k as int] == s@[i + k]);
            }
            return false;
        }
        k += 1;
    }
    proof {
        assert(trimmed(s@) =~= pat@);
    }
    true
}

/// Power-state prober's decision: `false` whenever the AC probe trims to
/// `"1"`; else `true` whenever the battery probe trims to `"Discharging"`;
/// else `false`, the safe default when both probes are unreadable or
/// unrecognized. Never fails.
pub fn is_on_battery(ac_probe: &Option<String>, battery_probe: &Option<String>) -> (r: bool)
    ensures
        r == on_battery(*ac_probe, *battery_probe),
        ac_reports_online(*ac_probe) ==> r == false,
        !ac_reports_online(*ac_probe) && battery_reports_discharging(*battery_probe) ==> r
            == true,
        !ac_reports_online(*ac_probe) && !battery_reports_discharging(*battery_probe) ==> r
            == false,
{
    if let Some(s) = ac_probe {
        if trimmed_matches(s.as_str(), "1") {
            return false;
        }
    }
    if let Some(s) = battery_probe {
        if trimmed_matches(s.as_str(), "Discharging") {
            return true;
        }
    }
    false
}

/// Whether the probes gave a recognizable answer at all; when they did not,
/// the daemon warns that it fell back to the AC default.
pub fn probe_recognized(ac_probe: &Option<String>, battery_probe: &Option<String>) -> (r: bool)
    ensures
        r == (ac_reports_online(*ac_probe) || battery_reports_discharging(*battery_probe)),
{
    let ac_online = if let Some(s) = ac_probe {
        trimmed_matches(s.as_str(), "1")
    } else {
        false
    };
    let discharging = if let Some(s) = battery_probe {
        trimmed_matches(s.as_str(), "Discharging")
    } else {
        false
    };
    ac_online || discharging
}

} // verus!
