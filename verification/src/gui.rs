//! Decisions behind the desktop window: the version label, the `--device`
//! command-line option, and the status badges shown next to a reading.

use vstd::prelude::*;
use vstd::string::StringExecFns;

use crate::flags::{flag_rank, lemma_flag_names_distinct};
use crate::measurement::{MeasuredValue, MeasurementFlags};
use crate::text::{
    contains, contains_seq, lemma_contains_concat, occurs_at, starts_with, str_eq, suffix_from,
};

verus! {

/// The version label: `v<version> (<hash>)` for development versions (those
/// whose version contains "-dev"), `v<version>` otherwise.
pub open spec fn version_text(version: Seq<char>, hash: Seq<char>) -> Seq<char> {
    if contains_seq(version, "-dev"@) {
        "v"@ + version + " ("@ + hash + ")"@
    } else {
        "v"@ + version
    }
}

/// Version string for the app (shown in top bar, right side), from the
/// package version and the source revision it was built from.
pub fn version_label(version: &str, hash: &str) -> (s: String)
    ensures
        s@ == version_text(version@, hash@),
{
    if contains(version, "-dev") {
        String::from_str("v").concat(version).concat(" (").concat(hash).concat(")")
    } else {
        String::from_str("v").concat(version)
    }
}

/// The value of the `--device` option among `args[i..]`: the argument after
/// the first `--device`, or the rest of the first `--device=<id>`, whichever
/// comes first; none when neither occurs, or when `--device` is last.
pub open spec fn device_arg_from(args: Seq<Seq<char>>, i: int) -> Option<Seq<char>>
    decreases args.len() - i,
{
    if i < 0 || i >= args.len() {
        None
    } else if args[i] == "--device"@ {
        if i + 1 < args.len() {
            Some(args[i + 1])
        } else {
            None
        }
    } else if occurs_at(args[i], "--device="@, 0) {
        Some(args[i].subrange("--device="@.len() as int, args[i].len() as int))
    } else {
        device_arg_from(args, i + 1)
    }
}

/// The character views of the arguments.
pub open spec fn arg_views(args: Seq<String>) -> Seq<Seq<char>> {
    args.map_values(|a: String| a@)
}

/// Parse `--device <id>` or `--device=<id>` from the program arguments
/// (`args[0]` is the program name and is skipped).
pub fn device_arg(args: &[String]) -> (r: Option<String>)
    ensures
        match r {
            Some(v) => device_arg_from(arg_views(args@), 1) == Some(v@),
            None => device_arg_from(arg_views(args@), 1) is None,
        },
{
    let n = args.len();
    let mut i: usize = 1;
    while i < n
        invariant
            n == args@.len(),
            1 <= i,
            device_arg_from(arg_views(args@), 1) == device_arg_from(arg_views(args@), i as int),
        decreases n - i,
    {
        let arg = args[i].as_str();
        assert(arg_views(args@)[i as int] == arg@);
        if str_eq(arg, "--device") {
            if i + 1 < n {
                assert(arg_views(args@)[i + 1] == args@[i + 1]@);
                return Some(args[i + 1].clone());
            }
            return None;
        }
        if starts_with(arg, "--device=") {
            proof {
                reveal_strlit("--device=");
            }
            return Some(suffix_from(arg, 9));
        }
        i = i + 1;
    }
    None
}

/// How a status badge is drawn.
#[derive(Debug, Clone, Copy, PartialEq, Eq, Structural)]
pub enum BadgeKind {
    /// A mode indicator (AUTO, HOLD, REL, MIN, MAX).
    Accent,
    /// A warning (LOW BAT).
    Warning,
}

/// The badge for a flag when it is set, and nothing when it is not.
pub open spec fn badge_if(set: bool, label: Seq<char>, kind: BadgeKind) -> Seq<(Seq<char>, BadgeKind)> {
    if set {
        seq![(label, kind)]
    } else {
        Seq::empty()
    }
}

/// The badges shown for a reading's flags, in display order.
pub open spec fn badges_of(f: MeasurementFlags) -> Seq<(Seq<char>, BadgeKind)> {
    badge_if(f.auto_range, "AUTO"@, BadgeKind::Accent) + badge_if(f.hold, "HOLD"@, BadgeKind::Accent)
        + badge_if(f.rel, "REL"@, BadgeKind::Accent) + badge_if(f.min, "MIN"@, BadgeKind::Accent)
        + badge_if(f.max, "MAX"@, BadgeKind::Accent) + badge_if(
        f.low_battery,
        "LOW BAT"@,
        BadgeKind::Warning,
    )
}

/// The character views of a list of badges.
pub open spec fn badge_views(b: Seq<(String, BadgeKind)>) -> Seq<(Seq<char>, BadgeKind)> {
    b.map_values(|x: (String, BadgeKind)| (x.0@, x.1))
}

/// Add one badge to the list when its flag is set.
fn add_badge(
    out: &mut Vec<(String, BadgeKind)>,
    set: bool,
    label: &str,
    kind: BadgeKind,
)
    ensures
        badge_views(final(out)@) == badge_views(old(out)@) + badge_if(set, label@, kind),
{
    let ghost before = out@;
    if set {
        out.push((String::from_str(label), kind));
        assert(badge_views(out@) =~= badge_views(before) + badge_if(set, label@, kind));
    } else {
        assert(badge_views(out@) =~= badge_views(before) + badge_if(set, label@, kind));
    }
}

/// The badges shown next to a reading: AUTO, HOLD, REL, MIN, MAX as mode
/// indicators and LOW BAT as a warning, each only when its flag is set.
pub fn flag_badges(flags: &MeasurementFlags) -> (r: Vec<(String, BadgeKind)>)
    ensures
        badge_views(r@) == badges_of(*flags),
{
    let mut out: Vec<(String, BadgeKind)> = Vec::new();
    assert(badge_views(out@) =~= Seq::empty());
    add_badge(&mut out, flags.auto_range, "AUTO", BadgeKind::Accent);
    add_badge(&mut out, flags.hold, "HOLD", BadgeKind::Accent);
    add_badge(&mut out, flags.rel, "REL", BadgeKind::Accent);
    add_badge(&mut out, flags.min, "MIN", BadgeKind::Accent);
    add_badge(&mut out, flags.max, "MAX", BadgeKind::Accent);
    add_badge(&mut out, flags.low_battery, "LOW BAT", BadgeKind::Warning);
    assert(badge_views(out@) =~= badges_of(*flags));
    out
}

/// The place of a badge in the display order AUTO, HOLD, REL, MIN, MAX (as
/// mode indicators), LOW BAT (as a warning); 6 for any other badge.
pub open spec fn badge_rank(b: (Seq<char>, BadgeKind)) -> int {
    if b == ("AUTO"@, BadgeKind::Accent) {
        0
    } else if b == ("HOLD"@, BadgeKind::Accent) {
        1
    } else if b == ("REL"@, BadgeKind::Accent) {
        2
    } else if b == ("MIN"@, BadgeKind::Accent) {
        3
    } else if b == ("MAX"@, BadgeKind::Accent) {
        4
    } else if b == ("LOW BAT"@, BadgeKind::Warning) {
        5
    } else {
        6
    }
}

/// The badges strictly follow the display order.
pub open spec fn in_badge_order(bs: Seq<(Seq<char>, BadgeKind)>) -> bool {
    forall|i: int, j: int| 0 <= i < j < bs.len() ==> badge_rank(bs[i]) < badge_rank(bs[j])
}

proof fn lemma_badge_ranks()
    ensures
        badge_rank(("AUTO"@, BadgeKind::Accent)) == 0,
        badge_rank(("HOLD"@, BadgeKind::Accent)) == 1,
        badge_rank(("REL"@, BadgeKind::Accent)) == 2,
        badge_rank(("MIN"@, BadgeKind::Accent)) == 3,
        badge_rank(("MAX"@, BadgeKind::Accent)) == 4,
        badge_rank(("LOW BAT"@, BadgeKind::Warning)) == 5,
{
    lemma_flag_names_distinct();
    assert(flag_rank("AUTO"@) == 2);
}

proof fn lemma_badge_if_contains(set: bool, l: Seq<char>, k: BadgeKind, x: (Seq<char>, BadgeKind))
    ensures
        badge_if(set, l, k).contains(x) <==> set && x == (l, k),
{
    if set {
        assert(badge_if(set, l, k)[0] == (l, k));
    }
}

proof fn lemma_badge_order_extend(
    bs: Seq<(Seq<char>, BadgeKind)>,
    set: bool,
    l: Seq<char>,
    k: BadgeKind,
    r: int,
)
    requires
        in_badge_order(bs),
        forall|i: int| 0 <= i < bs.len() ==> badge_rank(bs[i]) < r,
        badge_rank((l, k)) == r,
    ensures
        in_badge_order(bs + badge_if(set, l, k)),
        forall|i: int|
            0 <= i < (bs + badge_if(set, l, k)).len() ==> badge_rank((bs + badge_if(set, l, k))[i])
                <= r,
{
    let out = bs + badge_if(set, l, k);
    assert forall|i: int, j: int| 0 <= i < j < out.len() implies badge_rank(out[i]) < badge_rank(
        out[j],
    ) by {
        if j >= bs.len() {
            assert(out[j] == (l, k));
            assert(out[i] == bs[i]);
        } else {
            assert(out[i] == bs[i] && out[j] == bs[j]);
        }
    }
    assert forall|i: int| 0 <= i < out.len() implies badge_rank(out[i]) <= r by {
        if i >= bs.len() {
            assert(out[i] == (l, k));
        } else {
            assert(out[i] == bs[i]);
        }
    }
}

/// Each badge is shown exactly when its own flag is set: AUTO for
/// auto-range, HOLD, REL, MIN, MAX as mode indicators, LOW BAT as a warning
/// for a low battery; no other badge is shown, and they come in that order.
pub proof fn lemma_badges(f: MeasurementFlags)
    ensures
        badges_of(f).contains(("AUTO"@, BadgeKind::Accent)) <==> f.auto_range,
        badges_of(f).contains(("HOLD"@, BadgeKind::Accent)) <==> f.hold,
        badges_of(f).contains(("REL"@, BadgeKind::Accent)) <==> f.rel,
        badges_of(f).contains(("MIN"@, BadgeKind::Accent)) <==> f.min,
        badges_of(f).contains(("MAX"@, BadgeKind::Accent)) <==> f.max,
        badges_of(f).contains(("LOW BAT"@, BadgeKind::Warning)) <==> f.low_battery,
        forall|i: int| 0 <= i < badges_of(f).len() ==> badge_rank(#[trigger] badges_of(f)[i]) < 6,
        in_badge_order(badges_of(f)),
{
    lemma_badge_ranks();
    let p0 = badge_if(f.auto_range, "AUTO"@, BadgeKind::Accent);
    let p1 = badge_if(f.hold, "HOLD"@, BadgeKind::Accent);
    let p2 = badge_if(f.rel, "REL"@, BadgeKind::Accent);
    let p3 = badge_if(f.min, "MIN"@, BadgeKind::Accent);
    let p4 = badge_if(f.max, "MAX"@, BadgeKind::Accent);
    let p5 = badge_if(f.low_battery, "LOW BAT"@, BadgeKind::Warning);
    let a1 = p0 + p1;
    let a2 = a1 + p2;
    let a3 = a2 + p3;
    let a4 = a3 + p4;
    let a5 = a4 + p5;
    assert(a5 == badges_of(f));
    let all = seq![
        ("AUTO"@, BadgeKind::Accent),
        ("HOLD"@, BadgeKind::Accent),
        ("REL"@, BadgeKind::Accent),
        ("MIN"@, BadgeKind::Accent),
        ("MAX"@, BadgeKind::Accent),
        ("LOW BAT"@, BadgeKind::Warning),
    ];
    assert forall|k: int| 0 <= k < 6 implies (a5.contains(#[trigger] all[k]) <==> (p0.contains(
        all[k],
    ) || p1.contains(all[k]) || p2.contains(all[k]) || p3.contains(all[k]) || p4.contains(all[k])
        || p5.contains(all[k]))) by {
        let x = all[k];
        lemma_contains_concat(p0, p1, x);
        lemma_contains_concat(a1, p2, x);
        lemma_contains_concat(a2, p3, x);
        lemma_contains_concat(a3, p4, x);
        lemma_contains_concat(a4, p5, x);
    }
    assert forall|k: int| 0 <= k < 6 implies {
        &&& (p0.contains(#[trigger] all[k]) <==> f.auto_range && all[k] == ("AUTO"@, BadgeKind::Accent))
        &&& (p1.contains(all[k]) <==> f.hold && all[k] == ("HOLD"@, BadgeKind::Accent))
        &&& (p2.contains(all[k]) <==> f.rel && all[k] == ("REL"@, BadgeKind::Accent))
        &&& (p3.contains(all[k]) <==> f.min && all[k] == ("MIN"@, BadgeKind::Accent))
        &&& (p4.contains(all[k]) <==> f.max && all[k] == ("MAX"@, BadgeKind::Accent))
        &&& (p5.contains(all[k]) <==> f.low_battery && all[k] == ("LOW BAT"@, BadgeKind::Warning))
    } by {
        let x = all[k];
        lemma_badge_if_contains(f.auto_range, "AUTO"@, BadgeKind::Accent, x);
        lemma_badge_if_contains(f.hold, "HOLD"@, BadgeKind::Accent, x);
        lemma_badge_if_contains(f.rel, "REL"@, BadgeKind::Accent, x);
        lemma_badge_if_contains(f.min, "MIN"@, BadgeKind::Accent, x);
        lemma_badge_if_contains(f.max, "MAX"@, BadgeKind::Accent, x);
        lemma_badge_if_contains(f.low_battery, "LOW BAT"@, BadgeKind::Warning, x);
    }
    assert(all[0] == ("AUTO"@, BadgeKind::Accent));
    assert(all[1] == ("HOLD"@, BadgeKind::Accent));
    assert(all[2] == ("REL"@, BadgeKind::Accent));
    assert(all[3] == ("MIN"@, BadgeKind::Accent));
    assert(all[4] == ("MAX"@, BadgeKind::Accent));
    assert(all[5] == ("LOW BAT"@, BadgeKind::Warning));
    let e = Seq::<(Seq<char>, BadgeKind)>::empty();
    assert(e + p0 =~= p0);
    lemma_badge_order_extend(e, f.auto_range, "AUTO"@, BadgeKind::Accent, 0);
    lemma_badge_order_extend(p0, f.hold, "HOLD"@, BadgeKind::Accent, 1);
    lemma_badge_order_extend(a1, f.rel, "REL"@, BadgeKind::Accent, 2);
    lemma_badge_order_extend(a2, f.min, "MIN"@, BadgeKind::Accent, 3);
    lemma_badge_order_extend(a3, f.max, "MAX"@, BadgeKind::Accent, 4);
    lemma_badge_order_extend(a4, f.low_battery, "LOW BAT"@, BadgeKind::Warning, 5);
}

/// The decimal digits of `n`, most significant first, without leading zeros.
pub open spec fn decimal(n: nat) -> Seq<char>
    decreases n,
{
    if n < 10 {
        seq![((48 + n) as u8) as char]
    } else {
        decimal(n / 10).push(((48 + n % 10) as u8) as char)
    }
}

/// The decimal text of `n`.
fn decimal_text(n: u8) -> (s: String)
    ensures
        s@ == decimal(n as nat),
    decreases n,
{
    let ghost digit = ((48 + n % 10) as u8) as char;
    let mut out = if n < 10 {
        String::new()
    } else {
        decimal_text(n / 10)
    };
    let ghost before = out@;
    let d: &str = match n % 10 {
        0 => "0",
        1 => "1",
        2 => "2",
        3 => "3",
        4 => "4",
        5 => "5",
        6 => "6",
        7 => "7",
        8 => "8",
        _ => "9",
    };
    proof {
        reveal_strlit("0");
        reveal_strlit("1");
        reveal_strlit("2");
        reveal_strlit("3");
        reveal_strlit("4");
        reveal_strlit("5");
        reveal_strlit("6");
        reveal_strlit("7");
        reveal_strlit("8");
        reveal_strlit("9");
        assert(d@ =~= seq![digit]);
    }
    out.append(d);
    proof {
        if n < 10 {
            assert(out@ =~= seq![digit]);
        } else {
            assert(out@ =~= before.push(digit));
        }
    }
    out
}

/// The text shown for a reading that is not a number: "OL" for an
/// overload, "NCV <level>" for a non-contact voltage level; none for a
/// number, whose text is the number's own formatting.
pub open spec fn special_value_text(v: MeasuredValue) -> Option<Seq<char>> {
    match v {
        MeasuredValue::Normal(_) => None,
        MeasuredValue::Overload => Some("OL"@),
        MeasuredValue::NcvLevel(l) => Some("NCV "@ + decimal(l as nat)),
    }
}

/// The text shown for a reading that is not a number (see [`special_value_text`]).
pub fn special_value_label(v: &MeasuredValue) -> (r: Option<String>)
    ensures
        match r {
            Some(t) => special_value_text(*v) == Some(t@),
            None => special_value_text(*v) is None,
        },
{
    match v {
        MeasuredValue::Normal(_) => None,
        MeasuredValue::Overload => Some(String::from_str("OL")),
        MeasuredValue::NcvLevel(l) => Some(String::from_str("NCV ").concat(decimal_text(*l).as_str())),
    }
}

} // verus!
