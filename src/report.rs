//! Stored focus records as queries return them, their grouping by
//! application, and the text of durations and sizes.

use vstd::prelude::*;

verus! {

/// Total focus time of one application over a range.
pub struct AppScreentime {
    pub id: i32,
    pub app_name: String,
    /// Duration in milliseconds.
    pub duration: u128,
    pub percentage: i32,
}

/// One stored focus interval.
pub struct ScreenTimeInstance {
    pub id: i32,
    pub title: String,
    pub app_name: String,
    /// Duration in milliseconds.
    pub duration: u128,
    pub start_timestamp: i64,
    pub end_timestamp: i64,
}

/// The intervals of one application, longest first, with their total.
pub struct AppGroup {
    pub app_name: String,
    pub duration: u128,
    pub instances: Vec<ScreenTimeInstance>,
}

/// The distinct application names of the logs, in order of first appearance.
pub open spec fn app_names(logs: Seq<ScreenTimeInstance>) -> Seq<Seq<char>>
    decreases logs.len(),
{
    if logs.len() == 0 {
        Seq::empty()
    } else {
        let prev = app_names(logs.drop_last());
        if prev.contains(logs.last().app_name@) {
            prev
        } else {
            prev.push(logs.last().app_name@)
        }
    }
}

/// The logs of the application named `name`, in their order.
pub open spec fn logs_of(logs: Seq<ScreenTimeInstance>, name: Seq<char>) -> Seq<ScreenTimeInstance>
    decreases logs.len(),
{
    if logs.len() == 0 {
        Seq::empty()
    } else {
        let prev = logs_of(logs.drop_last(), name);
        if logs.last().app_name@ == name {
            prev.push(logs.last())
        } else {
            prev
        }
    }
}

/// The summed duration of the logs.
pub open spec fn total_duration(logs: Seq<ScreenTimeInstance>) -> nat
    decreases logs.len(),
{
    if logs.len() == 0 {
        0
    } else {
        total_duration(logs.drop_last()) + logs.last().duration as nat
    }
}

/// Each log lasts at least as long as every one after it.
pub open spec fn longest_first(logs: Seq<ScreenTimeInstance>) -> bool {
    forall|i: int, j: int| 0 <= i < j < logs.len() ==> logs[i].duration >= logs[j].duration
}

/// The logs of one application last no longer than all the logs together.
proof fn lemma_logs_of_total(logs: Seq<ScreenTimeInstance>, name: Seq<char>)
    ensures
        total_duration(logs_of(logs, name)) <= total_duration(logs),
    decreases logs.len(),
{
    if logs.len() > 0 {
        lemma_logs_of_total(logs.drop_last(), name);
        let prev = logs_of(logs.drop_last(), name);
        if logs.last().app_name@ == name {
            assert(prev.push(logs.last()).drop_last() =~= prev);
        }
    }
}

/// A prefix of the logs lasts no longer than all of them.
proof fn lemma_prefix_total(logs: Seq<ScreenTimeInstance>, i: int)
    requires
        0 <= i <= logs.len(),
    ensures
        total_duration(logs.take(i)) <= total_duration(logs),
    decreases logs.len() - i,
{
    if i < logs.len() {
        lemma_prefix_total(logs, i + 1);
        assert(logs.take(i + 1).drop_last() =~= logs.take(i));
    } else {
        assert(logs.take(i) =~= logs);
    }
}

/// A copy of one stored interval.
fn copy_instance(l: &ScreenTimeInstance) -> (r: ScreenTimeInstance)
    ensures
        r == *l,
{
    ScreenTimeInstance {
        id: l.id,
        title: l.title.clone(),
        app_name: l.app_name.clone(),
        duration: l.duration,
        start_timestamp: l.start_timestamp,
        end_timestamp: l.end_timestamp,
    }
}

/// Inserts `x` after every log that lasts at least as long, keeping the
/// order longest first.
fn insert_longest_first(v: &mut Vec<ScreenTimeInstance>, x: ScreenTimeInstance)
    requires
        longest_first(old(v)@),
    ensures
        longest_first(final(v)@),
        final(v)@.to_multiset() == old(v)@.to_multiset().insert(x),
{
    let mut p: usize = 0;
    while p < v.len() && v[p].duration >= x.duration
        invariant
            p <= v.len(),
            forall|k: int| 0 <= k < p ==> v@[k].duration >= x.duration,
        decreases v.len() - p,
    {
        p = p + 1;
    }
    let ghost before = v@;
    let ghost xd = x.duration;
    v.insert(p, x);
    proof {
        before.insert_ensures(p as int, v@[p as int]);
        assert(v@.remove(p as int) =~= before);
        v@.to_multiset_ensures();
        assert(v@.to_multiset().count(v@[p as int]) > 0) by {
            assert(v@.contains(v@[p as int]));
        }
        assert(v@.to_multiset() =~= before.to_multiset().insert(v@[p as int]));
        assert forall|i: int, j: int| 0 <= i < j < v@.len() implies v@[i].duration >= v@[j].duration by {
            if j < p {
            } else if i < p {
                assert(v@[i].duration >= xd);
                if j > p {
                    assert(v@[j] == before[j - 1]);
                    if p < before.len() {
                        assert(before[p as int].duration < xd);
                        assert(before[p as int].duration >= before[j - 1].duration);
                    }
                }
            } else if i == p {
                assert(v@[j] == before[j - 1]);
                if p < before.len() {
                    assert(before[p as int].duration < xd);
                    assert(before[p as int].duration >= before[j - 1].duration);
                }
            } else {
                assert(v@[i] == before[i - 1]);
                assert(v@[j] == before[j - 1]);
            }
        }
    }
}

/// The position of `name` in `names`, if it is there.
fn position_of(names: &Vec<String>, name: &String) -> (r: Option<usize>)
    ensures
        match r {
            Some(j) => j < names.len() && names@[j as int]@ == name@,
            None => forall|k: int| 0 <= k < names.len() ==> names@[k]@ != name@,
        },
{
    let mut j: usize = 0;
    while j < names.len()
        invariant
            j <= names.len(),
            forall|k: int| 0 <= k < j ==> names@[k]@ != name@,
        decreases names.len() - j,
    {
        if names[j] == *name {
            return Some(j);
        }
        j = j + 1;
    }
    None
}

/// The distinct application names of the logs, in order of first appearance.
fn distinct_app_names(logs: &Vec<ScreenTimeInstance>) -> (r: Vec<String>)
    ensures
        r.len() == app_names(logs@).len(),
        forall|k: int| 0 <= k < r.len() ==> #[trigger] r@[k]@ == app_names(logs@)[k],
{
    let mut names: Vec<String> = Vec::new();
    let mut i: usize = 0;
    while i < logs.len()
        invariant
            i <= logs.len(),
            names.len() == app_names(logs@.take(i as int)).len(),
            forall|k: int| 0 <= k < names.len() ==> #[trigger] names@[k]@ == app_names(logs@.take(i as int))[k],
        decreases logs.len() - i,
    {
        let ghost prev = app_names(logs@.take(i as int));
        assert(logs@.take(i + 1).drop_last() =~= logs@.take(i as int));
        let name = &logs[i].app_name;
        match position_of(&names, name) {
            Some(j) => {
                assert(prev[j as int] == name@);
                assert(prev.contains(name@));
            },
            None => {
                assert(!prev.contains(name@)) by {
                    if prev.contains(name@) {
                        let k = choose|k: int| 0 <= k < prev.len() && prev[k] == name@;
                        assert(names@[k]@ == prev[k]);
                    }
                }
                names.push(name.clone());
            },
        }
        i = i + 1;
    }
    assert(logs@.take(logs.len() as int) =~= logs@);
    names
}

/// The group of the application named `name`: its logs longest first, and
/// their total.
fn group_of(logs: &Vec<ScreenTimeInstance>, name: String) -> (r: AppGroup)
    requires
        total_duration(logs@) <= u128::MAX,
    ensures
        r.app_name@ == name@,
        r.instances@.to_multiset() == logs_of(logs@, name@).to_multiset(),
        longest_first(r.instances@),
        r.duration == total_duration(logs_of(logs@, name@)),
{
    let mut instances: Vec<ScreenTimeInstance> = Vec::new();
    let mut duration: u128 = 0;
    let mut i: usize = 0;
    while i < logs.len()
        invariant
            i <= logs.len(),
            total_duration(logs@) <= u128::MAX,
            instances@.to_multiset() == logs_of(logs@.take(i as int), name@).to_multiset(),
            longest_first(instances@),
            duration == total_duration(logs_of(logs@.take(i as int), name@)),
        decreases logs.len() - i,
    {
        let ghost pre = logs@.take(i as int);
        assert(logs@.take(i + 1).drop_last() =~= pre);
        if logs[i].app_name == name {
            proof {
                lemma_logs_of_total(logs@.take(i + 1), name@);
                lemma_prefix_total(logs@, i + 1);
                let sel = logs_of(pre, name@).push(logs@[i as int]);
                assert(sel.drop_last() =~= logs_of(pre, name@));
                logs_of(pre, name@).to_multiset_ensures();
            }
            duration = duration + logs[i].duration;
            let copy = copy_instance(&logs[i]);
            insert_longest_first(&mut instances, copy);
        }
        i = i + 1;
    }
    assert(logs@.take(logs.len() as int) =~= logs@);
    AppGroup { app_name: name, duration, instances }
}

/// Groups stored intervals by application for a title breakdown: one group
/// per application, in order of first appearance; each holds that
/// application's intervals longest first, and their total duration.
pub fn group_by_app(logs: Vec<ScreenTimeInstance>) -> (r: Vec<AppGroup>)
    requires
        total_duration(logs@) <= u128::MAX,
    ensures
        r.len() == app_names(logs@).len(),
        forall|k: int| 0 <= k < r.len() ==> {
            let name = #[trigger] app_names(logs@)[k];
            &&& r@[k].app_name@ == name
            &&& r@[k].instances@.to_multiset() == logs_of(logs@, name).to_multiset()
            &&& longest_first(r@[k].instances@)
            &&& r@[k].duration == total_duration(logs_of(logs@, name))
        },
{
    let names = distinct_app_names(&logs);
    let mut groups: Vec<AppGroup> = Vec::new();
    for name in it: names
        invariant
            it.seq().len() == app_names(logs@).len(),
            forall|k: int| 0 <= k < it.seq().len() ==> #[trigger] it.seq()[k]@ == app_names(logs@)[k],
            total_duration(logs@) <= u128::MAX,
            groups.len() == it.index(),
            forall|k: int| 0 <= k < groups.len() ==> {
                let name = #[trigger] app_names(logs@)[k];
                &&& groups@[k].app_name@ == name
                &&& groups@[k].instances@.to_multiset() == logs_of(logs@, name).to_multiset()
                &&& longest_first(groups@[k].instances@)
                &&& groups@[k].duration == total_duration(logs_of(logs@, name))
            },
    {
        let ghost k = groups.len() as int;
        assert(name@ == app_names(logs@)[k]);
        let group = group_of(&logs, name);
        groups.push(group);
    }
    groups
}

/// The character of decimal digit `d`.
pub open spec fn digit_char(d: nat) -> char {
    if d == 0 { '0' }
    else if d == 1 { '1' }
    else if d == 2 { '2' }
    else if d == 3 { '3' }
    else if d == 4 { '4' }
    else if d == 5 { '5' }
    else if d == 6 { '6' }
    else if d == 7 { '7' }
    else if d == 8 { '8' }
    else { '9' }
}

/// The decimal digits of `n`, without leading zeros.
pub open spec fn decimal(n: nat) -> Seq<char>
    decreases n,
{
    if n < 10 {
        seq![digit_char(n)]
    } else {
        decimal(n / 10).push(digit_char(n % 10))
    }
}

/// The parts joined with single spaces.
pub open spec fn join_spaced(parts: Seq<Seq<char>>) -> Seq<char>
    decreases parts.len(),
{
    if parts.len() == 0 {
        Seq::empty()
    } else if parts.len() == 1 {
        parts[0]
    } else {
        join_spaced(parts.drop_last()) + seq![' '] + parts.last()
    }
}

/// The part that shows `v` of a unit: its digits and the unit's suffix, or
/// nothing where `v` is zero.
pub open spec fn unit_part(v: nat, unit: Seq<char>) -> Seq<Seq<char>> {
    if v > 0 {
        seq![decimal(v) + unit]
    } else {
        Seq::empty()
    }
}

/// A duration in milliseconds as text: hours, minutes, seconds and
/// milliseconds, each shown only where it is not zero, separated by spaces
/// (`1h 1s 5ms`). Zero is the empty text.
pub open spec fn millis_text(millis: nat) -> Seq<char> {
    let seconds = millis / 1000;
    let minutes = seconds / 60;
    join_spaced(
        unit_part(minutes / 60, seq!['h']) + unit_part(minutes % 60, seq!['m'])
            + unit_part(seconds % 60, seq!['s']) + unit_part(millis % 1000, seq!['m', 's']),
    )
}

/// The text of decimal digit `d`.
fn digit_str(d: u128) -> (r: &'static str)
    requires
        d < 10,
    ensures
        r@ == seq![digit_char(d as nat)],
{
    proof {
        reveal_strlit("0");
        reveal_strlit("1");
        reveal_strlit("2");
        reveal_strlit("3");
        reveal_strlit("4");
        reveal_strlit("5");
        reveal_strlit("6");
        reveal_strlit("7");
        reveal_strlit("8");
        reveal_strlit("9");
    }
    if d == 0 { "0" }
    else if d == 1 { "1" }
    else if d == 2 { "2" }
    else if d == 3 { "3" }
    else if d == 4 { "4" }
    else if d == 5 { "5" }
    else if d == 6 { "6" }
    else if d == 7 { "7" }
    else if d == 8 { "8" }
    else { "9" }
}

/// `n` in decimal.
pub fn decimal_text(n: u128) -> (r: String)
    ensures
        r@ == decimal(n as nat),
    decreases n,
{
    if n < 10 {
        digit_str(n).to_string()
    } else {
        let mut s = decimal_text(n / 10);
        s.append(digit_str(n % 10));
        s
    }
}

/// Appends the part for `v` of a unit to text that holds the parts so far.
fn push_part(s: &mut String, v: u128, unit: &str, Ghost(parts): Ghost<Seq<Seq<char>>>)
    requires
        old(s)@ == join_spaced(parts),
        (old(s)@.len() == 0) == (parts.len() == 0),
        unit@.len() > 0,
    ensures
        final(s)@ == join_spaced(parts + unit_part(v as nat, unit@)),
        (final(s)@.len() == 0) == ((parts + unit_part(v as nat, unit@)).len() == 0),
{
    if v > 0 {
        let digits = decimal_text(v);
        let part = digits.concat(unit);
        let ghost all = parts + unit_part(v as nat, unit@);
        assert(all.drop_last() =~= parts);
        if s.as_str().is_empty() {
            s.append(part.as_str());
            assert(s@ =~= join_spaced(all));
        } else {
            s.append(" ");
            s.append(part.as_str());
            proof {
                reveal_strlit(" ");
            }
            assert(s@ =~= join_spaced(all));
        }
    } else {
        assert(parts + unit_part(v as nat, unit@) =~= parts);
    }
}

/// A duration in milliseconds as text, e.g. `1h 1s 5ms`; zero gives the
/// empty string.
pub fn format_millis(millis: u128) -> (r: String)
    ensures
        r@ == millis_text(millis as nat),
{
    let seconds = millis / 1000;
    let minutes = seconds / 60;
    let hours = minutes / 60;
    let minutes = minutes % 60;
    let seconds = seconds % 60;
    let ms = millis % 1000;

    let mut s = String::new();
    proof {
        reveal_strlit("h");
        reveal_strlit("m");
        reveal_strlit("s");
        reveal_strlit("ms");
        assert("h"@ =~= seq!['h']);
        assert("m"@ =~= seq!['m']);
        assert("s"@ =~= seq!['s']);
        assert("ms"@ =~= seq!['m', 's']);
    }
    let ghost p0: Seq<Seq<char>> = Seq::empty();
    push_part(&mut s, hours, "h", Ghost(p0));
    let ghost p1 = p0 + unit_part(hours as nat, seq!['h']);
    push_part(&mut s, minutes, "m", Ghost(p1));
    let ghost p2 = p1 + unit_part(minutes as nat, seq!['m']);
    push_part(&mut s, seconds, "s", Ghost(p2));
    let ghost p3 = p2 + unit_part(seconds as nat, seq!['s']);
    push_part(&mut s, ms, "ms", Ghost(p3));
    let ghost p4 = p3 + unit_part(ms as nat, seq!['m', 's']);
    assert(p4 =~= unit_part(hours as nat, seq!['h']) + unit_part(minutes as nat, seq!['m'])
        + unit_part(seconds as nat, seq!['s']) + unit_part(ms as nat, seq!['m', 's']));
    s
}

/// The unit a byte count is shown in: the largest of KB, MB, GB and TB
/// (powers of 1024) that the count reaches, else bytes. Gives the unit's
/// power of two and its suffix.
pub open spec fn byte_unit_of(bytes: nat) -> (u32, Seq<char>) {
    if bytes >= 0x100_0000_0000 {
        (40, seq!['T', 'B'])
    } else if bytes >= 0x4000_0000 {
        (30, seq!['G', 'B'])
    } else if bytes >= 0x10_0000 {
        (20, seq!['M', 'B'])
    } else if bytes >= 0x400 {
        (10, seq!['K', 'B'])
    } else {
        (0, seq!['B'])
    }
}

/// The unit to show `bytes` in: its power of two and its suffix.
pub fn byte_unit(bytes: u64) -> (r: (u32, &'static str))
    ensures
        r.0 == byte_unit_of(bytes as nat).0,
        r.1@ == byte_unit_of(bytes as nat).1,
{
    proof {
        reveal_strlit("TB");
        reveal_strlit("GB");
        reveal_strlit("MB");
        reveal_strlit("KB");
        reveal_strlit("B");
        assert("TB"@ =~= seq!['T', 'B']);
        assert("GB"@ =~= seq!['G', 'B']);
        assert("MB"@ =~= seq!['M', 'B']);
        assert("KB"@ =~= seq!['K', 'B']);
        assert("B"@ =~= seq!['B']);
    }
    if bytes >= 0x100_0000_0000 {
        (40, "TB")
    } else if bytes >= 0x4000_0000 {
        (30, "GB")
    } else if bytes >= 0x10_0000 {
        (20, "MB")
    } else if bytes >= 0x400 {
        (10, "KB")
    } else {
        (0, "B")
    }
}

} // verus!
