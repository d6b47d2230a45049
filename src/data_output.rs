//! Text rendering of query results, as the report commands print them.

use vstd::prelude::*;
use crate::report::{decimal, decimal_text, format_millis, millis_text, AppGroup, AppScreentime, ScreenTimeInstance};

verus! {

/// A list of query results that can be shown as text.
pub trait DataOutput {
    /// The text of the results.
    spec fn text(&self) -> Seq<char>;

    /// How many results there are.
    spec fn count(&self) -> nat;

    /// The results as text, one line per result.
    fn to_string(&self) -> (r: String)
        ensures
            r@ == self.text(),
    ;

    /// How many results there are.
    fn size(&self) -> (r: usize)
        ensures
            r == self.count(),
    ;
}

/// `v` in decimal, with a leading minus sign where it is negative.
pub open spec fn signed_decimal(v: int) -> Seq<char> {
    if v < 0 {
        seq!['-'] + decimal((-v) as nat)
    } else {
        decimal(v as nat)
    }
}

/// The line of one application's total: `name (percent%): duration`.
pub open spec fn screentime_line(a: AppScreentime) -> Seq<char> {
    a.app_name@ + seq![' ', '('] + signed_decimal(a.percentage as int) + seq!['%', ')', ':', ' ']
        + millis_text(a.duration as nat) + seq!['\n']
}

/// The lines of a list of application totals.
pub open spec fn screentime_text(s: Seq<AppScreentime>) -> Seq<char>
    decreases s.len(),
{
    if s.len() == 0 {
        Seq::empty()
    } else {
        screentime_text(s.drop_last()) + screentime_line(s.last())
    }
}

/// The line of one interval in a group: a tab, the quoted title, and its duration.
pub open spec fn title_line(l: ScreenTimeInstance) -> Seq<char> {
    seq!['\t', '"'] + l.title@ + seq!['"', ':', ' '] + millis_text(l.duration as nat) + seq!['\n']
}

/// The lines of the intervals of a group.
pub open spec fn titles_text(s: Seq<ScreenTimeInstance>) -> Seq<char>
    decreases s.len(),
{
    if s.len() == 0 {
        Seq::empty()
    } else {
        titles_text(s.drop_last()) + title_line(s.last())
    }
}

/// A group's heading, `name (duration):`, followed by its intervals.
pub open spec fn group_text(g: AppGroup) -> Seq<char> {
    g.app_name@ + seq![' ', '('] + millis_text(g.duration as nat) + seq![')', ':', '\n'] + titles_text(g.instances@)
}

/// The text of a list of groups.
pub open spec fn groups_text(s: Seq<AppGroup>) -> Seq<char>
    decreases s.len(),
{
    if s.len() == 0 {
        Seq::empty()
    } else {
        groups_text(s.drop_last()) + group_text(s.last())
    }
}

/// `v` in decimal, with a leading minus sign where it is negative.
pub fn signed_decimal_text(v: i32) -> (r: String)
    ensures
        r@ == signed_decimal(v as int),
{
    if v < 0 {
        let magnitude = decimal_text((0i64 - v as i64) as u128);
        proof {
            reveal_strlit("-");
        }
        let r = "-".to_string().concat(magnitude.as_str());
        assert(r@ =~= signed_decimal(v as int));
        r
    } else {
        decimal_text(v as u128)
    }
}

impl DataOutput for Vec<AppScreentime> {
    open spec fn text(&self) -> Seq<char> {
        screentime_text(self@)
    }

    open spec fn count(&self) -> nat {
        self@.len()
    }

    fn to_string(&self) -> (r: String) {
        let mut s = String::new();
        let mut i: usize = 0;
        while i < self.len()
            invariant
                i <= self.len(),
                s@ == screentime_text(self@.take(i as int)),
            decreases self.len() - i,
        {
            proof {
                reveal_strlit(" (");
                reveal_strlit("%): ");
                reveal_strlit("\n");
                assert(" ("@ =~= seq![' ', '(']);
                assert("%): "@ =~= seq!['%', ')', ':', ' ']);
                assert("\n"@ =~= seq!['\n']);
            }
            let app = &self[i];
            s.append(app.app_name.as_str());
            s.append(" (");
            s.append(signed_decimal_text(app.percentage).as_str());
            s.append("%): ");
            s.append(format_millis(app.duration).as_str());
            s.append("\n");
            assert(self@.take(i + 1).drop_last() =~= self@.take(i as int));
            assert(self@.take(i + 1).last() == self@[i as int]);
            assert(s@ =~= screentime_text(self@.take(i + 1)));
            i = i + 1;
        }
        assert(self@.take(self.len() as int) =~= self@);
        s
    }

    fn size(&self) -> (r: usize) {
        self.len()
    }
}

/// Appends the lines of a group's intervals.
fn push_titles(s: &mut String, instances: &Vec<ScreenTimeInstance>)
    ensures
        final(s)@ == old(s)@ + titles_text(instances@),
{
    let ghost start = s@;
    let mut i: usize = 0;
    while i < instances.len()
        invariant
            i <= instances.len(),
            s@ == start + titles_text(instances@.take(i as int)),
        decreases instances.len() - i,
    {
        proof {
            reveal_strlit("\t\"");
            reveal_strlit("\": ");
            reveal_strlit("\n");
            assert("\t\""@ =~= seq!['\t', '"']);
            assert("\": "@ =~= seq!['"', ':', ' ']);
            assert("\n"@ =~= seq!['\n']);
        }
        let title = &instances[i];
        s.append("\t\"");
        s.append(title.title.as_str());
        s.append("\": ");
        s.append(format_millis(title.duration).as_str());
        s.append("\n");
        assert(instances@.take(i + 1).drop_last() =~= instances@.take(i as int));
        assert(instances@.take(i + 1).last() == instances@[i as int]);
        assert(s@ =~= start + titles_text(instances@.take(i + 1)));
        i = i + 1;
    }
    assert(instances@.take(instances.len() as int) =~= instances@);
}

impl DataOutput for Vec<AppGroup> {
    open spec fn text(&self) -> Seq<char> {
        groups_text(self@)
    }

    open spec fn count(&self) -> nat {
        self@.len()
    }

    fn to_string(&self) -> (r: String) {
        let mut s = String::new();
        let mut i: usize = 0;
        while i < self.len()
            invariant
                i <= self.len(),
                s@ == groups_text(self@.take(i as int)),
            decreases self.len() - i,
        {
            proof {
                reveal_strlit(" (");
                reveal_strlit("):\n");
                assert(" ("@ =~= seq![' ', '(']);
                assert("):\n"@ =~= seq![')', ':', '\n']);
            }
            let app = &self[i];
            s.append(app.app_name.as_str());
            s.append(" (");
            s.append(format_millis(app.duration).as_str());
            s.append("):\n");
            push_titles(&mut s, &app.instances);
            assert(self@.take(i + 1).drop_last() =~= self@.take(i as int));
            assert(self@.take(i + 1).last() == self@[i as int]);
            assert(s@ =~= groups_text(self@.take(i + 1)));
            i = i + 1;
        }
        assert(self@.take(self.len() as int) =~= self@);
        s
    }

    fn size(&self) -> (r: usize) {
        self.len()
    }
}

} // verus!
